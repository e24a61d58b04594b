use base64::Engine;
use rsa::pkcs8::{EncodePrivateKey, LineEnding};
use rsa::sha2::{Digest, Sha256};
use rsa::{BigUint, Pkcs1v15Sign, RsaPrivateKey};
use wechat_pay_rust_sdk::error::{PayError, SignatureError};
use wechat_pay_rust_sdk::pay::WechatPay;
use wechat_pay_rust_sdk::upload::{file_extension, is_supported_image, mime_for, MAX_SIZE, UPLOAD_PATH};

const NONCE: &str = "593BEC0C930BF1AFEB40B4A08C8FB242";
const TIME: u64 = 1554208460;

fn number(hex: &str) -> BigUint {
    BigUint::parse_bytes(hex.as_bytes(), 16).unwrap()
}

fn merchant_key() -> RsaPrivateKey {
    RsaPrivateKey::from_components(
        number("cc874f8bb2f1a0b729c09a56ddfe0e54a3b9f6b1d1c6a36d344309ba9babcef2225bd6df0f51d5225ecc44a10e003e1ab62e09778de59cbada6026f9394429bd100c4b5606071dda43cdf323f294b55e9080b41a05a78dca40ca7361647acc923b0fa52591e954692b1e86574d30592809f5b5fc282ecc4f1f4dba677df58f4f871a27919239b184f3481d5c6ebb77dab02a49028e475ecd8bb136cab134db59e6bbdfd715667f5b3f4efcc7f17a10843a6d2bb8734ac32ce24e56bc4f94da685759c3e25591c5ce2f271910d03ff4274cb80702d145618040eb9b89f6fe16eddb79896c0a189c58d563c1fb6fa089868920da20768856308388e1031afc972d"),
        BigUint::from(65537u32),
        number("297d7981840cc83c352d6bcc70beccf6c13a999f7b9d5421c9c19fae49f8bc6e6f7c8f463366b7af2a93e832d3bd9b8647ac11cce842cab1e25831ba750782d5664aad830738ad06f8a24579e6b28c130c354fa91d0f34659c671ffe2dd2a0bfe40349ce7e9f0564a03ea7a4a61ff20b7bef15ba7ab1a3a34407bc91ff575a7966a000ff80e75729fa04efb98a8c6eb891cb5d560f105cab6e0401a6f888cd08323aea7630e4180fb5932db9a9dfa7c2df615e22b772844f12737210fd50931e7db2591cfb16416c221c5641b9a397aa92125942f0d5da5455d5da8ebeba905b57097fcc079ea1bcbe94d59805826e6d85d44a301e340eab850c984b2d24f51"),
        vec![
            number("f0ce1af515737f42eb14705ea486b10de24e6fbe6aceb8ac76e8b1f85b25f7aa6eeba67b29185ce523dbb1ef0297bc750f51088bd7f78e4d609ac02692d94dc6c5287909c58708bbe4a28571ed9caedac106ac4f5b7a0dbbde0db74fd929e444be50553af51e91b7eef84ff97e8b72624fdc027ee84ab3f9b5925bcf77c2ad3d"),
            number("d96f34711cbf922d9287f50308f7c678fe27592cb0a8ec0b7682d841f3c7de8e97df4819bf2d47556af5bb69e61a8cb3245a57d4b7e07f6d40e6ed5b2f8b599bba2d5c85dc83e2f255db5ff9ac1471b9bb3963f1d59895bbe9138b269ad69a6cfefa30d319576b4778458552efaca5dddee949702683386461d1e88a63bb10b1"),
        ],
    )
    .unwrap()
}

fn private_pem(key: &RsaPrivateKey) -> String {
    key.to_pkcs8_pem(LineEnding::LF).unwrap().to_string()
}

fn merchant() -> WechatPay {
    WechatPay::new(
        "wx_app",
        "1900000001",
        &private_pem(&merchant_key()),
        "1DDE55AD98ED71D6EDD4A4A16996DE7B47773A8C",
        "v3-key",
        "https://example.com/notify",
    )
}

fn accepted(key: &RsaPrivateKey, message: &str, signature: &str) -> bool {
    let bytes = match base64::engine::general_purpose::STANDARD.decode(signature) {
        Ok(bytes) => bytes,
        Err(_) => return false,
    };
    key.to_public_key()
        .verify(Pkcs1v15Sign::new::<Sha256>(), &Sha256::digest(message.as_bytes()), &bytes)
        .is_ok()
}

const FIXTURE: &str = "CLMcEEmMo+W3SOuC7Y+BrchZv5gukaMbqZudiov0aVXr1eDBavnNGj5FUP9rWEzlb3zaVGbrAFMRs5yWpxvyWHZ95SRqaOgeni8Wc4HKpPC7q7h9kJ9ytK+YD7YxDZyNGkIG7c9eyvJz9f4soJkrwh36WiqtdIcoKp6k2c1UZS8cBokWAr4uxifnLG96l+oNk7a3+sGot0H8hAoOLXeGzSY4kAU7Wn9uCU8gS3j32iHdFhAAONldM2LNij/3Mphn2f6kKj6dG2EuF7bsGsfOdioAzASxmIc8no9nhmwXtqIEVlJVTaSjJKMpfUA6d2672FZLv7eeeuYMXI0UJ/zeaQ==";
const DIGEST: &str = "785b0751fc2c53dc14a4ce3d800e69ef9ce1009eb327ccf458afe09c242c26c9";

fn image() -> Vec<u8> {
    let mut bytes = Vec::new();
    for _ in 0..4 {
        for b in 0..=255u8 {
            bytes.push(b);
        }
    }
    bytes
}

fn refusal(res: Result<wechat_pay_rust_sdk::upload::UploadRequest, PayError>) -> String {
    match res {
        Err(PayError::WechatError(text)) => text,
        other => panic!("no refusal: {:?}", other),
    }
}

#[test]
fn upload_signs_the_document_that_it_sends() {
    let request = merchant().upload_image(image(), "photo.PNG", NONCE, TIME).unwrap();
    let meta = format!("{{\"filename\":\"photo.PNG\",\"sha256\":\"{}\"}}", DIGEST);
    assert_eq!(request.meta, meta);
    assert_eq!(request.url, "https://api.mch.weixin.qq.com/v3/merchant/media/upload");
    assert_eq!(request.content_type, "multipart/form-data");
    assert_eq!(request.filename, "photo.PNG");
    assert_eq!(request.mime, "image/jpeg");
    assert_eq!(request.image, image());
    let expected = format!(
        "WECHATPAY2-SHA256-RSA2048 mchid=\"1900000001\",nonce_str=\"{}\",timestamp=\"1554208460\",serial_no=\"1DDE55AD98ED71D6EDD4A4A16996DE7B47773A8C\",signature=\"{}\"",
        NONCE, FIXTURE
    );
    assert_eq!(request.authorization, expected);
    let message = format!("POST\n/v3/merchant/media/upload\n{}\n{}\n{}\n", TIME, NONCE, meta);
    assert!(accepted(&merchant_key(), &message, FIXTURE));
}

#[test]
fn document_is_the_same_for_every_upload_of_an_image() {
    let pay = merchant();
    let first = pay.upload_image(image(), "a.jpg", "one", 100).unwrap();
    let second = pay.upload_image(image(), "a.jpg", "two", 200).unwrap();
    assert_eq!(first.meta, second.meta);
    assert_ne!(first.authorization, second.authorization);
    let header = pay
        .sign(wechat_pay_rust_sdk::request::HttpMethod::POST, UPLOAD_PATH, &first.meta, "one", 100)
        .unwrap();
    assert_eq!(first.authorization, header.value());
}

#[test]
fn empty_image_has_the_digest_of_nothing() {
    let request = merchant().upload_image(Vec::new(), "e.bmp", NONCE, TIME).unwrap();
    assert_eq!(
        request.meta,
        "{\"filename\":\"e.bmp\",\"sha256\":\"e3b0c44298fc1c149afbf4c8996fb92427ae41e4649b934ca495991b7852b855\"}"
    );
    assert_eq!(request.mime, "image/bmp");
}

#[test]
fn file_name_is_escaped_in_the_document() {
    let request = merchant().upload_image(vec![1, 2, 3], "we\"ird\\na\tme.png", NONCE, TIME).unwrap();
    assert_eq!(
        request.meta,
        "{\"filename\":\"we\\\"ird\\\\na\\tme.png\",\"sha256\":\"039058c6f2c0cb492c533b0a4d14ef77cc0f78abccced5287d84a1a2011cfb81\"}"
    );
    assert_eq!(request.filename, "we\"ird\\na\tme.png");
    assert_eq!(request.mime, "image/png");
}

#[test]
fn image_of_the_size_ceiling_is_taken() {
    assert_eq!(MAX_SIZE, 2097152);
    let request = merchant().upload_image(vec![0u8; MAX_SIZE], "big.jpg", NONCE, TIME).unwrap();
    assert_eq!(request.image.len(), MAX_SIZE);
}

#[test]
fn image_of_one_byte_more_is_refused() {
    let res = merchant().upload_image(vec![0u8; MAX_SIZE + 1], "big.jpg", NONCE, TIME);
    assert_eq!(
        refusal(res),
        "Image size (2097153 bytes) exceeds the maximum allowed size (2097152 bytes)"
    );
}

#[test]
fn size_is_checked_before_the_name_and_the_key() {
    let pay = WechatPay::new("a", "m", "not a key", "s", "k", "u");
    let res = pay.upload_image(vec![0u8; MAX_SIZE + 2], "big.gif", NONCE, TIME);
    assert_eq!(
        refusal(res),
        "Image size (2097154 bytes) exceeds the maximum allowed size (2097152 bytes)"
    );
    assert_eq!(
        refusal(pay.upload_image(vec![0u8; 4], "small.gif", NONCE, TIME)),
        "Unsupported image format: gif"
    );
    assert_eq!(
        pay.upload_image(vec![0u8; 4], "small.png", NONCE, TIME),
        Err(PayError::SignError(SignatureError::MalformedKey))
    );
}

#[test]
fn four_extensions_pass_in_any_case() {
    let pay = merchant();
    for name in [
        "a.jpg", "a.JPG", "a.Jpg", "a.jpeg", "a.JPEG", "a.jPeG", "a.png", "a.PNG", "a.bmp",
        "a.BMP", "x.y.Png", ".bmp", "dir/a.b/c.jpeg",
    ] {
        assert!(pay.upload_image(vec![1], name, NONCE, TIME).is_ok(), "{}", name);
    }
}

#[test]
fn other_extensions_and_none_are_refused() {
    let pay = merchant();
    assert_eq!(refusal(pay.upload_image(vec![1], "a.gif", NONCE, TIME)), "Unsupported image format: gif");
    assert_eq!(refusal(pay.upload_image(vec![1], "a.", NONCE, TIME)), "Unsupported image format: ");
    assert_eq!(refusal(pay.upload_image(vec![1], "a.png.", NONCE, TIME)), "Unsupported image format: ");
    assert_eq!(refusal(pay.upload_image(vec![1], "a.png.txt", NONCE, TIME)), "Unsupported image format: txt");
    assert_eq!(refusal(pay.upload_image(vec![1], "a.jpg ", NONCE, TIME)), "Unsupported image format: jpg ");
    assert_eq!(refusal(pay.upload_image(vec![1], "a.jpe", NONCE, TIME)), "Unsupported image format: jpe");
    assert_eq!(refusal(pay.upload_image(vec![1], "a.\u{212a}pg", NONCE, TIME)), "Unsupported image format: \u{212a}pg");
}

#[test]
fn name_without_an_extension_is_refused() {
    let pay = merchant();
    for name in ["noext", "photo", "png", "JPG", "jpeg", "bmp", "", "dir/png"] {
        assert_eq!(
            refusal(pay.upload_image(vec![1], name, NONCE, TIME)),
            "Invalid filename, no extension found",
            "{}",
            name
        );
    }
}

#[test]
fn name_is_checked_before_the_key() {
    let pay = WechatPay::new("a", "m", "not a key", "s", "k", "u");
    assert_eq!(
        refusal(pay.upload_image(vec![1], "png", NONCE, TIME)),
        "Invalid filename, no extension found"
    );
}

#[test]
fn supported_images() {
    assert!(is_supported_image("jpg"));
    assert!(is_supported_image("jpeg"));
    assert!(is_supported_image("png"));
    assert!(is_supported_image("bmp"));
    assert!(is_supported_image("JPG"));
    assert!(is_supported_image("JpEg"));
    assert!(is_supported_image("PNG"));
    assert!(is_supported_image("Bmp"));
    assert!(!is_supported_image(""));
    assert!(!is_supported_image("gif"));
    assert!(!is_supported_image("jpg2"));
    assert!(!is_supported_image("jp"));
    assert!(!is_supported_image(".jpg"));
    assert!(!is_supported_image("webp"));
    assert!(!is_supported_image("pñg"));
}

#[test]
fn extension_follows_the_last_full_stop() {
    assert_eq!(file_extension("a.jpg"), Some("jpg"));
    assert_eq!(file_extension("a.b.c"), Some("c"));
    assert_eq!(file_extension("noext"), None);
    assert_eq!(file_extension("png"), None);
    assert_eq!(file_extension("a."), Some(""));
    assert_eq!(file_extension("."), Some(""));
    assert_eq!(file_extension(""), None);
    assert_eq!(file_extension(".hidden"), Some("hidden"));
    assert_eq!(file_extension("图.片.PNG"), Some("PNG"));
    assert_eq!(file_extension("a.图"), Some("图"));
    assert_eq!(file_extension("图片"), None);
}

#[test]
fn media_type_goes_by_the_exact_extension() {
    assert_eq!(mime_for("jpg"), "image/jpeg");
    assert_eq!(mime_for("jpeg"), "image/jpeg");
    assert_eq!(mime_for("png"), "image/png");
    assert_eq!(mime_for("bmp"), "image/bmp");
    assert_eq!(mime_for("PNG"), "image/jpeg");
    assert_eq!(mime_for("BMP"), "image/jpeg");
    assert_eq!(mime_for("JPG"), "image/jpeg");
}
