use base64::Engine;
use rsa::pkcs8::{EncodePrivateKey, LineEnding};
use rsa::sha2::{Digest, Sha256};
use rsa::{BigUint, Pkcs1v15Sign, RsaPrivateKey};
use wechat_pay_rust_sdk::error::{PayError, SignatureError};
use wechat_pay_rust_sdk::pay::{WechatPay, DEFAULT_BASE_URL};
use wechat_pay_rust_sdk::request::{HttpMethod, SignedRequest};

const NONCE: &str = "593BEC0C930BF1AFEB40B4A08C8FB242";
const TIME: u64 = 1554208460;

fn number(hex: &str) -> BigUint {
    BigUint::parse_bytes(hex.as_bytes(), 16).unwrap()
}

fn merchant_key() -> RsaPrivateKey {
    RsaPrivateKey::from_components(
        number("cc874f8bb2f1a0b729c09a56ddfe0e54a3b9f6b1d1c6a36d344309ba9babcef2225bd6df0f51d5225ecc44a10e003e1ab62e09778de59cbada6026f9394429bd100c4b5606071dda43cdf323f294b55e9080b41a05a78dca40ca7361647acc923b0fa52591e954692b1e86574d30592809f5b5fc282ecc4f1f4dba677df58f4f871a27919239b184f3481d5c6ebb77dab02a49028e475ecd8bb136cab134db59e6bbdfd715667f5b3f4efcc7f17a10843a6d2bb8734ac32ce24e56bc4f94da685759c3e25591c5ce2f271910d03ff4274cb80702d145618040eb9b89f6fe16eddb79896c0a189c58d563c1fb6fa089868920da20768856308388e1031afc972d"),
        BigUint::from(65537u32),
        number("297d7981840cc83c352d6bcc70beccf6c13a999f7b9d5421c9c19fae49f8bc6e6f7c8f463366b7af2a93e832d3bd9b8647ac11cce842cab1e25831ba750782d5664aad830738ad06f8a24579e6b28c130c354fa91d0f34659c671ffe2dd2a0bfe40349ce7e9f0564a03ea7a4a61ff20b7bef15ba7ab1a3a34407bc91ff575a7966a000ff80e75729fa04efb98a8c6eb891cb5d560f105cab6e0401a6f888cd08323aea7630e4180fb5932db9a9dfa7c2df615e22b772844f12737210fd50931e7db2591cfb16416c221c5641b9a397aa92125942f0d5da5455d5da8ebeba905b57097fcc079ea1bcbe94d59805826e6d85d44a301e340eab850c984b2d24f51"),
        vec![
            number("f0ce1af515737f42eb14705ea486b10de24e6fbe6aceb8ac76e8b1f85b25f7aa6eeba67b29185ce523dbb1ef0297bc750f51088bd7f78e4d609ac02692d94dc6c5287909c58708bbe4a28571ed9caedac106ac4f5b7a0dbbde0db74fd929e444be50553af51e91b7eef84ff97e8b72624fdc027ee84ab3f9b5925bcf77c2ad3d"),
            number("d96f34711cbf922d9287f50308f7c678fe27592cb0a8ec0b7682d841f3c7de8e97df4819bf2d47556af5bb69e61a8cb3245a57d4b7e07f6d40e6ed5b2f8b599bba2d5c85dc83e2f255db5ff9ac1471b9bb3963f1d59895bbe9138b269ad69a6cfefa30d319576b4778458552efaca5dddee949702683386461d1e88a63bb10b1"),
        ],
    )
    .unwrap()
}

fn private_pem(key: &RsaPrivateKey) -> String {
    key.to_pkcs8_pem(LineEnding::LF).unwrap().to_string()
}

fn merchant() -> WechatPay {
    WechatPay::new(
        "wx_app",
        "1900000001",
        &private_pem(&merchant_key()),
        "1DDE55AD98ED71D6EDD4A4A16996DE7B47773A8C",
        "v3-key",
        "https://example.com/notify",
    )
}

fn accepted(key: &RsaPrivateKey, message: &str, signature: &str) -> bool {
    let bytes = match base64::engine::general_purpose::STANDARD.decode(signature) {
        Ok(bytes) => bytes,
        Err(_) => return false,
    };
    key.to_public_key()
        .verify(Pkcs1v15Sign::new::<Sha256>(), &Sha256::digest(message.as_bytes()), &bytes)
        .is_ok()
}

const PARAMS: &str = "{\"description\":\"d\",\"out_trade_no\":\"1\",\"amount\":{\"total\":1}}";
const BODY: &str = "{\"amount\":{\"total\":1},\"appid\":\"wx_app\",\"description\":\"d\",\"mchid\":\"1900000001\",\"notify_url\":\"https://example.com/notify\",\"out_trade_no\":\"1\"}";

fn signature_of(request: &SignedRequest) -> String {
    let start = request.authorization.find("signature=\"").unwrap() + 11;
    request.authorization[start..request.authorization.len() - 1].to_string()
}

fn check_order(request: &SignedRequest, path: &str) {
    assert_eq!(request.method, HttpMethod::POST);
    assert_eq!(request.url, format!("https://api.mch.weixin.qq.com{}", path));
    assert_eq!(request.content_type, "application/json");
    assert_eq!(request.body, BODY);
    let message = format!("POST\n{}\n{}\n{}\n{}\n", path, TIME, NONCE, BODY);
    assert!(accepted(&merchant_key(), &message, &signature_of(request)));
    let header = merchant().sign(HttpMethod::POST, path, BODY, NONCE, TIME).unwrap();
    assert_eq!(request.authorization, header.value());
}

#[test]
fn test_native_pay() {
    let params = "{\"description\":\"测试支付1分\",\"out_trade_no\":\"1243243\",\"amount\":{\"total\":1,\"currency\":\"CNY\"}}";
    let body = merchant().native_pay(params, NONCE, TIME).expect("pay fail");
    assert_eq!(body.method, HttpMethod::POST);
    assert_eq!(body.url, "https://api.mch.weixin.qq.com/v3/pay/transactions/native");
    assert_eq!(
        body.body,
        "{\"amount\":{\"currency\":\"CNY\",\"total\":1},\"appid\":\"wx_app\",\"description\":\"测试支付1分\",\"mchid\":\"1900000001\",\"notify_url\":\"https://example.com/notify\",\"out_trade_no\":\"1243243\"}"
    );
    let message = format!(
        "POST\n/v3/pay/transactions/native\n{}\n{}\n{}\n",
        TIME, NONCE, body.body
    );
    assert!(accepted(&merchant_key(), &message, &signature_of(&body)));
}

#[test]
fn each_order_goes_to_its_path() {
    let pay = merchant();
    check_order(&pay.h5_pay(PARAMS, NONCE, TIME).unwrap(), "/v3/pay/transactions/h5");
    check_order(&pay.app_pay(PARAMS, NONCE, TIME).unwrap(), "/v3/pay/transactions/app");
    check_order(&pay.jsapi_pay(PARAMS, NONCE, TIME).unwrap(), "/v3/pay/transactions/jsapi");
    check_order(&pay.micro_pay(PARAMS, NONCE, TIME).unwrap(), "/v3/pay/transactions/jsapi");
    check_order(&pay.native_pay(PARAMS, NONCE, TIME).unwrap(), "/v3/pay/transactions/native");
}

#[test]
fn pay_sets_the_merchant_fields_over_the_callers() {
    let pay = merchant();
    let params = "{\"mchid\":\"other\",\"appid\":\"other\",\"notify_url\":\"other\",\"z\":null}";
    let request = pay.pay(HttpMethod::PUT, "/v3/x", params, NONCE, TIME).unwrap();
    assert_eq!(request.method, HttpMethod::PUT);
    assert_eq!(
        request.body,
        "{\"appid\":\"wx_app\",\"mchid\":\"1900000001\",\"notify_url\":\"https://example.com/notify\",\"z\":null}"
    );
}

#[test]
fn pay_escapes_the_merchant_fields() {
    let pay = WechatPay::new(
        "a\"b\\c",
        "line\nfeed\ttab",
        &private_pem(&merchant_key()),
        "serial",
        "k",
        "\u{1}\u{8}\u{c}\r\u{1f}\u{7f}é",
    );
    let request = pay.pay(HttpMethod::POST, "/v3/x", "{}", NONCE, TIME).unwrap();
    assert_eq!(
        request.body,
        "{\"appid\":\"a\\\"b\\\\c\",\"mchid\":\"line\\nfeed\\ttab\",\"notify_url\":\"\\u0001\\b\\f\\r\\u001f\u{7f}é\"}"
    );
}

#[test]
fn pay_refuses_what_is_not_an_object() {
    let pay = merchant();
    assert_eq!(pay.pay(HttpMethod::POST, "/v3/x", "", NONCE, TIME), Err(PayError::JsonError));
    assert_eq!(pay.pay(HttpMethod::POST, "/v3/x", "[1]", NONCE, TIME), Err(PayError::JsonError));
    assert_eq!(pay.pay(HttpMethod::POST, "/v3/x", "{\"a\":", NONCE, TIME), Err(PayError::JsonError));
    assert_eq!(pay.h5_pay("\"text\"", NONCE, TIME), Err(PayError::JsonError));
    assert_eq!(pay.native_pay("{} x", NONCE, TIME), Err(PayError::JsonError));
}

#[test]
fn pay_with_a_malformed_key_fails_after_the_body_is_read() {
    let pay = WechatPay::new("a", "m", "not a key", "s", "k", "u");
    assert_eq!(
        pay.native_pay(PARAMS, NONCE, TIME),
        Err(PayError::SignError(SignatureError::MalformedKey))
    );
    assert_eq!(pay.native_pay("nothing", NONCE, TIME), Err(PayError::JsonError));
    assert_eq!(
        pay.certificates(NONCE, TIME),
        Err(PayError::SignError(SignatureError::MalformedKey))
    );
}

#[test]
fn get_pay_signs_an_empty_body() {
    let request = merchant().get_pay("/v3/pay/transactions/id/42", NONCE, TIME).unwrap();
    assert_eq!(request.method, HttpMethod::GET);
    assert_eq!(request.url, "https://api.mch.weixin.qq.com/v3/pay/transactions/id/42");
    assert_eq!(request.body, "");
    assert_eq!(request.content_type, "application/json");
    let message = format!("GET\n/v3/pay/transactions/id/42\n{}\n{}\n\n", TIME, NONCE);
    assert!(accepted(&merchant_key(), &message, &signature_of(&request)));
}

#[test]
fn certificates_are_listed_by_a_signed_get() {
    let request = merchant().certificates(NONCE, TIME).unwrap();
    assert_eq!(request.method, HttpMethod::GET);
    assert_eq!(request.url, "https://api.mch.weixin.qq.com/v3/certificates");
    assert_eq!(request.body, "");
    let message = format!("GET\n/v3/certificates\n{}\n{}\n\n", TIME, NONCE);
    assert!(accepted(&merchant_key(), &message, &signature_of(&request)));
}

#[test]
fn request_keeps_the_body_as_it_was_signed() {
    let pay = merchant().with_base_url("http://localhost:8080");
    let body = "  {\"b\": 2,\n \"a\": 1}  ".to_string();
    let request = pay.request(HttpMethod::PATCH, "/v3/y", body.clone(), "n", 9).unwrap();
    assert_eq!(request.body, body);
    assert_eq!(request.url, "http://localhost:8080/v3/y");
    let message = format!("PATCH\n/v3/y\n9\nn\n{}\n", body);
    assert!(accepted(&merchant_key(), &message, &signature_of(&request)));
}

#[test]
fn credentials_are_kept_as_given() {
    let pay = merchant();
    assert_eq!(pay.appid(), "wx_app");
    assert_eq!(pay.mch_id(), "1900000001");
    assert_eq!(pay.serial_no(), "1DDE55AD98ED71D6EDD4A4A16996DE7B47773A8C");
    assert_eq!(pay.v3_key(), "v3-key");
    assert_eq!(pay.notify_url(), "https://example.com/notify");
    assert_eq!(pay.base_url(), DEFAULT_BASE_URL);
    assert_eq!(pay.base_url(), "https://api.mch.weixin.qq.com");
    assert_eq!(pay.private_key(), private_pem(&merchant_key()));
    let moved = pay.with_base_url("http://h");
    assert_eq!(moved.base_url(), "http://h");
    assert_eq!(moved.mch_id(), "1900000001");
}
