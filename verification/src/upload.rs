//! The media uploader: it checks an image before anything is signed, then
//! signs a small document that names the file and its digest, and hands
//! back both parts of the upload.

use vstd::prelude::*;
use vstd::string::StrSliceExecFns;
use vstd::string::StringExecFns;
use crate::crypto::{hex_encode, hex_text, sha256, sha256_digest};
use crate::error::{PayError, PayErrorView};
use crate::json::{
    insert_json_string, json_object_text, json_string_text, new_json_object, write_json_object,
};
use crate::pay::{Merchant, WechatPay};
use crate::request::HttpMethod;
use crate::sign::{auth_header, authorization_text, authorized_by};
use crate::text::{ascii_lowercase, chars_eq, chars_of, decimal, decimal_string, eq_ignore_ascii_case};

verus! {

/// The largest image that is taken, in bytes.
pub const MAX_SIZE: usize = 2 * 1024 * 1024;

/// The path that images are uploaded to.
pub const UPLOAD_PATH: &'static str = "/v3/merchant/media/upload";

/// Where the extension of a file name begins: behind its last full stop,
/// or at its start where it has none.
pub open spec fn extension_start(filename: Seq<char>) -> int
    decreases filename.len(),
{
    if filename.len() == 0 {
        0
    } else if filename.last() == '.' {
        filename.len() as int
    } else {
        extension_start(filename.drop_last())
    }
}

/// The extension of a file name: what follows its last full stop. A name
/// without a full stop has no extension.
pub open spec fn extension(filename: Seq<char>) -> Option<Seq<char>> {
    if filename.contains('.') {
        Some(filename.skip(extension_start(filename)))
    } else {
        None
    }
}

/// An extension or none, as plain values.
pub open spec fn extension_view(extension: Option<&str>) -> Option<Seq<char>> {
    match extension {
        Some(text) => Some(text@),
        None => None,
    }
}

/// Whether an extension names a format that is taken: `jpg`, `jpeg`, `png`
/// or `bmp`, in capitals or not.
pub open spec fn supported_extension(extension: Seq<char>) -> bool {
    let lower = ascii_lowercase(extension);
    lower == "jpg"@ || lower == "jpeg"@ || lower == "png"@ || lower == "bmp"@
}

/// Whether a file name is taken: it has an extension, and the extension
/// names a format that is taken.
pub open spec fn supported_name(filename: Seq<char>) -> bool {
    extension(filename) matches Some(found) && supported_extension(found)
}

/// The media type that a file part is tagged with. Only the extensions
/// written in small letters have one of their own.
pub open spec fn mime_type(extension: Seq<char>) -> Seq<char> {
    if extension == "png"@ {
        "image/png"@
    } else if extension == "bmp"@ {
        "image/bmp"@
    } else {
        "image/jpeg"@
    }
}

/// Why an image is refused before anything is signed, if it is: for its
/// size, for a name without an extension, or for an extension that is
/// not taken, in this order.
pub open spec fn upload_refusal(size: nat, filename: Seq<char>) -> Option<Seq<char>> {
    if size > MAX_SIZE {
        Some(
            "Image size ("@ + decimal(size) + " bytes) exceeds the maximum allowed size ("@
                + decimal(MAX_SIZE as nat) + " bytes)"@,
        )
    } else {
        match extension(filename) {
            None => Some("Invalid filename, no extension found"@),
            Some(found) => if supported_extension(found) {
                None
            } else {
                Some("Unsupported image format: "@ + found)
            },
        }
    }
}

/// The document that is signed for an upload: a JSON object with the file
/// name and the SHA-256 digest of the image in hexadecimal.
pub open spec fn upload_meta(image: Seq<u8>, filename: Seq<char>) -> Seq<char> {
    json_object_text(
        Map::<Seq<char>, Seq<char>>::empty().insert("filename"@, json_string_text(filename)).insert(
            "sha256"@,
            json_string_text(hex_text(sha256(image))),
        ),
    )
}

/// What an `UploadRequest` is, as plain values.
pub struct UploadView {
    pub url: Seq<char>,
    pub authorization: Seq<char>,
    pub content_type: Seq<char>,
    pub meta: Seq<char>,
    pub filename: Seq<char>,
    pub mime: Seq<char>,
    pub image: Seq<u8>,
}

/// An upload that is ready to be sent as a form of two parts: `meta`, of
/// type `application/json`, and `file`.
#[derive(Debug, Clone, PartialEq, Eq)]
pub struct UploadRequest {
    pub url: String,
    /// The value of the `Authorization` header.
    pub authorization: String,
    /// The value of the `Content-Type` header.
    pub content_type: String,
    /// The part `meta`: the document that was signed, byte for byte.
    pub meta: String,
    /// The file name of the part `file`.
    pub filename: String,
    /// The media type of the part `file`.
    pub mime: String,
    /// The content of the part `file`.
    pub image: Vec<u8>,
}

impl View for UploadRequest {
    type V = UploadView;

    open spec fn view(&self) -> UploadView {
        UploadView {
            url: self.url@,
            authorization: self.authorization@,
            content_type: self.content_type@,
            meta: self.meta@,
            filename: self.filename@,
            mime: self.mime@,
            image: self.image@,
        }
    }
}

/// The upload of an image, or the reason why there is none.
pub open spec fn upload_request(
    merchant: Merchant,
    image: Seq<u8>,
    filename: Seq<char>,
    nonce: Seq<char>,
    timestamp: nat,
) -> Result<UploadView, PayErrorView> {
    match upload_refusal(image.len(), filename) {
        Some(text) => Err(PayErrorView::WechatError(text)),
        None => match auth_header(
            merchant,
            HttpMethod::POST,
            UPLOAD_PATH@,
            upload_meta(image, filename),
            nonce,
            timestamp,
        ) {
            Err(e) => Err(e),
            Ok(header) => Ok(
                UploadView {
                    url: merchant.base_url + UPLOAD_PATH@,
                    authorization: header.text(),
                    content_type: "multipart/form-data"@,
                    meta: upload_meta(image, filename),
                    filename,
                    mime: mime_type(extension(filename).unwrap()),
                    image,
                },
            ),
        },
    }
}

/// An upload or an error, as plain values.
pub open spec fn upload_outcome(res: Result<UploadRequest, PayError>) -> Result<
    UploadView,
    PayErrorView,
> {
    match res {
        Ok(request) => Ok(request@),
        Err(e) => Err(e@),
    }
}

/// Where the extension begins: behind a full stop, with none after it.
/// It begins at the start of the name exactly where the name holds no
/// full stop at all.
pub proof fn lemma_extension(filename: Seq<char>)
    ensures
        0 <= extension_start(filename) <= filename.len(),
        forall|i: int| extension_start(filename) <= i < filename.len() ==> filename[i] != '.',
        extension_start(filename) > 0 ==> filename[extension_start(filename) - 1] == '.',
        extension_start(filename) > 0 <==> filename.contains('.'),
    decreases filename.len(),
{
    if filename.len() > 0 && filename.last() != '.' {
        let shorter = filename.drop_last();
        lemma_extension(shorter);
        let start = extension_start(shorter);
        assert forall|i: int| start <= i < filename.len() implies filename[i] != '.' by {
            if i < shorter.len() {
                assert(filename[i] == shorter[i]);
            }
        }
        if start > 0 {
            assert(filename[start - 1] == shorter[start - 1]);
        }
    }
    let start = extension_start(filename);
    if start > 0 {
        assert(filename[start - 1] == '.');
        assert(filename.contains('.'));
    }
}

/// The size ceiling: an image of exactly `MAX_SIZE` bytes is not refused
/// for its size, and one of a byte more is refused whatever its name.
pub proof fn lemma_size_ceiling(size: nat, filename: Seq<char>)
    ensures
        size > MAX_SIZE ==> upload_refusal(size, filename) is Some,
        size <= MAX_SIZE ==> (upload_refusal(size, filename) is None <==> supported_name(filename)),
{
}

/// A name without a full stop is refused, whatever it reads as: it has
/// no extension.
pub proof fn lemma_no_extension_refused(
    merchant: Merchant,
    image: Seq<u8>,
    filename: Seq<char>,
    nonce: Seq<char>,
    timestamp: nat,
)
    requires
        !filename.contains('.'),
    ensures
        upload_request(merchant, image, filename, nonce, timestamp) matches Err(
            PayErrorView::WechatError(_),
        ),
{
}

/// An image that is refused yields no upload, and so nothing to send:
/// the refusal comes before any document is written or signed.
pub proof fn lemma_refused_before_signing(
    merchant: Merchant,
    image: Seq<u8>,
    filename: Seq<char>,
    nonce: Seq<char>,
    timestamp: nat,
)
    requires
        image.len() > MAX_SIZE || !supported_name(filename),
    ensures
        upload_request(merchant, image, filename, nonce, timestamp) matches Err(
            PayErrorView::WechatError(text),
        ) && Some(text) == upload_refusal(image.len(), filename),
{
}

/// The document that is signed is the one that is sent, and it is the
/// same for every upload of the same image under the same name: the nonce
/// and the time enter the signature, not the document.
pub proof fn lemma_upload_meta(
    merchant: Merchant,
    image: Seq<u8>,
    filename: Seq<char>,
    nonce1: Seq<char>,
    timestamp1: nat,
    nonce2: Seq<char>,
    timestamp2: nat,
)
    requires
        upload_request(merchant, image, filename, nonce1, timestamp1) is Ok,
        upload_request(merchant, image, filename, nonce2, timestamp2) is Ok,
    ensures
        ({
            let first = upload_request(merchant, image, filename, nonce1, timestamp1)->Ok_0;
            let second = upload_request(merchant, image, filename, nonce2, timestamp2)->Ok_0;
            &&& first.meta == second.meta
            &&& first.meta == upload_meta(image, filename)
            &&& auth_header(
                merchant,
                HttpMethod::POST,
                UPLOAD_PATH@,
                first.meta,
                nonce1,
                timestamp1,
            ) matches Ok(header) && header.text() == first.authorization
            &&& auth_header(
                merchant,
                HttpMethod::POST,
                UPLOAD_PATH@,
                second.meta,
                nonce2,
                timestamp2,
            ) matches Ok(header) && header.text() == second.authorization
        }),
{
}

/// Tells whether an extension names a format that is taken.
pub fn is_supported_image(extension: &str) -> (supported: bool)
    ensures
        supported == supported_extension(extension@),
{
    let chars = chars_of(extension);
    eq_ignore_ascii_case(&chars, "jpg") || eq_ignore_ascii_case(&chars, "jpeg")
        || eq_ignore_ascii_case(&chars, "png") || eq_ignore_ascii_case(&chars, "bmp")
}

/// Cuts the extension out of a file name, where it has one.
pub fn file_extension(filename: &str) -> (out: Option<&str>)
    ensures
        match out {
            Some(found) => filename@.contains('.') && found@ == filename@.skip(
                extension_start(filename@),
            ),
            None => !filename@.contains('.'),
        },
        extension_view(out) == extension(filename@),
{
    let chars = chars_of(filename);
    let mut start: usize = chars.len();
    assert(chars@.take(start as int) =~= chars@);
    while start > 0 && chars[start - 1] != '.'
        invariant
            start <= chars.len(),
            extension_start(chars@) == extension_start(chars@.take(start as int)),
        decreases start,
    {
        assert(chars@.take(start as int).drop_last() =~= chars@.take(start - 1));
        start -= 1;
    }
    proof {
        lemma_extension(chars@);
    }
    if start == 0 {
        None
    } else {
        Some(filename.substring_char(start, chars.len()))
    }
}

/// Picks the media type for an extension.
pub fn mime_for(extension: &str) -> (out: &'static str)
    ensures
        out@ == mime_type(extension@),
{
    let chars = chars_of(extension);
    if chars_eq(&chars, "png") {
        "image/png"
    } else if chars_eq(&chars, "bmp") {
        "image/bmp"
    } else {
        "image/jpeg"
    }
}

impl WechatPay {
    /// Makes the upload of an image. An image of more than `MAX_SIZE`
    /// bytes, or a file name whose extension is not taken, is refused
    /// before anything is signed.
    pub fn upload_image(&self, image: Vec<u8>, filename: &str, nonce: &str, timestamp: u64) -> (res:
        Result<UploadRequest, PayError>)
        ensures
            upload_outcome(res) == upload_request(
                self@,
                image@,
                filename@,
                nonce@,
                timestamp as nat,
            ),
            res matches Ok(upload) ==> authorized_by(
                self@,
                HttpMethod::POST,
                UPLOAD_PATH@,
                upload.meta@,
                nonce@,
                timestamp as nat,
                upload.authorization@,
            ),
    {
        if image.len() > MAX_SIZE {
            let mut text = String::from_str("Image size (");
            text.append(decimal_string(image.len() as u64).as_str());
            text.append(" bytes) exceeds the maximum allowed size (");
            text.append(decimal_string(MAX_SIZE as u64).as_str());
            text.append(" bytes)");
            return Err(PayError::WechatError(text));
        }
        let ext = match file_extension(filename) {
            Some(ext) => ext,
            None => {
                return Err(
                    PayError::WechatError(String::from_str("Invalid filename, no extension found")),
                );
            },
        };
        if !is_supported_image(ext) {
            let mut text = String::from_str("Unsupported image format: ");
            text.append(ext);
            return Err(PayError::WechatError(text));
        }
        let digest = sha256_digest(image.as_slice());
        let hash = hex_encode(digest.as_slice());
        let mut object = new_json_object();
        insert_json_string(&mut object, "filename", filename);
        insert_json_string(&mut object, "sha256", hash.as_str());
        let meta = match write_json_object(&object) {
            Ok(meta) => meta,
            Err(_) => {
                return Err(PayError::JsonError);
            },
        };
        let header = match self.sign(HttpMethod::POST, UPLOAD_PATH, meta.as_str(), nonce, timestamp) {
            Ok(header) => header,
            Err(e) => {
                return Err(e);
            },
        };
        assert(authorization_text(
            self@.mch_id,
            nonce@,
            timestamp as nat,
            self@.serial_no,
            header.signature@,
        ) == header@.text());
        let mut url = String::from_str(self.base_url());
        url.append(UPLOAD_PATH);
        Ok(
            UploadRequest {
                url,
                authorization: header.value(),
                content_type: String::from_str("multipart/form-data"),
                meta,
                filename: String::from_str(filename),
                mime: String::from_str(mime_for(ext)),
                image,
            },
        )
    }
}

} // verus!
