//! The signature engine: the message that stands for a request, the
//! signature over it, and the `Authorization` value that carries both to
//! the gateway.

use vstd::prelude::*;
use vstd::string::StringExecFns;
use vstd::string::StringSliceAdditionalSpecFns;
use vstd::utf8::encode_utf8;
use crate::crypto::{
    accepts, base64_encode, base64_fits, base64_text, lemma_base64_injective, parse_private_key,
    pkcs1v15_signature, pkcs8_private_key, prime_bits, prime_bits_of, public_half, sha256,
    sha256_digest, sign_digest, signable,
};
use crate::error::{PayError, PayErrorView, SignatureError};
use crate::pay::{Merchant, WechatPay};
use crate::request::HttpMethod;
use crate::text::{
    append_line, decimal, decimal_string, lemma_decimal_digits, lemma_decimal_injective,
    lemma_first_line, line, one_line,
};

verus! {

/// The message that is signed for a request: the verb, the path, the time
/// in seconds, the nonce and the body, each on a line of its own.
pub open spec fn signing_message(
    method: Seq<char>,
    path: Seq<char>,
    timestamp: nat,
    nonce: Seq<char>,
    body: Seq<char>,
) -> Seq<char> {
    line(method) + line(path) + line(decimal(timestamp)) + line(nonce) + line(body)
}

/// The text that signing a message with a private key gives: the SHA-256
/// digest of the message's UTF-8 bytes, signed, in base64. A key whose
/// factors are not of like size is not signed with.
pub open spec fn signing_result(private_key: Seq<char>, message: Seq<char>) -> Result<
    Seq<char>,
    SignatureError,
> {
    match pkcs8_private_key(private_key) {
        None => Err(SignatureError::MalformedKey),
        Some(key) => if !signable(prime_bits(key)) {
            Err(SignatureError::MalformedKey)
        } else {
            match pkcs1v15_signature(key, sha256(encode_utf8(message))) {
                None => Err(SignatureError::Rejected),
                Some(signature) => signature_text(signature),
            }
        },
    }
}

/// Whether a text is the base64 of a signature that the public half of a
/// private key accepts for a message.
pub open spec fn signed_by(private_key: Seq<char>, message: Seq<char>, text: Seq<char>) -> bool {
    exists|signature: Seq<u8>|
        {
            &&& pkcs8_private_key(private_key) matches Some(key)
            &&& accepts(public_half(key), encode_utf8(message), signature)
            &&& #[trigger] base64_text(signature) == text
        }
}

/// Whether a header value is the one for a request, with a signature that
/// the public half of the merchant's key accepts for the request's
/// message.
pub open spec fn authorized_by(
    merchant: Merchant,
    method: HttpMethod,
    path: Seq<char>,
    body: Seq<char>,
    nonce: Seq<char>,
    timestamp: nat,
    authorization: Seq<char>,
) -> bool {
    exists|signature: Seq<char>|
        {
            &&& signed_by(
                merchant.private_key,
                signing_message(method.name(), path, timestamp, nonce, body),
                signature,
            )
            &&& #[trigger] authorization_text(
                merchant.mch_id,
                nonce,
                timestamp,
                merchant.serial_no,
                signature,
            ) == authorization
        }
}

/// A signature in base64, where the text is short enough to be held.
pub open spec fn signature_text(signature: Seq<u8>) -> Result<Seq<char>, SignatureError> {
    if base64_fits(signature.len()) {
        Ok(base64_text(signature))
    } else {
        Err(SignatureError::Rejected)
    }
}

/// The value of the `Authorization` header.
pub open spec fn authorization_text(
    mch_id: Seq<char>,
    nonce: Seq<char>,
    timestamp: nat,
    serial_no: Seq<char>,
    signature: Seq<char>,
) -> Seq<char> {
    "WECHATPAY2-SHA256-RSA2048 mchid=\""@ + mch_id + "\",nonce_str=\""@ + nonce
        + "\",timestamp=\""@ + decimal(timestamp) + "\",serial_no=\""@ + serial_no
        + "\",signature=\""@ + signature + "\""@
}

/// What an `AuthHeader` is, as plain values.
pub struct AuthHeaderView {
    pub mch_id: Seq<char>,
    pub serial_no: Seq<char>,
    pub nonce_str: Seq<char>,
    pub timestamp: nat,
    pub signature: Seq<char>,
}

impl AuthHeaderView {
    /// The header value that the proof is sent as.
    pub open spec fn text(self) -> Seq<char> {
        authorization_text(
            self.mch_id,
            self.nonce_str,
            self.timestamp,
            self.serial_no,
            self.signature,
        )
    }
}

/// The proof of identity that goes with one request. It is made for that
/// request alone: its nonce and time are never used again.
#[derive(Debug, Clone, PartialEq, Eq)]
pub struct AuthHeader {
    pub mch_id: String,
    pub serial_no: String,
    pub nonce_str: String,
    pub timestamp: u64,
    /// The signature over the request's message, in base64.
    pub signature: String,
}

impl View for AuthHeader {
    type V = AuthHeaderView;

    open spec fn view(&self) -> AuthHeaderView {
        AuthHeaderView {
            mch_id: self.mch_id@,
            serial_no: self.serial_no@,
            nonce_str: self.nonce_str@,
            timestamp: self.timestamp as nat,
            signature: self.signature@,
        }
    }
}

impl AuthHeader {
    /// Writes the header value: the scheme, then the five named fields.
    pub fn value(&self) -> (out: String)
        ensures
            out@ == self@.text(),
    {
        let time = decimal_string(self.timestamp);
        let mut out = String::from_str("WECHATPAY2-SHA256-RSA2048 mchid=\"");
        out.append(self.mch_id.as_str());
        out.append("\",nonce_str=\"");
        out.append(self.nonce_str.as_str());
        out.append("\",timestamp=\"");
        out.append(time.as_str());
        out.append("\",serial_no=\"");
        out.append(self.serial_no.as_str());
        out.append("\",signature=\"");
        out.append(self.signature.as_str());
        out.append("\"");
        out
    }
}

/// The proof of identity that a merchant gives for a request.
pub open spec fn auth_header(
    merchant: Merchant,
    method: HttpMethod,
    path: Seq<char>,
    body: Seq<char>,
    nonce: Seq<char>,
    timestamp: nat,
) -> Result<AuthHeaderView, PayErrorView> {
    match signing_result(
        merchant.private_key,
        signing_message(method.name(), path, timestamp, nonce, body),
    ) {
        Ok(signature) => Ok(
            AuthHeaderView {
                mch_id: merchant.mch_id,
                serial_no: merchant.serial_no,
                nonce_str: nonce,
                timestamp,
                signature,
            },
        ),
        Err(why) => Err(PayErrorView::SignError(why)),
    }
}

/// A signature text or a refusal, as plain values.
pub open spec fn text_outcome(res: Result<String, SignatureError>) -> Result<
    Seq<char>,
    SignatureError,
> {
    match res {
        Ok(text) => Ok(text@),
        Err(why) => Err(why),
    }
}

/// A proof of identity or an error, as plain values.
pub open spec fn header_outcome(res: Result<AuthHeader, PayError>) -> Result<
    AuthHeaderView,
    PayErrorView,
> {
    match res {
        Ok(header) => Ok(header@),
        Err(e) => Err(e@),
    }
}

/// Two texts that follow the same beginning and give the same whole are
/// the same.
pub proof fn lemma_same_beginning(start: Seq<char>, a: Seq<char>, b: Seq<char>)
    requires
        start + a == start + b,
    ensures
        a == b,
{
    assert((start + a).len() == start.len() + a.len());
    assert((start + b).len() == start.len() + b.len());
    assert(a.len() == b.len());
    assert forall|i: int| 0 <= i < a.len() implies a[i] == b[i] by {
        assert(a[i] == (start + a)[start.len() + i]);
        assert(b[i] == (start + b)[start.len() + i]);
    }
    assert(a =~= b);
}

/// Different texts have different UTF-8 bytes.
pub proof fn lemma_utf8_injective(a: Seq<char>, b: Seq<char>)
    requires
        encode_utf8(a) == encode_utf8(b),
    ensures
        a == b,
{
    vstd::utf8::encode_utf8_decode_utf8(a);
    vstd::utf8::encode_utf8_decode_utf8(b);
}

/// A request that differs from another in its time or its nonce is signed
/// over a different message, whatever the verb, the path and the body.
pub proof fn lemma_fresh_message(
    method: Seq<char>,
    path: Seq<char>,
    body: Seq<char>,
    timestamp1: nat,
    nonce1: Seq<char>,
    timestamp2: nat,
    nonce2: Seq<char>,
)
    requires
        timestamp1 != timestamp2 || nonce1 != nonce2,
    ensures
        signing_message(method, path, timestamp1, nonce1, body) != signing_message(
            method,
            path,
            timestamp2,
            nonce2,
            body,
        ),
{
    let start = line(method) + line(path);
    let d1 = decimal(timestamp1);
    let d2 = decimal(timestamp2);
    let tail1 = line(nonce1) + line(body);
    let tail2 = line(nonce2) + line(body);
    let m1 = signing_message(method, path, timestamp1, nonce1, body);
    let m2 = signing_message(method, path, timestamp2, nonce2, body);
    assert(m1 =~= start + (line(d1) + tail1));
    assert(m2 =~= start + (line(d2) + tail2));
    if m1 == m2 {
        lemma_same_beginning(start, line(d1) + tail1, line(d2) + tail2);
        lemma_decimal_digits(timestamp1);
        lemma_decimal_digits(timestamp2);
        lemma_first_line(d1, tail1, d2, tail2);
        lemma_decimal_injective(timestamp1, timestamp2);
        assert(tail1.len() == nonce1.len() + body.len() + 2);
        assert(tail2.len() == nonce2.len() + body.len() + 2);
        assert forall|i: int| 0 <= i < nonce1.len() implies nonce1[i] == nonce2[i] by {
            assert(tail1[i] == nonce1[i]);
            assert(tail2[i] == nonce2[i]);
        }
        assert(nonce1 =~= nonce2);
    }
}

/// The message of a request tells the request: where the verb, the path
/// and the nonce are free of line feeds, two requests with the same
/// message are the same in every part.
pub proof fn lemma_signing_message_injective(
    method1: Seq<char>,
    path1: Seq<char>,
    timestamp1: nat,
    nonce1: Seq<char>,
    body1: Seq<char>,
    method2: Seq<char>,
    path2: Seq<char>,
    timestamp2: nat,
    nonce2: Seq<char>,
    body2: Seq<char>,
)
    requires
        one_line(method1) && one_line(path1) && one_line(nonce1),
        one_line(method2) && one_line(path2) && one_line(nonce2),
        signing_message(method1, path1, timestamp1, nonce1, body1) == signing_message(
            method2,
            path2,
            timestamp2,
            nonce2,
            body2,
        ),
    ensures
        method1 == method2,
        path1 == path2,
        timestamp1 == timestamp2,
        nonce1 == nonce2,
        body1 == body2,
{
    let d1 = decimal(timestamp1);
    let d2 = decimal(timestamp2);
    lemma_decimal_digits(timestamp1);
    lemma_decimal_digits(timestamp2);
    let after_method1 = line(path1) + line(d1) + line(nonce1) + line(body1);
    let after_method2 = line(path2) + line(d2) + line(nonce2) + line(body2);
    let after_path1 = line(d1) + line(nonce1) + line(body1);
    let after_path2 = line(d2) + line(nonce2) + line(body2);
    let after_time1 = line(nonce1) + line(body1);
    let after_time2 = line(nonce2) + line(body2);
    assert(signing_message(method1, path1, timestamp1, nonce1, body1) =~= line(method1)
        + after_method1);
    assert(signing_message(method2, path2, timestamp2, nonce2, body2) =~= line(method2)
        + after_method2);
    lemma_first_line(method1, after_method1, method2, after_method2);
    assert(after_method1 =~= line(path1) + after_path1);
    assert(after_method2 =~= line(path2) + after_path2);
    lemma_first_line(path1, after_path1, path2, after_path2);
    assert(after_path1 =~= line(d1) + after_time1);
    assert(after_path2 =~= line(d2) + after_time2);
    lemma_first_line(d1, after_time1, d2, after_time2);
    lemma_decimal_injective(timestamp1, timestamp2);
    lemma_first_line(nonce1, line(body1), nonce2, line(body2));
    assert(line(body1).drop_last() =~= body1);
    assert(line(body2).drop_last() =~= body2);
}

/// Signatures on two requests that differ in time or nonce: where one
/// public key accepts each for the message of its own request, the two
/// signatures differ. Left out are the requests whose messages, which
/// differ, have the same SHA-256 digest.
pub proof fn lemma_fresh_signatures_differ(
    key: Seq<u8>,
    method: Seq<char>,
    path: Seq<char>,
    body: Seq<char>,
    timestamp1: nat,
    nonce1: Seq<char>,
    signature1: Seq<u8>,
    timestamp2: nat,
    nonce2: Seq<char>,
    signature2: Seq<u8>,
)
    requires
        timestamp1 != timestamp2 || nonce1 != nonce2,
        accepts(
            key,
            encode_utf8(signing_message(method, path, timestamp1, nonce1, body)),
            signature1,
        ),
        accepts(
            key,
            encode_utf8(signing_message(method, path, timestamp2, nonce2, body)),
            signature2,
        ),
        sha256(encode_utf8(signing_message(method, path, timestamp1, nonce1, body))) != sha256(
            encode_utf8(signing_message(method, path, timestamp2, nonce2, body)),
        ),
    ensures
        signature1 != signature2,
        signing_message(method, path, timestamp1, nonce1, body) != signing_message(
            method,
            path,
            timestamp2,
            nonce2,
            body,
        ),
{
    lemma_fresh_message(method, path, body, timestamp1, nonce1, timestamp2, nonce2);
}

/// Signature texts of two requests that differ in time or nonce, made
/// with one key, differ. Left out are the requests whose messages, which
/// differ, have the same SHA-256 digest.
pub proof fn lemma_fresh_signature_texts_differ(
    private_key: Seq<char>,
    method: Seq<char>,
    path: Seq<char>,
    body: Seq<char>,
    timestamp1: nat,
    nonce1: Seq<char>,
    text1: Seq<char>,
    timestamp2: nat,
    nonce2: Seq<char>,
    text2: Seq<char>,
)
    requires
        timestamp1 != timestamp2 || nonce1 != nonce2,
        signed_by(private_key, signing_message(method, path, timestamp1, nonce1, body), text1),
        signed_by(private_key, signing_message(method, path, timestamp2, nonce2, body), text2),
        sha256(encode_utf8(signing_message(method, path, timestamp1, nonce1, body))) != sha256(
            encode_utf8(signing_message(method, path, timestamp2, nonce2, body)),
        ),
    ensures
        text1 != text2,
{
    let message1 = signing_message(method, path, timestamp1, nonce1, body);
    let message2 = signing_message(method, path, timestamp2, nonce2, body);
    let key = pkcs8_private_key(private_key)->0;
    let signature1 = choose|signature: Seq<u8>|
        accepts(public_half(key), encode_utf8(message1), signature) && #[trigger] base64_text(
            signature,
        ) == text1;
    let signature2 = choose|signature: Seq<u8>|
        accepts(public_half(key), encode_utf8(message2), signature) && #[trigger] base64_text(
            signature,
        ) == text2;
    if text1 == text2 {
        lemma_base64_injective(signature1, signature2);
    }
}

/// Writes the message that is signed for a request.
pub fn signing_message_string(
    method: HttpMethod,
    path: &str,
    timestamp: u64,
    nonce: &str,
    body: &str,
) -> (out: String)
    ensures
        out@ == signing_message(method.name(), path@, timestamp as nat, nonce@, body@),
{
    let time = decimal_string(timestamp);
    let mut out = String::new();
    append_line(&mut out, method.as_str());
    append_line(&mut out, path);
    append_line(&mut out, time.as_str());
    append_line(&mut out, nonce);
    append_line(&mut out, body);
    assert(out@ =~= signing_message(method.name(), path@, timestamp as nat, nonce@, body@));
    out
}

/// Puts a signature into base64. A signature too long for its text to be
/// held is refused.
pub fn encode_signature(signature: &[u8]) -> (res: Result<String, SignatureError>)
    ensures
        text_outcome(res) == signature_text(signature@),
{
    if signature.len() / 3 <= (usize::MAX - 4) / 4 {
        Ok(base64_encode(signature))
    } else {
        Err(SignatureError::Rejected)
    }
}

/// Signs a message with a private key given as a PKCS#8 PEM document.
pub fn rsa_sign(private_key: &str, message: &str) -> (res: Result<String, SignatureError>)
    ensures
        text_outcome(res) == signing_result(private_key@, message@),
        res matches Ok(text) ==> signed_by(private_key@, message@, text@),
{
    let key = match parse_private_key(private_key) {
        Ok(key) => key,
        Err(_) => {
            return Err(SignatureError::MalformedKey);
        },
    };
    let bits = prime_bits_of(&key);
    if bits.len() != 2 || (bits[1] > bits[0] && bits[1] - bits[0] > 1) {
        return Err(SignatureError::MalformedKey);
    }
    let digest = sha256_digest(message.as_bytes());
    match sign_digest(&key, digest.as_slice()) {
        Ok(signature) => encode_signature(signature.as_slice()),
        Err(_) => Err(SignatureError::Rejected),
    }
}

impl WechatPay {
    /// Signs one request. The nonce must be fresh and the time that of
    /// sending: the caller makes both anew for each request.
    pub fn sign(&self, method: HttpMethod, path: &str, body: &str, nonce: &str, timestamp: u64) -> (res:
        Result<AuthHeader, PayError>)
        ensures
            header_outcome(res) == auth_header(
                self@,
                method,
                path@,
                body@,
                nonce@,
                timestamp as nat,
            ),
            res matches Ok(header) ==> signed_by(
                self@.private_key,
                signing_message(method.name(), path@, timestamp as nat, nonce@, body@),
                header.signature@,
            ),
    {
        let message = signing_message_string(method, path, timestamp, nonce, body);
        match rsa_sign(self.private_key(), message.as_str()) {
            Ok(signature) => Ok(
                AuthHeader {
                    mch_id: String::from_str(self.mch_id()),
                    serial_no: String::from_str(self.serial_no()),
                    nonce_str: String::from_str(nonce),
                    timestamp,
                    signature,
                },
            ),
            Err(why) => Err(PayError::SignError(why)),
        }
    }
}

} // verus!
