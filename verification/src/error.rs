//! What can go wrong, by kind, so that a caller can tell a refusal that is
//! worth retrying from one that is not.

use vstd::prelude::*;

verus! {

/// Why no signature was made.
#[derive(Debug, Clone, Copy, PartialEq, Eq)]
pub enum SignatureError {
    /// The private key is not a PKCS#8 PEM document holding an RSA key of
    /// two factors, the second at most a bit longer than the first.
    MalformedKey,
    /// The key was read, and the signing backend refused to sign with it.
    Rejected,
}

/// Why a response was not accepted.
#[derive(Debug, Clone, Copy, PartialEq, Eq)]
pub enum VerificationError {
    /// No certificate with the advertised serial number is in the cache, or
    /// the one that is has expired.
    UnknownCertificate,
    /// The key to check against cannot be read.
    MalformedKey,
    /// The signature is not well-formed base64.
    MalformedSignature,
    /// The signature was not made over the message that was delivered.
    Mismatch,
}

/// What a `PayError` is, as plain values.
pub enum PayErrorView {
    WechatError(Seq<char>),
    WeixinNotFound,
    JsonError,
    SignError(SignatureError),
}

/// An error of the library.
#[derive(Debug, Clone, PartialEq, Eq)]
pub enum PayError {
    /// A local check refused the input before anything was signed; the
    /// text says why.
    WechatError(String),
    /// The page holds no payment link.
    WeixinNotFound,
    /// The parameters are not a JSON object.
    JsonError,
    /// The request could not be signed.
    SignError(SignatureError),
}

impl View for PayError {
    type V = PayErrorView;

    open spec fn view(&self) -> PayErrorView {
        match self {
            PayError::WechatError(text) => PayErrorView::WechatError(text@),
            PayError::WeixinNotFound => PayErrorView::WeixinNotFound,
            PayError::JsonError => PayErrorView::JsonError,
            PayError::SignError(why) => PayErrorView::SignError(*why),
        }
    }
}

} // verus!
