//! Client-side authentication for the WeChat Pay v3 HTTP API.
//!
//! The crate signs outgoing requests with the merchant's private key,
//! checks the signature that the gateway puts on its responses against a
//! cache of platform certificates, and signs the parameters that a payer's
//! device needs to open the payment sheet. It sends nothing itself: each
//! operation yields a request value for a transport to carry.

pub mod client_sign;
pub mod crypto;
pub mod dispatch;
pub mod error;
pub mod json;
pub mod pay;
pub mod request;
pub mod sign;
pub mod text;
pub mod upload;
pub mod verify;
pub mod weixin;
