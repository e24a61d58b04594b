//! The values that are handed to a transport.

use vstd::prelude::*;

verus! {

/// The HTTP verbs that the gateway is spoken to with.
#[derive(Debug, Clone, Copy, PartialEq, Eq)]
pub enum HttpMethod {
    GET,
    POST,
    PUT,
    DELETE,
    PATCH,
}

impl HttpMethod {
    /// The verb as it stands in the request line and in the signed message.
    pub open spec fn name(self) -> Seq<char> {
        match self {
            HttpMethod::GET => "GET"@,
            HttpMethod::POST => "POST"@,
            HttpMethod::PUT => "PUT"@,
            HttpMethod::DELETE => "DELETE"@,
            HttpMethod::PATCH => "PATCH"@,
        }
    }

    /// The verb as text.
    pub fn as_str(&self) -> (out: &'static str)
        ensures
            out@ == self.name(),
    {
        match self {
            HttpMethod::GET => "GET",
            HttpMethod::POST => "POST",
            HttpMethod::PUT => "PUT",
            HttpMethod::DELETE => "DELETE",
            HttpMethod::PATCH => "PATCH",
        }
    }
}

/// What a request is, as plain values.
pub struct RequestView {
    pub method: HttpMethod,
    pub url: Seq<char>,
    pub authorization: Seq<char>,
    pub content_type: Seq<char>,
    pub body: Seq<char>,
}

/// A request that is ready to be sent.
#[derive(Debug, Clone, PartialEq, Eq)]
pub struct SignedRequest {
    pub method: HttpMethod,
    /// The gateway's base address followed by the path that was signed.
    pub url: String,
    /// The value of the `Authorization` header.
    pub authorization: String,
    /// The value of the `Content-Type` header.
    pub content_type: String,
    /// The body, byte for byte as it was signed.
    pub body: String,
}

impl View for SignedRequest {
    type V = RequestView;

    open spec fn view(&self) -> RequestView {
        RequestView {
            method: self.method,
            url: self.url@,
            authorization: self.authorization@,
            content_type: self.content_type@,
            body: self.body@,
        }
    }
}

} // verus!
