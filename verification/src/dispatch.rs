//! The dispatcher: it writes the body of a request, has it signed, and
//! hands the whole to the caller, who sends it.

use vstd::prelude::*;
use vstd::string::StringExecFns;
use crate::error::{PayError, PayErrorView};
use crate::json::{
    insert_json_string, json_object_members, json_object_text, json_string_text,
    parse_json_object, write_json_object,
};
use crate::pay::{Merchant, WechatPay};
use crate::request::{HttpMethod, RequestView, SignedRequest};
use crate::sign::{auth_header, authorization_text, authorized_by};

verus! {

/// The signed request that carries a body to a path of the gateway.
pub open spec fn signed_request(
    merchant: Merchant,
    method: HttpMethod,
    path: Seq<char>,
    body: Seq<char>,
    nonce: Seq<char>,
    timestamp: nat,
) -> Result<RequestView, PayErrorView> {
    match auth_header(merchant, method, path, body, nonce, timestamp) {
        Ok(header) => Ok(
            RequestView {
                method,
                url: merchant.base_url + path,
                authorization: header.text(),
                content_type: "application/json"@,
                body,
            },
        ),
        Err(e) => Err(e),
    }
}

/// The body of an order: the caller's parameters, a JSON object, with the
/// merchant's application identifier, merchant identifier and callback
/// address set in it.
pub open spec fn order_body(merchant: Merchant, params: Seq<char>) -> Option<Seq<char>> {
    match json_object_members(params) {
        None => None,
        Some(members) => Some(
            json_object_text(
                members.insert("appid"@, json_string_text(merchant.appid)).insert(
                    "mchid"@,
                    json_string_text(merchant.mch_id),
                ).insert("notify_url"@, json_string_text(merchant.notify_url)),
            ),
        ),
    }
}

/// The signed request that places an order.
pub open spec fn order_request(
    merchant: Merchant,
    method: HttpMethod,
    path: Seq<char>,
    params: Seq<char>,
    nonce: Seq<char>,
    timestamp: nat,
) -> Result<RequestView, PayErrorView> {
    match order_body(merchant, params) {
        None => Err(PayErrorView::JsonError),
        Some(body) => signed_request(merchant, method, path, body, nonce, timestamp),
    }
}

/// A request or an error, as plain values.
pub open spec fn request_outcome(res: Result<SignedRequest, PayError>) -> Result<
    RequestView,
    PayErrorView,
> {
    match res {
        Ok(request) => Ok(request@),
        Err(e) => Err(e@),
    }
}

impl WechatPay {
    /// Signs a body and makes the request that carries it. The body goes
    /// out as it was signed.
    pub fn request(
        &self,
        method: HttpMethod,
        path: &str,
        body: String,
        nonce: &str,
        timestamp: u64,
    ) -> (res: Result<SignedRequest, PayError>)
        ensures
            request_outcome(res) == signed_request(
                self@,
                method,
                path@,
                body@,
                nonce@,
                timestamp as nat,
            ),
            res matches Ok(request) ==> authorized_by(
                self@,
                method,
                path@,
                body@,
                nonce@,
                timestamp as nat,
                request.authorization@,
            ),
    {
        let header = match self.sign(method, path, body.as_str(), nonce, timestamp) {
            Ok(header) => header,
            Err(e) => {
                return Err(e);
            },
        };
        assert(authorization_text(
            self@.mch_id,
            nonce@,
            timestamp as nat,
            self@.serial_no,
            header.signature@,
        ) == header@.text());
        let mut url = String::from_str(self.base_url());
        url.append(path);
        Ok(
            SignedRequest {
                method,
                url,
                authorization: header.value(),
                content_type: String::from_str("application/json"),
                body,
            },
        )
    }

    /// Makes the request that places an order. `params` is the order as a
    /// JSON object; the merchant's own fields are set in it before it is
    /// signed.
    pub fn pay(&self, method: HttpMethod, url: &str, params: &str, nonce: &str, timestamp: u64) -> (res:
        Result<SignedRequest, PayError>)
        ensures
            request_outcome(res) == order_request(
                self@,
                method,
                url@,
                params@,
                nonce@,
                timestamp as nat,
            ),
            res matches Ok(request) ==> authorized_by(
                self@,
                method,
                url@,
                request.body@,
                nonce@,
                timestamp as nat,
                request.authorization@,
            ),
    {
        let mut object = match parse_json_object(params) {
            Ok(object) => object,
            Err(_) => {
                return Err(PayError::JsonError);
            },
        };
        insert_json_string(&mut object, "appid", self.appid());
        insert_json_string(&mut object, "mchid", self.mch_id());
        insert_json_string(&mut object, "notify_url", self.notify_url());
        match write_json_object(&object) {
            Ok(body) => self.request(method, url, body, nonce, timestamp),
            Err(_) => Err(PayError::JsonError),
        }
    }

    /// Makes the request that reads from a path: a `GET` with an empty
    /// body.
    pub fn get_pay(&self, url: &str, nonce: &str, timestamp: u64) -> (res: Result<
        SignedRequest,
        PayError,
    >)
        ensures
            request_outcome(res) == signed_request(
                self@,
                HttpMethod::GET,
                url@,
                Seq::empty(),
                nonce@,
                timestamp as nat,
            ),
            res matches Ok(request) ==> authorized_by(
                self@,
                HttpMethod::GET,
                url@,
                Seq::empty(),
                nonce@,
                timestamp as nat,
                request.authorization@,
            ),
    {
        self.request(HttpMethod::GET, url, String::new(), nonce, timestamp)
    }

    /// Makes the request for an order that is paid in a mobile browser.
    pub fn h5_pay(&self, params: &str, nonce: &str, timestamp: u64) -> (res: Result<
        SignedRequest,
        PayError,
    >)
        ensures
            request_outcome(res) == order_request(
                self@,
                HttpMethod::POST,
                "/v3/pay/transactions/h5"@,
                params@,
                nonce@,
                timestamp as nat,
            ),
            res matches Ok(request) ==> authorized_by(
                self@,
                HttpMethod::POST,
                "/v3/pay/transactions/h5"@,
                request.body@,
                nonce@,
                timestamp as nat,
                request.authorization@,
            ),
    {
        self.pay(HttpMethod::POST, "/v3/pay/transactions/h5", params, nonce, timestamp)
    }

    /// Makes the request for an order that is paid from the merchant's own
    /// application.
    pub fn app_pay(&self, params: &str, nonce: &str, timestamp: u64) -> (res: Result<
        SignedRequest,
        PayError,
    >)
        ensures
            request_outcome(res) == order_request(
                self@,
                HttpMethod::POST,
                "/v3/pay/transactions/app"@,
                params@,
                nonce@,
                timestamp as nat,
            ),
            res matches Ok(request) ==> authorized_by(
                self@,
                HttpMethod::POST,
                "/v3/pay/transactions/app"@,
                request.body@,
                nonce@,
                timestamp as nat,
                request.authorization@,
            ),
    {
        self.pay(HttpMethod::POST, "/v3/pay/transactions/app", params, nonce, timestamp)
    }

    /// Makes the request for an order that is paid inside the gateway's
    /// own application.
    pub fn jsapi_pay(&self, params: &str, nonce: &str, timestamp: u64) -> (res: Result<
        SignedRequest,
        PayError,
    >)
        ensures
            request_outcome(res) == order_request(
                self@,
                HttpMethod::POST,
                "/v3/pay/transactions/jsapi"@,
                params@,
                nonce@,
                timestamp as nat,
            ),
            res matches Ok(request) ==> authorized_by(
                self@,
                HttpMethod::POST,
                "/v3/pay/transactions/jsapi"@,
                request.body@,
                nonce@,
                timestamp as nat,
                request.authorization@,
            ),
    {
        self.pay(HttpMethod::POST, "/v3/pay/transactions/jsapi", params, nonce, timestamp)
    }

    /// Makes the request for an order that is paid from a mini program. It
    /// goes to the same path as `jsapi_pay`.
    pub fn micro_pay(&self, params: &str, nonce: &str, timestamp: u64) -> (res: Result<
        SignedRequest,
        PayError,
    >)
        ensures
            request_outcome(res) == order_request(
                self@,
                HttpMethod::POST,
                "/v3/pay/transactions/jsapi"@,
                params@,
                nonce@,
                timestamp as nat,
            ),
            res matches Ok(request) ==> authorized_by(
                self@,
                HttpMethod::POST,
                "/v3/pay/transactions/jsapi"@,
                request.body@,
                nonce@,
                timestamp as nat,
                request.authorization@,
            ),
    {
        self.pay(HttpMethod::POST, "/v3/pay/transactions/jsapi", params, nonce, timestamp)
    }

    /// Makes the request for an order that is paid by scanning a code.
    pub fn native_pay(&self, params: &str, nonce: &str, timestamp: u64) -> (res: Result<
        SignedRequest,
        PayError,
    >)
        ensures
            request_outcome(res) == order_request(
                self@,
                HttpMethod::POST,
                "/v3/pay/transactions/native"@,
                params@,
                nonce@,
                timestamp as nat,
            ),
            res matches Ok(request) ==> authorized_by(
                self@,
                HttpMethod::POST,
                "/v3/pay/transactions/native"@,
                request.body@,
                nonce@,
                timestamp as nat,
                request.authorization@,
            ),
    {
        self.pay(HttpMethod::POST, "/v3/pay/transactions/native", params, nonce, timestamp)
    }

    /// Makes the request that lists the gateway's current certificates.
    pub fn certificates(&self, nonce: &str, timestamp: u64) -> (res: Result<
        SignedRequest,
        PayError,
    >)
        ensures
            request_outcome(res) == signed_request(
                self@,
                HttpMethod::GET,
                "/v3/certificates"@,
                Seq::empty(),
                nonce@,
                timestamp as nat,
            ),
            res matches Ok(request) ==> authorized_by(
                self@,
                HttpMethod::GET,
                "/v3/certificates"@,
                Seq::empty(),
                nonce@,
                timestamp as nat,
                request.authorization@,
            ),
    {
        self.get_pay("/v3/certificates", nonce, timestamp)
    }
}

} // verus!
