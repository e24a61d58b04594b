//! The client signature packager: what a payer's device needs to open the
//! payment sheet for an order that the gateway has accepted.

use vstd::prelude::*;
use vstd::string::StringExecFns;
use crate::error::{PayError, PayErrorView};
use crate::pay::{Merchant, WechatPay};
use crate::sign::{rsa_sign, signed_by, signing_result};
use crate::text::{append_line, decimal, decimal_string, line};

verus! {

/// The package field for a prepay identifier.
pub open spec fn package_text(prepay_id: Seq<char>) -> Seq<char> {
    "prepay_id="@ + prepay_id
}

/// The message that is signed for the payer's device: the application
/// identifier, the time in seconds, the nonce and the package, each on a
/// line of its own.
pub open spec fn client_message(
    app_id: Seq<char>,
    timestamp: nat,
    nonce: Seq<char>,
    package: Seq<char>,
) -> Seq<char> {
    line(app_id) + line(decimal(timestamp)) + line(nonce) + line(package)
}

/// What a `SignData` is, as plain values.
pub struct SignDataView {
    pub app_id: Seq<char>,
    pub sign_type: Seq<char>,
    pub package: Seq<char>,
    pub nonce_str: Seq<char>,
    pub timestamp: Seq<char>,
    pub pay_sign: Seq<char>,
}

/// The fields that the payer's device passes to the payment sheet. They
/// are good for one attempt: another attempt gets a new nonce and time.
#[derive(Debug, Clone, PartialEq, Eq)]
pub struct SignData {
    /// The application identifier that was signed; it may be empty.
    pub app_id: String,
    /// The kind of signature, `RSA`.
    pub sign_type: String,
    /// The prepay identifier, as `prepay_id=` and its value.
    pub package: String,
    pub nonce_str: String,
    /// The time in seconds, in decimal.
    pub timestamp: String,
    /// The signature over the four fields above, in base64.
    pub pay_sign: String,
}

impl View for SignData {
    type V = SignDataView;

    open spec fn view(&self) -> SignDataView {
        SignDataView {
            app_id: self.app_id@,
            sign_type: self.sign_type@,
            package: self.package@,
            nonce_str: self.nonce_str@,
            timestamp: self.timestamp@,
            pay_sign: self.pay_sign@,
        }
    }
}

/// The signed fields for a prepay identifier.
pub open spec fn sign_data(
    merchant: Merchant,
    app_id: Seq<char>,
    prepay_id: Seq<char>,
    nonce: Seq<char>,
    timestamp: nat,
) -> Result<SignDataView, PayErrorView> {
    match signing_result(
        merchant.private_key,
        client_message(app_id, timestamp, nonce, package_text(prepay_id)),
    ) {
        Ok(pay_sign) => Ok(
            SignDataView {
                app_id,
                sign_type: "RSA"@,
                package: package_text(prepay_id),
                nonce_str: nonce,
                timestamp: decimal(timestamp),
                pay_sign,
            },
        ),
        Err(why) => Err(PayErrorView::SignError(why)),
    }
}

/// The signed fields for the prepay identifier of a response, where it
/// has one.
pub open spec fn prepay_sign_data(
    merchant: Merchant,
    prepay_id: Option<Seq<char>>,
    nonce: Seq<char>,
    timestamp: nat,
) -> Result<Option<SignDataView>, PayErrorView> {
    match prepay_id {
        None => Ok(None),
        Some(id) => match sign_data(merchant, Seq::empty(), id, nonce, timestamp) {
            Ok(data) => Ok(Some(data)),
            Err(e) => Err(e),
        },
    }
}

/// Signed fields or an error, as plain values.
pub open spec fn sign_data_outcome(res: Result<SignData, PayError>) -> Result<
    SignDataView,
    PayErrorView,
> {
    match res {
        Ok(data) => Ok(data@),
        Err(e) => Err(e@),
    }
}

/// Signed fields, none, or an error, as plain values.
pub open spec fn prepay_outcome(res: Result<Option<SignData>, PayError>) -> Result<
    Option<SignDataView>,
    PayErrorView,
> {
    match res {
        Ok(Some(data)) => Ok(Some(data@)),
        Ok(None) => Ok(None),
        Err(e) => Err(e@),
    }
}

/// A prepay identifier as plain text, where there is one.
pub open spec fn prepay_view(prepay_id: Option<&str>) -> Option<Seq<char>> {
    match prepay_id {
        Some(id) => Some(id@),
        None => None,
    }
}

impl WechatPay {
    /// Signs the fields for one attempt to pay an accepted order. The
    /// nonce must be fresh and the time the present one.
    pub fn mut_sign_data(&self, app_id: &str, prepay_id: &str, nonce: &str, timestamp: u64) -> (res:
        Result<SignData, PayError>)
        ensures
            sign_data_outcome(res) == sign_data(
                self@,
                app_id@,
                prepay_id@,
                nonce@,
                timestamp as nat,
            ),
            res matches Ok(data) ==> signed_by(
                self@.private_key,
                client_message(app_id@, timestamp as nat, nonce@, package_text(prepay_id@)),
                data.pay_sign@,
            ),
    {
        let mut package = String::from_str("prepay_id=");
        package.append(prepay_id);
        let time = decimal_string(timestamp);
        let mut message = String::new();
        append_line(&mut message, app_id);
        append_line(&mut message, time.as_str());
        append_line(&mut message, nonce);
        append_line(&mut message, package.as_str());
        assert(message@ =~= client_message(
            app_id@,
            timestamp as nat,
            nonce@,
            package_text(prepay_id@),
        ));
        match rsa_sign(self.private_key(), message.as_str()) {
            Ok(pay_sign) => Ok(
                SignData {
                    app_id: String::from_str(app_id),
                    sign_type: String::from_str("RSA"),
                    package,
                    nonce_str: String::from_str(nonce),
                    timestamp: time,
                    pay_sign,
                },
            ),
            Err(why) => Err(PayError::SignError(why)),
        }
    }

    /// Signs the fields for the prepay identifier that a response to an
    /// order carries. A response without one gets none.
    pub fn sign_prepay(&self, prepay_id: Option<&str>, nonce: &str, timestamp: u64) -> (res: Result<
        Option<SignData>,
        PayError,
    >)
        ensures
            prepay_outcome(res) == prepay_sign_data(
                self@,
                prepay_view(prepay_id),
                nonce@,
                timestamp as nat,
            ),
            res matches Ok(Some(data)) ==> signed_by(
                self@.private_key,
                client_message(Seq::empty(), timestamp as nat, nonce@, data.package@),
                data.pay_sign@,
            ),
    {
        proof {
            reveal_strlit("");
            assert(""@ =~= Seq::<char>::empty());
        }
        match prepay_id {
            None => Ok(None),
            Some(id) => match self.mut_sign_data("", id, nonce, timestamp) {
                Ok(data) => Ok(Some(data)),
                Err(e) => Err(e),
            },
        }
    }
}

} // verus!
