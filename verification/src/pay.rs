//! The merchant's credentials and settings.

use vstd::prelude::*;

verus! {

/// What a `WechatPay` holds, as plain text.
pub struct Merchant {
    /// The application identifier.
    pub appid: Seq<char>,
    /// The merchant identifier.
    pub mch_id: Seq<char>,
    /// The merchant's private key, a PKCS#8 PEM document.
    pub private_key: Seq<char>,
    /// The serial number of the merchant certificate that belongs to the
    /// private key.
    pub serial_no: Seq<char>,
    /// The symmetric key that the gateway encrypts sensitive fields with.
    pub v3_key: Seq<char>,
    /// The address that the gateway reports the outcome of a payment to.
    pub notify_url: Seq<char>,
    /// The gateway's address, without a path.
    pub base_url: Seq<char>,
}

/// The credentials and settings of one merchant. Nothing changes them once
/// the value is made.
pub struct WechatPay {
    appid: String,
    mch_id: String,
    private_key: String,
    serial_no: String,
    v3_key: String,
    notify_url: String,
    base_url: String,
}

impl View for WechatPay {
    type V = Merchant;

    closed spec fn view(&self) -> Merchant {
        Merchant {
            appid: self.appid@,
            mch_id: self.mch_id@,
            private_key: self.private_key@,
            serial_no: self.serial_no@,
            v3_key: self.v3_key@,
            notify_url: self.notify_url@,
            base_url: self.base_url@,
        }
    }
}

/// The address of the production gateway.
pub const DEFAULT_BASE_URL: &'static str = "https://api.mch.weixin.qq.com";

impl WechatPay {
    /// The credentials of a merchant of the production gateway.
    pub fn new(
        appid: &str,
        mch_id: &str,
        private_key: &str,
        serial_no: &str,
        v3_key: &str,
        notify_url: &str,
    ) -> (pay: WechatPay)
        ensures
            pay@ == (Merchant {
                appid: appid@,
                mch_id: mch_id@,
                private_key: private_key@,
                serial_no: serial_no@,
                v3_key: v3_key@,
                notify_url: notify_url@,
                base_url: DEFAULT_BASE_URL@,
            }),
    {
        WechatPay {
            appid: String::from_str(appid),
            mch_id: String::from_str(mch_id),
            private_key: String::from_str(private_key),
            serial_no: String::from_str(serial_no),
            v3_key: String::from_str(v3_key),
            notify_url: String::from_str(notify_url),
            base_url: String::from_str(DEFAULT_BASE_URL),
        }
    }

    /// The same credentials, for a gateway at another address.
    pub fn with_base_url(self, base_url: &str) -> (pay: WechatPay)
        ensures
            pay@ == (Merchant { base_url: base_url@, ..self@ }),
    {
        WechatPay {
            appid: self.appid,
            mch_id: self.mch_id,
            private_key: self.private_key,
            serial_no: self.serial_no,
            v3_key: self.v3_key,
            notify_url: self.notify_url,
            base_url: String::from_str(base_url),
        }
    }

    /// The application identifier.
    pub fn appid(&self) -> (out: &str)
        ensures
            out@ == self@.appid,
    {
        self.appid.as_str()
    }

    /// The merchant identifier.
    pub fn mch_id(&self) -> (out: &str)
        ensures
            out@ == self@.mch_id,
    {
        self.mch_id.as_str()
    }

    /// The private key, a PKCS#8 PEM document.
    pub fn private_key(&self) -> (out: &str)
        ensures
            out@ == self@.private_key,
    {
        self.private_key.as_str()
    }

    /// The serial number of the merchant certificate.
    pub fn serial_no(&self) -> (out: &str)
        ensures
            out@ == self@.serial_no,
    {
        self.serial_no.as_str()
    }

    /// The symmetric key for encrypted fields.
    pub fn v3_key(&self) -> (out: &str)
        ensures
            out@ == self@.v3_key,
    {
        self.v3_key.as_str()
    }

    /// The address that outcomes are reported to.
    pub fn notify_url(&self) -> (out: &str)
        ensures
            out@ == self@.notify_url,
    {
        self.notify_url.as_str()
    }

    /// The gateway's address.
    pub fn base_url(&self) -> (out: &str)
        ensures
            out@ == self@.base_url,
    {
        self.base_url.as_str()
    }
}

} // verus!
