//! The certificate cache and the check of the gateway's responses. A
//! response is trusted only if its signature was made, over the message
//! that was delivered, by a certificate that the cache holds and that has
//! not expired.

use vstd::prelude::*;
use vstd::string::StringSliceAdditionalSpecFns;
use vstd::utf8::encode_utf8;
use crate::crypto::{
    accepts, base64_bytes, base64_decode, base64_text, lemma_base64_bytes, parse_private_key,
    parse_public_key, pkcs8_private_key, public_half, public_key_of, sha256_digest,
    spki_public_key, verify_digest,
};
use crate::error::VerificationError;
use crate::sign::signed_by;
use crate::text::{append_line, line};

verus! {

/// What a `PlatformCertificate` is, as plain values.
pub struct CertificateView {
    pub serial_number: Seq<char>,
    pub public_key: Seq<char>,
    pub effective_time: nat,
    pub expire_time: nat,
}

/// One of the gateway's signing certificates.
#[derive(Debug, Clone, PartialEq, Eq)]
pub struct PlatformCertificate {
    pub serial_number: String,
    /// The public key, a PEM-encoded SubjectPublicKeyInfo.
    pub public_key: String,
    /// The second from which the certificate is in force.
    pub effective_time: u64,
    /// The second from which the certificate is no longer in force.
    pub expire_time: u64,
}

impl View for PlatformCertificate {
    type V = CertificateView;

    open spec fn view(&self) -> CertificateView {
        CertificateView {
            serial_number: self.serial_number@,
            public_key: self.public_key@,
            effective_time: self.effective_time as nat,
            expire_time: self.expire_time as nat,
        }
    }
}

/// What the signature headers of a response are, as plain values.
pub struct ResponseSignatureView {
    pub timestamp: Seq<char>,
    pub nonce: Seq<char>,
    pub signature: Seq<char>,
    pub serial: Seq<char>,
}

/// The headers by which the gateway signs a response.
#[derive(Debug, Clone, PartialEq, Eq)]
pub struct ResponseSignature {
    pub timestamp: String,
    pub nonce: String,
    /// The signature, in base64.
    pub signature: String,
    /// The serial number of the certificate that signed.
    pub serial: String,
}

impl View for ResponseSignature {
    type V = ResponseSignatureView;

    open spec fn view(&self) -> ResponseSignatureView {
        ResponseSignatureView {
            timestamp: self.timestamp@,
            nonce: self.nonce@,
            signature: self.signature@,
            serial: self.serial@,
        }
    }
}

/// Whether a certificate answers to a serial number at a given second: it
/// has that number and has not expired.
pub open spec fn answers(certificate: CertificateView, serial: Seq<char>, now: nat) -> bool {
    certificate.serial_number == serial && now < certificate.expire_time
}

/// The first certificate of a set that answers to a serial number.
pub open spec fn lookup(certificates: Seq<CertificateView>, serial: Seq<char>, now: nat) -> Option<
    CertificateView,
>
    decreases certificates.len(),
{
    if certificates.len() == 0 {
        None
    } else if answers(certificates[0], serial, now) {
        Some(certificates[0])
    } else {
        lookup(certificates.skip(1), serial, now)
    }
}

/// The message that the gateway signs for a response: the time, the nonce
/// and the body, each on a line of its own.
pub open spec fn response_message(timestamp: Seq<char>, nonce: Seq<char>, body: Seq<char>) -> Seq<
    char,
> {
    line(timestamp) + line(nonce) + line(body)
}

/// Whether a signature, given in base64, is accepted by a public key for
/// a message.
pub open spec fn key_check(key: Seq<u8>, message: Seq<char>, signature: Seq<char>) -> Result<
    (),
    VerificationError,
> {
    match base64_bytes(signature) {
        None => Err(VerificationError::MalformedSignature),
        Some(bytes) => if accepts(key, encode_utf8(message), bytes) {
            Ok(())
        } else {
            Err(VerificationError::Mismatch)
        },
    }
}

/// Whether a signature, given in base64, was made over a message by the
/// owner of a public key, given as a PEM document.
pub open spec fn signature_check(public_key: Seq<char>, message: Seq<char>, signature: Seq<char>) -> Result<
    (),
    VerificationError,
> {
    match spki_public_key(public_key) {
        None => Err(VerificationError::MalformedKey),
        Some(key) => key_check(key, message, signature),
    }
}

/// Whether a signature, given in base64, is accepted for a message by the
/// public half of a private key, given as a PEM document.
pub open spec fn own_signature_check(
    private_key: Seq<char>,
    message: Seq<char>,
    signature: Seq<char>,
) -> Result<(), VerificationError> {
    match pkcs8_private_key(private_key) {
        None => Err(VerificationError::MalformedKey),
        Some(key) => key_check(public_half(key), message, signature),
    }
}

/// What is to be done with the body of a response.
#[derive(Debug, Clone, Copy, PartialEq, Eq)]
pub enum Answer {
    /// The gateway did what was asked: the body is the result.
    Accepted,
    /// The gateway refused: the body says why.
    Rejected,
}

/// Whether a status code reports success.
pub open spec fn is_success(status: u16) -> bool {
    200 <= status < 300
}

/// What the body of a response with a given status is to be read as.
pub open spec fn answer_of(status: u16) -> Answer {
    if is_success(status) {
        Answer::Accepted
    } else {
        Answer::Rejected
    }
}

/// What is to be done with a response: its signature comes first, then
/// its status. A response that the certificates at hand do not vouch
/// for is not read at all, whatever its status.
pub open spec fn judgement(
    certificates: Seq<CertificateView>,
    headers: ResponseSignatureView,
    body: Seq<char>,
    status: u16,
    now: nat,
) -> Result<Answer, VerificationError> {
    match verification(certificates, headers, body, now) {
        Err(why) => Err(why),
        Ok(_) => Ok(answer_of(status)),
    }
}

/// Whether a response is to be trusted, given the certificates at hand.
pub open spec fn verification(
    certificates: Seq<CertificateView>,
    headers: ResponseSignatureView,
    body: Seq<char>,
    now: nat,
) -> Result<(), VerificationError> {
    match lookup(certificates, headers.serial, now) {
        None => Err(VerificationError::UnknownCertificate),
        Some(certificate) => signature_check(
            certificate.public_key,
            response_message(headers.timestamp, headers.nonce, body),
            headers.signature,
        ),
    }
}

/// A set in which no certificate answers to a serial number yields none
/// for it.
pub proof fn lemma_lookup_none(certificates: Seq<CertificateView>, serial: Seq<char>, now: nat)
    requires
        forall|i: int| 0 <= i < certificates.len() ==> !answers(certificates[i], serial, now),
    ensures
        lookup(certificates, serial, now) is None,
    decreases certificates.len(),
{
    if certificates.len() > 0 {
        let rest = certificates.skip(1);
        assert forall|i: int| 0 <= i < rest.len() implies !answers(rest[i], serial, now) by {
            assert(rest[i] == certificates[i + 1]);
        }
        lemma_lookup_none(rest, serial, now);
    }
}

/// A certificate that comes out of a set is one of the set, has the serial
/// number that was asked for, and has not expired.
pub proof fn lemma_lookup_some(certificates: Seq<CertificateView>, serial: Seq<char>, now: nat)
    requires
        lookup(certificates, serial, now) is Some,
    ensures
        certificates.contains(lookup(certificates, serial, now)->0),
        lookup(certificates, serial, now)->0.serial_number == serial,
        now < lookup(certificates, serial, now)->0.expire_time,
    decreases certificates.len(),
{
    if answers(certificates[0], serial, now) {
        assert(certificates[0] == lookup(certificates, serial, now)->0);
    } else {
        let rest = certificates.skip(1);
        lemma_lookup_some(rest, serial, now);
        let found = lookup(rest, serial, now)->0;
        let i = choose|i: int| 0 <= i < rest.len() && rest[i] == found;
        assert(certificates[i + 1] == found);
    }
}

/// A response is refused where no certificate of the cache has the serial
/// number that the response names, or each one that has it has expired:
/// whatever the signature, and whatever it would be worth under a key
/// that the cache no longer holds.
pub proof fn lemma_unknown_serial_rejected(
    certificates: Seq<CertificateView>,
    headers: ResponseSignatureView,
    body: Seq<char>,
    now: nat,
)
    requires
        forall|i: int|
            0 <= i < certificates.len() ==> !answers(certificates[i], headers.serial, now),
    ensures
        verification(certificates, headers, body, now) == Err::<(), VerificationError>(
            VerificationError::UnknownCertificate,
        ),
{
    lemma_lookup_none(certificates, headers.serial, now);
}

/// Responses with different bodies are signed over different messages,
/// whose UTF-8 bytes differ too.
pub proof fn lemma_response_message_body(
    timestamp: Seq<char>,
    nonce: Seq<char>,
    body1: Seq<char>,
    body2: Seq<char>,
)
    requires
        body1 != body2,
    ensures
        response_message(timestamp, nonce, body1) != response_message(timestamp, nonce, body2),
        encode_utf8(response_message(timestamp, nonce, body1)) != encode_utf8(
            response_message(timestamp, nonce, body2),
        ),
{
    let start = line(timestamp) + line(nonce);
    let m1 = response_message(timestamp, nonce, body1);
    let m2 = response_message(timestamp, nonce, body2);
    if m1 == m2 {
        crate::sign::lemma_same_beginning(start, line(body1), line(body2));
        assert(line(body1).drop_last() =~= body1);
        assert(line(body2).drop_last() =~= body2);
        assert(false);
    }
    if encode_utf8(m1) == encode_utf8(m2) {
        crate::sign::lemma_utf8_injective(m1, m2);
    }
}

/// Tamper detection: headers that are accepted for one body are refused
/// for any other body that is delivered with them. Left out are the
/// bodies whose messages, which differ, have the same SHA-256 digest.
pub proof fn lemma_tampered_body_rejected(
    certificates: Seq<CertificateView>,
    headers: ResponseSignatureView,
    signed_body: Seq<char>,
    delivered_body: Seq<char>,
    now: nat,
)
    requires
        verification(certificates, headers, signed_body, now) is Ok,
        signed_body != delivered_body,
        crate::crypto::sha256(
            encode_utf8(response_message(headers.timestamp, headers.nonce, signed_body)),
        ) != crate::crypto::sha256(
            encode_utf8(response_message(headers.timestamp, headers.nonce, delivered_body)),
        ),
    ensures
        verification(certificates, headers, delivered_body, now) == Err::<(), VerificationError>(
            VerificationError::Mismatch,
        ),
{
}

/// What was signed with a private key is accepted by its public half:
/// a text that `signed_by` holds of passes the check against the key it
/// was made with.
pub proof fn lemma_signed_text_verifies(
    private_key: Seq<char>,
    message: Seq<char>,
    signature: Seq<char>,
)
    requires
        signed_by(private_key, message, signature),
    ensures
        own_signature_check(private_key, message, signature) == Ok::<(), VerificationError>(()),
{
    let key = pkcs8_private_key(private_key)->0;
    let bytes = choose|bytes: Seq<u8>|
        accepts(public_half(key), encode_utf8(message), bytes) && #[trigger] base64_text(bytes)
            == signature;
    lemma_base64_bytes(bytes);
}

/// What was signed with a private key passes the check against a PEM
/// document that holds the public half of that key.
pub proof fn lemma_signed_text_passes(
    private_key: Seq<char>,
    public_key: Seq<char>,
    message: Seq<char>,
    signature: Seq<char>,
)
    requires
        signed_by(private_key, message, signature),
        spki_public_key(public_key) == Some(public_half(pkcs8_private_key(private_key)->0)),
    ensures
        signature_check(public_key, message, signature) == Ok::<(), VerificationError>(()),
{
    lemma_signed_text_verifies(private_key, message, signature);
}

/// The views of a list of certificates.
pub open spec fn certificate_views(certificates: Seq<PlatformCertificate>) -> Seq<CertificateView> {
    certificates.map_values(|c: PlatformCertificate| c@)
}

/// The gateway's certificates that are currently known. The set is only
/// ever replaced as a whole.
pub struct CertificateCache {
    certificates: Vec<PlatformCertificate>,
}

impl View for CertificateCache {
    type V = Seq<CertificateView>;

    closed spec fn view(&self) -> Seq<CertificateView> {
        certificate_views(self.certificates@)
    }
}

/// Checks a base64 signature over a message against a key.
fn check_with_key(key: &rsa::RsaPublicKey, message: &str, signature: &str) -> (res: Result<
    (),
    VerificationError,
>)
    ensures
        res == key_check(crate::crypto::public_key_bytes(*key), message@, signature@),
{
    let bytes = match base64_decode(signature) {
        Ok(bytes) => bytes,
        Err(_) => {
            return Err(VerificationError::MalformedSignature);
        },
    };
    proof {
        lemma_base64_bytes(bytes@);
    }
    let digest = sha256_digest(message.as_bytes());
    match verify_digest(key, digest.as_slice(), bytes.as_slice()) {
        Ok(_) => Ok(()),
        Err(_) => Err(VerificationError::Mismatch),
    }
}

/// Checks a base64 signature over a message against a public key given as
/// a PEM document.
pub fn verify_signature(public_key: &str, message: &str, signature: &str) -> (res: Result<
    (),
    VerificationError,
>)
    ensures
        res == signature_check(public_key@, message@, signature@),
{
    match parse_public_key(public_key) {
        Ok(key) => check_with_key(&key, message, signature),
        Err(_) => Err(VerificationError::MalformedKey),
    }
}

/// Checks a base64 signature over a message against the public half of a
/// private key given as a PEM document: whether the owner of the key made
/// it.
pub fn verify_own_signature(private_key: &str, message: &str, signature: &str) -> (res: Result<
    (),
    VerificationError,
>)
    ensures
        res == own_signature_check(private_key@, message@, signature@),
{
    match parse_private_key(private_key) {
        Ok(key) => {
            let public = public_key_of(&key);
            check_with_key(&public, message, signature)
        },
        Err(_) => Err(VerificationError::MalformedKey),
    }
}

/// Tells what the body of a response is to be read as, by its status
/// alone. This is for the listing of certificates, the one response that
/// is read before it can be checked: the certificates in it are sealed
/// with the merchant's symmetric key, and the set that they make is what
/// every other response is checked against.
pub fn judge_status(status: u16) -> (answer: Answer)
    ensures
        answer == answer_of(status),
{
    if 200 <= status && status < 300 {
        Answer::Accepted
    } else {
        Answer::Rejected
    }
}

impl CertificateCache {
    /// A cache that knows no certificate: it trusts no response.
    pub fn new() -> (cache: CertificateCache)
        ensures
            cache@.len() == 0,
    {
        CertificateCache { certificates: Vec::new() }
    }

    /// Puts a new set in the place of the old one. Nothing of the old set
    /// is kept.
    pub fn replace(&mut self, certificates: Vec<PlatformCertificate>)
        ensures
            final(self)@ == certificate_views(certificates@),
    {
        self.certificates = certificates;
    }

    /// How many certificates the cache holds.
    pub fn len(&self) -> (n: usize)
        ensures
            n == self@.len(),
    {
        self.certificates.len()
    }

    /// Finds the certificate that answers to a serial number at the second
    /// `now`.
    pub fn find(&self, serial: &String, now: u64) -> (found: Option<&PlatformCertificate>)
        ensures
            match found {
                Some(certificate) => lookup(self@, serial@, now as nat) == Some(certificate@),
                None => lookup(self@, serial@, now as nat) is None,
            },
    {
        let mut i: usize = 0;
        assert(self@.skip(0) =~= self@);
        while i < self.certificates.len()
            invariant
                i <= self.certificates.len(),
                self@.len() == self.certificates.len(),
                forall|j: int| 0 <= j < self@.len() ==> self@[j] == self.certificates@[j]@,
                lookup(self@, serial@, now as nat) == lookup(
                    self@.skip(i as int),
                    serial@,
                    now as nat,
                ),
            decreases self.certificates.len() - i,
        {
            let certificate = &self.certificates[i];
            assert(self@.skip(i as int)[0] == certificate@);
            if certificate.serial_number == *serial && now < certificate.expire_time {
                return Some(certificate);
            }
            assert(self@.skip(i as int).skip(1) =~= self@.skip(i + 1));
            i += 1;
        }
        None
    }

    /// Checks a response against the cache at the second `now`.
    pub fn verify(&self, headers: &ResponseSignature, body: &str, now: u64) -> (res: Result<
        (),
        VerificationError,
    >)
        ensures
            res == verification(self@, headers@, body@, now as nat),
    {
        let certificate = match self.find(&headers.serial, now) {
            Some(certificate) => certificate,
            None => {
                return Err(VerificationError::UnknownCertificate);
            },
        };
        let mut message = String::new();
        append_line(&mut message, headers.timestamp.as_str());
        append_line(&mut message, headers.nonce.as_str());
        append_line(&mut message, body);
        assert(message@ =~= response_message(headers@.timestamp, headers@.nonce, body@));
        verify_signature(
            certificate.public_key.as_str(),
            message.as_str(),
            headers.signature.as_str(),
        )
    }

    /// Judges a response at the second `now`: whether it is to be
    /// trusted, and if so, what its body is to be read as.
    pub fn judge(&self, headers: &ResponseSignature, body: &str, status: u16, now: u64) -> (res:
        Result<Answer, VerificationError>)
        ensures
            res == judgement(self@, headers@, body@, status, now as nat),
    {
        match self.verify(headers, body, now) {
            Err(why) => Err(why),
            Ok(_) => Ok(judge_status(status)),
        }
    }
}

} // verus!
