//! The cryptographic primitives, taken from the `rsa`, `hex` and `base64`
//! crates. None of the executable functions in this file is verified: each
//! contract states what the crate behind it is trusted to do.

use vstd::prelude::*;

verus! {

#[verifier::external_type_specification]
#[verifier::external_body]
pub struct ExRsaPrivateKey(rsa::RsaPrivateKey);

#[verifier::external_type_specification]
#[verifier::external_body]
pub struct ExRsaPublicKey(rsa::RsaPublicKey);

#[verifier::external_type_specification]
#[verifier::external_body]
pub struct ExRsaError(rsa::Error);

#[verifier::external_type_specification]
#[verifier::external_body]
pub struct ExPkcs8Error(rsa::pkcs8::Error);

#[verifier::external_type_specification]
#[verifier::external_body]
pub struct ExSpkiError(rsa::pkcs8::spki::Error);

#[verifier::external_type_specification]
#[verifier::external_body]
pub struct ExBase64DecodeError(base64::DecodeError);

/// The SHA-256 digest of a byte string.
pub uninterp spec fn sha256(data: Seq<u8>) -> Seq<u8>;

/// What a private key holds: the bytes of its PKCS#8 encoding.
pub uninterp spec fn private_key_bytes(key: rsa::RsaPrivateKey) -> Seq<u8>;

/// What a public key holds: the bytes of its SubjectPublicKeyInfo
/// encoding.
pub uninterp spec fn public_key_bytes(key: rsa::RsaPublicKey) -> Seq<u8>;

/// The bit lengths of the prime factors that a private key holds, in the
/// order in which the key holds them.
pub uninterp spec fn prime_bits(key: Seq<u8>) -> Seq<nat>;

/// The private key that a PKCS#8 PEM document holds, if it holds one.
pub uninterp spec fn pkcs8_private_key(pem: Seq<char>) -> Option<Seq<u8>>;

/// The RSASSA-PKCS1-v1_5 signature with SHA-256 that a private key puts on
/// a digest, if the key can sign it.
pub uninterp spec fn pkcs1v15_signature(key: Seq<u8>, digest: Seq<u8>) -> Option<Seq<u8>>;

/// The public key that belongs to a private key: its modulus and public
/// exponent, as `RsaPrivateKey::to_public_key` gives them.
pub uninterp spec fn public_half(key: Seq<u8>) -> Seq<u8>;

/// The public key that a PEM-encoded SubjectPublicKeyInfo holds, if it
/// holds one.
pub uninterp spec fn spki_public_key(pem: Seq<char>) -> Option<Seq<u8>>;

/// The digest that a signature carries under a public key: the one digest
/// for which RSASSA-PKCS1-v1_5 verification with SHA-256 accepts the
/// signature, if there is one.
pub uninterp spec fn pkcs1v15_signed_digest(key: Seq<u8>, signature: Seq<u8>) -> Option<Seq<u8>>;

/// Whether a public key accepts a signature for the digest of a byte
/// string.
pub open spec fn accepts(key: Seq<u8>, data: Seq<u8>, signature: Seq<u8>) -> bool {
    pkcs1v15_signed_digest(key, signature) == Some(sha256(data))
}

/// Whether a private key with factors of these bit lengths is signed
/// with: it has two factors, and the second is at most a bit longer than
/// the first.
pub open spec fn signable(bits: Seq<nat>) -> bool {
    bits.len() == 2 && bits[1] <= bits[0] + 1
}

/// A list of lengths as natural numbers.
pub open spec fn lengths(bits: Seq<usize>) -> Seq<nat> {
    Seq::new(bits.len(), |i: int| bits[i] as nat)
}

/// The lower-case hexadecimal digit for a number below sixteen.
pub open spec fn hex_digit(v: int) -> char {
    if v < 10 {
        ((48 + v) as u8) as char
    } else {
        ((87 + v) as u8) as char
    }
}

/// Two lower-case hexadecimal digits for each byte, the high one first.
pub open spec fn hex_text(data: Seq<u8>) -> Seq<char> {
    Seq::new(
        2 * data.len(),
        |i: int|
            if i % 2 == 0 {
                hex_digit(data[i / 2] as int / 16)
            } else {
                hex_digit(data[i / 2] as int % 16)
            },
    )
}

/// The symbol of the standard base64 alphabet for a number below 64.
pub open spec fn base64_symbol(v: int) -> char {
    if v < 26 {
        ((65 + v) as u8) as char
    } else if v < 52 {
        ((71 + v) as u8) as char
    } else if v < 62 {
        ((v - 4) as u8) as char
    } else if v == 62 {
        '+'
    } else {
        '/'
    }
}

/// Standard base64 with padding: four symbols for each three bytes, the
/// last group filled up with `=`.
pub open spec fn base64_text(data: Seq<u8>) -> Seq<char>
    decreases data.len(),
{
    if data.len() == 0 {
        Seq::empty()
    } else if data.len() == 1 {
        seq![base64_symbol(data[0] as int / 4), base64_symbol(data[0] as int % 4 * 16), '=', '=']
    } else if data.len() == 2 {
        seq![
            base64_symbol(data[0] as int / 4),
            base64_symbol(data[0] as int % 4 * 16 + data[1] as int / 16),
            base64_symbol(data[1] as int % 16 * 4),
            '=',
        ]
    } else {
        seq![
            base64_symbol(data[0] as int / 4),
            base64_symbol(data[0] as int % 4 * 16 + data[1] as int / 16),
            base64_symbol(data[1] as int % 16 * 4 + data[2] as int / 64),
            base64_symbol(data[2] as int % 64),
        ] + base64_text(data.skip(3))
    }
}

/// The bytes that a text in padded standard base64 stands for, if it
/// stands for any.
pub open spec fn base64_bytes(text: Seq<char>) -> Option<Seq<u8>> {
    if exists|data: Seq<u8>| base64_text(data) == text {
        Some(choose|data: Seq<u8>| base64_text(data) == text)
    } else {
        None
    }
}

/// Different numbers below 64 have different symbols, and none has the
/// padding sign.
pub proof fn lemma_base64_symbol(v: int, w: int)
    requires
        0 <= v < 64,
        0 <= w < 64,
    ensures
        base64_symbol(v) == base64_symbol(w) ==> v == w,
        base64_symbol(v) != '=',
{
}

/// The base64 text of some bytes begins with the four symbols of their
/// first group.
proof fn lemma_base64_group(data: Seq<u8>)
    requires
        data.len() >= 1,
    ensures
        base64_text(data).len() >= 4,
        base64_text(data)[0] == base64_symbol(data[0] as int / 4),
        data.len() == 1 ==> base64_text(data).len() == 4 && base64_text(data)[1] == base64_symbol(
            data[0] as int % 4 * 16,
        ) && base64_text(data)[2] == '=' && base64_text(data)[3] == '=',
        data.len() >= 2 ==> base64_text(data)[1] == base64_symbol(
            data[0] as int % 4 * 16 + data[1] as int / 16,
        ),
        data.len() == 2 ==> base64_text(data).len() == 4 && base64_text(data)[2] == base64_symbol(
            data[1] as int % 16 * 4,
        ) && base64_text(data)[3] == '=',
        data.len() >= 3 ==> base64_text(data)[2] == base64_symbol(
            data[1] as int % 16 * 4 + data[2] as int / 64,
        ) && base64_text(data)[3] == base64_symbol(data[2] as int % 64) && base64_text(
            data,
        ).skip(4) == base64_text(data.skip(3)),
{
    if data.len() >= 3 {
        let head = seq![
            base64_symbol(data[0] as int / 4),
            base64_symbol(data[0] as int % 4 * 16 + data[1] as int / 16),
            base64_symbol(data[1] as int % 16 * 4 + data[2] as int / 64),
            base64_symbol(data[2] as int % 64),
        ];
        assert(base64_text(data) == head + base64_text(data.skip(3)));
        assert((head + base64_text(data.skip(3))).skip(4) =~= base64_text(data.skip(3)));
    }
}

/// Different bytes have different base64 texts.
pub proof fn lemma_base64_injective(a: Seq<u8>, b: Seq<u8>)
    requires
        base64_text(a) == base64_text(b),
    ensures
        a == b,
    decreases a.len(),
{
    if a.len() == 0 {
        if b.len() > 0 {
            lemma_base64_group(b);
        }
        assert(a =~= b);
    } else {
        lemma_base64_group(a);
        if b.len() == 0 {
            assert(false);
        }
        lemma_base64_group(b);
        lemma_base64_symbol(a[0] as int / 4, b[0] as int / 4);
        if a.len() >= 2 {
            lemma_base64_symbol(a[1] as int % 16 * 4, 0);
        }
        if b.len() >= 2 {
            lemma_base64_symbol(b[1] as int % 16 * 4, 0);
        }
        if a.len() >= 3 {
            lemma_base64_symbol(a[1] as int % 16 * 4 + a[2] as int / 64, 0);
            lemma_base64_symbol(a[2] as int % 64, 0);
        }
        if b.len() >= 3 {
            lemma_base64_symbol(b[1] as int % 16 * 4 + b[2] as int / 64, 0);
            lemma_base64_symbol(b[2] as int % 64, 0);
        }
        if a.len() == 1 {
            assert(b.len() == 1);
            lemma_base64_symbol(a[0] as int % 4 * 16, b[0] as int % 4 * 16);
            assert(a[0] == b[0]);
            assert(a =~= b);
        } else if a.len() == 2 {
            assert(b.len() == 2);
            lemma_base64_symbol(
                a[0] as int % 4 * 16 + a[1] as int / 16,
                b[0] as int % 4 * 16 + b[1] as int / 16,
            );
            lemma_base64_symbol(a[1] as int % 16 * 4, b[1] as int % 16 * 4);
            assert(a[0] == b[0]);
            assert(a[1] == b[1]);
            assert(a =~= b);
        } else {
            assert(b.len() >= 3);
            lemma_base64_symbol(
                a[0] as int % 4 * 16 + a[1] as int / 16,
                b[0] as int % 4 * 16 + b[1] as int / 16,
            );
            lemma_base64_symbol(
                a[1] as int % 16 * 4 + a[2] as int / 64,
                b[1] as int % 16 * 4 + b[2] as int / 64,
            );
            lemma_base64_symbol(a[2] as int % 64, b[2] as int % 64);
            assert(a[0] == b[0]);
            assert(a[1] == b[1]);
            assert(a[2] == b[2]);
            lemma_base64_injective(a.skip(3), b.skip(3));
            assert(a.len() == b.len());
            assert forall|i: int| 0 <= i < a.len() implies a[i] == b[i] by {
                if i >= 3 {
                    assert(a.skip(3)[i - 3] == a[i]);
                    assert(b.skip(3)[i - 3] == b[i]);
                }
            }
            assert(a =~= b);
        }
    }
}

/// Decoding undoes encoding.
pub proof fn lemma_base64_bytes(data: Seq<u8>)
    ensures
        base64_bytes(base64_text(data)) == Some(data),
{
    let text = base64_text(data);
    let chosen = choose|other: Seq<u8>| base64_text(other) == text;
    lemma_base64_injective(chosen, data);
}

/// Whether the base64 text of so many bytes has a length that fits a
/// `usize`.
pub open spec fn base64_fits(len: nat) -> bool {
    len / 3 * 4 + 4 <= usize::MAX
}

/// Calls `Digest::digest` of `rsa::sha2::Sha256`. The result is the SHA-256
/// digest of `data`.
#[verifier::external_body]
pub(crate) fn sha256_digest(data: &[u8]) -> (out: Vec<u8>)
    ensures
        out@ == sha256(data@),
{
    <rsa::sha2::Sha256 as rsa::sha2::Digest>::digest(data).to_vec()
}

/// Calls `hex::encode`. Each byte comes out as two lower-case hexadecimal
/// digits.
#[verifier::external_body]
pub(crate) fn hex_encode(data: &[u8]) -> (out: String)
    ensures
        out@ == hex_text(data@),
{
    hex::encode(data)
}

/// Calls `Engine::encode` of `base64::engine::general_purpose::STANDARD`.
/// The call panics where the length of the text overflows, which
/// `requires` rules out.
#[verifier::external_body]
pub(crate) fn base64_encode(data: &[u8]) -> (out: String)
    requires
        base64_fits(data@.len()),
    ensures
        out@ == base64_text(data@),
{
    base64::Engine::encode(&base64::engine::general_purpose::STANDARD, data)
}

/// Calls `Engine::decode` of `base64::engine::general_purpose::STANDARD`.
/// The engine asks for the padding that encoding writes and takes no
/// spare bits, so it undoes encoding and nothing else: bytes come back
/// exactly for a text that is the base64 of some bytes, and are those.
#[verifier::external_body]
pub(crate) fn base64_decode(text: &str) -> (res: Result<Vec<u8>, base64::DecodeError>)
    ensures
        match res {
            Ok(bytes) => base64_text(bytes@) == text@,
            Err(_) => forall|data: Seq<u8>| base64_text(data) != text@,
        },
{
    base64::Engine::decode(&base64::engine::general_purpose::STANDARD, text)
}

/// Calls `RsaPrivateKey::from_pkcs8_pem`. Whether a key comes back, and
/// which, depends on the text of the document alone.
#[verifier::external_body]
pub(crate) fn parse_private_key(pem: &str) -> (res: Result<rsa::RsaPrivateKey, rsa::pkcs8::Error>)
    ensures
        match res {
            Ok(key) => pkcs8_private_key(pem@) == Some(private_key_bytes(key)),
            Err(_) => pkcs8_private_key(pem@) is None,
        },
{
    <rsa::RsaPrivateKey as rsa::pkcs8::DecodePrivateKey>::from_pkcs8_pem(pem)
}

/// Calls `PrivateKeyParts::primes` and takes the bit length of each
/// factor with `BigUint::bits`.
#[verifier::external_body]
pub(crate) fn prime_bits_of(key: &rsa::RsaPrivateKey) -> (out: Vec<usize>)
    ensures
        lengths(out@) == prime_bits(private_key_bytes(*key)),
{
    rsa::traits::PrivateKeyParts::primes(key).iter().map(|prime| prime.bits()).collect()
}

/// Calls `RsaPrivateKey::to_public_key`. The key that comes back is the
/// public half of the private key.
#[verifier::external_body]
pub(crate) fn public_key_of(key: &rsa::RsaPrivateKey) -> (out: rsa::RsaPublicKey)
    ensures
        public_key_bytes(out) == public_half(private_key_bytes(*key)),
{
    key.to_public_key()
}

/// Calls `RsaPrivateKey::sign` with the padding
/// `Pkcs1v15Sign::new::<Sha256>()`. No random number enters the call, so
/// the signature depends on the key and the digest alone. Before the call
/// hands a signature out it raises it to the public exponent and compares
/// the outcome with the padded digest, which is the check that
/// verification makes with the public half of the key: a signature that
/// comes back carries the digest under that half. The call brings a
/// difference of two residues back above zero by adding the first factor
/// again and again, which takes as many steps as the second factor is
/// larger than the first: `requires` keeps it to a few.
#[verifier::external_body]
pub(crate) fn sign_digest(key: &rsa::RsaPrivateKey, digest: &[u8]) -> (res: Result<
    Vec<u8>,
    rsa::Error,
>)
    requires
        signable(prime_bits(private_key_bytes(*key))),
    ensures
        match res {
            Ok(signature) => {
                &&& pkcs1v15_signature(private_key_bytes(*key), digest@) == Some(signature@)
                &&& pkcs1v15_signed_digest(public_half(private_key_bytes(*key)), signature@)
                    == Some(digest@)
            },
            Err(_) => pkcs1v15_signature(private_key_bytes(*key), digest@) is None,
        },
{
    key.sign(rsa::Pkcs1v15Sign::new::<rsa::sha2::Sha256>(), digest)
}

/// Calls `RsaPublicKey::from_public_key_pem`. Whether a key comes back,
/// and which, depends on the text of the document alone.
#[verifier::external_body]
pub(crate) fn parse_public_key(pem: &str) -> (res: Result<
    rsa::RsaPublicKey,
    rsa::pkcs8::spki::Error,
>)
    ensures
        match res {
            Ok(key) => spki_public_key(pem@) == Some(public_key_bytes(key)),
            Err(_) => spki_public_key(pem@) is None,
        },
{
    <rsa::RsaPublicKey as rsa::pkcs8::DecodePublicKey>::from_public_key_pem(pem)
}

/// Calls `RsaPublicKey::verify` with the padding
/// `Pkcs1v15Sign::new::<Sha256>()`. The call raises the signature to the
/// public exponent and compares the outcome with the padded digest, so a
/// signature is accepted for one digest at most: the call succeeds exactly
/// when `digest` is that one.
#[verifier::external_body]
pub(crate) fn verify_digest(key: &rsa::RsaPublicKey, digest: &[u8], signature: &[u8]) -> (res:
    Result<(), rsa::Error>)
    ensures
        res is Ok <==> pkcs1v15_signed_digest(public_key_bytes(*key), signature@) == Some(digest@),
{
    key.verify(rsa::Pkcs1v15Sign::new::<rsa::sha2::Sha256>(), digest, signature)
}

} // verus!
