//! Verification of signed webhook requests.
//!
//! A request carries a body and, in a header, a claimed signature of the form
//! `sha256=<hex>`, where `<hex>` spells the HMAC-SHA256 of the body under a
//! secret shared with the sender.

use hex::FromHex;
use hmac::{Hmac, Mac};
use sha2::Sha256;
use vstd::prelude::*;

verus! {

/// The HMAC-SHA256 tag of `message` under `key`, as the `hmac` crate computes it.
pub uninterp spec fn hmac_sha256(key: Seq<u8>, message: Seq<u8>) -> Seq<u8>;

/// `hex::FromHexError`, what `hex` says of a string that it cannot decode.
/// Nothing is read from it here.
#[verifier::external_type_specification]
#[verifier::external_body]
pub struct ExFromHexError(hex::FromHexError);

/// Why a request was turned away.
#[derive(Clone, Copy, Debug, PartialEq, Eq, Structural)]
pub enum SignatureError {
    /// The request has no signature header.
    Missing,
    /// The header is not of the form `sha256=<hex>`, or the digest it spells
    /// is not the MAC of the body.
    Invalid,
}

impl SignatureError {
    /// The status of the response that turns the request away.
    pub open spec fn status(self) -> int {
        match self {
            SignatureError::Missing => 400,
            SignatureError::Invalid => 401,
        }
    }

    /// The text of the response that turns the request away.
    pub open spec fn notice(self) -> Seq<char> {
        match self {
            SignatureError::Missing => "No signature"@,
            SignatureError::Invalid => "Invalid signature"@,
        }
    }

    /// 400 for a request without a signature, 401 for one with a wrong one.
    pub fn status_code(&self) -> (code: u16)
        ensures
            code == self.status(),
    {
        match self {
            SignatureError::Missing => 400,
            SignatureError::Invalid => 401,
        }
    }

    /// A generic notice of the failure, which gives away nothing of the
    /// secret nor of the signature that was tried.
    pub fn message(&self) -> (text: String)
        ensures
            text@ == self.notice(),
    {
        match self {
            SignatureError::Missing => String::from_str("No signature"),
            SignatureError::Invalid => String::from_str("Invalid signature"),
        }
    }
}

/// The value of one hexadecimal digit, in either case.
pub open spec fn hex_digit_value(c: u8) -> Option<int> {
    if 0x30 <= c <= 0x39 {
        Some(c - 0x30)
    } else if 0x41 <= c <= 0x46 {
        Some(c - 0x41 + 10)
    } else if 0x61 <= c <= 0x66 {
        Some(c - 0x61 + 10)
    } else {
        None
    }
}

/// Whether `digits` is an even number of hexadecimal digits.
pub open spec fn is_hex(digits: Seq<u8>) -> bool {
    &&& digits.len() % 2 == 0
    &&& forall|i: int| 0 <= i < digits.len() ==> hex_digit_value(#[trigger] digits[i]) is Some
}

/// The bytes that a string of hexadecimal digits spells, two digits to a byte.
pub open spec fn hex_decoded(digits: Seq<u8>) -> Seq<u8> {
    Seq::new(
        digits.len() / 2,
        |i: int|
            (16 * hex_digit_value(digits[2 * i]).unwrap() + hex_digit_value(
                digits[2 * i + 1],
            ).unwrap()) as u8,
    )
}

/// The lower-case hexadecimal digit of a value below sixteen.
pub open spec fn hex_digit(value: int) -> u8 {
    if value < 10 {
        (0x30 + value) as u8
    } else {
        (0x61 + value - 10) as u8
    }
}

/// The lower-case hexadecimal spelling of `bytes`, two digits to a byte.
pub open spec fn hex_encoded(bytes: Seq<u8>) -> Seq<u8> {
    Seq::new(
        2 * bytes.len(),
        |i: int|
            if i % 2 == 0 {
                hex_digit(bytes[i / 2] as int / 16)
            } else {
                hex_digit(bytes[i / 2] as int % 16)
            },
    )
}

/// Whether every letter among `digits` is in lower case.
pub open spec fn is_lower_hex(digits: Seq<u8>) -> bool {
    &&& is_hex(digits)
    &&& forall|i: int| 0 <= i < digits.len() ==> !(0x41 <= #[trigger] digits[i] <= 0x46)
}

/// The header that signs `body` under `key` in lower-case digits.
pub open spec fn canonical_header(key: Seq<u8>, body: Seq<u8>) -> Seq<u8> {
    signature_prefix() + hex_encoded(hmac_sha256(key, body))
}

/// The bytes of `sha256=`, which open every signature header.
pub open spec fn signature_prefix() -> Seq<u8> {
    seq![0x73u8, 0x68u8, 0x61u8, 0x32u8, 0x35u8, 0x36u8, 0x3du8]
}

/// Whether `header` is `sha256=` followed by hexadecimal digits that spell
/// the MAC of `body` under `key`.
pub open spec fn accepts(key: Seq<u8>, body: Seq<u8>, header: Seq<u8>) -> bool {
    &&& header.len() >= 7
    &&& header.subrange(0, 7) == signature_prefix()
    &&& is_hex(header.subrange(7, header.len() as int))
    &&& hex_decoded(header.subrange(7, header.len() as int)) == hmac_sha256(key, body)
}

/// The digest that a signature header claims, if there is a header and it is
/// `sha256=` followed by an even number of hexadecimal digits.
pub open spec fn claimed(header: Option<Seq<u8>>) -> Result<Seq<u8>, SignatureError> {
    match header {
        None => Err(SignatureError::Missing),
        Some(h) => if h.len() >= 7 && h.subrange(0, 7) == signature_prefix() && is_hex(
            h.subrange(7, h.len() as int),
        ) {
            Ok(hex_decoded(h.subrange(7, h.len() as int)))
        } else {
            Err(SignatureError::Invalid)
        },
    }
}

/// What the verifier answers to a body and the signature header, if any.
pub open spec fn verdict(key: Seq<u8>, body: Seq<u8>, header: Option<Seq<u8>>) -> Result<
    (),
    SignatureError,
> {
    match header {
        None => Err(SignatureError::Missing),
        Some(h) => if accepts(key, body, h) {
            Ok(())
        } else {
            Err(SignatureError::Invalid)
        },
    }
}

/// Spelling bytes in hexadecimal and reading them back gives the same bytes.
pub proof fn lemma_decode_encoded(bytes: Seq<u8>)
    ensures
        is_lower_hex(hex_encoded(bytes)),
        hex_decoded(hex_encoded(bytes)) == bytes,
{
    let e = hex_encoded(bytes);
    assert forall|i: int| 0 <= i < e.len() implies hex_digit_value(#[trigger] e[i]) is Some && !(
    0x41 <= e[i] <= 0x46) by {
        let b = bytes[i / 2] as int;
        assert(0 <= b / 16 < 16 && 0 <= b % 16 < 16);
    }
    assert forall|j: int| 0 <= j < bytes.len() implies hex_decoded(e)[j] == bytes[j] by {
        let b = bytes[j] as int;
        assert((2 * j) / 2 == j && (2 * j) % 2 == 0);
        assert((2 * j + 1) / 2 == j && (2 * j + 1) % 2 == 1);
        assert(0 <= b / 16 < 16 && 0 <= b % 16 < 16);
        assert(e[2 * j] == hex_digit(b / 16));
        assert(e[2 * j + 1] == hex_digit(b % 16));
        assert(16 * (b / 16) + b % 16 == b);
    }
    assert(hex_decoded(e) =~= bytes);
}

/// Reading lower-case digits and spelling the bytes again gives the same digits.
pub proof fn lemma_encode_decoded(digits: Seq<u8>)
    requires
        is_lower_hex(digits),
    ensures
        hex_encoded(hex_decoded(digits)) == digits,
{
    let d = hex_decoded(digits);
    assert forall|i: int| 0 <= i < digits.len() implies hex_encoded(d)[i] == digits[i] by {
        let j = i / 2;
        let hi = hex_digit_value(digits[2 * j]).unwrap();
        let lo = hex_digit_value(digits[2 * j + 1]).unwrap();
        assert(0 <= hi < 16 && 0 <= lo < 16);
        assert(d[j] == 16 * hi + lo);
        assert((16 * hi + lo) / 16 == hi && (16 * hi + lo) % 16 == lo);
        if i % 2 == 0 {
            assert(i == 2 * j);
        } else {
            assert(i == 2 * j + 1);
        }
    }
    assert(hex_encoded(d) =~= digits);
}

/// A request is let through exactly when its header is `sha256=` followed by
/// an even number of hexadecimal digits that spell the MAC of the body under
/// the secret.
pub proof fn law_accepted_iff_digest_is_mac(key: Seq<u8>, body: Seq<u8>, digits: Seq<u8>)
    ensures
        verdict(key, body, Some(signature_prefix() + digits)) is Ok <==> is_hex(digits)
            && hex_decoded(digits) == hmac_sha256(key, body),
{
    let h = signature_prefix() + digits;
    assert(h.subrange(0, 7) =~= signature_prefix());
    assert(h.subrange(7, h.len() as int) =~= digits);
}

/// The lower-case hexadecimal MAC of the body, behind `sha256=`, is always
/// let through.
pub proof fn law_canonical_signature_accepted(key: Seq<u8>, body: Seq<u8>)
    ensures
        verdict(key, body, Some(canonical_header(key, body))) is Ok,
{
    lemma_decode_encoded(hmac_sha256(key, body));
    law_accepted_iff_digest_is_mac(key, body, hex_encoded(hmac_sha256(key, body)));
}

/// Among the headers written in lower-case digits only one is let through:
/// a header that differs from it in any bit is turned away as invalid.
pub proof fn law_altered_signature_rejected(key: Seq<u8>, body: Seq<u8>, header: Seq<u8>)
    requires
        header != canonical_header(key, body),
        header.len() >= 7 ==> forall|i: int|
            7 <= i < header.len() ==> !(0x41 <= #[trigger] header[i] <= 0x46),
    ensures
        verdict(key, body, Some(header)) == Err::<(), SignatureError>(SignatureError::Invalid),
{
    if accepts(key, body, header) {
        let digits = header.subrange(7, header.len() as int);
        assert forall|i: int| 0 <= i < digits.len() implies !(0x41 <= #[trigger] digits[i]
            <= 0x46) by {
            assert(digits[i] == header[i + 7]);
        }
        lemma_encode_decoded(digits);
        assert(header =~= header.subrange(0, 7) + digits);
        assert(false);
    }
}

/// Two headers that are both let through for one body spell the same digest.
pub proof fn law_accepted_digest_unique(
    key: Seq<u8>,
    body: Seq<u8>,
    first: Seq<u8>,
    second: Seq<u8>,
)
    requires
        verdict(key, body, Some(first)) is Ok,
        verdict(key, body, Some(second)) is Ok,
    ensures
        hex_decoded(first.subrange(7, first.len() as int)) == hex_decoded(
            second.subrange(7, second.len() as int),
        ),
{
}

/// A request without a signature header is turned away, whatever its body
/// and whatever the secret.
pub proof fn law_unsigned_rejected(key: Seq<u8>, body: Seq<u8>)
    ensures
        verdict(key, body, None) == Err::<(), SignatureError>(SignatureError::Missing),
{
}

/// Calls `Vec::<u8>::from_hex` of the `hex` crate. It succeeds exactly on an
/// even number of hexadecimal digits of either case, and then yields one byte
/// for each pair: sixteen times the first digit's value plus the second's.
#[verifier::external_body]
fn decode_hex(digits: &[u8]) -> (r: Result<Vec<u8>, hex::FromHexError>)
    ensures
        r is Ok <==> is_hex(digits@),
        r is Ok ==> r->Ok_0@ == hex_decoded(digits@),
{
    Vec::<u8>::from_hex(digits)
}

/// Keys an `Hmac<Sha256>` of the `hmac` crate with `key`, feeds it `message`
/// and calls its `verify_slice` on `tag`, which compares in constant time.
/// The answer is `true` exactly when `tag` is the MAC of `message` under `key`.
#[verifier::external_body]
fn mac_matches(key: &[u8], message: &[u8], tag: &[u8]) -> (ok: bool)
    ensures
        ok == (tag@ == hmac_sha256(key@, message@)),
{
    match Hmac::<Sha256>::new_from_slice(key) {
        Ok(mut mac) => {
            mac.update(message);
            mac.verify_slice(tag).is_ok()
        },
        Err(_) => false,
    }
}

/// Whether `header` opens with `sha256=`.
fn has_prefix(header: &[u8]) -> (r: bool)
    ensures
        r == (header@.len() >= 7 && header@.subrange(0, 7) == signature_prefix()),
{
    if header.len() < 7 {
        return false;
    }
    let r = header[0] == 0x73 && header[1] == 0x68 && header[2] == 0x61 && header[3] == 0x32
        && header[4] == 0x35 && header[5] == 0x36 && header[6] == 0x3d;
    proof {
        let p = header@.subrange(0, 7);
        if r {
            assert(p =~= signature_prefix());
        } else {
            assert(p[0] == header@[0] && p[1] == header@[1] && p[2] == header@[2] && p[3]
                == header@[3] && p[4] == header@[4] && p[5] == header@[5] && p[6] == header@[6]);
        }
    }
    r
}

/// The view of an optional header.
pub open spec fn header_bytes(signature: Option<&[u8]>) -> Option<Seq<u8>> {
    match signature {
        None => None,
        Some(h) => Some(h@),
    }
}

/// Reads the digest that a signature header claims. A request without the
/// header is unsigned; a header that is not `sha256=` and an even number of
/// hexadecimal digits is invalid.
pub fn claimed_digest(signature: Option<&[u8]>) -> (r: Result<Vec<u8>, SignatureError>)
    ensures
        match claimed(header_bytes(signature)) {
            Ok(digest) => r is Ok && r->Ok_0@ == digest,
            Err(e) => r == Err::<Vec<u8>, SignatureError>(e),
        },
{
    let header = match signature {
        None => {
            return Err(SignatureError::Missing);
        },
        Some(h) => h,
    };
    if !has_prefix(header) {
        return Err(SignatureError::Invalid);
    }
    let digits = vstd::slice::slice_subrange(header, 7, header.len());
    match decode_hex(digits) {
        Ok(digest) => Ok(digest),
        Err(_) => Err(SignatureError::Invalid),
    }
}

/// What stands between a sender and the update action: it holds the secret
/// shared with the sender of the webhook.
pub struct PayloadVerifier {
    secret: Vec<u8>,
}

/// A request as it arrives: the raw body and the value of the signature
/// header, if the request has one.
pub struct SignedRequest {
    pub body: Vec<u8>,
    pub signature: Option<Vec<u8>>,
}

impl SignedRequest {
    /// The header's bytes, if there is a header.
    pub open spec fn header(&self) -> Option<Seq<u8>> {
        match self.signature {
            None => None,
            Some(h) => Some(h@),
        }
    }
}

impl PayloadVerifier {
    /// The secret that this verifier was made with.
    pub closed spec fn key(&self) -> Seq<u8> {
        self.secret@
    }

    /// A verifier for the given shared secret.
    pub fn new(secret: Vec<u8>) -> (v: Self)
        ensures
            v.key() == secret@,
    {
        PayloadVerifier { secret }
    }

    /// Checks the claimed signature of `body`. Without a header the request
    /// is turned away as unsigned, whatever the body; with one, it passes
    /// exactly when the header is `sha256=` and the hexadecimal MAC of the
    /// body under the secret.
    pub fn verify(&self, body: &[u8], signature: Option<&[u8]>) -> (r: Result<(), SignatureError>)
        ensures
            r == verdict(self.key(), body@, header_bytes(signature)),
            signature is None ==> r == Err::<(), SignatureError>(SignatureError::Missing),
    {
        let tag = match claimed_digest(signature) {
            Ok(tag) => tag,
            Err(e) => {
                return Err(e);
            },
        };
        if mac_matches(self.secret.as_slice(), body, tag.as_slice()) {
            Ok(())
        } else {
            Err(SignatureError::Invalid)
        }
    }

    /// Verifies a request and hands its body on, byte for byte, to whatever
    /// handles it next; a request that fails is not handed on.
    pub fn call(&self, request: SignedRequest) -> (r: Result<Vec<u8>, SignatureError>)
        ensures
            match verdict(self.key(), request.body@, request.header()) {
                Ok(_) => r is Ok && r->Ok_0@ == request.body@,
                Err(e) => r == Err::<Vec<u8>, SignatureError>(e),
            },
    {
        let SignedRequest { body, signature } = request;
        let outcome = match &signature {
            None => self.verify(body.as_slice(), None),
            Some(h) => self.verify(body.as_slice(), Some(h.as_slice())),
        };
        match outcome {
            Ok(_) => Ok(body),
            Err(e) => Err(e),
        }
    }
}

} // verus!
