//! Hashes, signatures, group elements and encodings, as other crates compute
//! them.

use base64::Engine;
use ed25519_dalek::Verifier;
use sha2::Digest;
use vstd::prelude::*;

use crate::id::Id;

verus! {

/// The SHA-256 digest of bytes.
pub uninterp spec fn sha256(bytes: Seq<u8>) -> [u8; 32];

/// Calls `sha2::Sha256::digest`, whose result depends on the bytes alone.
#[verifier::external_body]
fn sha256_digest(bytes: &[u8]) -> (r: [u8; 32])
    ensures
        r == sha256(bytes@),
{
    sha2::Sha256::digest(bytes).into()
}

impl Id {
    /// The SHA-256 digest of bytes.
    pub fn digest(bytes: &[u8]) -> (r: Id)
        ensures
            r == Id(sha256(bytes@)),
    {
        Id(sha256_digest(bytes))
    }
}

/// Whether bytes are an Ed25519 public key.
pub uninterp spec fn ed25519_key(key: [u8; 32]) -> bool;

/// Calls `ed25519_dalek::VerifyingKey::from_bytes`. Whether it gives a key
/// depends on the bytes alone.
#[verifier::external_body]
fn ed25519_key_from_bytes(key: &[u8; 32]) -> (r: bool)
    ensures
        r == ed25519_key(*key),
{
    ed25519_dalek::VerifyingKey::from_bytes(key).is_ok()
}

/// Whether bytes are an Ed25519 public key.
pub fn is_ed25519_key(key: &[u8; 32]) -> (r: bool)
    ensures
        r == ed25519_key(*key),
{
    ed25519_key_from_bytes(key)
}

/// Whether a signature on a message is valid under an Ed25519 public key.
pub uninterp spec fn ed25519_signed(key: [u8; 32], message: Seq<u8>, signature: [u8; 64]) -> bool;

/// Calls `ed25519_dalek::VerifyingKey::verify`. Its verdict depends on the key,
/// the message and the signature alone.
#[verifier::external_body]
fn ed25519_verify(key: &[u8; 32], message: &[u8], signature: &[u8; 64]) -> (r: bool)
    requires
        ed25519_key(*key),
    ensures
        r == ed25519_signed(*key, message@, *signature),
{
    let signature = ed25519_dalek::Signature::from_bytes(signature);
    ed25519_dalek::VerifyingKey::from_bytes(key).is_ok_and(
        |key| key.verify(message, &signature).is_ok(),
    )
}

/// Whether a signature on a message is valid under an Ed25519 public key.
/// Nothing is signed under bytes that are no key.
pub fn is_ed25519_signed(key: &[u8; 32], message: &[u8], signature: &[u8; 64]) -> (r: bool)
    ensures
        r == (ed25519_key(*key) && ed25519_signed(*key, message@, *signature)),
{
    is_ed25519_key(key) && ed25519_verify(key, message, signature)
}

/// Whether bytes are the canonical encoding of a Ristretto group element.
pub uninterp spec fn ristretto_point(encoding: [u8; 32]) -> bool;

/// The encoding of the sum of two Ristretto group elements.
pub uninterp spec fn ristretto_sum(left: [u8; 32], right: [u8; 32]) -> [u8; 32];

/// Whether bytes are the encoding of a group element, which can be added to every
/// other one in either order and in any grouping.
#[verifier::opaque]
pub open spec fn ristretto_element(encoding: [u8; 32]) -> bool {
    &&& ristretto_point(encoding)
    &&& forall|other: [u8; 32]|
        ristretto_point(other) ==> {
            &&& ristretto_point(#[trigger] ristretto_sum(encoding, other))
            &&& ristretto_sum(encoding, other) == ristretto_sum(other, encoding)
        }
    &&& forall|second: [u8; 32], third: [u8; 32]|
        ristretto_point(second) && ristretto_point(third) ==> #[trigger] ristretto_sum(
            ristretto_sum(encoding, second),
            third,
        ) == ristretto_sum(encoding, ristretto_sum(second, third))
}

/// Calls `curve25519_dalek::ristretto::CompressedRistretto::decompress`. Whether
/// it gives a group element depends on the bytes alone. The group is commutative,
/// and each of its elements has one encoding that can be decompressed, so sums
/// taken on encodings obey the laws of the group.
#[verifier::external_body]
fn ristretto_decompress(encoding: &[u8; 32]) -> (r: bool)
    ensures
        r == ristretto_point(*encoding),
        r ==> ristretto_element(*encoding),
{
    curve25519_dalek::ristretto::CompressedRistretto(*encoding).decompress().is_some()
}

/// Whether bytes are the canonical encoding of a Ristretto group element.
pub fn is_ristretto_point(encoding: &Id) -> (r: bool)
    ensures
        r == ristretto_point(encoding.0),
        r ==> ristretto_element(encoding.0),
{
    ristretto_decompress(&encoding.0)
}

/// Calls the addition of `curve25519_dalek::ristretto::RistrettoPoint` on the
/// elements that two encodings stand for, and encodes the sum. The encoding is
/// canonical, and stands for a group element.
#[verifier::external_body]
fn ristretto_add(left: &[u8; 32], right: &[u8; 32]) -> (r: [u8; 32])
    requires
        ristretto_point(*left),
        ristretto_point(*right),
    ensures
        r == ristretto_sum(*left, *right),
        ristretto_point(r),
        ristretto_element(r),
{
    let left = curve25519_dalek::ristretto::CompressedRistretto(*left).decompress();
    let right = curve25519_dalek::ristretto::CompressedRistretto(*right).decompress();
    (left.unwrap() + right.unwrap()).compress().to_bytes()
}

/// The sum of two commitments, in canonical encoding.
pub fn commitment_sum(left: &Id, right: &Id) -> (r: Id)
    requires
        ristretto_point(left.0),
        ristretto_point(right.0),
    ensures
        r == Id(ristretto_sum(left.0, right.0)),
        ristretto_point(r.0),
        ristretto_element(r.0),
{
    Id(ristretto_add(&left.0, &right.0))
}

/// The encoding of the difference of two Ristretto group elements.
pub uninterp spec fn ristretto_difference(left: [u8; 32], right: [u8; 32]) -> [u8; 32];

/// Calls the subtraction of `curve25519_dalek::ristretto::RistrettoPoint` on the
/// elements that two encodings stand for, and encodes the difference. The
/// encoding is canonical and stands for a group element, and adding to it what
/// was subtracted gives back what it was subtracted from.
#[verifier::external_body]
fn ristretto_subtract(left: &[u8; 32], right: &[u8; 32]) -> (r: [u8; 32])
    requires
        ristretto_point(*left),
        ristretto_point(*right),
    ensures
        r == ristretto_difference(*left, *right),
        ristretto_point(r),
        ristretto_element(r),
        ristretto_sum(r, *right) == *left,
{
    let left = curve25519_dalek::ristretto::CompressedRistretto(*left).decompress();
    let right = curve25519_dalek::ristretto::CompressedRistretto(*right).decompress();
    (left.unwrap() - right.unwrap()).compress().to_bytes()
}

/// The difference of two commitments, in canonical encoding.
pub fn commitment_difference(left: &Id, right: &Id) -> (r: Id)
    requires
        ristretto_point(left.0),
        ristretto_point(right.0),
    ensures
        r == Id(ristretto_difference(left.0, right.0)),
        ristretto_point(r.0),
        ristretto_element(r.0),
        ristretto_sum(r.0, right.0) == left.0,
{
    Id(ristretto_subtract(&left.0, &right.0))
}

/// The number that bytes stand for, least significant first.
pub open spec fn le_value(bytes: Seq<u8>) -> int
    decreases bytes.len(),
{
    if bytes.len() == 0 {
        0
    } else {
        bytes[0] + 256 * le_value(bytes.drop_first())
    }
}

/// The order of the Ristretto group.
pub open spec fn group_order() -> int {
    7237005577332262213973186563042994240857116359379907606001950938285454250989int
}

/// Calls `curve25519_dalek::Scalar::from_canonical_bytes`. It accepts the
/// little-endian encoding of a number below the group order, and no other
/// bytes.
#[verifier::external_body]
fn scalar_from_canonical_bytes(bytes: &[u8; 32]) -> (r: bool)
    ensures
        r == (le_value(bytes@) < group_order()),
{
    curve25519_dalek::Scalar::from_canonical_bytes(*bytes).is_some().into()
}

/// Whether bytes are the canonical encoding of a scalar.
pub fn is_canonical_scalar(bytes: &Id) -> (r: bool)
    ensures
        r == (le_value(bytes.0@) < group_order()),
{
    scalar_from_canonical_bytes(&bytes.0)
}

/// The bytes that standard base64 text with padding stands for, if it is such
/// text.
pub uninterp spec fn base64_bytes(text: Seq<char>) -> Option<Seq<u8>>;

/// Calls `decode` of `base64::engine::general_purpose::STANDARD`, whose result
/// depends on the text alone.
#[verifier::external_body]
fn base64_decode(text: &str) -> (r: Option<Vec<u8>>)
    ensures
        match r {
            Some(bytes) => base64_bytes(text@) == Some(bytes@),
            None => base64_bytes(text@) is None,
        },
{
    base64::engine::general_purpose::STANDARD.decode(text).ok()
}

/// Why text under `name` is not base64.
pub open spec fn base64_refusal(text: Seq<char>, name: Seq<char>) -> Option<Seq<char>> {
    match base64_bytes(text) {
        Some(_) => None,
        None => Some(name + " is not valid base64"@),
    }
}

/// Decodes base64 text.
pub fn base64_vec(text: &str, name: &str) -> (r: Result<Vec<u8>, String>)
    ensures
        match r {
            Ok(bytes) => base64_bytes(text@) == Some(bytes@),
            Err(message) => base64_refusal(text@, name@) == Some(message@),
        },
{
    match base64_decode(text) {
        Some(bytes) => Ok(bytes),
        None => Err(crate::text::join(name, " is not valid base64")),
    }
}

} // verus!
