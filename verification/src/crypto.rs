//! Hashing, hex encoding and Ed25519 signature checks, each a thin trusted
//! call into the outside crate that implements it.

use ed25519_dalek::Verifier;
use sha2::Digest;
use vstd::prelude::*;

verus! {

/// Error type of `ed25519_dalek` (`ed25519_dalek::SignatureError`).
#[verifier::external_type_specification]
#[verifier::external_body]
pub struct ExSignatureError(ed25519_dalek::SignatureError);

/// Error type of `hex::decode` (`hex::FromHexError`).
#[verifier::external_type_specification]
#[verifier::external_body]
pub struct ExFromHexError(hex::FromHexError);

/// The SHA-256 digest of a byte string, as computed by `sha2::Sha256`.
pub uninterp spec fn spec_sha256(data: Seq<u8>) -> Seq<u8>;

/// Whether `ed25519_dalek` accepts `signature` as a signature of `message`
/// under the 32-byte public key `public_key` (the key decodes to a curve point
/// and `Verifier::verify` succeeds).
pub uninterp spec fn ed25519_accepts(public_key: Seq<u8>, message: Seq<u8>, signature: Seq<u8>) -> bool;

/// Calls `sha2::Sha256::digest`: the result is the SHA-256 digest of `data`.
#[verifier::external_body]
pub(crate) fn sha256_digest(data: &[u8]) -> (r: [u8; 32])
    ensures
        r@ == spec_sha256(data@),
{
    sha2::Sha256::digest(data).into()
}

/// Calls `VerifyingKey::from_bytes` and `Verifier::verify` of `ed25519_dalek`:
/// succeeds exactly when the key decodes and the signature verifies.
#[verifier::external_body]
pub(crate) fn ed25519_verify(public_key: &[u8; 32], message: &[u8], signature: &[u8]) -> (r: Result<
    (),
    ed25519_dalek::SignatureError,
>)
    requires
        signature@.len() == 64,
    ensures
        r is Ok <==> ed25519_accepts(public_key@, message@, signature@),
{
    let key = ed25519_dalek::VerifyingKey::from_bytes(public_key)?;
    let sig = ed25519_dalek::Signature::from_bytes(signature.try_into().unwrap());
    key.verify(message, &sig)
}

/// The lower-case hex digit of a value below 16.
pub open spec fn hex_digit(v: int) -> char {
    if v < 10 {
        (('0' as int) + v) as char
    } else {
        (('a' as int) + v - 10) as char
    }
}

/// Lower-case hex encoding: two digits per byte, high half first.
pub open spec fn spec_hex_encode(data: Seq<u8>) -> Seq<char>
    decreases data.len(),
{
    if data.len() == 0 {
        seq![]
    } else {
        seq![hex_digit((data[0] / 16) as int), hex_digit((data[0] % 16) as int)] + spec_hex_encode(data.drop_first())
    }
}

/// The value of a hex digit of either case, or `None` for any other character.
pub open spec fn hex_value(c: char) -> Option<int> {
    if '0' <= c && c <= '9' {
        Some(c as int - '0' as int)
    } else if 'a' <= c && c <= 'f' {
        Some(c as int - 'a' as int + 10)
    } else if 'A' <= c && c <= 'F' {
        Some(c as int - 'A' as int + 10)
    } else {
        None
    }
}

/// Hex decoding: `None` unless the text has an even number of hex digits.
pub open spec fn spec_hex_decode(text: Seq<char>) -> Option<Seq<u8>>
    decreases text.len(),
{
    if text.len() == 0 {
        Some(seq![])
    } else if text.len() == 1 {
        None
    } else {
        match (hex_value(text[0]), hex_value(text[1]), spec_hex_decode(text.subrange(2, text.len() as int))) {
            (Some(hi), Some(lo), Some(rest)) => Some(seq![(hi * 16 + lo) as u8] + rest),
            _ => None,
        }
    }
}

/// Calls `hex::encode`: lower-case hex, two digits per byte.
#[verifier::external_body]
pub(crate) fn hex_encode(data: &[u8]) -> (r: String)
    ensures
        r@ == spec_hex_encode(data@),
{
    hex::encode(data)
}

/// Calls `hex::decode`: succeeds exactly on an even number of hex digits of
/// either case, with one byte per pair of digits.
#[verifier::external_body]
pub(crate) fn hex_decode(text: &str) -> (r: Result<Vec<u8>, hex::FromHexError>)
    ensures
        r is Ok <==> spec_hex_decode(text@) is Some,
        r matches Ok(bytes) ==> bytes@ == spec_hex_decode(text@).unwrap(),
{
    hex::decode(text)
}

/// Decoding undoes encoding.
pub proof fn lemma_hex_roundtrip(data: Seq<u8>)
    ensures
        spec_hex_decode(spec_hex_encode(data)) == Some(data),
    decreases data.len(),
{
    if data.len() > 0 {
        let e = spec_hex_encode(data);
        let rest = spec_hex_encode(data.drop_first());
        lemma_hex_roundtrip(data.drop_first());
        let hi = data[0] / 16;
        let lo = data[0] % 16;
        assert(e.subrange(2, e.len() as int) =~= rest);
        assert(hex_value(hex_digit(hi as int)) == Some(hi as int));
        assert(hex_value(hex_digit(lo as int)) == Some(lo as int));
        assert(seq![(hi * 16 + lo) as u8] + data.drop_first() =~= data);
    } else {
        assert(spec_hex_encode(data) =~= seq![]);
        assert(data =~= seq![]);
    }
}

} // verus!
