//! The calls into outside crates: making and reading an age public key, bech32
//! decoding, hexadecimal decoding, HKDF-SHA256, HMAC-SHA256 and constant-time comparison.
//! Each item here is trusted: Verus believes its contract and does not read its body.
use vstd::prelude::*;
use vstd::string::StringSliceAdditionalSpecFns;
use vstd::utf8::{decode_utf8, encode_utf8, is_char_boundary};
use age_setup::PublicKey;
use bech32::primitives::decode::CheckedHrpstring;
use bech32::Bech32;
use hkdf::Hkdf;
use hmac::{Hmac, Mac};
use sha2::Sha256;
use subtle::ConstantTimeEq;

verus! {

#[verifier::external_type_specification]
#[verifier::external_body]
pub struct ExPublicKey(PublicKey);

/// The bytes of the text "age1".
pub open spec fn age1_bytes() -> Seq<u8> {
    seq![97u8, 103u8, 101u8, 49u8]
}

/// The UTF-8 bytes `b` begin with "age1".
pub open spec fn starts_with_age1(b: Seq<u8>) -> bool {
    b.len() >= 4 && b.subrange(0, 4) == age1_bytes()
}

/// The characters that an age public key holds: `age_setup::PublicKey` is a newtype
/// around the `String` it was made from.
pub uninterp spec fn public_key_text(pk: PublicKey) -> Seq<char>;

/// `text` is what `age_setup` accepts as a public key: not empty, beginning with "age1".
pub open spec fn accepted_key_text(text: Seq<char>) -> bool {
    text.len() > 0 && starts_with_age1(encode_utf8(text))
}

/// The inputs on which `age_setup` accepts or refuses a key text without panicking: the
/// start of the text that its refusal quotes (the first ten bytes) ends on a character
/// boundary, or nothing is quoted.
pub open spec fn decodable_text(raw: Seq<char>) -> bool {
    let b = encode_utf8(raw);
    starts_with_age1(b) || b.len() <= 10 || is_char_boundary(b, 10)
}

/// The message of the error that `age_setup::PublicKey::new` gives for a text it refuses.
pub open spec fn key_refusal_message(text: Seq<char>) -> Seq<char> {
    let b = encode_utf8(text);
    if text.len() == 0 {
        "Validation failed: Invalid public key format: Key is empty"@
    } else {
        "Validation failed: Invalid public key format: Key must start with 'age1', got: "@
            + decode_utf8(b.subrange(0, if b.len() < 10 { b.len() as int } else { 10 }))
    }
}

/// `age_setup::PublicKey::new(text)`, its error turned into its message.
/// Trusted: `new` accepts exactly the texts that are not empty and begin with "age1", and
/// the key then holds that text; it refuses any other text with a validation error whose
/// message quotes the first ten bytes at most. It panics where those ten bytes end inside
/// a character, which `requires` leaves out.
#[verifier::external_body]
pub(crate) fn age_public_key_new(text: String) -> (r: Result<PublicKey, String>)
    requires
        decodable_text(text@),
    ensures
        match r {
            Ok(pk) => accepted_key_text(text@) && public_key_text(pk) == text@,
            Err(m) => !accepted_key_text(text@) && m@ == key_refusal_message(text@),
        },
{
    match PublicKey::new(text) {
        Ok(pk) => Ok(pk),
        Err(e) => Err(e.to_string()),
    }
}

/// `age_setup::PublicKey::expose`: the key's text.
/// Trusted: it returns the text the key holds, which `public_key_text` names; the text
/// begins with "age1", since `PublicKey::new`, the type's only constructor, refuses any
/// other text.
#[verifier::external_body]
pub(crate) fn expose_public_key(pk: &PublicKey) -> (r: &str)
    ensures
        r@ == public_key_text(*pk),
        starts_with_age1(r.spec_bytes()),
{
    pk.expose()
}

/// What `bech32::primitives::decode::CheckedHrpstring::new::<Bech32>` followed by
/// `byte_iter` makes of a text: the data bytes, or the message of the parse error.
pub uninterp spec fn bech32_decoding(text: Seq<char>) -> Result<Seq<u8>, Seq<char>>;

/// `CheckedHrpstring::new::<Bech32>(text)`, then its `byte_iter()` collected.
/// Trusted: success and the bytes, or failure and the error's message, are those
/// that `bech32_decoding` names for the text.
#[verifier::external_body]
pub(crate) fn bech32_checked_bytes(text: &str) -> (r: Result<Vec<u8>, String>)
    ensures
        match r {
            Ok(v) => bech32_decoding(text@) == Ok::<Seq<u8>, Seq<char>>(v@),
            Err(e) => bech32_decoding(text@) == Err::<Seq<u8>, Seq<char>>(e@),
        },
{
    match CheckedHrpstring::new::<Bech32>(text) {
        Ok(parsed) => Ok(parsed.byte_iter().collect()),
        Err(e) => Err(e.to_string()),
    }
}

/// The 32 output bytes of HKDF-SHA256 with no salt, input key material `ikm` and
/// context `info`.
pub uninterp spec fn hkdf_sha256_okm(ikm: Seq<u8>, info: Seq<u8>) -> Seq<u8>;

/// `hkdf::Hkdf::<Sha256>::new(None, ikm)` then `expand(info, &mut okm)` into 32 bytes.
/// Trusted: `expand` fails only for outputs longer than 255 hash lengths, so for 32
/// bytes it succeeds, and the bytes are those that `hkdf_sha256_okm` names.
#[verifier::external_body]
pub(crate) fn hkdf_sha256_expand(ikm: &[u8; 32], info: &[u8]) -> (r: Option<[u8; 32]>)
    ensures
        r is Some,
        r.unwrap()@ == hkdf_sha256_okm(ikm@, info@),
{
    let hk = Hkdf::<Sha256>::new(None, ikm);
    let mut okm = [0u8; 32];
    hk.expand(info, &mut okm).ok()?;
    Some(okm)
}

/// The HMAC-SHA256 tag of `message` under `key`.
pub uninterp spec fn hmac_sha256_tag(key: Seq<u8>, message: Seq<u8>) -> Seq<u8>;

/// `Hmac::<Sha256>::new_from_slice(key)`, `update(message)`, `finalize()`.
/// Trusted: `new_from_slice` accepts a key of any length for HMAC, so a tag always
/// comes back, and it is the one that `hmac_sha256_tag` names.
#[verifier::external_body]
pub(crate) fn hmac_sha256(key: &[u8; 32], message: &[u8; 8]) -> (r: Option<[u8; 32]>)
    ensures
        r is Some,
        r.unwrap()@ == hmac_sha256_tag(key@, message@),
{
    let mut mac = Hmac::<Sha256>::new_from_slice(key).ok()?;
    mac.update(message);
    Some(mac.finalize().into_bytes().into())
}

/// `subtle::ConstantTimeEq::ct_eq` on byte slices, turned into a `bool`.
/// Trusted: true exactly when the slices are equal (of equal length, byte by byte).
#[verifier::external_body]
pub(crate) fn ct_eq_slices(a: &[u8], b: &[u8]) -> (r: bool)
    ensures
        r == (a@ == b@),
{
    a.ct_eq(b).into()
}

/// `b` is an ASCII hexadecimal digit of either case.
pub open spec fn is_hex_byte(b: u8) -> bool {
    (48 <= b <= 57) || (65 <= b <= 70) || (97 <= b <= 102)
}

/// The value of the hexadecimal digit `b`.
pub open spec fn hex_value(b: u8) -> int {
    if b <= 57 {
        b - 48
    } else if b <= 70 {
        b - 55
    } else {
        b - 87
    }
}

/// `text` is an even number of hexadecimal digits.
pub open spec fn hex_decodable(text: Seq<u8>) -> bool {
    &&& text.len() % 2 == 0
    &&& forall|i: int| 0 <= i < text.len() ==> is_hex_byte(#[trigger] text[i])
}

/// The bytes that pairs of hexadecimal digits write, high digit first.
pub open spec fn hex_bytes(text: Seq<u8>) -> Seq<u8> {
    Seq::new(
        text.len() / 2,
        |i: int| (hex_value(text[2 * i]) * 16 + hex_value(text[2 * i + 1])) as u8,
    )
}

/// The message of the error that `hex::decode` gives for a text it refuses.
pub uninterp spec fn hex_error_message(text: Seq<u8>) -> Seq<char>;

/// `hex::decode(text)`.
/// Trusted: it succeeds exactly on an even number of hexadecimal digits of either case,
/// with the bytes they write; on any other text it fails with the message that
/// `hex_error_message` names.
#[verifier::external_body]
pub(crate) fn hex_decode(text: &str) -> (r: Result<Vec<u8>, String>)
    ensures
        match r {
            Ok(v) => hex_decodable(text.spec_bytes()) && v@ == hex_bytes(text.spec_bytes()),
            Err(m) => !hex_decodable(text.spec_bytes()) && m@ == hex_error_message(
                text.spec_bytes(),
            ),
        },
{
    match hex::decode(text) {
        Ok(v) => Ok(v),
        Err(e) => Err(e.to_string()),
    }
}

} // verus!
