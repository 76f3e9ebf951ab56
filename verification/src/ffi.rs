//! The decisions of the C interface: its character-set and status enumerations, the
//! classification of verification failures, and the checks it offers on raw values.
use vstd::prelude::*;
use vstd::string::StringSliceAdditionalSpecFns;
use vstd::std_specs::convert::FromSpecImpl;
use vstd::utf8::encode_utf8;
use crate::engine::OtpEngine;
use crate::error::{Error, ErrorView, error_text};
use crate::types::{Charset, OtpSeed, charset_accepts, derived_seed, SEED_LEN};
use crate::primitives::{
    accepted_key_text, age_public_key_new, decodable_text, hex_bytes, hex_decodable, hex_decode,
    hex_error_message, key_refusal_message,
};
use crate::text::{decimal_text, push_decimal};
use vstd::string::StringExecFns;

verus! {

/// The character sets as the C interface numbers them.
#[derive(Debug, Clone, Copy, PartialEq, Eq, Structural)]
pub enum CCharset {
    Numeric,
    AlphanumericUpper,
    HexLower,
}

impl Default for CCharset {
    fn default() -> (r: Self)
        ensures
            r == CCharset::Numeric,
    {
        CCharset::Numeric
    }
}

/// The status codes of the C interface.
#[derive(Debug, Clone, Copy, PartialEq, Eq, Structural)]
pub enum OtpErrorCode {
    Success,
    NullPointer,
    InvalidString,
    InvalidPublicKey,
    EngineCreationFailed,
    GenerationFailed,
    VerificationFailed,
    Expired,
    InvalidParameter,
    HexDecodeFailed,
    LengthMismatch,
    Unknown,
}

/// The character set that a C character-set number stands for.
pub open spec fn charset_of(c: CCharset) -> Charset {
    match c {
        CCharset::Numeric => Charset::Numeric,
        CCharset::AlphanumericUpper => Charset::AlphanumericUpper,
        CCharset::HexLower => Charset::HexLower,
    }
}

/// The C character-set number of a character set.
pub open spec fn c_charset_of(c: Charset) -> CCharset {
    match c {
        Charset::Numeric => CCharset::Numeric,
        Charset::AlphanumericUpper => CCharset::AlphanumericUpper,
        Charset::HexLower => CCharset::HexLower,
    }
}

impl From<CCharset> for Charset {
    fn from(c: CCharset) -> (r: Self) {
        match c {
            CCharset::Numeric => Charset::Numeric,
            CCharset::AlphanumericUpper => Charset::AlphanumericUpper,
            CCharset::HexLower => Charset::HexLower,
        }
    }
}

impl FromSpecImpl<CCharset> for Charset {
    open spec fn obeys_from_spec() -> bool {
        true
    }

    open spec fn from_spec(c: CCharset) -> Charset {
        charset_of(c)
    }
}

impl From<Charset> for CCharset {
    fn from(c: Charset) -> (r: Self) {
        match c {
            Charset::Numeric => CCharset::Numeric,
            Charset::AlphanumericUpper => CCharset::AlphanumericUpper,
            Charset::HexLower => CCharset::HexLower,
        }
    }
}

impl FromSpecImpl<Charset> for CCharset {
    open spec fn obeys_from_spec() -> bool {
        true
    }

    open spec fn from_spec(c: Charset) -> CCharset {
        c_charset_of(c)
    }
}

/// The time step that holds second `ts` under steps of `step_secs` seconds; 0 for
/// steps of length 0.
pub fn calculate_time_step(ts: u64, step_secs: u64) -> (r: u64)
    ensures
        r == if step_secs == 0 {
            0
        } else {
            ts / step_secs
        },
{
    if step_secs == 0 {
        return 0;
    }
    ts / step_secs
}

/// Whether `code` has exactly `expected_len` bytes, all of them symbols of `charset`.
pub fn validate_code(code: &str, expected_len: usize, charset: CCharset) -> (r: bool)
    ensures
        r == (encode_utf8(code@).len() == expected_len && charset_accepts(
            charset_of(charset),
            encode_utf8(code@),
        )),
{
    let cs = Charset::from(charset);
    if code.as_bytes().len() != expected_len {
        return false;
    }
    cs.validate(code)
}

/// `needle` occurs in `hay` as a run of consecutive bytes.
pub open spec fn occurs_in(hay: Seq<u8>, needle: Seq<u8>) -> bool {
    exists|i: int| 0 <= i && i + needle.len() <= hay.len() && #[trigger] hay.subrange(i, i + needle.len()) == needle
}

/// Whether `needle` occurs in `hay` as a run of consecutive bytes.
fn bytes_occur(hay: &[u8], needle: &[u8]) -> (r: bool)
    ensures
        r == occurs_in(hay@, needle@),
{
    let n = needle.len();
    let h = hay.len();
    if n > h {
        proof {
            assert forall|i: int| !(0 <= i && i + n <= h && #[trigger] hay@.subrange(i, i + n as int) == needle@) by {}
        }
        return false;
    }
    let mut i: usize = 0;
    while i <= h - n
        invariant
            n == needle@.len(),
            h == hay@.len(),
            n <= h,
            i <= h - n + 1,
            forall|j: int| 0 <= j < i ==> #[trigger] hay@.subrange(j, j + n as int) != needle@,
        decreases h - i,
    {
        let mut k: usize = 0;
        let mut same = true;
        while k < n
            invariant
                n == needle@.len(),
                h == hay@.len(),
                i + n <= h,
                k <= n,
                same == (forall|m: int| 0 <= m < k ==> hay@[i + m] == needle@[m]),
            decreases n - k,
        {
            if hay[i + k] != needle[k] {
                same = false;
            }
            k = k + 1;
        }
        if same {
            assert(hay@.subrange(i as int, i + n as int) =~= needle@);
            return true;
        }
        assert(hay@.subrange(i as int, i + n as int) != needle@) by {
            let m = choose|m: int| 0 <= m < n && hay@[i + m] != needle@[m];
            assert(hay@.subrange(i as int, i + n as int)[m] == hay@[i + m]);
        }
        i = i + 1;
    }
    proof {
        assert forall|j: int| !(0 <= j && j + n <= h && #[trigger] hay@.subrange(j, j + n as int) == needle@) by {}
    }
    false
}

/// The bytes of "mismatch".
pub open spec fn mismatch_word() -> Seq<u8> {
    seq![109u8, 105u8, 115u8, 109u8, 97u8, 116u8, 99u8, 104u8]
}

/// The bytes of "Expired".
pub open spec fn expired_word() -> Seq<u8> {
    seq![69u8, 120u8, 112u8, 105u8, 114u8, 101u8, 100u8]
}

/// The status the C interface reports for a failed verification, read from the error's
/// message: `Expired` where it speaks of expiry and not of a mismatch, else
/// `VerificationFailed`.
pub open spec fn failure_status(message: Seq<u8>) -> OtpErrorCode {
    if occurs_in(message, mismatch_word()) {
        OtpErrorCode::VerificationFailed
    } else if occurs_in(message, expired_word()) {
        OtpErrorCode::Expired
    } else {
        OtpErrorCode::VerificationFailed
    }
}

/// The status that the C interface reports for an error of verification.
pub fn verification_failure_code(e: &Error) -> (r: OtpErrorCode)
    ensures
        r == failure_status(encode_utf8(error_text(e@))),
{
    let message = e.to_string();
    let bytes = message.as_str().as_bytes();
    let mismatch: [u8; 8] = [109, 105, 115, 109, 97, 116, 99, 104];
    let expired: [u8; 7] = [69, 120, 112, 105, 114, 101, 100];
    assert(mismatch@ =~= mismatch_word());
    assert(expired@ =~= expired_word());
    if bytes_occur(bytes, &mismatch) {
        OtpErrorCode::VerificationFailed
    } else if bytes_occur(bytes, &expired) {
        OtpErrorCode::Expired
    } else {
        OtpErrorCode::VerificationFailed
    }
}

/// Why a hexadecimal seed text was refused.
#[derive(Debug)]
pub enum SeedTextError {
    /// The text is not an even number of hexadecimal digits; the decoder's message.
    HexDecode(String),
    /// The text decodes to this many bytes instead of 32.
    LengthMismatch(usize),
}

/// What reading a seed from hexadecimal text gives: the seed, or why it was refused.
pub open spec fn seed_text_outcome(r: Result<OtpSeed, SeedTextError>, text: Seq<u8>) -> bool {
    match r {
        Ok(seed) => hex_decodable(text) && hex_bytes(text).len() == SEED_LEN && seed@ == hex_bytes(
            text,
        ),
        Err(SeedTextError::HexDecode(m)) => !hex_decodable(text) && m@ == hex_error_message(text),
        Err(SeedTextError::LengthMismatch(n)) => hex_decodable(text) && n == hex_bytes(text).len()
            && n != SEED_LEN,
    }
}

/// Reads a seed written as 64 hexadecimal digits.
pub fn seed_from_hex(text: &str) -> (r: Result<OtpSeed, SeedTextError>)
    ensures
        seed_text_outcome(r, text.spec_bytes()),
{
    let bytes = match hex_decode(text) {
        Ok(b) => b,
        Err(m) => {
            return Err(SeedTextError::HexDecode(m));
        },
    };
    if bytes.len() != SEED_LEN {
        return Err(SeedTextError::LengthMismatch(bytes.len()));
    }
    let mut seed_bytes = [0u8; 32];
    for i in 0..32
        invariant
            bytes@.len() == 32,
            forall|j: int| 0 <= j < i ==> seed_bytes@[j] == bytes@[j],
    {
        seed_bytes[i] = bytes[i];
    }
    assert(seed_bytes@ =~= bytes@);
    Ok(OtpSeed::from_bytes(seed_bytes))
}

impl SeedTextError {
    /// The message the C interface reports.
    pub fn message(&self) -> (r: String)
        ensures
            r@ == match self {
                SeedTextError::HexDecode(m) => "hex decode error: "@ + m@,
                SeedTextError::LengthMismatch(n) => "decoded hex must be "@ + decimal_text(
                    SEED_LEN as nat,
                ) + " bytes, got "@ + decimal_text(*n as nat),
            },
    {
        match self {
            SeedTextError::HexDecode(m) => {
                let mut r = String::from_str("hex decode error: ");
                r.append(m.as_str());
                r
            },
            SeedTextError::LengthMismatch(n) => {
                let mut r = String::from_str("decoded hex must be ");
                push_decimal(&mut r, SEED_LEN as u64);
                r.append(" bytes, got ");
                push_decimal(&mut r, *n as u64);
                r
            },
        }
    }

    /// The status the C interface reports.
    pub fn code(&self) -> (r: OtpErrorCode)
        ensures
            r == match self {
                SeedTextError::HexDecode(_) => OtpErrorCode::HexDecodeFailed,
                SeedTextError::LengthMismatch(_) => OtpErrorCode::LengthMismatch,
            },
    {
        match self {
            SeedTextError::HexDecode(_) => OtpErrorCode::HexDecodeFailed,
            SeedTextError::LengthMismatch(_) => OtpErrorCode::LengthMismatch,
        }
    }
}

/// Why a public key given as text gave no seed or engine.
#[derive(Debug)]
pub enum KeyInputError {
    /// `age_setup` refused the text as a public key; its message.
    Refused(String),
    /// The key was accepted, and deriving its seed failed.
    Derive(Error),
}

/// The seed of an age public key given as text: `age_setup` checks the text, then the
/// seed is derived from the key.
pub fn seed_from_key_input(text: String) -> (r: Result<OtpSeed, KeyInputError>)
    requires
        decodable_text(text@),
    ensures
        match r {
            Ok(seed) => accepted_key_text(text@) && derived_seed(text@) == Ok::<
                Seq<u8>,
                ErrorView,
            >(seed@),
            Err(KeyInputError::Refused(m)) => !accepted_key_text(text@) && m@
                == key_refusal_message(text@),
            Err(KeyInputError::Derive(e)) => accepted_key_text(text@) && derived_seed(text@)
                == Err::<Seq<u8>, ErrorView>(e@),
        },
{
    let pk = match age_public_key_new(text) {
        Ok(pk) => pk,
        Err(m) => {
            return Err(KeyInputError::Refused(m));
        },
    };
    match OtpSeed::from_public_key(&pk) {
        Ok(seed) => Ok(seed),
        Err(e) => Err(KeyInputError::Derive(e)),
    }
}

/// An engine for an age public key given as text: `age_setup` checks the text, then the
/// engine's seed is derived from the key.
pub fn engine_from_key_input(text: String) -> (r: Result<OtpEngine, KeyInputError>)
    requires
        decodable_text(text@),
    ensures
        match r {
            Ok(engine) => accepted_key_text(text@) && derived_seed(text@) == Ok::<
                Seq<u8>,
                ErrorView,
            >(engine@),
            Err(KeyInputError::Refused(m)) => !accepted_key_text(text@) && m@
                == key_refusal_message(text@),
            Err(KeyInputError::Derive(e)) => accepted_key_text(text@) && derived_seed(text@)
                == Err::<Seq<u8>, ErrorView>(e@),
        },
{
    let pk = match age_public_key_new(text) {
        Ok(pk) => pk,
        Err(m) => {
            return Err(KeyInputError::Refused(m));
        },
    };
    match OtpEngine::from_public_key(&pk) {
        Ok(engine) => Ok(engine),
        Err(e) => Err(KeyInputError::Derive(e)),
    }
}

impl KeyInputError {
    /// The message the C interface reports.
    pub fn message(&self) -> (r: String)
        ensures
            r@ == match self {
                KeyInputError::Refused(m) => m@,
                KeyInputError::Derive(e) => error_text(e@),
            },
    {
        match self {
            KeyInputError::Refused(m) => m.clone(),
            KeyInputError::Derive(e) => e.to_string(),
        }
    }

    /// The status the C interface reports when making an engine failed.
    pub fn engine_code(&self) -> (r: OtpErrorCode)
        ensures
            r == match self {
                KeyInputError::Refused(_) => OtpErrorCode::InvalidPublicKey,
                KeyInputError::Derive(_) => OtpErrorCode::EngineCreationFailed,
            },
    {
        match self {
            KeyInputError::Refused(_) => OtpErrorCode::InvalidPublicKey,
            KeyInputError::Derive(_) => OtpErrorCode::EngineCreationFailed,
        }
    }

    /// The status the C interface reports when making a seed failed.
    pub fn seed_code(&self) -> (r: OtpErrorCode)
        ensures
            r == match self {
                KeyInputError::Refused(_) => OtpErrorCode::InvalidPublicKey,
                KeyInputError::Derive(_) => OtpErrorCode::GenerationFailed,
            },
    {
        match self {
            KeyInputError::Refused(_) => OtpErrorCode::InvalidPublicKey,
            KeyInputError::Derive(_) => OtpErrorCode::GenerationFailed,
        }
    }
}

/// The refusal of a seed buffer of `len` bytes, whose length the C caller passes as
/// `name`: none for a buffer of exactly 32 bytes.
pub fn seed_length_refusal(name: &str, len: usize) -> (r: Option<String>)
    ensures
        match r {
            None => len == SEED_LEN,
            Some(m) => len != SEED_LEN && m@ == name@ + " must be "@ + decimal_text(
                SEED_LEN as nat,
            ) + ", got "@ + decimal_text(len as nat),
        },
{
    if len == SEED_LEN {
        return None;
    }
    let mut m = String::from_str(name);
    m.append(" must be ");
    push_decimal(&mut m, SEED_LEN as u64);
    m.append(", got ");
    push_decimal(&mut m, len as u64);
    Some(m)
}

} // verus!
