//! Seeds, codes, character sets and the computations that produce and check codes.
use vstd::prelude::*;
use vstd::arithmetic::power::pow;
use vstd::string::StringExecFns;
use vstd::string::StringSliceAdditionalSpecFns;
use crate::error::{
    Error, ErrorView, GenerationError, GenerationErrorView, KeyError, KeyErrorView, VerificationError,
    VerificationErrorView, unit_outcome,
};
use crate::text::{ascii_char, ascii_text, decimal_text, push_ascii, push_decimal};
use crate::primitives::{
    bech32_checked_bytes, bech32_decoding, expose_public_key, hkdf_sha256_expand, hkdf_sha256_okm,
    hmac_sha256, hmac_sha256_tag, starts_with_age1, age1_bytes, ct_eq_slices, public_key_text,
};
use crate::text::{debug_quoted, hex_string, hex_text, plain_printable, quote_debug};
use vstd::utf8::{decode_utf8, encode_utf8, is_char_boundary};
use age_setup::PublicKey;

verus! {

/// Bytes in a seed.
pub const SEED_LEN: usize = 32;
/// Fewest symbols in a code.
pub const MIN_CODE_LEN: usize = 4;
/// Most symbols in a code.
pub const MAX_CODE_LEN: usize = 64;
/// Shortest time step, in seconds.
pub const MIN_STEP_SECS: u64 = 1;
/// Longest time step, in seconds.
pub const MAX_STEP_SECS: u64 = 3600;
/// Most steps of clock skew tolerated on either side.
pub const MAX_SKEW_STEPS: u64 = 10;

const DIGITS: [u8; 10] = [48, 49, 50, 51, 52, 53, 54, 55, 56, 57];

const ALPHANUM: [u8; 36] = [
    48, 49, 50, 51, 52, 53, 54, 55, 56, 57, 65, 66, 67, 68, 69, 70, 71, 72, 73, 74, 75, 76, 77, 78,
    79, 80, 81, 82, 83, 84, 85, 86, 87, 88, 89, 90,
];

const HEX: [u8; 16] = [48, 49, 50, 51, 52, 53, 54, 55, 56, 57, 97, 98, 99, 100, 101, 102];

/// The alphabet a code is written in.
#[derive(Clone, Copy, Debug, PartialEq, Eq, Structural)]
pub enum Charset {
    Numeric,
    AlphanumericUpper,
    HexLower,
}

impl Charset {
    /// The number of symbols.
    pub open spec fn base(self) -> nat {
        match self {
            Charset::Numeric => 10,
            Charset::AlphanumericUpper => 36,
            Charset::HexLower => 16,
        }
    }

    /// The symbol for digit value `i`: '0' to '9', then 'A' to 'Z' or 'a' to 'f'.
    pub open spec fn symbol(self, i: int) -> u8 {
        if i < 10 {
            (48 + i) as u8
        } else {
            match self {
                Charset::HexLower => (87 + i) as u8,
                _ => (55 + i) as u8,
            }
        }
    }

    /// The symbols, in order of value.
    pub open spec fn alphabet(self) -> Seq<u8> {
        Seq::new(self.base(), |i: int| self.symbol(i))
    }

    fn chars(&self) -> (r: &'static [u8])
        ensures
            r@ == self.alphabet(),
    {
        match self {
            Charset::Numeric => {
                assert(DIGITS@ =~= self.alphabet());
                &DIGITS
            },
            Charset::AlphanumericUpper => {
                assert(ALPHANUM@ =~= self.alphabet());
                &ALPHANUM
            },
            Charset::HexLower => {
                assert(HEX@ =~= self.alphabet());
                &HEX
            },
        }
    }

    /// The number of symbols of the set: its base.
    pub fn len(&self) -> (r: usize)
        ensures
            r == self.base(),
    {
        self.chars().len()
    }

    /// Whether `s` is non-empty and every one of its bytes is a symbol of the set.
    pub fn validate(&self, s: &str) -> (r: bool)
        ensures
            r == charset_accepts(*self, s.spec_bytes()),
    {
        let chars = self.chars();
        let bytes = s.as_bytes();
        if bytes.len() == 0 {
            return false;
        }
        let n = bytes.len();
        for i in 0..n
            invariant
                n == bytes@.len(),
                bytes@ == s.spec_bytes(),
                chars@ == self.alphabet(),
                forall|j: int| 0 <= j < i ==> self.alphabet().contains(#[trigger] bytes@[j]),
        {
            if !contains_byte(chars, bytes[i]) {
                return false;
            }
        }
        true
    }
}

impl Default for Charset {
    fn default() -> (r: Self)
        ensures
            r == Charset::Numeric,
    {
        Charset::Numeric
    }
}

/// `text` is non-empty and made of symbols of `cs` alone.
pub open spec fn charset_accepts(cs: Charset, text: Seq<u8>) -> bool {
    &&& text.len() > 0
    &&& forall|i: int| 0 <= i < text.len() ==> cs.alphabet().contains(#[trigger] text[i])
}

/// Whether `b` occurs in `table`.
fn contains_byte(table: &[u8], b: u8) -> (r: bool)
    ensures
        r == table@.contains(b),
{
    let n = table.len();
    for i in 0..n
        invariant
            n == table@.len(),
            forall|j: int| 0 <= j < i ==> table@[j] != b,
    {
        if table[i] == b {
            return true;
        }
    }
    false
}

/// The allowed code lengths.
pub open spec fn valid_code_len(len: int) -> bool {
    MIN_CODE_LEN <= len <= MAX_CODE_LEN
}

/// The allowed lengths of a time step, in seconds.
pub open spec fn valid_step_secs(secs: int) -> bool {
    MIN_STEP_SECS <= secs <= MAX_STEP_SECS
}

/// The message for a code length out of bounds.
pub open spec fn code_len_message(len: nat) -> Seq<char> {
    "code length must be "@ + decimal_text(MIN_CODE_LEN as nat) + "-"@ + decimal_text(
        MAX_CODE_LEN as nat,
    ) + ", got "@ + decimal_text(len)
}

/// The error for a code length out of bounds.
pub open spec fn code_len_error(len: nat) -> ErrorView {
    ErrorView::Generation(GenerationErrorView::InvalidLength(code_len_message(len)))
}

/// The message for a step length out of bounds.
pub open spec fn step_secs_message(secs: nat) -> Seq<char> {
    "step_secs must be "@ + decimal_text(MIN_STEP_SECS as nat) + "-"@ + decimal_text(
        MAX_STEP_SECS as nat,
    ) + ", got "@ + decimal_text(secs)
}

/// The error for a step length out of bounds.
pub open spec fn step_secs_error(secs: nat) -> ErrorView {
    ErrorView::Generation(GenerationErrorView::TruncateFailed(step_secs_message(secs)))
}

/// The message for a clock skew out of bounds.
pub open spec fn skew_steps_message(skew: nat) -> Seq<char> {
    "skew_steps must be <= "@ + decimal_text(MAX_SKEW_STEPS as nat) + ", got "@ + decimal_text(
        skew,
    )
}

/// The error for a clock skew out of bounds.
pub open spec fn skew_steps_error(skew: nat) -> ErrorView {
    ErrorView::Verification(VerificationErrorView::InvalidFormat(skew_steps_message(skew)))
}

/// The error for a code length out of bounds.
fn code_len_failure(len: usize) -> (e: Error)
    ensures
        e@ == code_len_error(len as nat),
{
    let mut m = String::from_str("code length must be ");
    push_decimal(&mut m, MIN_CODE_LEN as u64);
    m.append("-");
    push_decimal(&mut m, MAX_CODE_LEN as u64);
    m.append(", got ");
    push_decimal(&mut m, len as u64);
    Error::Generation(GenerationError::InvalidLength(m))
}

/// Checks that a code length lies within `MIN_CODE_LEN..=MAX_CODE_LEN`.
pub fn validate_code_len(len: usize) -> (r: Result<(), Error>)
    ensures
        unit_outcome(r) == if valid_code_len(len as int) {
            Ok::<(), ErrorView>(())
        } else {
            Err(code_len_error(len as nat))
        },
{
    if len < MIN_CODE_LEN || len > MAX_CODE_LEN {
        return Err(code_len_failure(len));
    }
    Ok(())
}

/// Checks that a step length lies within `MIN_STEP_SECS..=MAX_STEP_SECS`.
pub fn validate_step_secs(secs: u64) -> (r: Result<(), Error>)
    ensures
        unit_outcome(r) == if valid_step_secs(secs as int) {
            Ok::<(), ErrorView>(())
        } else {
            Err(step_secs_error(secs as nat))
        },
{
    if secs < MIN_STEP_SECS || secs > MAX_STEP_SECS {
        let mut m = String::from_str("step_secs must be ");
        push_decimal(&mut m, MIN_STEP_SECS);
        m.append("-");
        push_decimal(&mut m, MAX_STEP_SECS);
        m.append(", got ");
        push_decimal(&mut m, secs);
        return Err(Error::Generation(GenerationError::TruncateFailed(m)));
    }
    Ok(())
}

/// Checks that a clock skew is at most `MAX_SKEW_STEPS`.
pub fn validate_skew_steps(skew: u64) -> (r: Result<(), Error>)
    ensures
        unit_outcome(r) == if skew <= MAX_SKEW_STEPS {
            Ok::<(), ErrorView>(())
        } else {
            Err(skew_steps_error(skew as nat))
        },
{
    if skew > MAX_SKEW_STEPS {
        let mut m = String::from_str("skew_steps must be <= ");
        push_decimal(&mut m, MAX_SKEW_STEPS);
        m.append(", got ");
        push_decimal(&mut m, skew);
        return Err(Error::Verification(VerificationError::InvalidFormat(m)));
    }
    Ok(())
}


/// The eight bytes of `x`, most significant first.
pub open spec fn be_bytes(x: u64) -> Seq<u8> {
    seq![
        (x >> 56u64) as u8,
        (x >> 48u64) as u8,
        (x >> 40u64) as u8,
        (x >> 32u64) as u8,
        (x >> 24u64) as u8,
        (x >> 16u64) as u8,
        (x >> 8u64) as u8,
        x as u8,
    ]
}

/// `x.to_be_bytes()`.
fn u64_be_bytes(x: u64) -> (r: [u8; 8])
    ensures
        r@ == be_bytes(x),
{
    let r: [u8; 8] = [
        (x >> 56u64) as u8,
        (x >> 48u64) as u8,
        (x >> 40u64) as u8,
        (x >> 32u64) as u8,
        (x >> 24u64) as u8,
        (x >> 16u64) as u8,
        (x >> 8u64) as u8,
        x as u8,
    ];
    assert(r@ =~= be_bytes(x));
    r
}

/// The HMAC-SHA256 of a time step: the tag of its eight big-endian bytes under the seed.
pub open spec fn step_mac(seed: Seq<u8>, step: u64) -> Seq<u8> {
    hmac_sha256_tag(seed, be_bytes(step))
}

/// HMAC-SHA256 of `step` (big-endian) keyed by `seed`. It always succeeds.
pub fn compute_hmac(seed: &[u8; SEED_LEN], step: u64) -> (r: Result<[u8; 32], Error>)
    ensures
        r is Ok,
        r.unwrap()@ == step_mac(seed@, step),
{
    let message = u64_be_bytes(step);
    match hmac_sha256(seed, &message) {
        Some(tag) => Ok(tag),
        None => Err(Error::Generation(GenerationError::HmacFailed)),
    }
}

/// Where dynamic truncation reads: the low four bits of the last byte.
pub open spec fn truncation_offset(hash: Seq<u8>) -> int {
    (hash[31] & 0x0fu8) as int
}

/// The four bytes at the truncation offset, read as a big-endian number.
pub open spec fn truncated_word(hash: Seq<u8>) -> nat {
    let o = truncation_offset(hash);
    (hash[o] as nat) * 16777216 + (hash[o + 1] as nat) * 65536 + (hash[o + 2] as nat) * 256 + (
    hash[o + 3] as nat)
}

/// The number that a code of `len` symbols of `cs` writes: the truncated word modulo
/// `base^len`, or the word itself where `base^len` exceeds `u64::MAX`.
pub open spec fn code_number(hash: Seq<u8>, cs: Charset, len: nat) -> nat {
    let m = pow(cs.base() as int, len);
    if m <= u64::MAX {
        truncated_word(hash) % (m as nat)
    } else {
        truncated_word(hash)
    }
}

/// The last `n` digits of `v` in base `cs.base()`, most significant first, as symbols of `cs`.
pub open spec fn fixed_digits(cs: Charset, v: nat, n: nat) -> Seq<u8>
    decreases n,
{
    if n == 0 {
        seq![]
    } else {
        fixed_digits(cs, v / cs.base(), (n - 1) as nat).push(cs.symbol((v % cs.base()) as int))
    }
}

/// The symbols of the code that dynamic truncation makes of `hash`.
pub open spec fn truncated_code(hash: Seq<u8>, cs: Charset, len: nat) -> Seq<u8> {
    fixed_digits(cs, code_number(hash, cs, len), len)
}

proof fn lemma_low_nibble(b: u8)
    ensures
        (b & 0x0fu8) < 16,
{
    assert((b & 0x0fu8) < 16) by (bit_vector);
}

proof fn lemma_be_word(a: u8, b: u8, c: u8, d: u8)
    ensures
        ((a as u32) << 24u32) | ((b as u32) << 16u32) | ((c as u32) << 8u32) | (d as u32) == (a as int)
            * 16777216 + (b as int) * 65536 + (c as int) * 256 + (d as int),
{
    assert(((a as u32) << 24u32) | ((b as u32) << 16u32) | ((c as u32) << 8u32) | (d as u32) == (a
        as int) * 16777216 + (b as int) * 65536 + (c as int) * 256 + (d as int)) by (bit_vector);
}

/// `base^exp`, or `None` where it exceeds `u64::MAX`.
fn checked_power(base: u64, exp: u32) -> (r: Option<u64>)
    requires
        base >= 1,
    ensures
        r == if pow(base as int, exp as nat) <= u64::MAX {
            Some(pow(base as int, exp as nat) as u64)
        } else {
            None::<u64>
        },
{
    let mut acc: u64 = 1;
    let mut i: u32 = 0;
    proof {
        vstd::arithmetic::power::lemma_pow0(base as int);
    }
    while i < exp
        invariant
            base >= 1,
            i <= exp,
            acc == pow(base as int, i as nat),
        decreases exp - i,
    {
        let next = acc.checked_mul(base);
        proof {
            assert(pow(base as int, (i + 1) as nat) == base * pow(base as int, i as nat)) by {
                reveal(pow);
            }
            vstd::arithmetic::mul::lemma_mul_is_commutative(base as int, acc as int);
        }
        match next {
            Some(v) => {
                acc = v;
                i = i + 1;
            },
            None => {
                proof {
                    vstd::arithmetic::power::lemma_pow_increases(
                        base as nat,
                        (i + 1) as nat,
                        exp as nat,
                    );
                }
                return None;
            },
        }
    }
    Some(acc)
}

/// Appends the last `n` digits of `v` in base `cs.base()`, most significant first.
fn push_fixed_digits(s: &mut String, table: &[u8], cs: Charset, v: u64, n: usize)
    requires
        table@ == cs.alphabet(),
    ensures
        final(s)@ == old(s)@ + ascii_text(fixed_digits(cs, v as nat, n as nat)),
    decreases n,
{
    if n == 0 {
        assert(final(s)@ =~= old(s)@ + ascii_text(fixed_digits(cs, v as nat, n as nat)));
        return;
    }
    let base = table.len() as u64;
    push_fixed_digits(s, table, cs, v / base, n - 1);
    let idx = (v % base) as usize;
    push_ascii(s, table[idx]);
    proof {
        let prev = fixed_digits(cs, (v / base) as nat, (n - 1) as nat);
        assert((v / base) as nat == (v as nat) / cs.base());
        assert(ascii_text(prev.push(cs.symbol(idx as int))) =~= ascii_text(prev).push(
            ascii_char(cs.symbol(idx as int)),
        ));
        assert(final(s)@ =~= old(s)@ + ascii_text(fixed_digits(cs, v as nat, n as nat)));
    }
}

/// Dynamic truncation: turns a 32-byte MAC into a code of `len` symbols of `charset`.
pub fn truncate(hash: &[u8; 32], charset: Charset, len: usize) -> (r: Result<String, Error>)
    ensures
        match r {
            Ok(s) => valid_code_len(len as int) && s@ == ascii_text(
                truncated_code(hash@, charset, len as nat),
            ),
            Err(e) => !valid_code_len(len as int) && e@ == code_len_error(len as nat),
        },
{
    if len < MIN_CODE_LEN || len > MAX_CODE_LEN {
        return Err(code_len_failure(len));
    }
    let last = hash[31];
    proof {
        lemma_low_nibble(last);
    }
    let offset = (last & 0x0f) as usize;
    let binary: u32 = ((hash[offset] as u32) << 24u32) | ((hash[offset + 1] as u32) << 16u32) | ((
    hash[offset + 2] as u32) << 8u32) | (hash[offset + 3] as u32);
    proof {
        lemma_be_word(hash[offset as int], hash[offset + 1], hash[offset + 2], hash[offset + 3]);
        assert(binary == truncated_word(hash@));
    }
    let chars = charset.chars();
    let base = charset.len() as u64;
    proof {
        vstd::arithmetic::power::lemma_pow_positive(base as int, len as nat);
    }
    let code_val: u64 = match checked_power(base, len as u32) {
        Some(max_val) => (binary as u64) % max_val,
        None => binary as u64,
    };
    assert(code_val == code_number(hash@, charset, len as nat));
    let mut s = String::new();
    push_fixed_digits(&mut s, chars, charset, code_val, len);
    assert(s@ =~= ascii_text(truncated_code(hash@, charset, len as nat)));
    Ok(s)
}


/// The HKDF context under which seeds are derived: the bytes of "age-otp-v1".
pub open spec fn seed_context() -> Seq<u8> {
    seq![97u8, 103u8, 101u8, 45u8, 111u8, 116u8, 112u8, 45u8, 118u8, 49u8]
}

/// The last character boundary of the UTF-8 bytes `b` at or before byte `k`.
pub open spec fn boundary_at_or_before(b: Seq<u8>, k: nat) -> nat
    decreases k,
{
    if k == 0 || is_char_boundary(b, k as int) {
        k
    } else {
        boundary_at_or_before(b, (k - 1) as nat)
    }
}

/// The start of a refused key text quoted in the error: its first ten bytes at most,
/// cut back to the last character boundary.
pub open spec fn quoted_prefix(b: Seq<u8>) -> Seq<char> {
    let n: nat = if b.len() < 10 { b.len() } else { 10 };
    decode_utf8(b.subrange(0, boundary_at_or_before(b, n) as int))
}

/// What decoding an age public key text gives: the 32 key bytes, or the error.
pub open spec fn decoded_key(raw: Seq<char>) -> Result<Seq<u8>, ErrorView> {
    let b = encode_utf8(raw);
    if b.len() == 0 {
        Err(ErrorView::Key(KeyErrorView::Empty))
    } else if !starts_with_age1(b) {
        Err(ErrorView::Key(KeyErrorView::InvalidPrefix(quoted_prefix(b))))
    } else {
        match bech32_decoding(raw) {
            Err(m) => Err(ErrorView::Key(KeyErrorView::Bech32Decode("Bech32 parse error: "@ + m))),
            Ok(d) => if d.len() != SEED_LEN {
                Err(ErrorView::Key(KeyErrorView::InvalidDecodedLength(d.len() as usize)))
            } else {
                Ok(d)
            },
        }
    }
}

/// What deriving a seed from an age public key text gives.
pub open spec fn derived_seed(raw: Seq<char>) -> Result<Seq<u8>, ErrorView> {
    match decoded_key(raw) {
        Ok(k) => Ok(hkdf_sha256_okm(k, seed_context())),
        Err(e) => Err(e),
    }
}

fn has_age1_prefix(bytes: &[u8]) -> (r: bool)
    ensures
        r == starts_with_age1(bytes@),
{
    if bytes.len() < 4 {
        return false;
    }
    let r = bytes[0] == 97 && bytes[1] == 103 && bytes[2] == 101 && bytes[3] == 49;
    assert(r == (bytes@.subrange(0, 4) =~= age1_bytes()));
    r
}

/// Decodes the text of an age public key into its 32 bytes.
pub(crate) fn decode_age_public_key(raw: &str) -> (r: Result<[u8; SEED_LEN], Error>)
    ensures
        match r {
            Ok(k) => decoded_key(raw@) == Ok::<Seq<u8>, ErrorView>(k@),
            Err(e) => decoded_key(raw@) == Err::<Seq<u8>, ErrorView>(e@),
        },
{
    let bytes = raw.as_bytes();
    if bytes.len() == 0 {
        return Err(Error::Key(KeyError::Empty));
    }
    if !has_age1_prefix(bytes) {
        let limit: usize = if bytes.len() < 10 {
            bytes.len()
        } else {
            10
        };
        let mut n: usize = limit;
        while n > 0 && !raw.is_char_boundary(n)
            invariant
                n <= limit,
                limit <= raw.spec_bytes().len(),
                boundary_at_or_before(raw.spec_bytes(), limit as nat) == boundary_at_or_before(
                    raw.spec_bytes(),
                    n as nat,
                ),
            decreases n,
        {
            n = n - 1;
        }
        proof {
            vstd::utf8::encode_utf8_valid_utf8(raw@);
            vstd::utf8::is_char_boundary_start_end_of_seq(raw.spec_bytes());
            assert(boundary_at_or_before(raw.spec_bytes(), n as nat) == n);
        }
        let (head, _) = raw.split_at(n);
        proof {
            vstd::utf8::encode_utf8_decode_utf8(head@);
        }
        return Err(Error::Key(KeyError::InvalidPrefix(head.to_owned())));
    }
    match bech32_checked_bytes(raw) {
        Err(m) => {
            let mut t = String::from_str("Bech32 parse error: ");
            t.append(m.as_str());
            Err(Error::Key(KeyError::Bech32Decode(t)))
        },
        Ok(v) => {
            if v.len() != SEED_LEN {
                return Err(Error::Key(KeyError::InvalidDecodedLength(v.len())));
            }
            let mut out = [0u8; 32];
            for i in 0..32
                invariant
                    v@.len() == 32,
                    forall|j: int| 0 <= j < i ==> out@[j] == v@[j],
            {
                out[i] = v[i];
            }
            assert(out@ =~= v@);
            Ok(out)
        },
    }
}

/// The 32-byte secret from which codes are computed.
#[derive(Clone)]
pub struct OtpSeed {
    bytes: [u8; SEED_LEN],
}

impl View for OtpSeed {
    type V = Seq<u8>;

    closed spec fn view(&self) -> Seq<u8> {
        self.bytes@
    }
}

impl OtpSeed {
    /// Derives the seed of an age public key: its text is bech32-decoded and the 32 key
    /// bytes go through HKDF-SHA256 under the context "age-otp-v1".
    pub fn from_public_key(pk: &PublicKey) -> (r: Result<Self, Error>)
        ensures
            match r {
                Ok(seed) => derived_seed(public_key_text(*pk)) == Ok::<Seq<u8>, ErrorView>(seed@),
                Err(e) => derived_seed(public_key_text(*pk)) == Err::<Seq<u8>, ErrorView>(e@),
            },
    {
        let raw = expose_public_key(pk);
        Self::from_key_text(raw)
    }

    /// Derives the seed of an age public key given as text.
    pub fn from_key_text(raw: &str) -> (r: Result<Self, Error>)
        ensures
            match r {
                Ok(seed) => derived_seed(raw@) == Ok::<Seq<u8>, ErrorView>(seed@),
                Err(e) => derived_seed(raw@) == Err::<Seq<u8>, ErrorView>(e@),
            },
    {
        let decoded = decode_age_public_key(raw)?;
        let info: [u8; 10] = [97, 103, 101, 45, 111, 116, 112, 45, 118, 49];
        assert(info@ =~= seed_context());
        match hkdf_sha256_expand(&decoded, &info) {
            Some(seed) => Ok(Self { bytes: seed }),
            None => Err(Error::Generation(GenerationError::HmacFailed)),
        }
    }

    /// A seed holding exactly the given bytes.
    pub fn from_bytes(bytes: [u8; SEED_LEN]) -> (r: Self)
        ensures
            r@ == bytes@,
    {
        Self { bytes }
    }

    /// The seed's bytes.
    pub fn as_bytes(&self) -> (r: &[u8; SEED_LEN])
        ensures
            r@ == self@,
    {
        &self.bytes
    }

    /// The seed in lowercase hexadecimal, 64 digits.
    pub fn to_hex(&self) -> (r: String)
        ensures
            r@ == hex_text(self@),
    {
        hex_string(&self.bytes)
    }

    /// The seed's debugging form, which shows only the first eight hex digits.
    pub fn debug_text(&self) -> (r: String)
        ensures
            r@ == seed_debug_text(self@),
    {
        let mut r = String::from_str("OtpSeed { hex_prefix: \"");
        let head: [u8; 4] = [self.bytes[0], self.bytes[1], self.bytes[2], self.bytes[3]];
        let prefix = hex_string(&head);
        assert(prefix@ =~= hex_text(self@).take(8));
        r.append(prefix.as_str());
        r.append("\", .. }");
        r
    }
}

/// How a seed shows when debugged: the first eight hex digits, never the rest.
pub open spec fn seed_debug_text(seed: Seq<u8>) -> Seq<char> {
    "OtpSeed { hex_prefix: \""@ + hex_text(seed).take(8) + "\", .. }"@
}

/// The mathematical value of a code: its text and the second at which it starts to hold.
pub struct CodeView {
    pub text: Seq<char>,
    pub born: u64,
}

/// A one-time code and the UNIX second from which it holds.
#[derive(Clone, PartialEq, Eq)]
pub struct OtpCode {
    value: String,
    born: u64,
}

impl View for OtpCode {
    type V = CodeView;

    closed spec fn view(&self) -> CodeView {
        CodeView { text: self.value@, born: self.born }
    }
}

/// `a + b`, or `u64::MAX` where the sum does not fit.
pub open spec fn saturating_sum(a: u64, b: u64) -> u64 {
    if a + b > u64::MAX {
        u64::MAX
    } else {
        (a + b) as u64
    }
}

/// The text a code's debugging form shows: its first two bytes followed by "***", or
/// "***" alone for a shorter text.
pub open spec fn masked_text(text: Seq<char>) -> Seq<char> {
    let b = encode_utf8(text);
    if b.len() >= 2 {
        decode_utf8(b.subrange(0, 2)) + "***"@
    } else {
        "***"@
    }
}

/// Masking keeps a text of plain printable characters plain printable.
proof fn lemma_masked_plain(text: Seq<char>)
    ensures
        plain_printable(text) ==> plain_printable(masked_text(text)),
{
    if plain_printable(text) {
        let b = encode_utf8(text);
        assert(vstd::utf8::is_ascii_chars(text));
        vstd::utf8::is_ascii_chars_encode_utf8(text);
        if b.len() >= 2 {
            let head = text.take(2);
            assert(vstd::utf8::is_ascii_chars(head));
            vstd::utf8::is_ascii_chars_encode_utf8(head);
            assert(encode_utf8(head) =~= b.subrange(0, 2));
            vstd::utf8::encode_utf8_decode_utf8(head);
        }
        reveal_strlit("***");
    }
}

/// How a code shows when debugged: masked, with its birth time.
pub open spec fn code_debug_text(code: CodeView) -> Seq<char> {
    "OtpCode { code: "@ + debug_quoted(masked_text(code.text)) + ", born: "@ + decimal_text(
        code.born as nat,
    ) + " }"@
}

/// A code born at `born` holds at `ts` under time-to-live `ttl`: `born <= ts < born + ttl`.
pub open spec fn holds_at(born: u64, ttl: u64, ts: u64) -> bool {
    born <= ts && ts < born + ttl
}

impl OtpCode {
    /// A code with the given text, born at `time_step * step_secs`; that product must fit
    /// in a `u64`.
    pub fn new(value: String, time_step: u64, step_secs: u64) -> (r: Result<Self, Error>)
        ensures
            match r {
                Ok(code) => time_step * step_secs <= u64::MAX && code@ == (CodeView {
                    text: value@,
                    born: (time_step * step_secs) as u64,
                }),
                Err(e) => time_step * step_secs > u64::MAX && e@ == ErrorView::Generation(
                    GenerationErrorView::Overflow,
                ),
            },
    {
        match time_step.checked_mul(step_secs) {
            Some(born) => Ok(Self { value, born }),
            None => Err(Error::Generation(GenerationError::Overflow)),
        }
    }

    /// The code's text.
    pub fn as_str(&self) -> (r: &str)
        ensures
            r@ == self@.text,
    {
        self.value.as_str()
    }

    /// The UNIX second from which the code holds.
    pub fn born_at(&self) -> (r: u64)
        ensures
            r == self@.born,
    {
        self.born
    }

    /// The length of the code's text, in bytes.
    pub fn len(&self) -> (r: usize)
        ensures
            r == encode_utf8(self@.text).len() as usize,
    {
        self.value.as_str().len()
    }

    /// Whether the code's text is empty.
    pub fn is_empty(&self) -> (r: bool)
        ensures
            r == (self@.text.len() == 0),
    {
        self.value.as_str().is_empty()
    }

    /// Whether the code holds at `ts` under time-to-live `ttl`.
    pub fn is_valid_at(&self, ts: u64, ttl: u64) -> (r: bool)
        ensures
            r == holds_at(self@.born, ttl, ts),
    {
        ts >= self.born && ts - self.born < ttl
    }

    /// The code's debugging form, which shows at most its first two bytes.
    pub fn debug_text(&self) -> (r: String)
        requires
            encode_utf8(self@.text).len() < 2 || is_char_boundary(encode_utf8(self@.text), 2),
        ensures
            r@ == code_debug_text(self@),
            plain_printable(self@.text) ==> r@ == "OtpCode { code: "@ + seq!['"'] + masked_text(
                self@.text,
            ) + seq!['"'] + ", born: "@ + decimal_text(self@.born as nat) + " }"@,
    {
        proof {
            lemma_masked_plain(self@.text);
        }
        let text = self.value.as_str();
        let masked = if text.as_bytes().len() >= 2 {
            let (head, _) = text.split_at(2);
            proof {
                vstd::utf8::encode_utf8_decode_utf8(head@);
            }
            let mut m = head.to_owned();
            m.append("***");
            m
        } else {
            String::from_str("***")
        };
        let mut r = String::from_str("OtpCode { code: ");
        let quoted = quote_debug(masked.as_str());
        r.append(quoted.as_str());
        r.append(", born: ");
        push_decimal(&mut r, self.born);
        r.append(" }");
        r
    }

    /// The code's text, as shown to a user.
    pub fn to_string(&self) -> (r: String)
        ensures
            r@ == self@.text,
    {
        self.value.clone()
    }
}

impl AsRef<str> for OtpCode {
    fn as_ref(&self) -> (r: &str)
        ensures
            r@ == self@.text,
    {
        self.value.as_str()
    }
}

/// Compares two byte strings without revealing where they differ; false when their
/// lengths differ.
pub fn ct_eq(a: &[u8], b: &[u8]) -> (r: bool)
    ensures
        r == (a@ == b@),
{
    if a.len() != b.len() {
        return false;
    }
    ct_eq_slices(a, b)
}

} // verus!
