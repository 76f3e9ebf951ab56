//! The OTP engine: codes from a seed and a time step, and their verification.
use vstd::prelude::*;
use vstd::string::StringExecFns;
use vstd::string::StringSliceAdditionalSpecFns;
use vstd::utf8::encode_utf8;
use age_setup::PublicKey;
use crate::error::{Error, ErrorView, GenerationErrorView, VerificationError, VerificationErrorView, unit_outcome};
use crate::primitives::public_key_text;
use crate::clock::now_ts;
use crate::text::{ascii_text, decimal_text};
use crate::types::{
    Charset, CodeView, OtpCode, OtpSeed, charset_accepts, code_len_error, compute_hmac, ct_eq,
    derived_seed, holds_at, seed_debug_text, saturating_sum, skew_steps_error, step_mac, step_secs_error,
    truncate, truncated_code, valid_code_len, valid_step_secs, validate_code_len,
    validate_skew_steps, validate_step_secs,
};

verus! {

/// The step length, in seconds, of the default schedule.
pub const DEFAULT_STEP_SECS: u64 = 30;

/// The symbols of the code for time step `step`: dynamic truncation of the step's MAC.
pub open spec fn code_symbols(seed: Seq<u8>, step: u64, cs: Charset, len: nat) -> Seq<u8> {
    truncated_code(step_mac(seed, step), cs, len)
}

/// The text of the code for time step `step`.
pub open spec fn code_text(seed: Seq<u8>, step: u64, cs: Charset, len: nat) -> Seq<char> {
    ascii_text(code_symbols(seed, step, cs, len))
}

/// What generating a code gives: the code for `time_step`, born at
/// `time_step * step_secs`, or the first error among: the length, the step length,
/// the birth time overflowing.
pub open spec fn generation(
    seed: Seq<u8>,
    len: usize,
    time_step: u64,
    step_secs: u64,
    cs: Charset,
) -> Result<CodeView, ErrorView> {
    if !valid_code_len(len as int) {
        Err(code_len_error(len as nat))
    } else if !valid_step_secs(step_secs as int) {
        Err(step_secs_error(step_secs as nat))
    } else if time_step * step_secs > u64::MAX {
        Err(ErrorView::Generation(GenerationErrorView::Overflow))
    } else {
        Ok(
            CodeView {
                text: code_text(seed, time_step, cs, len as nat),
                born: (time_step * step_secs) as u64,
            },
        )
    }
}

/// The value of a result that carries a code.
pub open spec fn code_outcome(r: Result<OtpCode, Error>) -> Result<CodeView, ErrorView> {
    match r {
        Ok(c) => Ok(c@),
        Err(e) => Err(e@),
    }
}

/// Whether a code born at `born` holds at `now`; if not, the expiry error.
pub open spec fn freshness(born: u64, ttl: u64, now: u64) -> Result<(), ErrorView> {
    if holds_at(born, ttl, now) {
        Ok(())
    } else {
        Err(
            ErrorView::Verification(
                VerificationErrorView::Expired(saturating_sum(born, ttl), now),
            ),
        )
    }
}

/// The error for a code that is not the expected one.
pub open spec fn mismatch() -> ErrorView {
    ErrorView::Verification(VerificationErrorView::Mismatch)
}

/// What checking a code object against `time_step` gives before the clock is read: the
/// code's birth time where it is the expected code, else the first error among the step
/// length, the generation of the expected code, and a mismatch.
pub open spec fn code_match(
    seed: Seq<u8>,
    code: CodeView,
    time_step: u64,
    step_secs: u64,
    cs: Charset,
) -> Result<u64, ErrorView> {
    if !valid_step_secs(step_secs as int) {
        Err(step_secs_error(step_secs as nat))
    } else {
        match generation(seed, encode_utf8(code.text).len() as usize, time_step, step_secs, cs) {
            Err(e) => Err(e),
            Ok(expected) => if code.text != expected.text {
                Err(mismatch())
            } else {
                Ok(code.born)
            },
        }
    }
}

/// The freshness at `now` of a match, or the error that came before the clock was read.
pub open spec fn fresh_match(m: Result<u64, ErrorView>, ttl: u64, now: u64) -> Result<
    (),
    ErrorView,
> {
    match m {
        Err(e) => Err(e),
        Ok(born) => freshness(born, ttl, now),
    }
}

/// What verifying a code object gives at the clock reading `now`.
pub open spec fn code_verification(
    seed: Seq<u8>,
    code: CodeView,
    time_step: u64,
    ttl: u64,
    step_secs: u64,
    cs: Charset,
    now: u64,
) -> Result<(), ErrorView> {
    fresh_match(code_match(seed, code, time_step, step_secs, cs), ttl, now)
}

/// The message for a raw code of the wrong length in bytes.
pub open spec fn length_message(len: nat, got: nat) -> Seq<char> {
    "expected length "@ + decimal_text(len) + ", got "@ + decimal_text(got)
}

/// The checks of a raw code's form, in order: its length, the step length, the text's
/// length in bytes, its symbols.
pub open spec fn raw_form_check(
    raw: Seq<char>,
    len: usize,
    step_secs: u64,
    cs: Charset,
) -> Result<(), ErrorView> {
    let b = encode_utf8(raw);
    if !valid_code_len(len as int) {
        Err(code_len_error(len as nat))
    } else if !valid_step_secs(step_secs as int) {
        Err(step_secs_error(step_secs as nat))
    } else if b.len() != len {
        Err(
            ErrorView::Verification(
                VerificationErrorView::InvalidFormat(length_message(len as nat, b.len())),
            ),
        )
    } else if !charset_accepts(cs, b) {
        Err(ErrorView::Verification(VerificationErrorView::InvalidFormat("invalid charset"@)))
    } else {
        Ok(())
    }
}

/// What checking a raw code against `time_step` gives before the clock is read: the
/// birth time of the step's code where `raw` is that code, else the first error among
/// the checks of form, the generation of the expected code, and a mismatch.
pub open spec fn raw_match(
    seed: Seq<u8>,
    raw: Seq<char>,
    len: usize,
    time_step: u64,
    step_secs: u64,
    cs: Charset,
) -> Result<u64, ErrorView> {
    match raw_form_check(raw, len, step_secs, cs) {
        Err(e) => Err(e),
        Ok(()) => match generation(seed, len, time_step, step_secs, cs) {
            Err(e) => Err(e),
            Ok(expected) => if raw != expected.text {
                Err(mismatch())
            } else {
                Ok(expected.born)
            },
        },
    }
}

/// What verifying a raw code gives at the clock reading `now`.
pub open spec fn raw_verification(
    seed: Seq<u8>,
    raw: Seq<char>,
    len: usize,
    time_step: u64,
    ttl: u64,
    step_secs: u64,
    cs: Charset,
    now: u64,
) -> Result<(), ErrorView> {
    fresh_match(raw_match(seed, raw, len, time_step, step_secs, cs), ttl, now)
}

/// `a - b`, or 0 where `b > a`.
pub open spec fn saturating_difference(a: u64, b: u64) -> u64 {
    if a < b {
        0
    } else {
        (a - b) as u64
    }
}

/// The scan over steps stops at `step`: its birth time overflows or its code is `raw`.
pub open spec fn scan_stops(
    seed: Seq<u8>,
    raw: Seq<char>,
    len: usize,
    step: u64,
    step_secs: u64,
    cs: Charset,
) -> bool {
    step * step_secs > u64::MAX || raw == code_text(seed, step, cs, len as nat)
}

/// `step` is the first step of `lo..=hi` at which the scan stops.
pub open spec fn first_stop(
    seed: Seq<u8>,
    raw: Seq<char>,
    len: usize,
    lo: u64,
    hi: u64,
    step_secs: u64,
    cs: Charset,
    step: u64,
) -> bool {
    &&& lo <= step <= hi
    &&& scan_stops(seed, raw, len, step, step_secs, cs)
    &&& forall|t: u64| lo <= t < step ==> !#[trigger] scan_stops(seed, raw, len, t, step_secs, cs)
}

/// What checking a raw code with clock skew gives before the clock is read: after the
/// checks of the skew and of form, the steps `time_step - skew ..= time_step + skew`
/// (saturating) are tried in order; the first whose birth time overflows fails with
/// `Overflow`, the first whose code is `raw` gives its birth time, and with neither the
/// code mismatches.
pub open spec fn skew_match(
    seed: Seq<u8>,
    raw: Seq<char>,
    len: usize,
    time_step: u64,
    step_secs: u64,
    cs: Charset,
    skew: u64,
) -> Result<u64, ErrorView> {
    let lo = saturating_difference(time_step, skew);
    let hi = saturating_sum(time_step, skew);
    if skew > crate::types::MAX_SKEW_STEPS {
        Err(skew_steps_error(skew as nat))
    } else {
        match raw_form_check(raw, len, step_secs, cs) {
            Err(e) => Err(e),
            Ok(()) => if exists|s: u64| first_stop(seed, raw, len, lo, hi, step_secs, cs, s) {
                let s = choose|s: u64| first_stop(seed, raw, len, lo, hi, step_secs, cs, s);
                if s * step_secs > u64::MAX {
                    Err(ErrorView::Generation(GenerationErrorView::Overflow))
                } else {
                    Ok((s * step_secs) as u64)
                }
            } else {
                Err(mismatch())
            },
        }
    }
}

/// What verifying a raw code with clock skew gives at the clock reading `now`.
pub open spec fn skew_verification(
    seed: Seq<u8>,
    raw: Seq<char>,
    len: usize,
    time_step: u64,
    ttl: u64,
    step_secs: u64,
    cs: Charset,
    skew: u64,
    now: u64,
) -> Result<(), ErrorView> {
    fresh_match(skew_match(seed, raw, len, time_step, step_secs, cs, skew), ttl, now)
}

/// `out` is what a match `m` gives once the clock has been read: the match's error
/// unchanged, or, for a code born at `born`, the verdict at a reading that `now_ts`
/// returned: accepted where `born <= reading < born + ttl`, else expired, with the end of
/// the window (saturating) and the reading.
pub open spec fn judged_at_clock(m: Result<u64, ErrorView>, out: Result<(), ErrorView>, ttl: u64) -> bool {
    match m {
        Err(e) => out == Err::<(), ErrorView>(e),
        Ok(born) => exists|now: u64|
            #[trigger] call_ensures(now_ts, (), now) && if born <= now && now < born + ttl {
                out == Ok::<(), ErrorView>(())
            } else {
                out == Err::<(), ErrorView>(
                    ErrorView::Verification(
                        VerificationErrorView::Expired(saturating_sum(born, ttl), now),
                    ),
                )
            },
    }
}

/// The value of a result that carries a birth time.
pub open spec fn born_outcome(r: Result<u64, Error>) -> Result<u64, ErrorView> {
    match r {
        Ok(b) => Ok(b),
        Err(e) => Err(e@),
    }
}

/// Generates and verifies time-based one-time codes from a seed.
#[derive(Clone)]
pub struct OtpEngine {
    seed: OtpSeed,
}

impl View for OtpEngine {
    type V = Seq<u8>;

    closed spec fn view(&self) -> Seq<u8> {
        self.seed@
    }
}

proof fn lemma_same_bytes_same_text(a: Seq<char>, b: Seq<char>)
    ensures
        (encode_utf8(a) == encode_utf8(b)) == (a == b),
{
    vstd::utf8::encode_utf8_decode_utf8(a);
    vstd::utf8::encode_utf8_decode_utf8(b);
}

/// The code's freshness at `now`, as an error where it has expired.
fn freshness_check(born: u64, ttl: u64, now: u64) -> (r: Result<(), Error>)
    ensures
        unit_outcome(r) == freshness(born, ttl, now),
{
    if now >= born && now - born < ttl {
        Ok(())
    } else {
        Err(Error::Verification(VerificationError::Expired(born.saturating_add(ttl), now)))
    }
}

impl OtpEngine {
    /// An engine whose seed is derived from an age public key.
    pub fn from_public_key(pk: &PublicKey) -> (r: Result<Self, Error>)
        ensures
            match r {
                Ok(engine) => derived_seed(public_key_text(*pk)) == Ok::<Seq<u8>, ErrorView>(
                    engine@,
                ),
                Err(e) => derived_seed(public_key_text(*pk)) == Err::<Seq<u8>, ErrorView>(e@),
            },
    {
        let seed = OtpSeed::from_public_key(pk)?;
        Ok(Self { seed })
    }

    /// An engine with the given seed.
    pub fn from_seed(seed: OtpSeed) -> (r: Self)
        ensures
            r@ == seed@,
    {
        Self { seed }
    }

    /// The engine's debugging form: its seed's, which shows eight hex digits only.
    pub fn debug_text(&self) -> (r: String)
        ensures
            r@ == "OtpEngine { seed: "@ + seed_debug_text(self@) + " }"@,
    {
        let mut r = String::from_str("OtpEngine { seed: ");
        let inner = self.seed.debug_text();
        r.append(inner.as_str());
        r.append(" }");
        r
    }

    /// The engine's seed.
    pub fn seed(&self) -> (r: &OtpSeed)
        ensures
            r@ == self@,
    {
        &self.seed
    }

    /// The code of `len` symbols of `charset` for `time_step`, born at
    /// `time_step * step_secs`.
    pub fn generate(&self, len: usize, time_step: u64, step_secs: u64, charset: Charset) -> (r:
        Result<OtpCode, Error>)
        ensures
            code_outcome(r) == generation(self@, len, time_step, step_secs, charset),
    {
        validate_code_len(len)?;
        validate_step_secs(step_secs)?;
        let hash = compute_hmac(self.seed.as_bytes(), time_step)?;
        let value = truncate(&hash, charset, len)?;
        OtpCode::new(value, time_step, step_secs)
    }

    /// `generate` with numeric symbols and 30-second steps.
    pub fn generate_default(&self, len: usize, time_step: u64) -> (r: Result<OtpCode, Error>)
        ensures
            code_outcome(r) == generation(
                self@,
                len,
                time_step,
                DEFAULT_STEP_SECS,
                Charset::Numeric,
            ),
    {
        self.generate(len, time_step, DEFAULT_STEP_SECS, Charset::default())
    }

    /// `generate_default` for the 30-second step that holds the clock's current reading.
    pub fn generate_now(&self, len: usize) -> (r: Result<OtpCode, Error>)
        ensures
            exists|now: u64|
                code_outcome(r) == #[trigger] generation(
                    self@,
                    len,
                    now / DEFAULT_STEP_SECS,
                    DEFAULT_STEP_SECS,
                    Charset::Numeric,
                ),
            exists|now: u64|
                #[trigger] call_ensures(now_ts, (), now) && code_outcome(r) == generation(
                    self@,
                    len,
                    now / DEFAULT_STEP_SECS,
                    DEFAULT_STEP_SECS,
                    Charset::Numeric,
                ) && (valid_code_len(len as int) ==> r is Ok && r->Ok_0@.born <= now
                    < r->Ok_0@.born + DEFAULT_STEP_SECS),
    {
        let now = now_ts();
        let step = now / DEFAULT_STEP_SECS;
        let r = self.generate_default(len, step);
        proof {
            assert(step * DEFAULT_STEP_SECS <= now < step * DEFAULT_STEP_SECS + DEFAULT_STEP_SECS)
                by (nonlinear_arith)
                requires
                    step == now / DEFAULT_STEP_SECS,
                    DEFAULT_STEP_SECS == 30,
            ;
            assert(call_ensures(now_ts, (), now));
        }
        r
    }

    /// Checks a code object against `time_step`, up to the clock: its birth time where it
    /// is the expected code.
    fn match_code(&self, code: &OtpCode, time_step: u64, step_secs: u64, charset: Charset) -> (r:
        Result<u64, Error>)
        ensures
            born_outcome(r) == code_match(self@, code@, time_step, step_secs, charset),
    {
        validate_step_secs(step_secs)?;
        let expected = self.generate(code.len(), time_step, step_secs, charset)?;
        proof {
            lemma_same_bytes_same_text(code@.text, expected@.text);
        }
        if !ct_eq(code.as_str().as_bytes(), expected.as_str().as_bytes()) {
            return Err(Error::Verification(VerificationError::Mismatch));
        }
        Ok(code.born_at())
    }

    /// Verifies a code object against `time_step` at the clock reading `now`.
    pub fn verify_at(
        &self,
        code: &OtpCode,
        time_step: u64,
        ttl: u64,
        step_secs: u64,
        charset: Charset,
        now: u64,
    ) -> (r: Result<(), Error>)
        ensures
            unit_outcome(r) == code_verification(
                self@,
                code@,
                time_step,
                ttl,
                step_secs,
                charset,
                now,
            ),
    {
        let born = self.match_code(code, time_step, step_secs, charset)?;
        freshness_check(born, ttl, now)
    }

    /// Verifies a code object against `time_step`; the clock is read once the code has
    /// matched.
    pub fn verify(
        &self,
        code: &OtpCode,
        time_step: u64,
        ttl: u64,
        step_secs: u64,
        charset: Charset,
    ) -> (r: Result<(), Error>)
        ensures
            exists|now: u64|
                unit_outcome(r) == #[trigger] code_verification(
                    self@,
                    code@,
                    time_step,
                    ttl,
                    step_secs,
                    charset,
                    now,
                ),
            judged_at_clock(
                code_match(self@, code@, time_step, step_secs, charset),
                unit_outcome(r),
                ttl,
            ),
    {
        let born = match self.match_code(code, time_step, step_secs, charset) {
            Ok(b) => b,
            Err(e) => {
                assert(unit_outcome(Err(e)) == code_verification(self@, code@, time_step, ttl, step_secs, charset, 0));
                return Err(e);
            },
        };
        let now = now_ts();
        let r = freshness_check(born, ttl, now);
        assert(unit_outcome(r) == code_verification(self@, code@, time_step, ttl, step_secs, charset, now));
        assert(call_ensures(now_ts, (), now));
        r
    }

    /// `verify` with numeric symbols and 30-second steps.
    pub fn verify_default(&self, code: &OtpCode, time_step: u64, ttl: u64) -> (r: Result<
        (),
        Error,
    >)
        ensures
            exists|now: u64|
                unit_outcome(r) == #[trigger] code_verification(
                    self@,
                    code@,
                    time_step,
                    ttl,
                    DEFAULT_STEP_SECS,
                    Charset::Numeric,
                    now,
                ),
            judged_at_clock(
                code_match(self@, code@, time_step, DEFAULT_STEP_SECS, Charset::Numeric),
                unit_outcome(r),
                ttl,
            ),
    {
        self.verify(code, time_step, ttl, DEFAULT_STEP_SECS, Charset::default())
    }

    /// The checks of a raw code's form, then the expected code for `time_step`.
    pub fn validate_and_generate(
        &self,
        raw: &str,
        len: usize,
        time_step: u64,
        step_secs: u64,
        charset: Charset,
    ) -> (r: Result<OtpCode, Error>)
        ensures
            code_outcome(r) == match raw_form_check(raw@, len, step_secs, charset) {
                Err(e) => Err(e),
                Ok(()) => generation(self@, len, time_step, step_secs, charset),
            },
    {
        self.check_raw_form(raw, len, step_secs, charset)?;
        self.generate(len, time_step, step_secs, charset)
    }

    /// The checks of a raw code's form: its length, the step length, the text's length in
    /// bytes, its symbols.
    fn check_raw_form(&self, raw: &str, len: usize, step_secs: u64, charset: Charset) -> (r:
        Result<(), Error>)
        ensures
            unit_outcome(r) == raw_form_check(raw@, len, step_secs, charset),
    {
        validate_code_len(len)?;
        validate_step_secs(step_secs)?;
        let raw_len = raw.as_bytes().len();
        if raw_len != len {
            let mut m = String::from_str("expected length ");
            crate::text::push_decimal(&mut m, len as u64);
            m.append(", got ");
            crate::text::push_decimal(&mut m, raw_len as u64);
            return Err(Error::Verification(VerificationError::InvalidFormat(m)));
        }
        if !charset.validate(raw) {
            return Err(
                Error::Verification(
                    VerificationError::InvalidFormat(String::from_str("invalid charset")),
                ),
            );
        }
        Ok(())
    }

    /// Checks a raw code against `time_step`, up to the clock: the step's birth time where
    /// `raw` is its code.
    fn match_raw(
        &self,
        raw: &str,
        len: usize,
        time_step: u64,
        step_secs: u64,
        charset: Charset,
    ) -> (r: Result<u64, Error>)
        ensures
            born_outcome(r) == raw_match(self@, raw@, len, time_step, step_secs, charset),
    {
        let expected = self.validate_and_generate(raw, len, time_step, step_secs, charset)?;
        proof {
            lemma_same_bytes_same_text(raw@, expected@.text);
        }
        if !ct_eq(raw.as_bytes(), expected.as_str().as_bytes()) {
            return Err(Error::Verification(VerificationError::Mismatch));
        }
        match time_step.checked_mul(step_secs) {
            Some(born) => Ok(born),
            None => Err(
                Error::Verification(VerificationError::InvalidFormat(String::from_str("overflow"))),
            ),
        }
    }

    /// Verifies a raw code of `len` symbols against `time_step` at the clock reading `now`.
    pub fn verify_raw_at(
        &self,
        raw: &str,
        len: usize,
        time_step: u64,
        ttl: u64,
        step_secs: u64,
        charset: Charset,
        now: u64,
    ) -> (r: Result<(), Error>)
        ensures
            unit_outcome(r) == raw_verification(
                self@,
                raw@,
                len,
                time_step,
                ttl,
                step_secs,
                charset,
                now,
            ),
    {
        let born = self.match_raw(raw, len, time_step, step_secs, charset)?;
        freshness_check(born, ttl, now)
    }

    /// Verifies a raw code of `len` symbols against `time_step`; the clock is read once
    /// the code has matched.
    pub fn verify_raw(
        &self,
        raw: &str,
        len: usize,
        time_step: u64,
        ttl: u64,
        step_secs: u64,
        charset: Charset,
    ) -> (r: Result<(), Error>)
        ensures
            exists|now: u64|
                unit_outcome(r) == #[trigger] raw_verification(
                    self@,
                    raw@,
                    len,
                    time_step,
                    ttl,
                    step_secs,
                    charset,
                    now,
                ),
            judged_at_clock(
                raw_match(self@, raw@, len, time_step, step_secs, charset),
                unit_outcome(r),
                ttl,
            ),
    {
        let born = match self.match_raw(raw, len, time_step, step_secs, charset) {
            Ok(b) => b,
            Err(e) => {
                assert(unit_outcome(Err(e)) == raw_verification(self@, raw@, len, time_step, ttl, step_secs, charset, 0));
                return Err(e);
            },
        };
        let now = now_ts();
        let r = freshness_check(born, ttl, now);
        assert(unit_outcome(r) == raw_verification(self@, raw@, len, time_step, ttl, step_secs, charset, now));
        assert(call_ensures(now_ts, (), now));
        r
    }

    /// Checks a raw code against the steps `time_step - skew_steps ..= time_step + skew_steps`
    /// (saturating), in order, up to the clock: the birth time of the first step whose code
    /// is `raw`.
    fn match_with_skew(
        &self,
        raw: &str,
        len: usize,
        time_step: u64,
        step_secs: u64,
        charset: Charset,
        skew_steps: u64,
    ) -> (r: Result<u64, Error>)
        ensures
            born_outcome(r) == skew_match(
                self@,
                raw@,
                len,
                time_step,
                step_secs,
                charset,
                skew_steps,
            ),
    {
        validate_skew_steps(skew_steps)?;
        self.check_raw_form(raw, len, step_secs, charset)?;
        let start = time_step.saturating_sub(skew_steps);
        let end = time_step.saturating_add(skew_steps);
        let ghost seed = self@;
        let mut step = start;
        loop
            invariant
                seed == self@,
                start == saturating_difference(time_step, skew_steps),
                end == saturating_sum(time_step, skew_steps),
                start <= step <= end,
                skew_steps <= crate::types::MAX_SKEW_STEPS,
                raw_form_check(raw@, len, step_secs, charset) == Ok::<(), ErrorView>(()),
                forall|t: u64|
                    start <= t < step ==> !#[trigger] scan_stops(
                        seed,
                        raw@,
                        len,
                        t,
                        step_secs,
                        charset,
                    ),
            decreases end - step,
        {
            let generated = self.generate(len, step, step_secs, charset);
            let expected = match generated {
                Ok(c) => c,
                Err(e) => {
                    proof {
                        assert(first_stop(seed, raw@, len, start, end, step_secs, charset, step));
                        lemma_first_stop_unique(seed, raw@, len, start, end, step_secs, charset, step);
                    }
                    return Err(e);
                },
            };
            proof {
                lemma_same_bytes_same_text(raw@, expected@.text);
            }
            if ct_eq(raw.as_bytes(), expected.as_str().as_bytes()) {
                proof {
                    assert(first_stop(seed, raw@, len, start, end, step_secs, charset, step));
                    lemma_first_stop_unique(seed, raw@, len, start, end, step_secs, charset, step);
                }
                return match step.checked_mul(step_secs) {
                    Some(born) => Ok(born),
                    None => Err(
                        Error::Verification(
                            VerificationError::InvalidFormat(String::from_str("overflow")),
                        ),
                    ),
                };
            }
            if step == end {
                proof {
                    assert forall|s: u64|
                        !first_stop(seed, raw@, len, start, end, step_secs, charset, s) by {
                        if first_stop(seed, raw@, len, start, end, step_secs, charset, s) {
                            assert(!scan_stops(seed, raw@, len, s, step_secs, charset));
                        }
                    }
                }
                return Err(Error::Verification(VerificationError::Mismatch));
            }
            step = step + 1;
        }
    }

    /// Verifies a raw code against the steps `time_step - skew_steps ..= time_step + skew_steps`
    /// (saturating), in order, at the clock reading `now`.
    pub fn verify_with_skew_at(
        &self,
        raw: &str,
        len: usize,
        time_step: u64,
        ttl: u64,
        step_secs: u64,
        charset: Charset,
        skew_steps: u64,
        now: u64,
    ) -> (r: Result<(), Error>)
        ensures
            unit_outcome(r) == skew_verification(
                self@,
                raw@,
                len,
                time_step,
                ttl,
                step_secs,
                charset,
                skew_steps,
                now,
            ),
    {
        let born = self.match_with_skew(raw, len, time_step, step_secs, charset, skew_steps)?;
        freshness_check(born, ttl, now)
    }

    /// Verifies a raw code against the steps `time_step - skew_steps ..= time_step + skew_steps`;
    /// the clock is read once a step's code has matched.
    pub fn verify_with_skew(
        &self,
        raw: &str,
        len: usize,
        time_step: u64,
        ttl: u64,
        step_secs: u64,
        charset: Charset,
        skew_steps: u64,
    ) -> (r: Result<(), Error>)
        ensures
            exists|now: u64|
                unit_outcome(r) == #[trigger] skew_verification(
                    self@,
                    raw@,
                    len,
                    time_step,
                    ttl,
                    step_secs,
                    charset,
                    skew_steps,
                    now,
                ),
            judged_at_clock(
                skew_match(self@, raw@, len, time_step, step_secs, charset, skew_steps),
                unit_outcome(r),
                ttl,
            ),
    {
        let born = match self.match_with_skew(raw, len, time_step, step_secs, charset, skew_steps) {
            Ok(b) => b,
            Err(e) => {
                assert(unit_outcome(Err(e)) == skew_verification(self@, raw@, len, time_step, ttl, step_secs, charset, skew_steps, 0));
                return Err(e);
            },
        };
        let now = now_ts();
        let r = freshness_check(born, ttl, now);
        assert(unit_outcome(r) == skew_verification(self@, raw@, len, time_step, ttl, step_secs, charset, skew_steps, now));
        assert(call_ensures(now_ts, (), now));
        r
    }
}

/// The first stop of a scan is unique: it is what `choose` picks.
proof fn lemma_first_stop_unique(
    seed: Seq<u8>,
    raw: Seq<char>,
    len: usize,
    lo: u64,
    hi: u64,
    step_secs: u64,
    cs: Charset,
    step: u64,
)
    requires
        first_stop(seed, raw, len, lo, hi, step_secs, cs, step),
    ensures
        (choose|s: u64| first_stop(seed, raw, len, lo, hi, step_secs, cs, s)) == step,
{
    let s = choose|s: u64| first_stop(seed, raw, len, lo, hi, step_secs, cs, s);
    assert(first_stop(seed, raw, len, lo, hi, step_secs, cs, s));
    if s < step {
        assert(!scan_stops(seed, raw, len, s, step_secs, cs));
    } else if s > step {
        assert(!scan_stops(seed, raw, len, step, step_secs, cs));
    }
}

} // verus!
