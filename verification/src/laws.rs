//! Properties of the library that span its functions, proved over their specifications.
use vstd::prelude::*;
use vstd::arithmetic::power::pow;
use vstd::utf8::encode_utf8;
use crate::engine::{
    code_match, code_symbols, code_text, code_verification, generation, judged_at_clock, mismatch,
    raw_form_check, raw_match, raw_verification, saturating_difference, scan_stops, first_stop,
    skew_match, skew_verification, DEFAULT_STEP_SECS,
};
use crate::clock::now_ts;
use crate::types::{CodeView, valid_code_len, valid_step_secs};
use crate::error::{ErrorView, KeyErrorView, VerificationErrorView};
use crate::primitives::starts_with_age1;
use crate::text::{all_ascii, ascii_char, ascii_text, hex_text};
use crate::types::{
    boundary_at_or_before, decoded_key, Charset, charset_accepts, fixed_digits, holds_at,
    saturating_sum, truncated_code, MAX_SKEW_STEPS,
};
use vstd::utf8::{is_char_boundary, valid_utf8};

verus! {

/// The digits of a fixed-width rendering are symbols of the set, one per position.
proof fn lemma_fixed_digits_symbols(cs: Charset, v: nat, n: nat)
    ensures
        fixed_digits(cs, v, n).len() == n,
        forall|i: int|
            0 <= i < n ==> cs.alphabet().contains(#[trigger] fixed_digits(cs, v, n)[i])
                && fixed_digits(cs, v, n)[i] < 128,
    decreases n,
{
    if n > 0 {
        lemma_fixed_digits_symbols(cs, v / cs.base(), (n - 1) as nat);
        let k = (v % cs.base()) as int;
        assert(cs.alphabet()[k] == cs.symbol(k));
        let prev = fixed_digits(cs, v / cs.base(), (n - 1) as nat);
        assert forall|i: int| 0 <= i < n implies cs.alphabet().contains(
            #[trigger] fixed_digits(cs, v, n)[i],
        ) && fixed_digits(cs, v, n)[i] < 128 by {
            if i < n - 1 {
                assert(fixed_digits(cs, v, n)[i] == prev[i]);
            } else {
                assert(fixed_digits(cs, v, n)[i] == cs.symbol(k));
            }
        }
    }
}

/// ASCII bytes read as text and encoded again give the same bytes.
proof fn lemma_ascii_round_trip(bytes: Seq<u8>)
    requires
        all_ascii(bytes),
    ensures
        encode_utf8(ascii_text(bytes)) == bytes,
{
    let chars = ascii_text(bytes);
    assert(vstd::utf8::is_ascii_chars(chars)) by {
        assert forall|i: int| 0 <= i < chars.len() implies '\0' <= #[trigger] chars[i]
            <= '\u{7f}' by {
            assert(chars[i] == ascii_char(bytes[i]));
            assert(bytes[i] < 128);
        }
    }
    vstd::utf8::is_ascii_chars_encode_utf8(chars);
    assert forall|i: int| 0 <= i < bytes.len() implies encode_utf8(chars)[i] == bytes[i] by {
        assert(chars[i] as u8 == encode_utf8(chars)[i]);
        assert(chars[i] == ascii_char(bytes[i]));
    }
    assert(encode_utf8(chars) =~= bytes);
}

/// A generated code's text is made of `len` ASCII symbols of its set: its bytes are the
/// code's symbols, and the set accepts it.
pub proof fn law_generated_code_well_formed(
    seed: Seq<u8>,
    len: usize,
    time_step: u64,
    step_secs: u64,
    cs: Charset,
)
    requires
        generation(seed, len, time_step, step_secs, cs) is Ok,
    ensures
        ({
            let code = generation(seed, len, time_step, step_secs, cs)->Ok_0;
            &&& encode_utf8(code.text) == code_symbols(seed, time_step, cs, len as nat)
            &&& encode_utf8(code.text).len() == len
            &&& code.text.len() == len
            &&& charset_accepts(cs, encode_utf8(code.text))
            &&& code.born == time_step * step_secs
        }),
{
    let sym = code_symbols(seed, time_step, cs, len as nat);
    lemma_fixed_digits_symbols(
        cs,
        crate::types::code_number(crate::types::step_mac(seed, time_step), cs, len as nat),
        len as nat,
    );
    assert(sym == truncated_code(crate::types::step_mac(seed, time_step), cs, len as nat));
    lemma_ascii_round_trip(sym);
}

/// A code that was generated for a step verifies, as raw text or as a code object, at
/// every clock reading within its time-to-live.
pub proof fn law_generated_code_verifies(
    seed: Seq<u8>,
    len: usize,
    time_step: u64,
    ttl: u64,
    step_secs: u64,
    cs: Charset,
    now: u64,
)
    requires
        generation(seed, len, time_step, step_secs, cs) is Ok,
        holds_at(generation(seed, len, time_step, step_secs, cs)->Ok_0.born, ttl, now),
    ensures
        raw_verification(
            seed,
            generation(seed, len, time_step, step_secs, cs)->Ok_0.text,
            len,
            time_step,
            ttl,
            step_secs,
            cs,
            now,
        ) == Ok::<(), ErrorView>(()),
        code_verification(
            seed,
            generation(seed, len, time_step, step_secs, cs)->Ok_0,
            time_step,
            ttl,
            step_secs,
            cs,
            now,
        ) == Ok::<(), ErrorView>(()),
{
    law_generated_code_well_formed(seed, len, time_step, step_secs, cs);
}

/// A generated code presented outside its time-to-live is refused as expired, with the
/// end of its window and the clock reading.
pub proof fn law_stale_code_expires(
    seed: Seq<u8>,
    len: usize,
    time_step: u64,
    ttl: u64,
    step_secs: u64,
    cs: Charset,
    now: u64,
)
    requires
        generation(seed, len, time_step, step_secs, cs) is Ok,
        !holds_at(generation(seed, len, time_step, step_secs, cs)->Ok_0.born, ttl, now),
    ensures
        raw_verification(
            seed,
            generation(seed, len, time_step, step_secs, cs)->Ok_0.text,
            len,
            time_step,
            ttl,
            step_secs,
            cs,
            now,
        ) == Err::<(), ErrorView>(
            ErrorView::Verification(
                VerificationErrorView::Expired(
                    saturating_sum(
                        generation(seed, len, time_step, step_secs, cs)->Ok_0.born,
                        ttl,
                    ),
                    now,
                ),
            ),
        ),
{
    law_generated_code_well_formed(seed, len, time_step, step_secs, cs);
}

/// A well-formed code that differs from the step's code mismatches, whatever the clock.
pub proof fn law_other_code_mismatches(
    seed: Seq<u8>,
    raw: Seq<char>,
    len: usize,
    time_step: u64,
    ttl: u64,
    step_secs: u64,
    cs: Charset,
    now: u64,
)
    requires
        raw_form_check(raw, len, step_secs, cs) == Ok::<(), ErrorView>(()),
        time_step * step_secs <= u64::MAX,
        raw != code_text(seed, time_step, cs, len as nat),
    ensures
        raw_verification(seed, raw, len, time_step, ttl, step_secs, cs, now) == Err::<
            (),
            ErrorView,
        >(mismatch()),
{
}

/// With no clock skew, verifying with skew is verifying the raw code.
pub proof fn law_zero_skew_is_raw_verification(
    seed: Seq<u8>,
    raw: Seq<char>,
    len: usize,
    time_step: u64,
    ttl: u64,
    step_secs: u64,
    cs: Charset,
    now: u64,
)
    ensures
        skew_verification(seed, raw, len, time_step, ttl, step_secs, cs, 0, now)
            == raw_verification(seed, raw, len, time_step, ttl, step_secs, cs, now),
{
    let lo = saturating_difference(time_step, 0);
    let hi = saturating_sum(time_step, 0);
    assert(lo == time_step && hi == time_step);
    if raw_form_check(raw, len, step_secs, cs) is Ok {
        if scan_stops(seed, raw, len, time_step, step_secs, cs) {
            assert(first_stop(seed, raw, len, lo, hi, step_secs, cs, time_step));
            let s = choose|s: u64| first_stop(seed, raw, len, lo, hi, step_secs, cs, s);
            assert(first_stop(seed, raw, len, lo, hi, step_secs, cs, s));
        } else {
            assert forall|s: u64| !first_stop(seed, raw, len, lo, hi, step_secs, cs, s) by {}
        }
    }
}

/// A code generated for a step within the skew window verifies with skew at a clock
/// reading within its time-to-live, provided no earlier step of the window has the
/// same code.
pub proof fn law_skew_accepts_step_in_window(
    seed: Seq<u8>,
    len: usize,
    time_step: u64,
    ttl: u64,
    step_secs: u64,
    cs: Charset,
    skew: u64,
    step: u64,
    now: u64,
)
    requires
        skew <= MAX_SKEW_STEPS,
        saturating_difference(time_step, skew) <= step <= saturating_sum(time_step, skew),
        generation(seed, len, step, step_secs, cs) is Ok,
        holds_at(generation(seed, len, step, step_secs, cs)->Ok_0.born, ttl, now),
        forall|t: u64|
            saturating_difference(time_step, skew) <= t < step ==> #[trigger] code_text(
                seed,
                t,
                cs,
                len as nat,
            ) != code_text(seed, step, cs, len as nat),
    ensures
        skew_verification(
            seed,
            generation(seed, len, step, step_secs, cs)->Ok_0.text,
            len,
            time_step,
            ttl,
            step_secs,
            cs,
            skew,
            now,
        ) == Ok::<(), ErrorView>(()),
{
    let lo = saturating_difference(time_step, skew);
    let hi = saturating_sum(time_step, skew);
    let raw = generation(seed, len, step, step_secs, cs)->Ok_0.text;
    law_generated_code_well_formed(seed, len, step, step_secs, cs);
    assert forall|t: u64| lo <= t < step implies !#[trigger] scan_stops(
        seed,
        raw,
        len,
        t,
        step_secs,
        cs,
    ) by {
        assert(code_text(seed, t, cs, len as nat) != code_text(seed, step, cs, len as nat));
        assert(t * step_secs <= step * step_secs) by (nonlinear_arith)
            requires
                t < step,
        ;
    }
    assert(first_stop(seed, raw, len, lo, hi, step_secs, cs, step));
    let s = choose|s: u64| first_stop(seed, raw, len, lo, hi, step_secs, cs, s);
    assert(first_stop(seed, raw, len, lo, hi, step_secs, cs, s));
    if s < step {
        assert(!scan_stops(seed, raw, len, s, step_secs, cs));
    } else if s > step {
        assert(!scan_stops(seed, raw, len, step, step_secs, cs));
    }
}

/// A well-formed code that is no step's code within the skew window mismatches, where no
/// step of the window overflows.
pub proof fn law_skew_rejects_code_outside_window(
    seed: Seq<u8>,
    raw: Seq<char>,
    len: usize,
    time_step: u64,
    ttl: u64,
    step_secs: u64,
    cs: Charset,
    skew: u64,
    now: u64,
)
    requires
        skew <= MAX_SKEW_STEPS,
        raw_form_check(raw, len, step_secs, cs) == Ok::<(), ErrorView>(()),
        saturating_sum(time_step, skew) * step_secs <= u64::MAX,
        forall|t: u64|
            saturating_difference(time_step, skew) <= t <= saturating_sum(time_step, skew) ==> raw
                != #[trigger] code_text(seed, t, cs, len as nat),
    ensures
        skew_verification(seed, raw, len, time_step, ttl, step_secs, cs, skew, now) == Err::<
            (),
            ErrorView,
        >(mismatch()),
{
    let lo = saturating_difference(time_step, skew);
    let hi = saturating_sum(time_step, skew);
    assert forall|s: u64| !first_stop(seed, raw, len, lo, hi, step_secs, cs, s) by {
        if first_stop(seed, raw, len, lo, hi, step_secs, cs, s) {
            assert(raw != code_text(seed, s, cs, len as nat));
            assert(s * step_secs <= hi * step_secs) by (nonlinear_arith)
                requires
                    s <= hi,
            ;
        }
    }
}

/// A code never holds under a time-to-live of zero.
pub proof fn law_zero_ttl_never_holds(born: u64, ts: u64)
    ensures
        !holds_at(born, 0, ts),
{
}

/// The hexadecimal form of a seed has two lowercase hex digits per byte.
pub proof fn law_hex_form(bytes: Seq<u8>)
    ensures
        hex_text(bytes).len() == 2 * bytes.len(),
        forall|i: int|
            0 <= i < hex_text(bytes).len() ==> {
                let c = #[trigger] hex_text(bytes)[i];
                ('0' <= c <= '9') || ('a' <= c <= 'f')
            },
{
    assert forall|i: int| 0 <= i < hex_text(bytes).len() implies {
        let c = #[trigger] hex_text(bytes)[i];
        ('0' <= c <= '9') || ('a' <= c <= 'f')
    } by {
        let b = bytes[i / 2] as int;
        assert(0 <= b / 16 < 16 && 0 <= b % 16 < 16);
    }
}

/// Position `i` of an `n`-digit rendering of `v` holds the digit
/// `(v / base^(n-1-i)) mod base`: the code is `v` written in base `base`, most
/// significant digit first, keeping the last `n` digits.
pub proof fn law_fixed_digits_positions(cs: Charset, v: nat, n: nat, i: int)
    requires
        0 <= i < n,
    ensures
        fixed_digits(cs, v, n)[i] == cs.symbol(
            (v as int / pow(cs.base() as int, (n - 1 - i) as nat)) % (cs.base() as int),
        ),
    decreases n,
{
    let b = cs.base() as int;
    lemma_fixed_digits_symbols(cs, v, n);
    if i == n - 1 {
        vstd::arithmetic::power::lemma_pow0(b);
    } else {
        law_fixed_digits_positions(cs, v / cs.base(), (n - 1) as nat, i);
        let e = (n - 2 - i) as nat;
        vstd::arithmetic::power::lemma_pow_positive(b, e);
        vstd::arithmetic::div_mod::lemma_div_denominator(v as int, b, pow(b, e));
        assert(pow(b, (e + 1) as nat) == b * pow(b, e)) by {
            reveal(pow);
        }
        assert((n - 1 - i) as nat == (e + 1) as nat);
    }
}

/// The last character boundary at or before a byte is one, and lies no further on.
proof fn lemma_boundary_at_or_before(b: Seq<u8>, k: nat)
    requires
        valid_utf8(b),
    ensures
        boundary_at_or_before(b, k) <= k,
        is_char_boundary(b, boundary_at_or_before(b, k) as int),
    decreases k,
{
    vstd::utf8::is_char_boundary_start_end_of_seq(b);
    if k > 0 && !is_char_boundary(b, k as int) {
        lemma_boundary_at_or_before(b, (k - 1) as nat);
    }
}

/// A key text that is not empty and does not begin with "age1" is refused with an
/// invalid-prefix error that quotes a start of the text, ten bytes long at most.
pub proof fn law_refused_key_quotes_its_start(raw: Seq<char>)
    requires
        encode_utf8(raw).len() > 0,
        !starts_with_age1(encode_utf8(raw)),
    ensures
        match decoded_key(raw) {
            Err(ErrorView::Key(KeyErrorView::InvalidPrefix(p))) => {
                &&& encode_utf8(p).len() <= 10
                &&& encode_utf8(p) == encode_utf8(raw).subrange(0, encode_utf8(p).len() as int)
            },
            _ => false,
        },
{
    let b = encode_utf8(raw);
    let limit: nat = if b.len() < 10 { b.len() } else { 10 };
    let n = boundary_at_or_before(b, limit);
    vstd::utf8::encode_utf8_valid_utf8(raw);
    lemma_boundary_at_or_before(b, limit);
    vstd::utf8::valid_utf8_split(b, n as int);
    vstd::utf8::decode_utf8_encode_utf8(b.subrange(0, n as int));
}

/// Dynamic truncation reads the four bytes at offset `hash[31] mod 16` as a big-endian
/// number, keeps it modulo `base^len` where that fits in 64 bits, and writes the result
/// in `len` digits of the set, most significant first.
pub proof fn law_truncation_reads_at_last_nibble(hash: Seq<u8>, cs: Charset, len: nat, i: int)
    requires
        hash.len() == 32,
        0 <= i < len,
    ensures
        truncated_code(hash, cs, len).len() == len,
        ({
            let o = hash[31] as int % 16;
            let w: int = hash[o] as int * 16777216 + hash[o + 1] as int * 65536 + hash[o + 2] as int
                * 256 + hash[o + 3] as int;
            let m = pow(cs.base() as int, len);
            let v: int = if m <= u64::MAX {
                w % m
            } else {
                w
            };
            truncated_code(hash, cs, len)[i] == cs.symbol(
                (v / pow(cs.base() as int, (len - 1 - i) as nat)) % (cs.base() as int),
            )
        }),
{
    let last = hash[31];
    assert((last & 0x0fu8) as int == last as int % 16) by (bit_vector);
    vstd::arithmetic::power::lemma_pow_positive(cs.base() as int, len);
    lemma_fixed_digits_symbols(cs, crate::types::code_number(hash, cs, len), len);
    law_fixed_digits_positions(cs, crate::types::code_number(hash, cs, len), len, i);
}

/// A code object is judged by its text: where its text is not the step's code for its
/// length it is refused as a mismatch, whatever its birth time and the clock; where it is,
/// the verdict depends on the clock reading and its own birth time alone.
pub proof fn law_code_object_judged_by_text(
    seed: Seq<u8>,
    code: CodeView,
    time_step: u64,
    ttl: u64,
    step_secs: u64,
    cs: Charset,
    now: u64,
)
    requires
        valid_step_secs(step_secs as int),
        valid_code_len(encode_utf8(code.text).len() as int),
        time_step * step_secs <= u64::MAX,
    ensures
        code.text != code_text(seed, time_step, cs, encode_utf8(code.text).len())
            ==> code_verification(seed, code, time_step, ttl, step_secs, cs, now) == Err::<
            (),
            ErrorView,
        >(mismatch()),
        code.text == code_text(seed, time_step, cs, encode_utf8(code.text).len())
            ==> code_verification(seed, code, time_step, ttl, step_secs, cs, now) == if code.born
            <= now && now < code.born + ttl {
            Ok::<(), ErrorView>(())
        } else {
            Err::<(), ErrorView>(
                ErrorView::Verification(
                    VerificationErrorView::Expired(saturating_sum(code.born, ttl), now),
                ),
            )
        },
{
}

/// A raw code is accepted only where it is well-formed and is the step's code, at a
/// clock reading that `now_ts` returned within its window `[born, born + ttl)`; a raw code
/// refused as expired is refused at such a reading outside that window.
pub proof fn law_raw_verdict_at_clock(
    seed: Seq<u8>,
    raw: Seq<char>,
    len: usize,
    time_step: u64,
    ttl: u64,
    step_secs: u64,
    cs: Charset,
    out: Result<(), ErrorView>,
)
    requires
        judged_at_clock(raw_match(seed, raw, len, time_step, step_secs, cs), out, ttl),
    ensures
        out is Ok ==> {
            &&& raw_form_check(raw, len, step_secs, cs) is Ok
            &&& time_step * step_secs <= u64::MAX
            &&& raw == code_text(seed, time_step, cs, len as nat)
            &&& exists|now: u64|
                #[trigger] call_ensures(now_ts, (), now) && time_step * step_secs <= now
                    < time_step * step_secs + ttl
        },
        out matches Err(ErrorView::Verification(VerificationErrorView::Expired(end, now))) ==> {
            &&& call_ensures(now_ts, (), now)
            &&& raw == code_text(seed, time_step, cs, len as nat)
            &&& time_step * step_secs <= u64::MAX
            &&& !(time_step * step_secs <= now && now < time_step * step_secs + ttl)
            &&& end == saturating_sum((time_step * step_secs) as u64, ttl)
        },
{
}

/// A code object is accepted only where its text is the step's code for its length, at a
/// clock reading that `now_ts` returned within `[code.born, code.born + ttl)`; refused as
/// expired, it is refused at such a reading outside that window.
pub proof fn law_code_verdict_at_clock(
    seed: Seq<u8>,
    code: CodeView,
    time_step: u64,
    ttl: u64,
    step_secs: u64,
    cs: Charset,
    out: Result<(), ErrorView>,
)
    requires
        judged_at_clock(code_match(seed, code, time_step, step_secs, cs), out, ttl),
        encode_utf8(code.text).len() <= usize::MAX,
    ensures
        out is Ok ==> {
            &&& valid_step_secs(step_secs as int)
            &&& code.text == code_text(seed, time_step, cs, encode_utf8(code.text).len())
            &&& exists|now: u64|
                #[trigger] call_ensures(now_ts, (), now) && code.born <= now < code.born + ttl
        },
        out matches Err(ErrorView::Verification(VerificationErrorView::Expired(end, now))) ==> {
            &&& call_ensures(now_ts, (), now)
            &&& code.text == code_text(seed, time_step, cs, encode_utf8(code.text).len())
            &&& !(code.born <= now && now < code.born + ttl)
            &&& end == saturating_sum(code.born, ttl)
        },
{
}

/// A raw code is accepted with skew only where it is the code of a step `s` of the window
/// `time_step - skew ..= time_step + skew` (saturating), at a clock reading that `now_ts`
/// returned within `[s * step_secs, s * step_secs + ttl)`; refused as expired, it is the
/// code of such a step and the reading lies outside that step's window.
pub proof fn law_skew_verdict_at_clock(
    seed: Seq<u8>,
    raw: Seq<char>,
    len: usize,
    time_step: u64,
    ttl: u64,
    step_secs: u64,
    cs: Charset,
    skew: u64,
    out: Result<(), ErrorView>,
)
    requires
        judged_at_clock(skew_match(seed, raw, len, time_step, step_secs, cs, skew), out, ttl),
    ensures
        out is Ok ==> exists|s: u64|
            {
                &&& saturating_difference(time_step, skew) <= s <= saturating_sum(time_step, skew)
                &&& s * step_secs <= u64::MAX
                &&& raw == #[trigger] code_text(seed, s, cs, len as nat)
                &&& exists|now: u64|
                    #[trigger] call_ensures(now_ts, (), now) && s * step_secs <= now < s
                        * step_secs + ttl
            },
        out matches Err(ErrorView::Verification(VerificationErrorView::Expired(end, now)))
            ==> call_ensures(now_ts, (), now) && exists|s: u64|
            {
                &&& saturating_difference(time_step, skew) <= s <= saturating_sum(time_step, skew)
                &&& s * step_secs <= u64::MAX
                &&& raw == #[trigger] code_text(seed, s, cs, len as nat)
                &&& !(s * step_secs <= now && now < s * step_secs + ttl)
                &&& end == saturating_sum((s * step_secs) as u64, ttl)
            },
{
    let lo = saturating_difference(time_step, skew);
    let hi = saturating_sum(time_step, skew);
    if skew_match(seed, raw, len, time_step, step_secs, cs, skew) is Ok {
        let s = choose|s: u64| first_stop(seed, raw, len, lo, hi, step_secs, cs, s);
        assert(first_stop(seed, raw, len, lo, hi, step_secs, cs, s));
        assert(raw == code_text(seed, s, cs, len as nat));
    }
}

/// The code for the 30-second step that holds a reading `now` is that step's code and is
/// born at most 30 seconds before the reading, never after it.
pub proof fn law_current_step_code(seed: Seq<u8>, len: usize, now: u64)
    requires
        valid_code_len(len as int),
    ensures
        generation(seed, len, now / DEFAULT_STEP_SECS, DEFAULT_STEP_SECS, Charset::Numeric) matches Ok(c)
            && c.text == code_text(seed, now / DEFAULT_STEP_SECS, Charset::Numeric, len as nat)
            && c.born <= now < c.born + DEFAULT_STEP_SECS,
{
    let step = now / DEFAULT_STEP_SECS;
    assert(step * 30 <= now < step * 30 + 30) by (nonlinear_arith)
        requires
            step == now / 30,
    ;
}

} // verus!
