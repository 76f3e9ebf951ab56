//! Building ASCII text: single characters, decimal numbers, hexadecimal bytes.
use vstd::prelude::*;

verus! {

/// The character whose code is `b` (ASCII when `b < 128`).
pub open spec fn ascii_char(b: u8) -> char {
    b as char
}

/// The text whose characters are the given ASCII bytes.
pub open spec fn ascii_text(bytes: Seq<u8>) -> Seq<char> {
    bytes.map_values(|b: u8| ascii_char(b))
}

/// Every byte is below 128.
pub open spec fn all_ascii(bytes: Seq<u8>) -> bool {
    forall|i: int| 0 <= i < bytes.len() ==> #[trigger] bytes[i] < 128
}

/// Appends one ASCII character to `s` (std's `String::push`).
/// Trusted: pushing the character of code `b` adds exactly that character at the end.
#[verifier::external_body]
pub(crate) fn push_ascii(s: &mut String, b: u8)
    requires
        b < 128,
    ensures
        final(s)@ == old(s)@.push(ascii_char(b)),
{
    s.push(b as char);
}

/// Decimal digits of `n`, most significant first, without leading zeros.
pub open spec fn decimal_text(n: nat) -> Seq<char>
    decreases n,
{
    if n < 10 {
        seq![ascii_char((48 + n) as u8)]
    } else {
        decimal_text(n / 10).push(ascii_char((48 + n % 10) as u8))
    }
}

/// Appends the decimal digits of `n` to `s`.
pub fn push_decimal(s: &mut String, n: u64)
    ensures
        final(s)@ == old(s)@ + decimal_text(n as nat),
    decreases n,
{
    if n >= 10 {
        push_decimal(s, n / 10);
    }
    let d: u8 = (n % 10) as u8;
    push_ascii(s, 48 + d);
    assert(final(s)@ =~= old(s)@ + decimal_text(n as nat)) by {
        if n >= 10 {
            assert((n / 10) as nat == (n as nat) / 10);
        }
    }
}

/// The lowercase hexadecimal digit of `n < 16`.
pub open spec fn hex_digit(n: int) -> char {
    if n < 10 {
        ascii_char((48 + n) as u8)
    } else {
        ascii_char((87 + n) as u8)
    }
}

/// Two lowercase hexadecimal digits per byte, high half first.
pub open spec fn hex_text(bytes: Seq<u8>) -> Seq<char> {
    Seq::new(
        2 * bytes.len(),
        |i: int|
            if i % 2 == 0 {
                hex_digit(bytes[i / 2] as int / 16)
            } else {
                hex_digit(bytes[i / 2] as int % 16)
            },
    )
}

fn hex_symbol(n: u8) -> (r: u8)
    requires
        n < 16,
    ensures
        r < 128,
        ascii_char(r) == hex_digit(n as int),
{
    if n < 10 {
        48 + n
    } else {
        87 + n
    }
}

/// The bytes written in lowercase hexadecimal, two digits each.
pub fn hex_string(bytes: &[u8]) -> (r: String)
    ensures
        r@ == hex_text(bytes@),
{
    let mut s = String::new();
    let n = bytes.len();
    for i in 0..n
        invariant
            n == bytes@.len(),
            s@ =~= hex_text(bytes@.take(i as int)),
    {
        let b = bytes[i];
        let hi = b >> 4u8;
        let lo = b & 0x0fu8;
        assert(hi == b / 16 && lo == b % 16) by (bit_vector)
            requires
                hi == b >> 4u8,
                lo == b & 0x0fu8,
        ;
        push_ascii(&mut s, hex_symbol(hi));
        push_ascii(&mut s, hex_symbol(lo));
        assert(bytes@.take(i + 1 as int).take(i as int) =~= bytes@.take(i as int));
        assert(s@ =~= hex_text(bytes@.take(i + 1 as int)));
    }
    assert(bytes@.take(n as int) =~= bytes@);
    s
}

/// How `{:?}` writes a string: between double quotes, with Rust's escapes.
pub uninterp spec fn debug_quoted(text: Seq<char>) -> Seq<char>;

/// Every character of `text` is printable ASCII other than `"` and `\`: the characters
/// that `{:?}` writes unescaped.
pub open spec fn plain_printable(text: Seq<char>) -> bool {
    forall|i: int|
        0 <= i < text.len() ==> ' ' <= #[trigger] text[i] <= '~' && text[i] != '"' && text[i]
            != '\\'
}

/// `format!("{:?}", text)`.
/// Trusted: the result is the text that `debug_quoted` names, a function of the text alone;
/// as std documents for `str`'s `Debug`, a text of plain printable characters comes back
/// between double quotes and otherwise unchanged.
#[verifier::external_body]
pub(crate) fn quote_debug(text: &str) -> (r: String)
    ensures
        r@ == debug_quoted(text@),
        plain_printable(text@) ==> r@ == seq!['"'] + text@ + seq!['"'],
{
    format!("{:?}", text)
}

} // verus!
