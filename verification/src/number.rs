//! Which texts write a number.
//!
//! The exchanges send amounts and ratios as text. Such a text is passed on
//! as it is; this module decides whether it writes a number at all, by the
//! grammar that Rust's `f64` reads: an optional sign, then `inf`, `infinity`
//! or `nan` in any case, or decimal digits with an optional point and an
//! optional exponent.

use vstd::prelude::*;

verus! {

/// Whether a character is a decimal digit.
pub open spec fn is_digit(c: char) -> bool {
    '0' <= c && c <= '9'
}

/// Whether a character is a sign.
pub open spec fn is_sign(c: char) -> bool {
    c == '+' || c == '-'
}

/// The end of the longest run of digits of `text` that starts at `from`.
pub open spec fn digits_end(text: Seq<char>, from: int) -> int
    decreases text.len() - from,
{
    if 0 <= from < text.len() && is_digit(text[from]) {
        digits_end(text, from + 1)
    } else {
        from
    }
}

/// Whether `text`, from `start` to its end, is the word that `lower` writes
/// in lower case and `upper` in upper case, each letter in either case.
pub open spec fn is_word_at(
    text: Seq<char>,
    start: int,
    lower: Seq<char>,
    upper: Seq<char>,
) -> bool {
    &&& text.len() - start == lower.len()
    &&& forall|i: int|
        0 <= i < lower.len() ==> text[start + i] == lower[i] || text[start + i] == upper[i]
}

/// Whether `text`, from `at` to its end, is an exponent: `e` or `E`, an
/// optional sign, and at least one digit.
pub open spec fn is_exponent_at(text: Seq<char>, at: int) -> bool {
    &&& at + 1 < text.len()
    &&& (text[at] == 'e' || text[at] == 'E')
    &&& {
        let digits = if is_sign(text[at + 1]) {
            at + 2
        } else {
            at + 1
        };
        digits < text.len() && digits_end(text, digits) == text.len()
    }
}

/// Whether `text`, from `start` to its end, is a decimal number: digits with
/// at most one point among them, at least one digit in all, and then an
/// optional exponent.
pub open spec fn is_decimal_at(text: Seq<char>, start: int) -> bool {
    let whole_end = digits_end(text, start);
    let has_point = whole_end < text.len() && text[whole_end] == '.';
    let fraction_start = if has_point {
        whole_end + 1
    } else {
        whole_end
    };
    let fraction_end = digits_end(text, fraction_start);
    &&& (whole_end - start) + (fraction_end - fraction_start) > 0
    &&& (fraction_end == text.len() || is_exponent_at(text, fraction_end))
}

/// Whether `text` writes a number.
pub open spec fn writes_number(text: Seq<char>) -> bool {
    let start: int = if text.len() > 0 && is_sign(text[0]) {
        1
    } else {
        0
    };
    ||| is_word_at(text, start, "inf"@, "INF"@)
    ||| is_word_at(text, start, "infinity"@, "INFINITY"@)
    ||| is_word_at(text, start, "nan"@, "NAN"@)
    ||| is_decimal_at(text, start)
}

fn digit(c: char) -> (b: bool)
    ensures
        b == is_digit(c),
{
    '0' <= c && c <= '9'
}

fn sign(c: char) -> (b: bool)
    ensures
        b == is_sign(c),
{
    c == '+' || c == '-'
}

/// Runs over the digits of `text` that start at `from`.
fn skip_digits(text: &str, len: usize, from: usize) -> (end: usize)
    requires
        len == text@.len(),
        from <= len,
    ensures
        end == digits_end(text@, from as int),
        from <= end <= len,
{
    let mut i = from;
    while i < len && digit(text.get_char(i))
        invariant
            from <= i <= len,
            len == text@.len(),
            digits_end(text@, from as int) == digits_end(text@, i as int),
        decreases len - i,
    {
        i += 1;
    }
    i
}

/// Compares the rest of `text` with a word, letter by letter and in either
/// case.
fn word_at(text: &str, len: usize, start: usize, lower: &str, upper: &str) -> (b: bool)
    requires
        len == text@.len(),
        start <= len,
        lower@.len() == upper@.len(),
    ensures
        b == is_word_at(text@, start as int, lower@, upper@),
{
    let n = lower.unicode_len();
    if len - start != n {
        return false;
    }
    let mut i: usize = 0;
    while i < n
        invariant
            i <= n,
            n == lower@.len(),
            n == upper@.len(),
            len == text@.len(),
            len - start == n,
            forall|k: int|
                0 <= k < i ==> text@[start + k] == lower@[k] || text@[start + k] == upper@[k],
        decreases n - i,
    {
        let c = text.get_char(start + i);
        if c != lower.get_char(i) && c != upper.get_char(i) {
            return false;
        }
        i += 1;
    }
    true
}

fn exponent_at(text: &str, len: usize, at: usize) -> (b: bool)
    requires
        len == text@.len(),
        at <= len,
    ensures
        b == is_exponent_at(text@, at as int),
{
    if len - at < 2 {
        return false;
    }
    let marker = text.get_char(at);
    if marker != 'e' && marker != 'E' {
        return false;
    }
    let digits = if sign(text.get_char(at + 1)) {
        at + 2
    } else {
        at + 1
    };
    if digits >= len {
        return false;
    }
    skip_digits(text, len, digits) == len
}

fn decimal_at(text: &str, len: usize, start: usize) -> (b: bool)
    requires
        len == text@.len(),
        start <= len,
    ensures
        b == is_decimal_at(text@, start as int),
{
    let whole_end = skip_digits(text, len, start);
    let has_point = whole_end < len && text.get_char(whole_end) == '.';
    let fraction_start = if has_point {
        whole_end + 1
    } else {
        whole_end
    };
    let fraction_end = skip_digits(text, len, fraction_start);
    if (whole_end - start) + (fraction_end - fraction_start) == 0 {
        return false;
    }
    fraction_end == len || exponent_at(text, len, fraction_end)
}

/// Decides whether a text writes a number.
pub fn is_number(text: &str) -> (b: bool)
    ensures
        b == writes_number(text@),
{
    let len = text.unicode_len();
    let start: usize = if len > 0 && sign(text.get_char(0)) {
        1
    } else {
        0
    };
    proof {
        reveal_strlit("inf");
        reveal_strlit("INF");
        reveal_strlit("infinity");
        reveal_strlit("INFINITY");
        reveal_strlit("nan");
        reveal_strlit("NAN");
    }
    word_at(text, len, start, "inf", "INF") || word_at(text, len, start, "infinity", "INFINITY")
        || word_at(text, len, start, "nan", "NAN") || decimal_at(text, len, start)
}

} // verus!
