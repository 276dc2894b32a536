//! Syntax of the sigma argument.
//!
//! The sigma option is handed to the blur primitive as a 32-bit float,
//! and the standard library documents exactly which strings parse as
//! one: an optional sign, then `inf`, `infinity` or `nan` (in any case),
//! or a decimal number `digits [. digits] [exponent]` or `. digits
//! [exponent]`, where the exponent is `e`/`E`, an optional sign and at
//! least one digit. Every such string converts without error (overflow
//! saturates to infinity), so checking this grammar is exactly checking
//! that the sigma text is parseable. The checker here is verified
//! against a direct statement of that grammar over character sequences.

use vstd::prelude::*;
use vstd::string::StrSliceExecFns;

verus! {

/// An ASCII decimal digit.
pub open spec fn is_digit_char(c: char) -> bool {
    48 <= c as int <= 57
}

/// The first position at or after `i` that does not hold a digit
/// (the end of the digit run starting at `i`).
pub open spec fn digits_end(s: Seq<char>, i: int) -> int
    recommends
        0 <= i <= s.len(),
    decreases s.len() - i,
{
    if i < s.len() && is_digit_char(s[i]) {
        digits_end(s, i + 1)
    } else {
        i
    }
}

/// From position `j` the string either ends or holds a complete
/// exponent part: `e` or `E`, an optional sign, and at least one digit
/// running to the end.
pub open spec fn exponent_ok(s: Seq<char>, j: int) -> bool
    recommends
        0 <= j <= s.len(),
{
    if j == s.len() {
        true
    } else if s[j] == 'e' || s[j] == 'E' {
        let k = if j + 1 < s.len() && (s[j + 1] == '+' || s[j + 1] == '-') {
            j + 2
        } else {
            j + 1
        };
        digits_end(s, k) == s.len() && digits_end(s, k) > k
    } else {
        false
    }
}

/// The whole of `s` is a number of the float grammar, sign already
/// stripped: `digits [. [digits]] [exponent]` or `. digits [exponent]`.
pub open spec fn number_ok(s: Seq<char>) -> bool {
    let i = digits_end(s, 0);
    if i > 0 {
        let j = if i < s.len() && s[i] == '.' {
            digits_end(s, i + 1)
        } else {
            i
        };
        exponent_ok(s, j)
    } else {
        s.len() > 0 && s[0] == '.' && digits_end(s, 1) > 1 && exponent_ok(s, digits_end(s, 1))
    }
}

/// `c` is one of the two given cases of a letter.
pub open spec fn char_ci(c: char, lower: char, upper: char) -> bool {
    c == lower || c == upper
}

/// From position `i`, `s` reads `inf` (in any case) and then ends.
pub open spec fn word_inf_at(s: Seq<char>, i: int) -> bool {
    s.len() - i == 3 && char_ci(s[i], 'i', 'I') && char_ci(s[i + 1], 'n', 'N') && char_ci(
        s[i + 2],
        'f',
        'F',
    )
}

/// From position `i`, `s` reads `infinity` (in any case) and then ends.
pub open spec fn word_infinity_at(s: Seq<char>, i: int) -> bool {
    s.len() - i == 8 && char_ci(s[i], 'i', 'I') && char_ci(s[i + 1], 'n', 'N') && char_ci(
        s[i + 2],
        'f',
        'F',
    ) && char_ci(s[i + 3], 'i', 'I') && char_ci(s[i + 4], 'n', 'N') && char_ci(s[i + 5], 'i', 'I')
        && char_ci(s[i + 6], 't', 'T') && char_ci(s[i + 7], 'y', 'Y')
}

/// From position `i`, `s` reads `nan` (in any case) and then ends.
pub open spec fn word_nan_at(s: Seq<char>, i: int) -> bool {
    s.len() - i == 3 && char_ci(s[i], 'n', 'N') && char_ci(s[i + 1], 'a', 'A') && char_ci(
        s[i + 2],
        'n',
        'N',
    )
}

/// `s` is a string that parses as a 32-bit float: an optional sign,
/// then one of the special words or a number of the grammar above.
pub open spec fn spec_is_float_literal(s: Seq<char>) -> bool {
    let i: int = if s.len() > 0 && (s[0] == '+' || s[0] == '-') {
        1
    } else {
        0
    };
    word_inf_at(s, i) || word_infinity_at(s, i) || word_nan_at(s, i) || number_ok(
        s.subrange(i, s.len() as int),
    )
}

/// Whether the character at `i` is a digit.
fn digit_at(s: &str, i: usize) -> (r: bool)
    requires
        i < s@.len(),
    ensures
        r == is_digit_char(s@[i as int]),
{
    let u = s.get_char(i) as u32;
    48 <= u && u <= 57
}

/// Walks to the end of the digit run starting at `from`.
fn scan_digits(s: &str, from: usize) -> (r: usize)
    requires
        from as int <= s@.len(),
    ensures
        from <= r,
        r as int <= s@.len(),
        r as int == digits_end(s@, from as int),
{
    let n = s.unicode_len();
    let mut i: usize = from;
    while i < n && digit_at(s, i)
        invariant
            from <= i <= n,
            n as int == s@.len(),
            digits_end(s@, from as int) == digits_end(s@, i as int),
        decreases n - i,
    {
        i = i + 1;
    }
    i
}

/// Checks the exponent part from position `j`.
fn exponent_at(s: &str, j: usize) -> (r: bool)
    requires
        j as int <= s@.len(),
    ensures
        r == exponent_ok(s@, j as int),
{
    let n = s.unicode_len();
    if j == n {
        return true;
    }
    let c = s.get_char(j);
    if c == 'e' || c == 'E' {
        let k: usize = if j + 1 < n {
            let c1 = s.get_char(j + 1);
            if c1 == '+' || c1 == '-' {
                j + 2
            } else {
                j + 1
            }
        } else {
            j + 1
        };
        let m = scan_digits(s, k);
        m == n && m > k
    } else {
        false
    }
}

/// Checks the number form of the grammar over the whole of `s`.
fn number_part(s: &str) -> (r: bool)
    ensures
        r == number_ok(s@),
{
    let n = s.unicode_len();
    let i = scan_digits(s, 0);
    if i > 0 {
        let j: usize = if i < n && s.get_char(i) == '.' {
            scan_digits(s, i + 1)
        } else {
            i
        };
        exponent_at(s, j)
    } else if n > 0 && s.get_char(0) == '.' {
        let j = scan_digits(s, 1);
        if j > 1 {
            exponent_at(s, j)
        } else {
            false
        }
    } else {
        false
    }
}

/// Compares the character at `i` against both cases of a letter.
fn ci_at(s: &str, i: usize, lower: char, upper: char) -> (r: bool)
    requires
        i < s@.len(),
    ensures
        r == char_ci(s@[i as int], lower, upper),
{
    let c = s.get_char(i);
    c == lower || c == upper
}

/// Checks for `inf` at position `i`.
fn inf_at(s: &str, i: usize) -> (r: bool)
    requires
        i as int <= s@.len(),
    ensures
        r == word_inf_at(s@, i as int),
{
    let n = s.unicode_len();
    n - i == 3 && ci_at(s, i, 'i', 'I') && ci_at(s, i + 1, 'n', 'N') && ci_at(s, i + 2, 'f', 'F')
}

/// Checks for `infinity` at position `i`.
fn infinity_at(s: &str, i: usize) -> (r: bool)
    requires
        i as int <= s@.len(),
    ensures
        r == word_infinity_at(s@, i as int),
{
    let n = s.unicode_len();
    n - i == 8 && ci_at(s, i, 'i', 'I') && ci_at(s, i + 1, 'n', 'N') && ci_at(s, i + 2, 'f', 'F')
        && ci_at(s, i + 3, 'i', 'I') && ci_at(s, i + 4, 'n', 'N') && ci_at(s, i + 5, 'i', 'I')
        && ci_at(s, i + 6, 't', 'T') && ci_at(s, i + 7, 'y', 'Y')
}

/// Checks for `nan` at position `i`.
fn nan_at(s: &str, i: usize) -> (r: bool)
    requires
        i as int <= s@.len(),
    ensures
        r == word_nan_at(s@, i as int),
{
    let n = s.unicode_len();
    n - i == 3 && ci_at(s, i, 'n', 'N') && ci_at(s, i + 1, 'a', 'A') && ci_at(s, i + 2, 'n', 'N')
}

/// Decides whether `s` parses as a 32-bit float, by the documented
/// grammar of the standard library's float parsing.
pub fn is_float_literal(s: &str) -> (r: bool)
    ensures
        r == spec_is_float_literal(s@),
{
    let n = s.unicode_len();
    let start: usize = if n > 0 {
        let c = s.get_char(0);
        if c == '+' || c == '-' {
            1
        } else {
            0
        }
    } else {
        0
    };
    if inf_at(s, start) || infinity_at(s, start) || nan_at(s, start) {
        true
    } else {
        number_part(s.substring_char(start, n))
    }
}

} // verus!
