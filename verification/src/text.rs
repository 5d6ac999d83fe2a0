//! Low-level text building blocks: decimal rendering, month names, English
//! ordinals, and the conditional terminal period shared by the clause
//! assembly rules.

use vstd::prelude::*;
use vstd::string::StringExecFns;
use vstd::string::StrSliceExecFns;

verus! {

/// The decimal digit `d` as a one-character string.
pub open spec fn spec_digit(d: int) -> Seq<char> {
    if d == 0 {
        "0"@
    } else if d == 1 {
        "1"@
    } else if d == 2 {
        "2"@
    } else if d == 3 {
        "3"@
    } else if d == 4 {
        "4"@
    } else if d == 5 {
        "5"@
    } else if d == 6 {
        "6"@
    } else if d == 7 {
        "7"@
    } else if d == 8 {
        "8"@
    } else {
        "9"@
    }
}

/// The usual decimal rendering of `n`, without sign or padding.
pub open spec fn spec_dec(n: int) -> Seq<char>
    decreases n,
{
    if n < 10 {
        spec_digit(n)
    } else {
        spec_dec(n / 10) + spec_digit(n % 10)
    }
}

/// The decimal rendering of `n` zero-padded to at least four digits.
pub open spec fn spec_dec4(n: int) -> Seq<char> {
    if n < 10 {
        "000"@ + spec_dec(n)
    } else if n < 100 {
        "00"@ + spec_dec(n)
    } else if n < 1000 {
        "0"@ + spec_dec(n)
    } else {
        spec_dec(n)
    }
}

fn digit_str(d: u64) -> (r: &'static str)
    requires
        d < 10,
    ensures
        r@ == spec_digit(d as int),
{
    if d == 0 {
        "0"
    } else if d == 1 {
        "1"
    } else if d == 2 {
        "2"
    } else if d == 3 {
        "3"
    } else if d == 4 {
        "4"
    } else if d == 5 {
        "5"
    } else if d == 6 {
        "6"
    } else if d == 7 {
        "7"
    } else if d == 8 {
        "8"
    } else {
        "9"
    }
}

/// Renders `n` in decimal.
pub fn format_u64(n: u64) -> (r: String)
    ensures
        r@ == spec_dec(n as int),
    decreases n,
{
    if n < 10 {
        let mut s = String::new();
        s.append(digit_str(n));
        assert(s@ =~= spec_dec(n as int));
        s
    } else {
        let mut s = format_u64(n / 10);
        s.append(digit_str(n % 10));
        s
    }
}

/// Renders `n` in decimal, zero-padded to at least four digits.
pub fn format_u64_pad4(n: u64) -> (r: String)
    ensures
        r@ == spec_dec4(n as int),
{
    let mut s = String::new();
    if n < 10 {
        s.append("000");
    } else if n < 100 {
        s.append("00");
    } else if n < 1000 {
        s.append("0");
    }
    let digits = format_u64(n);
    s.append(digits.as_str());
    assert(s@ =~= spec_dec4(n as int));
    s
}

/// The English month name for `m`, with January as month 1; empty outside
/// 1 through 12.
pub open spec fn spec_month_name(m: int) -> Seq<char> {
    if m == 1 {
        "January"@
    } else if m == 2 {
        "February"@
    } else if m == 3 {
        "March"@
    } else if m == 4 {
        "April"@
    } else if m == 5 {
        "May"@
    } else if m == 6 {
        "June"@
    } else if m == 7 {
        "July"@
    } else if m == 8 {
        "August"@
    } else if m == 9 {
        "September"@
    } else if m == 10 {
        "October"@
    } else if m == 11 {
        "November"@
    } else {
        "December"@
    }
}

/// The English month name for month number `m` (January is 1), or `None`
/// when `m` is not a month number.
pub fn get_month_name(m: u8) -> (r: Option<&'static str>)
    ensures
        r is Some <==> 1 <= m <= 12,
        r is Some ==> r->0@ == spec_month_name(m as int),
{
    match m {
        1 => Some("January"),
        2 => Some("February"),
        3 => Some("March"),
        4 => Some("April"),
        5 => Some("May"),
        6 => Some("June"),
        7 => Some("July"),
        8 => Some("August"),
        9 => Some("September"),
        10 => Some("October"),
        11 => Some("November"),
        12 => Some("December"),
        _ => None,
    }
}

/// The suffix of the English ordinal word for `n` ("st", "nd", "rd" or
/// "th", with the teens all taking "th").
pub open spec fn spec_ordinal_suffix(n: int) -> Seq<char> {
    if n % 100 == 11 || n % 100 == 12 || n % 100 == 13 {
        "th"@
    } else if n % 10 == 1 {
        "st"@
    } else if n % 10 == 2 {
        "nd"@
    } else if n % 10 == 3 {
        "rd"@
    } else {
        "th"@
    }
}

/// The English ordinal word for `n`, such as "1st" or "22nd".
pub open spec fn spec_ordinal(n: int) -> Seq<char> {
    spec_dec(n) + spec_ordinal_suffix(n)
}

/// Renders `n` as an English ordinal word.
pub fn get_ordinal(n: u64) -> (r: String)
    ensures
        r@ == spec_ordinal(n as int),
{
    let mut s = format_u64(n);
    let tail = n % 100;
    let unit = n % 10;
    if tail == 11 || tail == 12 || tail == 13 {
        s.append("th");
    } else if unit == 1 {
        s.append("st");
    } else if unit == 2 {
        s.append("nd");
    } else if unit == 3 {
        s.append("rd");
    } else {
        s.append("th");
    }
    s
}

/// Whether `c` already closes a sentence, so that no period is added after
/// it.
pub open spec fn spec_is_terminal(c: char) -> bool {
    c == '?' || c == '.' || c == '!'
}

/// `s` with a period appended unless it already ends in `'?'`, `'.'` or
/// `'!'`; the empty string gains a period.
pub open spec fn spec_with_terminal(s: Seq<char>) -> Seq<char> {
    if s.len() > 0 && spec_is_terminal(s.last()) {
        s
    } else {
        s + "."@
    }
}

/// Appends a terminal period to `s` unless its last character already
/// closes the sentence.
pub fn append_terminal(s: &mut String)
    ensures
        final(s)@ == spec_with_terminal(old(s)@),
{
    let n = s.as_str().unicode_len();
    if n > 0 {
        let c = s.as_str().get_char(n - 1);
        if c == '?' || c == '.' || c == '!' {
            return;
        }
    }
    s.append(".");
}

} // verus!
