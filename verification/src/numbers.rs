//! Decimal integers read from text, through the standard library's
//! `str::parse`.

use vstd::prelude::*;

verus! {

/// `c` is one of the ASCII digits `0` to `9`.
pub open spec fn is_ascii_digit(c: char) -> bool {
    '0' <= c && c <= '9'
}

/// `d` is a non-empty run of ASCII digits.
pub open spec fn all_digits(d: Seq<char>) -> bool {
    d.len() > 0 && forall|i: int| 0 <= i < d.len() ==> is_ascii_digit(#[trigger] d[i])
}

/// The value of a run of ASCII digits, most significant first.
pub open spec fn digits_value(d: Seq<char>) -> int
    decreases d.len(),
{
    if d.len() == 0 {
        0
    } else {
        digits_value(d.drop_last()) * 10 + (d.last() as int - '0' as int)
    }
}

/// The integer that a text writes in decimal: an optional sign followed by
/// at least one digit and nothing else. Only signed targets accept `-`.
pub open spec fn decimal_integer(s: Seq<char>, signed: bool) -> Option<int> {
    if s.len() > 0 && s[0] == '+' && all_digits(s.drop_first()) {
        Some(digits_value(s.drop_first()))
    } else if signed && s.len() > 0 && s[0] == '-' && all_digits(s.drop_first()) {
        Some(-digits_value(s.drop_first()))
    } else if all_digits(s) {
        Some(digits_value(s))
    } else {
        None
    }
}

/// The text of the error that `str::parse::<u64>` reports for `s`.
pub uninterp spec fn u64_parse_error_text(s: Seq<char>) -> Seq<char>;

/// The text of the error that `str::parse::<i64>` reports for `s`.
pub uninterp spec fn i64_parse_error_text(s: Seq<char>) -> Seq<char>;

/// The text of the error that `str::parse::<i32>` reports for `s`.
pub uninterp spec fn i32_parse_error_text(s: Seq<char>) -> Seq<char>;

/// Calls `str::parse::<u64>`: the documented grammar is an optional `+`
/// followed by digits only, and the value must fit. The error's text is
/// named by `u64_parse_error_text`, a function of the input alone.
#[verifier::external_body]
pub(crate) fn parse_u64(s: &str) -> (r: Result<u64, String>)
    ensures
        r is Ok <==> (decimal_integer(s@, false) matches Some(v) && 0 <= v <= u64::MAX),
        r matches Ok(v) ==> decimal_integer(s@, false) == Some(v as int),
        r matches Err(m) ==> m@ == u64_parse_error_text(s@),
{
    s.parse::<u64>().map_err(|e| e.to_string())
}

/// Calls `str::parse::<i64>`: the documented grammar is an optional sign
/// followed by digits only, and the value must fit. The error's text is
/// named by `i64_parse_error_text`, a function of the input alone.
#[verifier::external_body]
pub(crate) fn parse_i64(s: &str) -> (r: Result<i64, String>)
    ensures
        r is Ok <==> (decimal_integer(s@, true) matches Some(v) && i64::MIN <= v <= i64::MAX),
        r matches Ok(v) ==> decimal_integer(s@, true) == Some(v as int),
        r matches Err(m) ==> m@ == i64_parse_error_text(s@),
{
    s.parse::<i64>().map_err(|e| e.to_string())
}

/// Calls `str::parse::<i32>`: the documented grammar is an optional sign
/// followed by digits only, and the value must fit. The error's text is
/// named by `i32_parse_error_text`, a function of the input alone.
#[verifier::external_body]
pub(crate) fn parse_i32(s: &str) -> (r: Result<i32, String>)
    ensures
        r is Ok <==> (decimal_integer(s@, true) matches Some(v) && i32::MIN <= v <= i32::MAX),
        r matches Ok(v) ==> decimal_integer(s@, true) == Some(v as int),
        r matches Err(m) ==> m@ == i32_parse_error_text(s@),
{
    s.parse::<i32>().map_err(|e| e.to_string())
}

} // verus!
