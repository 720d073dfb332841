use vstd::prelude::*;

use crate::text::text_eq;
use crate::types::PythonType;

verus! {

pub open spec fn is_quote(c: char) -> bool {
    c == '\'' || c == '"'
}

/// Some character of `s` is a quote.
pub open spec fn has_quote(s: Seq<char>) -> bool {
    exists|i: int| 0 <= i < s.len() && is_quote(#[trigger] s[i])
}

/// `w` stands in `s` at position `i`.
pub open spec fn occurs_at(s: Seq<char>, w: Seq<char>, i: int) -> bool {
    0 <= i && i + w.len() <= s.len() && s.subrange(i, i + w.len()) == w
}

pub open spec fn contains_word(s: Seq<char>, w: Seq<char>) -> bool {
    exists|i: int| occurs_at(s, w, i)
}

/// `s` contains `True` or `False` somewhere.
pub open spec fn has_bool_word(s: Seq<char>) -> bool {
    contains_word(s, "True"@) || contains_word(s, "False"@)
}

/// Whether a character beyond ASCII is a Unicode decimal digit (`\p{Nd}`).
pub uninterp spec fn is_non_ascii_decimal_digit(c: char) -> bool;

/// A Unicode decimal digit: within ASCII exactly `0` to `9`.
pub open spec fn is_decimal_digit(c: char) -> bool {
    ('0' <= c && c <= '9') || (c as u32 > 0x7f && is_non_ascii_decimal_digit(c))
}

pub open spec fn is_digit_or_underscore(c: char) -> bool {
    is_decimal_digit(c) || c == '_'
}

/// Every character of `s` (possibly none) is a digit or an underscore.
pub open spec fn all_digits(s: Seq<char>) -> bool {
    forall|i: int| 0 <= i < s.len() ==> is_digit_or_underscore(#[trigger] s[i])
}

/// Some `.` in `s` is followed by a digit or an underscore.
pub open spec fn has_decimal_point(s: Seq<char>) -> bool {
    exists|i: int| 0 <= i && i + 1 < s.len() && #[trigger] s[i] == '.' && is_digit_or_underscore(s[i + 1])
}

/// The type of a literal: the first rule that applies, in this order.
pub open spec fn literal_type(s: Seq<char>) -> Result<PythonType, ()> {
    if has_quote(s) {
        Ok(PythonType::Str)
    } else if has_bool_word(s) {
        Ok(PythonType::Bool)
    } else if all_digits(s) {
        Ok(PythonType::Int)
    } else if has_decimal_point(s) {
        Ok(PythonType::Float)
    } else {
        Err(())
    }
}

/// The type that an annotation names.
pub open spec fn annotation_type(s: Seq<char>) -> Result<PythonType, ()> {
    if s == "int"@ {
        Ok(PythonType::Int)
    } else if s == "str"@ {
        Ok(PythonType::Str)
    } else if s == "bool"@ {
        Ok(PythonType::Bool)
    } else if s == "float"@ {
        Ok(PythonType::Float)
    } else {
        Err(())
    }
}

/// Relies on `regex::Regex::new`, which accepts each of the four patterns
/// below, and on `regex::Regex::is_match`, which says whether the pattern
/// matches somewhere in `text`:
/// `('|")` any quote; `(True|False)` either word; `^(\d|_)*$` the whole text
/// is decimal digits and underscores; `(\d|_)*\.(\d|_)` a `.` followed by a
/// decimal digit or an underscore. With Unicode on, as by default, `\d` is
/// any Unicode decimal digit, which within ASCII is `0` to `9`.
#[verifier::external_body]
fn pattern_matches(pattern: &str, text: &str) -> (r: bool)
    requires
        pattern@ == "('|\")"@ || pattern@ == "(True|False)"@ || pattern@ == "^(\\d|_)*$"@
            || pattern@ == "(\\d|_)*\\.(\\d|_)"@,
    ensures
        pattern@ == "('|\")"@ ==> (r == has_quote(text@)),
        pattern@ == "(True|False)"@ ==> (r == has_bool_word(text@)),
        pattern@ == "^(\\d|_)*$"@ ==> (r == forall|i: int|
            0 <= i < text@.len() ==> ('0' <= #[trigger] text@[i] && text@[i] <= '9') || text@[i]
                == '_' || (text@[i] as u32 > 0x7f && is_non_ascii_decimal_digit(text@[i]))),
        pattern@ == "(\\d|_)*\\.(\\d|_)"@ ==> (r == has_decimal_point(text@)),
{
    regex::Regex::new(pattern).unwrap().is_match(text)
}

/// Infers the type of a literal.
pub fn gettype(value: &str) -> (r: Result<PythonType, ()>)
    ensures
        r == literal_type(value@),
{
    if pattern_matches("('|\")", value) {
        Ok(PythonType::Str)
    } else if pattern_matches("(True|False)", value) {
        Ok(PythonType::Bool)
    } else if pattern_matches("^(\\d|_)*$", value) {
        Ok(PythonType::Int)
    } else if pattern_matches("(\\d|_)*\\.(\\d|_)", value) {
        Ok(PythonType::Float)
    } else {
        Err(())
    }
}

/// Resolves an annotation: `int`, `str`, `bool` or `float`.
pub fn gettype_explicit(symbol: &str) -> (r: Result<PythonType, ()>)
    ensures
        r == annotation_type(symbol@),
        r is Ok <==> (symbol@ == "int"@ || symbol@ == "str"@ || symbol@ == "bool"@ || symbol@
            == "float"@),
{
    if text_eq(symbol, "int") {
        Ok(PythonType::Int)
    } else if text_eq(symbol, "str") {
        Ok(PythonType::Str)
    } else if text_eq(symbol, "bool") {
        Ok(PythonType::Bool)
    } else if text_eq(symbol, "float") {
        Ok(PythonType::Float)
    } else {
        Err(())
    }
}

} // verus!
