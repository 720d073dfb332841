use vstd::prelude::*;

use crate::check::reports_of;
use crate::check::report_views;
use crate::infer::{
    all_digits, contains_word, has_bool_word, has_quote, is_decimal_digit, is_digit_or_underscore,
    is_quote, literal_type, occurs_at,
};
use crate::types::{PythonType, Report};

verus! {

/// A literal with a quote character anywhere in it is a string.
pub proof fn quoted_literal_is_str(s: Seq<char>, i: int)
    requires
        0 <= i < s.len(),
        is_quote(s[i]),
    ensures
        literal_type(s) == Ok::<PythonType, ()>(PythonType::Str),
{
    assert(has_quote(s));
}

/// `True` and `False` are booleans.
pub proof fn bool_words_are_bool(s: Seq<char>)
    requires
        s == "True"@ || s == "False"@,
    ensures
        literal_type(s) == Ok::<PythonType, ()>(PythonType::Bool),
{
    reveal_strlit("True");
    reveal_strlit("False");
    assert(s.subrange(0, s.len() as int) =~= s);
    assert(occurs_at(s, s, 0));
    assert(!has_quote(s));
}

/// `true` and `false`, in lower case, are not booleans.
pub proof fn lowercase_bool_words_are_not_bool(s: Seq<char>)
    requires
        s == "true"@ || s == "false"@,
    ensures
        literal_type(s) != Ok::<PythonType, ()>(PythonType::Bool),
{
    reveal_strlit("true");
    reveal_strlit("false");
    reveal_strlit("True");
    reveal_strlit("False");
    assert(!has_quote(s));
    assert forall|i: int| !occurs_at(s, "True"@, i) by {
        if occurs_at(s, "True"@, i) {
            assert(s.subrange(i, i + 4)[0] == s[i]);
        }
    }
    assert forall|i: int| !occurs_at(s, "False"@, i) by {
        if occurs_at(s, "False"@, i) {
            assert(s.subrange(i, i + 5)[0] == s[i]);
        }
    }
    assert(!has_bool_word(s));
}

proof fn lemma_digits_have_no_word(s: Seq<char>, w: Seq<char>)
    requires
        all_digits(s),
        w.len() > 0,
        !is_digit_or_underscore(w[0]),
    ensures
        !contains_word(s, w),
{
    assert forall|i: int| !occurs_at(s, w, i) by {
        if occurs_at(s, w, i) {
            assert(s.subrange(i, i + w.len())[0] == s[i]);
        }
    }
}

/// A text of digits and underscores only, the empty text included, is an
/// integer.
pub proof fn digit_literal_is_int(s: Seq<char>)
    requires
        all_digits(s),
    ensures
        literal_type(s) == Ok::<PythonType, ()>(PythonType::Int),
{
    reveal_strlit("True");
    reveal_strlit("False");
    lemma_digits_have_no_word(s, "True"@);
    lemma_digits_have_no_word(s, "False"@);
}

/// A text with a `.` between two digits is never an integer; it is a float
/// unless a quote or a boolean word makes it a string or a boolean first.
pub proof fn decimal_literal_is_float(s: Seq<char>, i: int)
    requires
        0 < i && i + 1 < s.len(),
        is_decimal_digit(s[i - 1]),
        s[i] == '.',
        is_decimal_digit(s[i + 1]),
    ensures
        literal_type(s) != Ok::<PythonType, ()>(PythonType::Int),
        !has_quote(s) && !has_bool_word(s) ==> literal_type(s) == Ok::<PythonType, ()>(
            PythonType::Float,
        ),
{
    assert(!is_digit_or_underscore(s[i]));
}

/// Checking the same text twice gives the same reports.
pub proof fn check_is_repeatable(code: Seq<char>, first: Seq<Report>, second: Seq<Report>)
    requires
        report_views(first) == reports_of(code),
        report_views(second) == reports_of(code),
    ensures
        report_views(first) == report_views(second),
{
}

} // verus!
