//! Text helpers: decimal numbers, trimming and ordering of strings.

use vstd::prelude::*;
use vstd::string::StringExecFns;
use vstd::string::StrSliceExecFns;

verus! {

/// The character of a decimal digit.
pub open spec fn digit_char(digit: nat) -> char
    recommends
        digit < 10,
{
    if digit == 0 {
        '0'
    } else if digit == 1 {
        '1'
    } else if digit == 2 {
        '2'
    } else if digit == 3 {
        '3'
    } else if digit == 4 {
        '4'
    } else if digit == 5 {
        '5'
    } else if digit == 6 {
        '6'
    } else if digit == 7 {
        '7'
    } else if digit == 8 {
        '8'
    } else {
        '9'
    }
}

/// The decimal digits of a natural number, without leading zeros.
pub open spec fn digits(value: nat) -> Seq<char>
    decreases value,
{
    if value < 10 {
        seq![digit_char(value)]
    } else {
        digits(value / 10).push(digit_char(value % 10))
    }
}

/// The decimal notation of an integer: a minus sign for a negative number,
/// then the digits of its magnitude.
pub open spec fn decimal(value: int) -> Seq<char> {
    if value < 0 {
        seq!['-'] + digits((-value) as nat)
    } else {
        digits(value as nat)
    }
}

/// The text of one decimal digit.
fn digit_text(digit: u64) -> (text: &'static str)
    requires
        digit < 10,
    ensures
        text@ == seq![digit_char(digit as nat)],
{
    proof {
        reveal_strlit("0");
        reveal_strlit("1");
        reveal_strlit("2");
        reveal_strlit("3");
        reveal_strlit("4");
        reveal_strlit("5");
        reveal_strlit("6");
        reveal_strlit("7");
        reveal_strlit("8");
        reveal_strlit("9");
    }
    let text: &'static str = if digit == 0 {
        "0"
    } else if digit == 1 {
        "1"
    } else if digit == 2 {
        "2"
    } else if digit == 3 {
        "3"
    } else if digit == 4 {
        "4"
    } else if digit == 5 {
        "5"
    } else if digit == 6 {
        "6"
    } else if digit == 7 {
        "7"
    } else if digit == 8 {
        "8"
    } else {
        "9"
    };
    assert(text@ =~= seq![digit_char(digit as nat)]);
    text
}

/// Appends the decimal digits of `value` to `out`.
pub fn append_digits(out: &mut String, value: u64)
    ensures
        final(out)@ == old(out)@ + digits(value as nat),
    decreases value,
{
    if value >= 10 {
        append_digits(out, value / 10);
    }
    out.append(digit_text(value % 10));
    assert(out@ =~= old(out)@ + digits(value as nat));
}

/// Appends the decimal notation of `value` to `out`.
pub fn append_decimal(out: &mut String, value: i64)
    ensures
        final(out)@ == old(out)@ + decimal(value as int),
{
    if value < 0 {
        proof {
            reveal_strlit("-");
        }
        out.append("-");
        let magnitude: u64 = (-(value + 1)) as u64 + 1;
        append_digits(out, magnitude);
        assert(out@ =~= old(out)@ + decimal(value as int));
    } else {
        append_digits(out, value as u64);
    }
}

/// The text without its run of trailing characters `mark`.
pub open spec fn without_trailing(text: Seq<char>, mark: char) -> Seq<char>
    decreases text.len(),
{
    if text.len() > 0 && text.last() == mark {
        without_trailing(text.drop_last(), mark)
    } else {
        text
    }
}

/// Cuts the run of trailing characters `mark` off `text`.
pub fn strip_trailing<'a>(text: &'a str, mark: char) -> (stripped: &'a str)
    ensures
        stripped@ == without_trailing(text@, mark),
{
    let mut end: usize = text.unicode_len();
    assert(text@.subrange(0, end as int) =~= text@);
    while end > 0 && text.get_char(end - 1) == mark
        invariant
            end <= text@.len(),
            without_trailing(text@.subrange(0, end as int), mark) == without_trailing(text@, mark),
        decreases end,
    {
        assert(text@.subrange(0, end as int).drop_last() =~= text@.subrange(0, end - 1));
        end -= 1;
    }
    text.substring_char(0, end)
}

/// What `str::trim` leaves of a text: the text without its leading and
/// trailing white space, as Unicode defines white space.
pub uninterp spec fn trimmed(text: Seq<char>) -> Seq<char>;

/// What `str::trim_end` leaves of a text: the text without its trailing white
/// space, as Unicode defines white space.
pub uninterp spec fn end_trimmed(text: Seq<char>) -> Seq<char>;

/// Calls `str::trim`. Believed, not proved: that the result depends on the
/// text alone, so that it can be named `trimmed`. What is cut off is not
/// stated here.
#[verifier::external_body]
pub(crate) fn trim<'a>(text: &'a str) -> (result: &'a str)
    ensures
        result@ == trimmed(text@),
{
    text.trim()
}

/// Calls `str::trim_end`. Believed, not proved: that the result depends on
/// the text alone, so that it can be named `end_trimmed`. What is cut off is
/// not stated here.
#[verifier::external_body]
pub(crate) fn trim_end<'a>(text: &'a str) -> (result: &'a str)
    ensures
        result@ == end_trimmed(text@),
{
    text.trim_end()
}

/// Whether `left` comes before `right` in the order of strings: at the first
/// position where they differ `left` has the smaller code point, or `left` is
/// a proper prefix of `right`.
pub open spec fn text_less(left: Seq<char>, right: Seq<char>) -> bool
    decreases left.len(),
{
    if right.len() == 0 {
        false
    } else if left.len() == 0 {
        true
    } else if left[0] != right[0] {
        (left[0] as u32) < (right[0] as u32)
    } else {
        text_less(left.drop_first(), right.drop_first())
    }
}

/// Calls the `<` of `str`. Believed, not proved: that it is the order
/// `text_less`. The documentation of `str` orders strings lexicographically
/// by their bytes, and notes that this is the order of their code points.
#[verifier::external_body]
pub(crate) fn less(left: &str, right: &str) -> (result: bool)
    ensures
        result == text_less(left@, right@),
{
    left < right
}

/// The text, unless it is empty.
pub fn nonempty(text: &str) -> (kept: Option<String>)
    ensures
        match kept {
            Some(copy) => text@.len() > 0 && copy@ == text@,
            None => text@.len() == 0,
        },
{
    if text.is_empty() {
        None
    } else {
        Some(String::from_str(text))
    }
}

/// Joins two texts.
pub fn joined(left: &str, right: &str) -> (joined: String)
    ensures
        joined@ == left@ + right@,
{
    let mut joined: String = String::from_str(left);
    joined.append(right);
    joined
}

} // verus!
