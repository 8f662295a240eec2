//! Small operations on text that the rest of the crate shares.

use vstd::prelude::*;
use vstd::string::{StrSliceExecFns, StringExecFns};

verus! {

/// Whether two pieces of text hold the same characters.
pub fn same_text(left: &str, right: &str) -> (same: bool)
    ensures
        same == (left@ == right@),
{
    let left_owned: String = left.to_owned();
    let right_owned: String = right.to_owned();
    left_owned == right_owned
}

/// Whether `item` is one of `list`.
pub open spec fn listed(list: Seq<String>, item: Seq<char>) -> bool {
    exists|index: int| 0 <= index < list.len() && (#[trigger] list[index])@ == item
}

/// Whether `item` is one of `list`.
pub fn is_listed(list: &[String], item: &str) -> (found: bool)
    ensures
        found == listed(list@, item@),
{
    let mut index: usize = 0;
    while index < list.len()
        invariant
            index <= list@.len(),
            forall|earlier: int| 0 <= earlier < index ==> (#[trigger] list@[earlier])@ != item@,
        decreases list@.len() - index,
    {
        if same_text(list[index].as_str(), item) {
            return true;
        }
        index += 1;
    }
    false
}

/// The decimal digit for a value under ten.
pub open spec fn digit_char(value: int) -> char {
    if value == 0 {
        '0'
    } else if value == 1 {
        '1'
    } else if value == 2 {
        '2'
    } else if value == 3 {
        '3'
    } else if value == 4 {
        '4'
    } else if value == 5 {
        '5'
    } else if value == 6 {
        '6'
    } else if value == 7 {
        '7'
    } else if value == 8 {
        '8'
    } else {
        '9'
    }
}

/// A natural number written in decimal: no sign, no padding, `"0"` for zero.
pub open spec fn decimal_text(value: nat) -> Seq<char>
    decreases value,
{
    if value < 10 {
        seq![digit_char(value as int)]
    } else {
        decimal_text(value / 10).push(digit_char((value % 10) as int))
    }
}

/// The text of one decimal digit.
fn digit_text(value: u64) -> (text: &'static str)
    requires
        value < 10,
    ensures
        text@ == seq![digit_char(value as int)],
{
    proof {
        reveal_strlit("0");
        reveal_strlit("1");
        reveal_strlit("2");
        reveal_strlit("3");
        reveal_strlit("4");
        reveal_strlit("5");
        reveal_strlit("6");
        reveal_strlit("7");
        reveal_strlit("8");
        reveal_strlit("9");
    }
    let text = if value == 0 {
        "0"
    } else if value == 1 {
        "1"
    } else if value == 2 {
        "2"
    } else if value == 3 {
        "3"
    } else if value == 4 {
        "4"
    } else if value == 5 {
        "5"
    } else if value == 6 {
        "6"
    } else if value == 7 {
        "7"
    } else if value == 8 {
        "8"
    } else {
        "9"
    };
    assert(text@ =~= seq![digit_char(value as int)]);
    text
}

/// Writes a number in decimal.
pub fn decimal(value: u64) -> (text: String)
    ensures
        text@ == decimal_text(value as nat),
    decreases value,
{
    if value < 10 {
        String::from_str(digit_text(value))
    } else {
        let mut text: String = decimal(value / 10);
        text.append(digit_text(value % 10));
        assert(text@ =~= decimal_text(value as nat));
        text
    }
}

/// Whether `prefix` is how `text` begins.
pub fn starts_with(text: &str, prefix: &str) -> (yes: bool)
    ensures
        yes == prefix@.is_prefix_of(text@),
{
    let prefix_len: usize = prefix.unicode_len();
    if prefix_len > text.unicode_len() {
        return false;
    }
    let mut index: usize = 0;
    while index < prefix_len
        invariant
            index <= prefix_len == prefix@.len() <= text@.len(),
            forall|earlier: int| 0 <= earlier < index ==> prefix@[earlier] == text@[earlier],
        decreases prefix_len - index,
    {
        if prefix.get_char(index) != text.get_char(index) {
            return false;
        }
        index += 1;
    }
    assert(prefix@ =~= text@.subrange(0, prefix@.len() as int));
    true
}

/// An integer written in decimal, with a minus sign before a negative one.
pub open spec fn signed_decimal_text(value: int) -> Seq<char> {
    if value < 0 {
        seq!['-'] + decimal_text((-value) as nat)
    } else {
        decimal_text(value as nat)
    }
}

/// Writes an integer in decimal.
pub fn signed_decimal(value: i64) -> (text: String)
    ensures
        text@ == signed_decimal_text(value as int),
{
    if value < 0 {
        proof {
            reveal_strlit("-");
        }
        let magnitude: u64 = if value == i64::MIN {
            0x8000_0000_0000_0000u64
        } else {
            (-value) as u64
        };
        let mut text: String = String::from_str("-");
        let digits: String = decimal(magnitude);
        text.append(digits.as_str());
        assert(text@ =~= signed_decimal_text(value as int));
        text
    } else {
        decimal(value as u64)
    }
}

/// Whether `char::is_whitespace` holds of a character: whether it has the
/// Unicode property `White_Space`. It is a function of the character alone.
pub uninterp spec fn is_whitespace(c: char) -> bool;

/// Calls `char::is_whitespace`. The contract names the result
/// [`is_whitespace`] of the character.
#[verifier::external_body]
fn char_is_whitespace(c: char) -> (white: bool)
    ensures
        white == is_whitespace(c),
{
    c.is_whitespace()
}

/// A text without the whitespace it begins with.
pub open spec fn trim_start(text: Seq<char>) -> Seq<char>
    decreases text.len(),
{
    if text.len() > 0 && is_whitespace(text.first()) {
        trim_start(text.drop_first())
    } else {
        text
    }
}

/// A text without the whitespace it ends with.
pub open spec fn trim_end(text: Seq<char>) -> Seq<char>
    decreases text.len(),
{
    if text.len() > 0 && is_whitespace(text.last()) {
        trim_end(text.drop_last())
    } else {
        text
    }
}

/// A text without the whitespace at either end.
pub open spec fn trimmed(text: Seq<char>) -> Seq<char> {
    trim_end(trim_start(text))
}

/// Takes the whitespace off both ends of a text.
pub fn trim(text: &str) -> (inner: String)
    ensures
        inner@ == trimmed(text@),
{
    let len: usize = text.unicode_len();
    let mut start: usize = 0;
    assert(text@.subrange(0, len as int) =~= text@);
    while start < len && char_is_whitespace(text.get_char(start))
        invariant
            start <= len == text@.len(),
            trim_start(text@) == trim_start(text@.subrange(start as int, len as int)),
        decreases len - start,
    {
        proof {
            let rest = text@.subrange(start as int, len as int);
            assert(rest.first() == text@[start as int]);
            assert(rest.drop_first() =~= text@.subrange(start as int + 1, len as int));
        }
        start += 1;
    }
    proof {
        let rest = text@.subrange(start as int, len as int);
        if start < len {
            assert(rest.first() == text@[start as int]);
        }
        assert(trim_start(rest) == rest);
    }
    let mut end: usize = len;
    while end > start && char_is_whitespace(text.get_char(end - 1))
        invariant
            start <= end <= len == text@.len(),
            trim_end(text@.subrange(start as int, len as int)) == trim_end(
                text@.subrange(start as int, end as int),
            ),
        decreases end,
    {
        proof {
            let rest = text@.subrange(start as int, end as int);
            assert(rest.last() == text@[end as int - 1]);
            assert(rest.drop_last() =~= text@.subrange(start as int, end as int - 1));
        }
        end -= 1;
    }
    proof {
        let rest = text@.subrange(start as int, end as int);
        if end > start {
            assert(rest.last() == text@[end as int - 1]);
        }
        assert(trim_end(rest) == rest);
    }
    text.substring_char(start, end).to_owned()
}

/// The texts of `candidates` that begin with `prefix`, in their order.
pub open spec fn beginning_with(candidates: Seq<String>, prefix: Seq<char>) -> Seq<String>
    decreases candidates.len(),
{
    if candidates.len() == 0 {
        Seq::empty()
    } else if prefix.is_prefix_of(candidates.last()@) {
        beginning_with(candidates.drop_last(), prefix).push(candidates.last())
    } else {
        beginning_with(candidates.drop_last(), prefix)
    }
}

/// The candidates that complete what was typed so far: those that begin
/// with it, in their order.
pub fn completions(candidates: &Vec<String>, current: &str) -> (matching: Vec<String>)
    ensures
        matching@ == beginning_with(candidates@, current@),
{
    let mut matching: Vec<String> = Vec::new();
    let mut index: usize = 0;
    while index < candidates.len()
        invariant
            index <= candidates@.len(),
            matching@ == beginning_with(candidates@.take(index as int), current@),
        decreases candidates@.len() - index,
    {
        proof {
            let seen = candidates@.take(index as int + 1);
            assert(seen.drop_last() =~= candidates@.take(index as int));
            assert(seen.last() == candidates@[index as int]);
        }
        if starts_with(candidates[index].as_str(), current) {
            matching.push(candidates[index].clone());
        }
        index += 1;
    }
    assert(candidates@.take(candidates@.len() as int) =~= candidates@);
    matching
}

} // verus!
