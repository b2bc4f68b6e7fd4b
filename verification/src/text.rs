//! Building strings from characters and numbers.
use vstd::prelude::*;

verus! {

/// Appends one character to a string.
///
/// Trusted: stands for `String::push`, which the standard library documents
/// as appending the given character to the end of the string.
#[verifier::external_body]
pub(crate) fn push_char(text: &mut String, c: char)
    ensures
        final(text)@ == old(text)@.push(c),
{
    text.push(c)
}

/// The characters of `source` from `from` up to, not including, `to`,
/// with both bounds clipped to the length of the source.
pub open spec fn clipped(source: Seq<char>, from: int, to: int) -> Seq<char> {
    let end = if to < source.len() { to } else { source.len() as int };
    if 0 <= from <= end {
        source.subrange(from, end)
    } else {
        Seq::empty()
    }
}

/// Copies a range of characters into a string. Bounds past the end of the
/// source are clipped, so that no pair of bounds is out of range.
pub fn substring(source: &[char], from: usize, to: usize) -> (text: String)
    ensures
        text@ == clipped(source@, from as int, to as int),
{
    let end = if to < source.len() { to } else { source.len() };
    let mut text = String::new();
    if from > end {
        return text;
    }
    let mut i = from;
    while i < end
        invariant
            from <= i <= end <= source@.len(),
            text@ == source@.subrange(from as int, i as int),
        decreases end - i,
    {
        push_char(&mut text, source[i]);
        i += 1;
    }
    text
}

/// Whether two strings hold the same characters.
pub fn same_text(left: &str, right: &str) -> (same: bool)
    ensures
        same == (left@ == right@),
{
    String::from_str(left) == String::from_str(right)
}

/// A copy of a string slice.
pub fn owned(text: &str) -> (copy: String)
    ensures
        copy@ == text@,
{
    String::from_str(text)
}

/// The decimal digit for a value below ten.
pub open spec fn digit_of(value: nat) -> char {
    if value == 0 {
        '0'
    } else if value == 1 {
        '1'
    } else if value == 2 {
        '2'
    } else if value == 3 {
        '3'
    } else if value == 4 {
        '4'
    } else if value == 5 {
        '5'
    } else if value == 6 {
        '6'
    } else if value == 7 {
        '7'
    } else if value == 8 {
        '8'
    } else {
        '9'
    }
}

/// The decimal notation of a natural number, most significant digit first
/// and without leading zeros.
pub open spec fn decimal_of(value: nat) -> Seq<char>
    decreases value,
{
    if value < 10 {
        seq![digit_of(value)]
    } else {
        decimal_of(value / 10).push(digit_of(value % 10))
    }
}

fn digit(value: usize) -> (c: char)
    requires
        value < 10,
    ensures
        c == digit_of(value as nat),
{
    if value == 0 {
        '0'
    } else if value == 1 {
        '1'
    } else if value == 2 {
        '2'
    } else if value == 3 {
        '3'
    } else if value == 4 {
        '4'
    } else if value == 5 {
        '5'
    } else if value == 6 {
        '6'
    } else if value == 7 {
        '7'
    } else if value == 8 {
        '8'
    } else {
        '9'
    }
}

/// Writes a number in decimal notation.
pub fn decimal(value: usize) -> (text: String)
    ensures
        text@ == decimal_of(value as nat),
    decreases value,
{
    if value < 10 {
        let mut text = String::new();
        push_char(&mut text, digit(value));
        assert(text@ == seq![digit_of(value as nat)]);
        text
    } else {
        let mut text = decimal(value / 10);
        push_char(&mut text, digit(value % 10));
        text
    }
}

/// A run of `count` copies of one character.
pub open spec fn run_of(c: char, count: nat) -> Seq<char> {
    Seq::new(count, |i: int| c)
}

/// Builds a run of `count` copies of one character.
pub fn repeat(c: char, count: usize) -> (text: String)
    ensures
        text@ == run_of(c, count as nat),
{
    let mut text = String::new();
    let mut i: usize = 0;
    while i < count
        invariant
            i <= count,
            text@ == run_of(c, i as nat),
        decreases count - i,
    {
        push_char(&mut text, c);
        i += 1;
    }
    text
}

/// Joins two strings.
pub fn joined(left: &str, right: &str) -> (text: String)
    ensures
        text@ == left@ + right@,
{
    let mut text = String::from_str(left);
    text.append(right);
    text
}

} // verus!
