//! What the ledger needs of the standard library's strings beyond what the
//! verifier already knows of them.

use vstd::prelude::*;

verus! {

/// The lower-case form of a text as `str::to_lowercase` computes it, by the
/// Unicode rules that the standard library follows. Nothing more is claimed of
/// it than that it is a function of the text.
pub uninterp spec fn lowercase(text: Seq<char>) -> Seq<char>;

/// `str::to_lowercase`: the result is the lower-case form of the argument.
#[verifier::external_body]
pub(crate) fn to_lowercase(text: &str) -> (lower: String)
    ensures
        lower@ == lowercase(text@),
{
    text.to_lowercase()
}

/// `==` on string slices: two slices are equal when they hold the same
/// characters.
pub assume_specification[ <str as PartialEq>::eq ](left: &str, right: &str) -> (same: bool)
    ensures
        same == (left@ == right@),
;

/// `String::push`: appends one character.
pub assume_specification[ String::push ](text: &mut String, c: char)
    ensures
        final(text)@ == old(text)@.push(c),
;

/// The text in which every occurrence of `from` is replaced by `to`: the
/// occurrences are taken from the left, and one that overlaps an occurrence
/// already taken does not count. It is meant for a `from` that is not empty.
pub open spec fn replaced(text: Seq<char>, from: Seq<char>, to: Seq<char>) -> Seq<char>
    decreases text.len(),
{
    if from.len() == 0 || text.len() < from.len() {
        text
    } else if text.subrange(0, from.len() as int) == from {
        to + replaced(text.subrange(from.len() as int, text.len() as int), from, to)
    } else {
        seq![text[0]] + replaced(text.subrange(1, text.len() as int), from, to)
    }
}

/// `str::replace`: replaces every match of a text that is not empty by
/// another, the matches being disjoint and found from the left. Of an empty
/// pattern nothing is claimed.
#[verifier::external_body]
pub(crate) fn replace(text: &str, from: &str, to: &str) -> (changed: String)
    ensures
        from@.len() > 0 ==> changed@ == replaced(text@, from@, to@),
{
    text.replace(from, to)
}

/// The character of a decimal digit.
pub open spec fn digit(value: nat) -> char {
    if value == 0 {
        '0'
    } else if value == 1 {
        '1'
    } else if value == 2 {
        '2'
    } else if value == 3 {
        '3'
    } else if value == 4 {
        '4'
    } else if value == 5 {
        '5'
    } else if value == 6 {
        '6'
    } else if value == 7 {
        '7'
    } else if value == 8 {
        '8'
    } else {
        '9'
    }
}

/// The decimal digits of a natural number, without leading zeros.
pub open spec fn digits(value: nat) -> Seq<char>
    decreases value,
{
    if value < 10 {
        seq![digit(value)]
    } else {
        digits(value / 10).push(digit(value % 10))
    }
}

/// An integer written in decimal, with a minus sign where it is negative.
pub open spec fn decimal(value: int) -> Seq<char> {
    if value < 0 {
        seq!['-'] + digits((-value) as nat)
    } else {
        digits(value as nat)
    }
}

fn digit_char(value: u64) -> (c: char)
    requires
        value < 10,
    ensures
        c == digit(value as nat),
{
    if value == 0 {
        '0'
    } else if value == 1 {
        '1'
    } else if value == 2 {
        '2'
    } else if value == 3 {
        '3'
    } else if value == 4 {
        '4'
    } else if value == 5 {
        '5'
    } else if value == 6 {
        '6'
    } else if value == 7 {
        '7'
    } else if value == 8 {
        '8'
    } else {
        '9'
    }
}

fn push_digits(text: &mut String, value: u64)
    ensures
        final(text)@ == old(text)@ + digits(value as nat),
    decreases value,
{
    if value >= 10 {
        push_digits(text, value / 10);
    }
    text.push(digit_char(value % 10));
}

/// Writes an integer in decimal.
pub fn decimal_text(value: i64) -> (text: String)
    ensures
        text@ == decimal(value as int),
{
    let mut text = String::new();
    if value < 0 {
        text.push('-');
        let magnitude: u64 = (-(value + 1)) as u64 + 1;
        push_digits(&mut text, magnitude);
    } else {
        push_digits(&mut text, value as u64);
    }
    text
}

} // verus!
