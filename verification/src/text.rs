//! Building the descriptions: numbers in decimal, truth values, and the
//! entries of a listing.

use vstd::prelude::*;
use vstd::string::StringExecFns;

verus! {

/// The character of the decimal digit `digit`.
pub open spec fn digit_char(digit: int) -> char {
    if digit == 0 {
        '0'
    } else if digit == 1 {
        '1'
    } else if digit == 2 {
        '2'
    } else if digit == 3 {
        '3'
    } else if digit == 4 {
        '4'
    } else if digit == 5 {
        '5'
    } else if digit == 6 {
        '6'
    } else if digit == 7 {
        '7'
    } else if digit == 8 {
        '8'
    } else {
        '9'
    }
}

/// `number` in decimal, without leading zeros.
pub open spec fn decimal(number: nat) -> Seq<char>
    decreases number,
{
    if number < 10 {
        seq![digit_char(number as int)]
    } else {
        decimal(number / 10).push(digit_char((number % 10) as int))
    }
}

/// A number of hundredths as a decimal fraction, written as short as it can
/// be: 145 is `1.45`, 150 is `1.5` and 100 is `1`.
pub open spec fn hundredths(number: nat) -> Seq<char> {
    if number % 100 == 0 {
        decimal(number / 100)
    } else if number % 10 == 0 {
        decimal(number / 100) + "."@ + seq![digit_char((number % 100 / 10) as int)]
    } else {
        decimal(number / 100) + "."@ + seq![digit_char((number % 100 / 10) as int)] + seq![
            digit_char((number % 10) as int),
        ]
    }
}

/// The word for a truth value.
pub open spec fn truth(value: bool) -> Seq<char> {
    if value {
        "true"@
    } else {
        "false"@
    }
}

/// One entry of a listing: the label, an underscore, the place in the list
/// and a space.
pub open spec fn entry(label: Seq<char>, place: nat) -> Seq<char> {
    label + "_"@ + decimal(place) + " "@
}

/// The entries of the first `count` of `labels`, one after the other.
pub open spec fn listing(labels: Seq<Seq<char>>, count: nat) -> Seq<char>
    decreases count,
{
    if count == 0 {
        Seq::empty()
    } else {
        listing(labels, (count - 1) as nat) + entry(labels[count - 1], (count - 1) as nat)
    }
}

/// What is said of a place that holds nothing.
pub open spec fn invalid_coordinates() -> Seq<char> {
    "Invalid coordinates."@
}

/// The text of one decimal digit.
pub fn digit_text(digit: u64) -> (text: &'static str)
    requires
        digit < 10,
    ensures
        text@ == seq![digit_char(digit as int)],
{
    proof {
        reveal_strlit("0");
        reveal_strlit("1");
        reveal_strlit("2");
        reveal_strlit("3");
        reveal_strlit("4");
        reveal_strlit("5");
        reveal_strlit("6");
        reveal_strlit("7");
        reveal_strlit("8");
        reveal_strlit("9");
    }
    let text = if digit == 0 {
        "0"
    } else if digit == 1 {
        "1"
    } else if digit == 2 {
        "2"
    } else if digit == 3 {
        "3"
    } else if digit == 4 {
        "4"
    } else if digit == 5 {
        "5"
    } else if digit == 6 {
        "6"
    } else if digit == 7 {
        "7"
    } else if digit == 8 {
        "8"
    } else {
        "9"
    };
    assert(text@ =~= seq![digit_char(digit as int)]);
    text
}

/// Appends `number` in decimal to `text`.
pub fn push_decimal(text: &mut String, number: u64)
    ensures
        final(text)@ == old(text)@ + decimal(number as nat),
    decreases number,
{
    if number >= 10 {
        push_decimal(text, number / 10);
    }
    text.append(digit_text(number % 10));
    assert(final(text)@ =~= old(text)@ + decimal(number as nat));
}

/// Appends `number` hundredths as a decimal fraction to `text`.
pub fn push_hundredths(text: &mut String, number: u64)
    ensures
        final(text)@ == old(text)@ + hundredths(number as nat),
{
    push_decimal(text, number / 100);
    if number % 100 != 0 {
        text.append(".");
        text.append(digit_text(number % 100 / 10));
        if number % 10 != 0 {
            text.append(digit_text(number % 10));
        }
    }
    assert(final(text)@ =~= old(text)@ + hundredths(number as nat));
}

/// Appends the word for `value` to `text`.
pub fn push_truth(text: &mut String, value: bool)
    ensures
        final(text)@ == old(text)@ + truth(value),
{
    if value {
        text.append("true");
    } else {
        text.append("false");
    }
}

/// Appends one entry of a listing to `text`.
pub fn push_entry(text: &mut String, label: &str, place: usize)
    ensures
        final(text)@ == old(text)@ + entry(label@, place as nat),
{
    text.append(label);
    text.append("_");
    push_decimal(text, place as u64);
    text.append(" ");
    assert(final(text)@ =~= old(text)@ + entry(label@, place as nat));
}

} // verus!
