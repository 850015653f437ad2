//! The commands of the player, read from a line of text.
//!
//! A line is a command once the white space around it is set aside: a
//! number chooses a unit of the level, and the words `explore`, `leave`,
//! `quit` and `exit`, in capitals or not, move the player or end the game.

use vstd::prelude::*;
use vstd::string::StrSliceExecFns;

verus! {

/// What the player can ask for.
#[derive(Clone, Copy, Debug, PartialEq, Eq, Structural)]
pub enum Commands {
    Coord(usize),
    Exit,
    Explore,
    Leave,
    Invalid,
}

/// Whether `c` is white space: a space, a tab, the end of a line, or one of
/// the other blank characters of Unicode.
pub open spec fn is_white_space(c: char) -> bool {
    let code = c as u32;
    ||| 0x09 <= code <= 0x0D
    ||| code == 0x20
    ||| code == 0x85
    ||| code == 0xA0
    ||| code == 0x1680
    ||| 0x2000 <= code <= 0x200A
    ||| code == 0x2028
    ||| code == 0x2029
    ||| code == 0x202F
    ||| code == 0x205F
    ||| code == 0x3000
}

/// How many characters of white space `text` has in a row from place `from`.
pub open spec fn blanks_from(text: Seq<char>, from: int) -> nat
    decreases text.len() - from,
{
    if 0 <= from < text.len() && is_white_space(text[from]) {
        1 + blanks_from(text, from + 1)
    } else {
        0
    }
}

/// How many characters of white space `text` has in a row up to place `to`.
pub open spec fn blanks_to(text: Seq<char>, to: int) -> nat
    decreases to,
{
    if 0 < to <= text.len() && is_white_space(text[to - 1]) {
        1 + blanks_to(text, to - 1)
    } else {
        0
    }
}

/// `text` without the white space at its start and at its end.
pub open spec fn trimmed(text: Seq<char>) -> Seq<char> {
    let start = blanks_from(text, 0) as int;
    if start >= text.len() {
        Seq::empty()
    } else {
        text.subrange(start, text.len() - blanks_to(text, text.len() as int))
    }
}

/// Whether `c` is one of the digits `0` to `9`.
pub open spec fn is_digit(c: char) -> bool {
    '0' <= c <= '9'
}

/// The number that the first `count` digits of `digits` stand for.
pub open spec fn value_of(digits: Seq<char>, count: int) -> nat
    decreases count,
{
    if count <= 0 {
        0
    } else {
        (value_of(digits, count - 1) * 10 + (digits[count - 1] as u32 - '0' as u32)) as nat
    }
}

/// The digits of a number: `text` without the plus sign that may stand
/// before them.
pub open spec fn unsigned(text: Seq<char>) -> Seq<char> {
    if text.len() > 0 && text[0] == '+' {
        text.drop_first()
    } else {
        text
    }
}

/// The number that `text` stands for, if it is one: decimal digits, at
/// least one, after at most one plus sign.
pub open spec fn number_of(text: Seq<char>) -> Option<nat> {
    let digits = unsigned(text);
    if digits.len() > 0 && forall|i: int| 0 <= i < digits.len() ==> is_digit(#[trigger] digits[i]) {
        Some(value_of(digits, digits.len() as int))
    } else {
        None
    }
}

/// `c` as a small letter if it is one of the capitals `A` to `Z`, and `c`
/// itself otherwise.
pub open spec fn small(c: char) -> char {
    if 'A' <= c <= 'Z' {
        ((c as u32) + 32) as char
    } else {
        c
    }
}

/// `text` in small letters.
pub open spec fn in_small_letters(text: Seq<char>) -> Seq<char> {
    Seq::new(text.len(), |i: int| small(text[i]))
}

/// The command that the word `word` stands for.
pub open spec fn word_command(word: Seq<char>) -> Commands {
    let word = in_small_letters(word);
    if word == "quit"@ || word == "exit"@ {
        Commands::Exit
    } else if word == "explore"@ {
        Commands::Explore
    } else if word == "leave"@ {
        Commands::Leave
    } else {
        Commands::Invalid
    }
}

/// The command that the line `input` stands for: a number that fits a
/// `usize` is a coordinate, and everything else is read as a word.
pub open spec fn command_of(input: Seq<char>) -> Commands {
    let line = trimmed(input);
    match number_of(line) {
        Some(number) if number <= usize::MAX => Commands::Coord(number as usize),
        _ => word_command(line),
    }
}

pub fn is_blank(c: char) -> (blank: bool)
    ensures
        blank == is_white_space(c),
{
    let code = c as u32;
    (0x09 <= code && code <= 0x0D) || code == 0x20 || code == 0x85 || code == 0xA0 || code
        == 0x1680 || (0x2000 <= code && code <= 0x200A) || code == 0x2028 || code == 0x2029
        || code == 0x202F || code == 0x205F || code == 0x3000
}

pub fn to_small(c: char) -> (letter: char)
    ensures
        letter == small(c),
{
    if 'A' <= c && c <= 'Z' {
        (c as u8 + 32) as char
    } else {
        c
    }
}

/// Sets aside the white space at the start and at the end of `input`.
pub fn trim(input: &str) -> (line: &str)
    ensures
        line@ == trimmed(input@),
{
    let length = input.unicode_len();
    let mut start: usize = 0;
    while start < length && is_blank(input.get_char(start))
        invariant
            start <= length,
            length == input@.len(),
            blanks_from(input@, 0) == start + blanks_from(input@, start as int),
        decreases length - start,
    {
        start += 1;
    }
    if start == length {
        let line = input.substring_char(start, start);
        assert(line@ =~= Seq::<char>::empty());
        return line;
    }
    let mut end: usize = length;
    while end > start + 1 && is_blank(input.get_char(end - 1))
        invariant
            start < end <= length,
            length == input@.len(),
            !is_white_space(input@[start as int]),
            blanks_to(input@, length as int) == (length - end) + blanks_to(input@, end as int),
        decreases end,
    {
        end -= 1;
    }
    input.substring_char(start, end)
}

/// On digits, a longer number is not less than a shorter one.
proof fn lemma_value_grows(digits: Seq<char>, shorter: int, longer: int)
    requires
        0 <= shorter <= longer <= digits.len(),
        forall|i: int| 0 <= i < digits.len() ==> is_digit(#[trigger] digits[i]),
    ensures
        value_of(digits, shorter) <= value_of(digits, longer),
    decreases longer - shorter,
{
    if shorter < longer {
        lemma_value_grows(digits, shorter, longer - 1);
        assert(is_digit(digits[longer - 1]));
    }
}

/// Reads `line` as a number. There is none where `line` is not made of
/// digits after at most one plus sign, and none where the number does not
/// fit a `usize`.
pub fn parse_number(line: &str) -> (number: Option<usize>)
    ensures
        number == match number_of(line@) {
            Some(value) if value <= usize::MAX => Some(value as usize),
            _ => None::<usize>,
        },
{
    let length = line.unicode_len();
    let first: usize = if length > 0 && line.get_char(0) == '+' {
        1
    } else {
        0
    };
    let ghost digits = unsigned(line@);
    if first == length {
        return None;
    }
    let mut value: usize = 0;
    let mut i: usize = first;
    while i < length
        invariant
            first <= i <= length,
            first <= 1,
            length == line@.len(),
            digits == unsigned(line@),
            digits.len() == length - first,
            forall|k: int| 0 <= k < digits.len() ==> digits[k] == line@[k + first],
            forall|k: int| 0 <= k < i - first ==> is_digit(#[trigger] digits[k]),
            value == value_of(digits, i - first),
        decreases length - i,
    {
        let c = line.get_char(i);
        if !('0' <= c && c <= '9') {
            assert(!is_digit(digits[i - first]));
            return None;
        }
        let digit = (c as u32 - '0' as u32) as usize;
        if value > (usize::MAX - digit) / 10 {
            proof {
                if forall|k: int| 0 <= k < digits.len() ==> is_digit(#[trigger] digits[k]) {
                    lemma_value_grows(digits, i - first + 1, digits.len() as int);
                }
            }
            return None;
        }
        value = value * 10 + digit;
        i += 1;
    }
    Some(value)
}

/// Whether `line` is `word` once its capitals are made small letters.
pub fn is_word(line: &str, word: &str) -> (same: bool)
    ensures
        same == (in_small_letters(line@) == word@),
{
    let length = line.unicode_len();
    if length != word.unicode_len() {
        return false;
    }
    let mut i: usize = 0;
    while i < length
        invariant
            i <= length,
            length == line@.len(),
            length == word@.len(),
            forall|k: int| 0 <= k < i ==> small(#[trigger] line@[k]) == word@[k],
        decreases length - i,
    {
        if to_small(line.get_char(i)) != word.get_char(i) {
            assert(in_small_letters(line@)[i as int] != word@[i as int]);
            return false;
        }
        i += 1;
    }
    assert(in_small_letters(line@) =~= word@);
    true
}

/// Reads a line as a command.
pub fn parse_command(input: &str) -> (command: Commands)
    ensures
        command == command_of(input@),
{
    let line = trim(input);
    match parse_number(line) {
        Some(index) => Commands::Coord(index),
        None => {
            if is_word(line, "quit") || is_word(line, "exit") {
                Commands::Exit
            } else if is_word(line, "explore") {
                Commands::Explore
            } else if is_word(line, "leave") {
                Commands::Leave
            } else {
                Commands::Invalid
            }
        },
    }
}

} // verus!
