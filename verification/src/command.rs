//! The commands that the operator types.

use vstd::prelude::*;
use crate::state::FormatType;
use crate::text::{chars_of, trim_bounds, trim_of};

verus! {

/// What the operator asks for.
#[derive(Debug, Clone, Copy, PartialEq, Eq, Structural)]
pub enum Command {
    /// `exit`, in any mix of capitals and small letters: leave.
    Exit,
    /// `a`, or `A`: list the lines held.
    Dump,
    /// `c:compact`, `c:detailed`, `c:raw`: show lines in that mode from now on.
    SetMode(FormatType),
    /// `c:replay`: show the lines held again, in the mode that holds.
    Replay,
    /// `c:` with anything else behind it.
    UnknownFormat,
    /// Any other input that is not blank.
    Unknown,
    /// A blank line: nothing is asked.
    Nothing,
}

/// The word `exit`, each letter in either case.
pub open spec fn spells_exit(line: Seq<char>) -> bool {
    &&& line.len() == 4
    &&& (line[0] == 'e' || line[0] == 'E')
    &&& (line[1] == 'x' || line[1] == 'X')
    &&& (line[2] == 'i' || line[2] == 'I')
    &&& (line[3] == 't' || line[3] == 'T')
}

/// The letter `a`, in either case.
pub open spec fn spells_dump(line: Seq<char>) -> bool {
    line.len() == 1 && (line[0] == 'a' || line[0] == 'A')
}

/// Whether the line starts with the marker `c:`.
pub open spec fn is_marked(line: Seq<char>) -> bool {
    line.len() >= 2 && line[0] == 'c' && line[1] == ':'
}

/// The text with every `c:` taken out, from left to right.
pub open spec fn without_marker(text: Seq<char>) -> Seq<char>
    decreases text.len(),
{
    if is_marked(text) {
        without_marker(text.skip(2))
    } else if text.len() > 0 {
        seq![text[0]] + without_marker(text.skip(1))
    } else {
        Seq::empty()
    }
}

/// What a value behind the marker asks for.
pub open spec fn format_of(value: Seq<char>) -> Command {
    if value == "compact"@ {
        Command::SetMode(FormatType::Compact)
    } else if value == "detailed"@ {
        Command::SetMode(FormatType::Detailed)
    } else if value == "raw"@ {
        Command::SetMode(FormatType::Raw)
    } else if value == "replay"@ {
        Command::Replay
    } else {
        Command::UnknownFormat
    }
}

/// What a line of input asks for. White space around the line does not
/// count, nor around what is left of a marked line without its markers.
pub open spec fn command_of(input: Seq<char>) -> Command {
    let line = trim_of(input);
    if line.len() == 0 {
        Command::Nothing
    } else if spells_exit(line) {
        Command::Exit
    } else if spells_dump(line) {
        Command::Dump
    } else if is_marked(line) {
        format_of(trim_of(without_marker(line)))
    } else {
        Command::Unknown
    }
}

/// Copies the characters from `start` up to `end`.
fn part(chars: &Vec<char>, start: usize, end: usize) -> (copy: Vec<char>)
    requires
        start <= end <= chars.len(),
    ensures
        copy@ == chars@.subrange(start as int, end as int),
{
    let mut copy: Vec<char> = Vec::new();
    let mut i: usize = start;
    while i < end
        invariant
            start <= i <= end <= chars.len(),
            copy@ == chars@.subrange(start as int, i as int),
        decreases end - i,
    {
        copy.push(chars[i]);
        i = i + 1;
    }
    copy
}

/// The characters without the white space around them.
fn trimmed(chars: &Vec<char>) -> (core: Vec<char>)
    ensures
        core@ == trim_of(chars@),
{
    let (start, end) = trim_bounds(chars);
    part(chars, start, end)
}

/// Takes every `c:` out of the characters.
fn strip_marker(chars: &Vec<char>) -> (rest: Vec<char>)
    ensures
        rest@ == without_marker(chars@),
{
    let mut rest: Vec<char> = Vec::new();
    let mut i: usize = 0;
    assert(chars@.skip(0) =~= chars@);
    while i < chars.len()
        invariant
            i <= chars.len(),
            without_marker(chars@) == rest@ + without_marker(chars@.skip(i as int)),
        decreases chars.len() - i,
    {
        let ghost tail = chars@.skip(i as int);
        if i + 1 < chars.len() && chars[i] == 'c' && chars[i + 1] == ':' {
            assert(tail.skip(2) =~= chars@.skip(i + 2));
            i = i + 2;
        } else {
            assert(tail.skip(1) =~= chars@.skip(i + 1));
            rest.push(chars[i]);
            i = i + 1;
        }
    }
    rest
}

/// Whether the characters spell `word`.
fn spells(chars: &Vec<char>, word: &str) -> (same: bool)
    ensures
        same == (chars@ == word@),
{
    let letters = chars_of(word);
    if letters.len() != chars.len() {
        return false;
    }
    let mut i: usize = 0;
    while i < chars.len()
        invariant
            i <= chars.len() == letters.len(),
            letters@ == word@,
            chars@.take(i as int) == letters@.take(i as int),
        decreases chars.len() - i,
    {
        if chars[i] != letters[i] {
            return false;
        }
        i = i + 1;
    }
    assert(chars@ =~= chars@.take(i as int));
    assert(letters@ =~= letters@.take(i as int));
    true
}

/// Reads what a value behind the marker asks for.
fn format(value: &Vec<char>) -> (command: Command)
    ensures
        command == format_of(value@),
{
    if spells(value, "compact") {
        Command::SetMode(FormatType::Compact)
    } else if spells(value, "detailed") {
        Command::SetMode(FormatType::Detailed)
    } else if spells(value, "raw") {
        Command::SetMode(FormatType::Raw)
    } else if spells(value, "replay") {
        Command::Replay
    } else {
        Command::UnknownFormat
    }
}

/// Reads a line of input as a command.
pub fn decode(input: &str) -> (command: Command)
    ensures
        command == command_of(input@),
{
    let chars = chars_of(input);
    let line = trimmed(&chars);
    if line.len() == 0 {
        Command::Nothing
    } else if line.len() == 4 && (line[0] == 'e' || line[0] == 'E') && (line[1] == 'x' || line[1] == 'X')
        && (line[2] == 'i' || line[2] == 'I') && (line[3] == 't' || line[3] == 'T') {
        Command::Exit
    } else if line.len() == 1 && (line[0] == 'a' || line[0] == 'A') {
        Command::Dump
    } else if line.len() >= 2 && line[0] == 'c' && line[1] == ':' {
        let rest = strip_marker(&line);
        let value = trimmed(&rest);
        format(&value)
    } else {
        Command::Unknown
    }
}

} // verus!
