//! Small pieces of text that the renderer puts together.

use vstd::prelude::*;
use vstd::string::*;

verus! {

/// The text of one decimal digit.
pub open spec fn digit_text(digit: int) -> Seq<char> {
    if digit == 0 {
        "0"@
    } else if digit == 1 {
        "1"@
    } else if digit == 2 {
        "2"@
    } else if digit == 3 {
        "3"@
    } else if digit == 4 {
        "4"@
    } else if digit == 5 {
        "5"@
    } else if digit == 6 {
        "6"@
    } else if digit == 7 {
        "7"@
    } else if digit == 8 {
        "8"@
    } else {
        "9"@
    }
}

/// A natural number in decimal, without leading zeros.
pub open spec fn natural_text(n: nat) -> Seq<char>
    decreases n,
{
    if n < 10 {
        digit_text(n as int)
    } else {
        natural_text(n / 10) + digit_text((n % 10) as int)
    }
}

/// An integer in decimal, with a leading minus sign where it is negative.
pub open spec fn decimal_text(n: int) -> Seq<char> {
    if n < 0 {
        "-"@ + natural_text((-n) as nat)
    } else {
        natural_text(n as nat)
    }
}

fn digit(d: u64) -> (text: &'static str)
    requires
        d < 10,
    ensures
        text@ == digit_text(d as int),
{
    if d == 0 {
        "0"
    } else if d == 1 {
        "1"
    } else if d == 2 {
        "2"
    } else if d == 3 {
        "3"
    } else if d == 4 {
        "4"
    } else if d == 5 {
        "5"
    } else if d == 6 {
        "6"
    } else if d == 7 {
        "7"
    } else if d == 8 {
        "8"
    } else {
        "9"
    }
}

fn natural(n: u64) -> (text: String)
    ensures
        text@ == natural_text(n as nat),
    decreases n,
{
    if n < 10 {
        String::from_str(digit(n))
    } else {
        let mut text = natural(n / 10);
        text.append(digit(n % 10));
        text
    }
}

/// Writes `n` in decimal.
pub fn decimal(n: i32) -> (text: String)
    ensures
        text@ == decimal_text(n as int),
{
    let wide: i64 = n as i64;
    if wide < 0 {
        let mut text = String::from_str("-");
        let digits = natural((0 - wide) as u64);
        text.append(digits.as_str());
        text
    } else {
        natural(wide as u64)
    }
}

/// Whether a character is white space: one of the characters with the
/// Unicode property White_Space, as `char::is_whitespace` tells.
pub open spec fn white_space(c: char) -> bool {
    let code = c as u32;
    ||| 0x9 <= code <= 0xd
    ||| code == 0x20
    ||| code == 0x85
    ||| code == 0xa0
    ||| code == 0x1680
    ||| 0x2000 <= code <= 0x200a
    ||| code == 0x2028
    ||| code == 0x2029
    ||| code == 0x202f
    ||| code == 0x205f
    ||| code == 0x3000
}

/// Tells whether a character is white space.
pub fn is_white_space(c: char) -> (white: bool)
    ensures
        white == white_space(c),
{
    let code: u32 = c as u32;
    (0x9 <= code && code <= 0xd) || code == 0x20 || code == 0x85 || code == 0xa0 || code == 0x1680
        || (0x2000 <= code && code <= 0x200a) || code == 0x2028 || code == 0x2029 || code == 0x202f
        || code == 0x205f || code == 0x3000
}

/// The place of the first character at or after `from` that is no white
/// space; the length of the text where there is none.
pub open spec fn solid_from(text: Seq<char>, from: int) -> int
    decreases text.len() - from,
{
    if from < 0 || from >= text.len() {
        text.len() as int
    } else if !white_space(text[from]) {
        from
    } else {
        solid_from(text, from + 1)
    }
}

/// The place behind the last character before `until` that is no white
/// space, and `floor` where there is none from `floor` on.
pub open spec fn solid_until(text: Seq<char>, floor: int, until: int) -> int
    decreases until,
{
    if until <= floor || until > text.len() || until <= 0 {
        floor
    } else if !white_space(text[until - 1]) {
        until
    } else {
        solid_until(text, floor, until - 1)
    }
}

/// The text without the white space around it.
pub open spec fn trim_of(text: Seq<char>) -> Seq<char> {
    let start = solid_from(text, 0);
    text.subrange(start, solid_until(text, start, text.len() as int))
}

/// The characters of a text, one by one.
pub fn chars_of(text: &str) -> (chars: Vec<char>)
    ensures
        chars@ == text@,
{
    let mut chars: Vec<char> = Vec::new();
    for c in it: text.chars()
        invariant
            it.seq() == text@,
            chars@ == text@.take(it.index()),
    {
        chars.push(c);
    }
    chars
}

/// Where the text without the white space around it starts and ends.
pub fn trim_bounds(chars: &Vec<char>) -> (bounds: (usize, usize))
    ensures
        bounds.0 <= bounds.1 <= chars.len(),
        bounds.0 == solid_from(chars@, 0),
        bounds.1 == solid_until(chars@, bounds.0 as int, chars.len() as int),
        chars@.subrange(bounds.0 as int, bounds.1 as int) == trim_of(chars@),
{
    let mut start: usize = 0;
    while start < chars.len() && is_white_space(chars[start])
        invariant
            start <= chars.len(),
            solid_from(chars@, 0) == solid_from(chars@, start as int),
        decreases chars.len() - start,
    {
        start = start + 1;
    }
    let mut end: usize = chars.len();
    while end > start && is_white_space(chars[end - 1])
        invariant
            start <= end <= chars.len(),
            solid_until(chars@, start as int, chars.len() as int) == solid_until(
                chars@,
                start as int,
                end as int,
            ),
        decreases end,
    {
        end = end - 1;
    }
    (start, end)
}

/// Takes the white space off both ends of a text.
pub fn trim(text: &str) -> (core: String)
    ensures
        core@ == trim_of(text@),
{
    let chars = chars_of(text);
    let (start, end) = trim_bounds(&chars);
    String::from_str(text.substring_char(start, end))
}

/// The texts that a list of strings holds.
pub open spec fn texts_view(texts: Seq<String>) -> Seq<Seq<char>> {
    Seq::new(texts.len(), |i: int| texts[i]@)
}

/// The first solid place at or after `from` lies between `from` and the
/// end, and where it lies before the end, no white space stands there.
proof fn lemma_solid_from(text: Seq<char>, from: int)
    requires
        0 <= from <= text.len(),
    ensures
        from <= solid_from(text, from) <= text.len(),
        solid_from(text, from) < text.len() ==> !white_space(text[solid_from(text, from)]),
    decreases text.len() - from,
{
    if from < text.len() && white_space(text[from]) {
        lemma_solid_from(text, from + 1);
    }
}

/// The end of the solid part before `until` lies between `floor` and
/// `until`, and where it lies above `floor`, no white space stands before it.
proof fn lemma_solid_until(text: Seq<char>, floor: int, until: int)
    requires
        0 <= floor <= until <= text.len(),
    ensures
        floor <= solid_until(text, floor, until) <= until,
        solid_until(text, floor, until) > floor ==> !white_space(
            text[solid_until(text, floor, until) - 1],
        ),
    decreases until,
{
    if until > floor && white_space(text[until - 1]) {
        lemma_solid_until(text, floor, until - 1);
    }
}

/// What trimming leaves neither starts nor ends with white space.
pub proof fn law_trim_leaves_no_space_around(text: Seq<char>)
    ensures
        trim_of(text).len() > 0 ==> !white_space(trim_of(text)[0]) && !white_space(
            trim_of(text).last(),
        ),
{
    let start = solid_from(text, 0);
    lemma_solid_from(text, 0);
    lemma_solid_until(text, start, text.len() as int);
}

/// Text that neither starts nor ends with white space is left as it is.
pub proof fn law_trim_keeps_solid_text(text: Seq<char>)
    requires
        text.len() > 0,
        !white_space(text[0]),
        !white_space(text.last()),
    ensures
        trim_of(text) == text,
{
}

} // verus!
