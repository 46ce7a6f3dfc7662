use log_replay::command::{decode, Command};
use log_replay::state::FormatType;
use log_replay::text::{chars_of, is_white_space, trim, trim_bounds};

#[test]
fn exit_is_read_in_any_case() {
    for input in ["exit", "exit\n", "EXIT", "Exit", "eXiT", "  exit  ", "\texit\r\n"] {
        assert_eq!(decode(input), Command::Exit);
    }
}

#[test]
fn letter_a_asks_for_the_lines() {
    for input in ["a", "A", " a\n", "A\r\n"] {
        assert_eq!(decode(input), Command::Dump);
    }
}

#[test]
fn marked_values_set_the_mode() {
    assert_eq!(decode("c:compact\n"), Command::SetMode(FormatType::Compact));
    assert_eq!(decode("c:detailed\n"), Command::SetMode(FormatType::Detailed));
    assert_eq!(decode("c:raw\n"), Command::SetMode(FormatType::Raw));
    assert_eq!(decode("  c: raw  \n"), Command::SetMode(FormatType::Raw));
    assert_eq!(decode("c:\traw"), Command::SetMode(FormatType::Raw));
}

#[test]
fn marked_replay_asks_for_a_replay() {
    assert_eq!(decode("c:replay\n"), Command::Replay);
    assert_eq!(decode("c: replay"), Command::Replay);
}

#[test]
fn every_marker_is_taken_out() {
    assert_eq!(decode("c:c:raw"), Command::SetMode(FormatType::Raw));
    assert_eq!(decode("c:rac:w"), Command::SetMode(FormatType::Raw));
    assert_eq!(decode("c:rawc:"), Command::SetMode(FormatType::Raw));
    assert_eq!(decode("c:cc::raw"), Command::UnknownFormat);
}

#[test]
fn other_marked_values_are_unknown_formats() {
    for input in ["c:", "c:   ", "c:Compact", "c:RAW", "c:exit", "c:a", "c:raw now", "c:r aw", "c:verbose"] {
        assert_eq!(decode(input), Command::UnknownFormat);
    }
}

#[test]
fn other_input_is_unknown() {
    for input in ["hello", "exit now", "exits", "exi", "ab", "b", "C:raw", "raw", "compact", ":c", "c", "x c:raw"] {
        assert_eq!(decode(input), Command::Unknown);
    }
}

#[test]
fn blank_line_asks_for_nothing() {
    for input in ["", "\n", "   ", " \t\r\n", "\u{a0}"] {
        assert_eq!(decode(input), Command::Nothing);
    }
}

#[test]
fn trim_takes_white_space_off_both_ends() {
    assert_eq!(trim(" \t x y \n"), "x y");
    assert_eq!(trim("x"), "x");
    assert_eq!(trim(""), "");
    assert_eq!(trim("   "), "");
    assert_eq!(trim("\n"), "");
    assert_eq!(trim("\u{a0}\u{e9}t\u{e9}\u{2003}\u{3000}"), "\u{e9}t\u{e9}");
    assert_eq!(trim("a b"), "a b");
    assert_eq!(trim(" a"), "a");
    assert_eq!(trim("a "), "a");
    assert_eq!(trim("\u{200b}a"), "\u{200b}a");
}

#[test]
fn trim_agrees_with_the_standard_one() {
    for text in ["", " ", "  a  b  ", "\r\n\tx\u{85}", "\u{1680}y\u{2028}\u{2029}", "z\u{feff}", "\u{b}\u{c}q"] {
        assert_eq!(trim(text), text.trim());
    }
}

#[test]
fn white_space_is_what_the_standard_library_takes_for_it() {
    for code in 0..=0x10ffff_u32 {
        if let Some(c) = char::from_u32(code) {
            assert_eq!(is_white_space(c), c.is_whitespace(), "U+{:04X}", code);
        }
    }
}

#[test]
fn bounds_of_blank_text_meet() {
    assert_eq!(trim_bounds(&vec![]), (0, 0));
    assert_eq!(trim_bounds(&vec![' ', ' ']), (2, 2));
    assert_eq!(trim_bounds(&vec![' ', 'a', ' ', 'b', ' ']), (1, 4));
    assert_eq!(trim_bounds(&vec!['a']), (0, 1));
}

#[test]
fn characters_come_one_by_one() {
    assert_eq!(chars_of(""), Vec::<char>::new());
    assert_eq!(chars_of("a\u{e9}\u{1f600}"), vec!['a', '\u{e9}', '\u{1f600}']);
}
