use log_replay::buffer::{CircularBuffer, LOG_REPLAY_CAPACITY};
use log_replay::state::{CliState, FormatType};

fn numbered(from: usize, to: usize) -> Vec<String> {
    (from..=to).map(|n| format!("line {}", n)).collect()
}

fn filled(count: usize) -> CircularBuffer {
    let mut ring = CircularBuffer::new();
    for line in numbered(1, count) {
        ring.push(line);
    }
    ring
}

#[test]
fn empty_ring_holds_nothing() {
    let ring = CircularBuffer::new();
    assert_eq!(ring.get_all(), Vec::<String>::new());
}

#[test]
fn capacity_is_ten_thousand() {
    assert_eq!(LOG_REPLAY_CAPACITY, 10000);
}

#[test]
fn one_line_comes_back() {
    let ring = filled(1);
    assert_eq!(ring.get_all(), vec!["line 1".to_string()]);
}

#[test]
fn few_lines_come_back_in_order() {
    let ring = filled(3);
    assert_eq!(ring.get_all(), numbered(1, 3));
}

#[test]
fn equal_lines_are_all_kept() {
    let mut ring = CircularBuffer::new();
    ring.push("same".to_string());
    ring.push("same".to_string());
    ring.push(String::new());
    assert_eq!(ring.get_all(), vec!["same".to_string(), "same".to_string(), String::new()]);
}

#[test]
fn one_less_than_capacity_is_kept_whole() {
    let ring = filled(LOG_REPLAY_CAPACITY - 1);
    assert_eq!(ring.get_all(), numbered(1, LOG_REPLAY_CAPACITY - 1));
}

#[test]
fn exactly_capacity_is_kept_whole() {
    let ring = filled(LOG_REPLAY_CAPACITY);
    let lines = ring.get_all();
    assert_eq!(lines.len(), LOG_REPLAY_CAPACITY);
    assert_eq!(lines, numbered(1, LOG_REPLAY_CAPACITY));
}

#[test]
fn append_after_capacity_evicts_the_first_line() {
    let mut ring = filled(10000);
    ring.push("line 10001".to_string());
    let lines = ring.get_all();
    assert_eq!(lines.len(), 10000);
    assert_eq!(lines[0], "line 2");
    assert_eq!(lines[9999], "line 10001");
    assert!(!lines.contains(&"line 1".to_string()));
    assert_eq!(lines, numbered(2, 10001));
}

#[test]
fn long_history_keeps_the_last_ten_thousand() {
    let ring = filled(25000);
    assert_eq!(ring.get_all(), numbered(15001, 25000));
}

#[test]
fn twice_capacity_keeps_the_second_half() {
    let ring = filled(2 * LOG_REPLAY_CAPACITY);
    assert_eq!(ring.get_all(), numbered(LOG_REPLAY_CAPACITY + 1, 2 * LOG_REPLAY_CAPACITY));
}

#[test]
fn reading_does_not_change_the_ring() {
    let ring = filled(5);
    assert_eq!(ring.get_all(), ring.get_all());
}

#[test]
fn state_stores_and_returns_lines() {
    let mut state = CliState { format_type: FormatType::Detailed, last_logs: CircularBuffer::new() };
    state.insert_log("first\n".to_string());
    state.insert_log("second\n".to_string());
    assert_eq!(state.get_logs(), vec!["first\n".to_string(), "second\n".to_string()]);
    assert_eq!(state.format_type, FormatType::Detailed);
}

#[test]
fn received_line_is_stored_under_any_mode() {
    for mode in [FormatType::Compact, FormatType::Detailed, FormatType::Raw] {
        let mut state = CliState { format_type: mode, last_logs: CircularBuffer::new() };
        assert_eq!(state.receive("{\"level\":30}\n"), Some(mode));
        assert_eq!(state.get_logs(), vec!["{\"level\":30}\n".to_string()]);
    }
}

#[test]
fn empty_read_ends_the_stream() {
    let mut state = CliState { format_type: FormatType::Compact, last_logs: CircularBuffer::new() };
    state.insert_log("kept".to_string());
    assert_eq!(state.receive(""), None);
    assert_eq!(state.get_logs(), vec!["kept".to_string()]);
}

#[test]
fn blank_line_is_no_end_of_stream() {
    let mut state = CliState { format_type: FormatType::Raw, last_logs: CircularBuffer::new() };
    assert_eq!(state.receive("\n"), Some(FormatType::Raw));
    assert_eq!(state.get_logs(), vec!["\n".to_string()]);
}

#[test]
fn wrap_flag_is_set_by_the_append_that_fills_the_ring() {
    let mut ring = filled(LOG_REPLAY_CAPACITY - 1);
    assert!(!ring.looped());
    assert_eq!(ring.index(), LOG_REPLAY_CAPACITY - 1);
    ring.push("last".to_string());
    assert!(ring.looped());
    assert_eq!(ring.index(), 0);
}

#[test]
fn append_after_the_wrap_goes_to_the_first_slot() {
    let mut ring = filled(LOG_REPLAY_CAPACITY);
    assert_eq!(ring.index(), 0);
    ring.push("next".to_string());
    assert_eq!(ring.index(), 1);
    assert!(ring.looped());
    let lines = ring.get_all();
    assert_eq!(lines[0], "line 2");
    assert_eq!(lines[LOG_REPLAY_CAPACITY - 2], format!("line {}", LOG_REPLAY_CAPACITY));
    assert_eq!(lines[LOG_REPLAY_CAPACITY - 1], "next");
}

#[test]
fn new_ring_starts_at_the_first_slot() {
    let mut ring = CircularBuffer::new();
    assert_eq!(ring.index(), 0);
    assert!(!ring.looped());
    ring.push("a".to_string());
    assert_eq!(ring.index(), 1);
    assert!(!ring.looped());
}

#[test]
fn wrap_flag_stays_set() {
    let ring = filled(3 * LOG_REPLAY_CAPACITY + 7);
    assert!(ring.looped());
    assert_eq!(ring.index(), 7);
    assert_eq!(ring.get_all().len(), LOG_REPLAY_CAPACITY);
}

#[test]
fn modes_are_ordered_as_declared() {
    assert!(FormatType::Compact < FormatType::Detailed);
    assert!(FormatType::Detailed < FormatType::Raw);
    assert_eq!(FormatType::Raw.clone(), FormatType::Raw);
}
