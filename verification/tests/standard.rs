use log_replay::logs::standard::StandardLog;
use log_replay::logs::{FormattedLog, ParsableLog};
use log_replay::text::decimal;
use log_replay::time::{moment, LogTime, LAST_SECOND};
use serde_json::Value;

fn value(text: &str) -> Value {
    serde_json::from_str(text).unwrap()
}

fn compact(line: &str) -> FormattedLog {
    StandardLog::from_line(line).unwrap().format_compact()
}

fn detailed(line: &str) -> FormattedLog {
    StandardLog::from_line(line).unwrap().format_detailed()
}

#[test]
fn level_and_message_make_a_standard_line() {
    let record = detailed("{\"level\":30,\"msg\":\"hello\"}");
    assert!(record.msg.ends_with("- hello"));
    assert_eq!(record.msg, " - hello");
    assert_eq!(record.extra, None);
    assert_eq!(record.color_overwrite, None);
    assert_eq!(record.date, LogTime::Now);
}

#[test]
fn level_alone_is_enough() {
    let record = compact("{\"level\":0}");
    assert_eq!(record.msg, "");
    assert_eq!(record.extra, None);
}

#[test]
fn unknown_members_are_passed_over() {
    assert!(StandardLog::from_line("{\"level\":255,\"v\":1,\"other\":[1,2]}").is_some());
    assert!(StandardLog::from_line("{\"level\":30,\"sql\":5,\"bindings\":\"x\"}").is_some());
}

#[test]
fn line_without_level_is_not_standard() {
    assert!(StandardLog::from_line("{\"msg\":\"hello\"}").is_none());
}

#[test]
fn level_must_be_a_number() {
    assert!(StandardLog::from_line("{\"level\":\"30\"}").is_none());
    assert!(StandardLog::from_line("{\"level\":null}").is_none());
    assert!(StandardLog::from_line("{\"level\":true}").is_none());
    assert!(StandardLog::from_line("{\"level\":[30]}").is_none());
    assert!(StandardLog::from_line("{\"level\":{\"n\":30}}").is_none());
}

#[test]
fn every_number_is_a_level() {
    for level in ["0", "30", "255", "256", "300", "-1", "30.5", "30.0", "1e3", "-0.25",
        "18446744073709551615", "-9223372036854775808", "123456789012345678901234567890"] {
        let line = format!("{{\"level\":{},\"msg\":\"x\"}}", level);
        let log = StandardLog::from_line(&line).unwrap();
        assert_eq!(log.format_compact().msg, " - x");
        assert_eq!(log.format_detailed().msg, " - x");
        assert_eq!(log.level().value(), value(level));
    }
}

#[test]
fn level_above_255_makes_a_standard_line() {
    let log = StandardLog::from_line("{\"level\":300,\"msg\":\"x\"}").unwrap();
    assert_eq!(log.format_compact().msg, " - x");
    assert_eq!(log.format_compact().extra, None);
    assert_eq!(log.level().whole(), Some(300));
}

#[test]
fn level_is_an_integer_where_it_is_one() {
    let whole = |text: &str| StandardLog::from_line(text).unwrap().level().whole();
    assert_eq!(whole("{\"level\":0}"), Some(0));
    assert_eq!(whole("{\"level\":-7}"), Some(-7));
    assert_eq!(whole("{\"level\":18446744073709551615}"), Some(18446744073709551615));
    assert_eq!(whole("{\"level\":-9223372036854775808}"), Some(-9223372036854775808));
    assert_eq!(whole("{\"level\":30.5}"), None);
    assert_eq!(whole("{\"level\":30.0}"), None);
    assert_eq!(whole("{\"level\":18446744073709551616}"), None);
}

#[test]
fn text_that_is_no_object_is_not_standard() {
    assert!(StandardLog::from_line("not json at all").is_none());
    assert!(StandardLog::from_line("").is_none());
    assert!(StandardLog::from_line("30").is_none());
    assert!(StandardLog::from_line("[30]").is_none());
    assert!(StandardLog::from_line("{\"level\":30} trailing").is_none());
    assert!(StandardLog::from_line("{\"level\":30").is_none());
}

#[test]
fn line_break_after_the_object_is_allowed() {
    assert_eq!(compact("{\"level\":30,\"msg\":\"hello\"}\n").msg, " - hello");
}

#[test]
fn member_of_the_wrong_form_spoils_the_line() {
    assert!(StandardLog::from_line("{\"level\":30,\"pid\":\"x\"}").is_none());
    assert!(StandardLog::from_line("{\"level\":30,\"pid\":2147483648}").is_none());
    assert!(StandardLog::from_line("{\"level\":30,\"time\":-5}").is_none());
    assert!(StandardLog::from_line("{\"level\":30,\"time\":1.5}").is_none());
    assert!(StandardLog::from_line("{\"level\":30,\"hostname\":7}").is_none());
    assert!(StandardLog::from_line("{\"level\":30,\"name\":{}}").is_none());
    assert!(StandardLog::from_line("{\"level\":30,\"data\":\"x\"}").is_none());
    assert!(StandardLog::from_line("{\"level\":30,\"data\":[]}").is_none());
    assert!(StandardLog::from_line("{\"level\":30,\"data\":{\"req\":5}}").is_none());
    assert!(StandardLog::from_line("{\"level\":30,\"data\":{\"body\":[1]}}").is_none());
    assert!(StandardLog::from_line("{\"level\":30,\"data\":{\"httpCode\":\"404\"}}").is_none());
    assert!(StandardLog::from_line("{\"level\":30,\"data\":{\"name\":1}}").is_none());
    assert!(StandardLog::from_line("{\"level\":30,\"data\":{\"context\":1}}").is_none());
}

#[test]
fn null_members_count_as_absent() {
    let line = "{\"level\":30,\"time\":null,\"pid\":null,\"hostname\":null,\"name\":null,\"data\":null}";
    let record = compact(line);
    assert_eq!(record.msg, "");
    assert_eq!(record.date, LogTime::Now);
    let line = "{\"level\":30,\"data\":{\"req\":null,\"body\":null,\"name\":null,\"httpCode\":null}}";
    assert_eq!(compact(line).msg, "");
    assert_eq!(compact(line).extra, None);
}

#[test]
fn every_member_of_data_is_optional() {
    assert_eq!(compact("{\"level\":30,\"data\":{}}").msg, "");
    assert_eq!(compact("{\"level\":30,\"data\":{\"name\":\"Oops\"}}").msg, " - Responding with error Oops");
}

#[test]
fn pid_bounds_are_those_of_i32() {
    assert!(StandardLog::from_line("{\"level\":30,\"pid\":2147483647}").is_some());
    assert!(StandardLog::from_line("{\"level\":30,\"pid\":-2147483648}").is_some());
    assert!(StandardLog::from_line("{\"level\":30,\"pid\":-2147483649}").is_none());
}

#[test]
fn compact_puts_the_parts_in_order() {
    let line = "{\"level\":50,\"msg\":\"GET /users\",\"data\":{\"context\":{},\"name\":\"NotFound\",\
                \"httpCode\":404,\"req\":{\"url\":\"/users?x=1\"},\"body\":{\"ok\":false}}}";
    let record = compact(line);
    assert_eq!(
        record.msg,
        " - Responding with error NotFound - HTTP code 404 - /users?x=1 - GET /users - Responding with"
    );
    assert_eq!(record.extra, Some(vec![("ok".to_string(), Value::Bool(false))]));
    assert_eq!(record.color_overwrite, None);
}

#[test]
fn detailed_labels_the_nested_objects() {
    let line = "{\"level\":50,\"msg\":\"GET /users\",\"data\":{\"internalContext\":{\"id\":7},\
                \"name\":\"NotFound\",\"httpCode\":404,\"req\":{\"url\":\"/users?x=1\"},\"body\":{\"ok\":false}}}";
    let record = detailed(line);
    assert_eq!(
        record.msg,
        " - Responding with error NotFound - HTTP code 404 - /users?x=1 - GET /users"
    );
    assert_eq!(
        record.extra,
        Some(vec![
            ("internalContext".to_string(), value("{\"id\":7}")),
            ("req".to_string(), value("{\"url\":\"/users?x=1\"}")),
            ("dataBody".to_string(), value("{\"ok\":false}")),
        ])
    );
}

#[test]
fn detailed_shows_only_the_objects_that_are_there() {
    let record = detailed("{\"level\":30,\"data\":{\"body\":{\"a\":1,\"b\":[2]}}}");
    assert_eq!(record.msg, "");
    assert_eq!(record.extra, Some(vec![("dataBody".to_string(), value("{\"a\":1,\"b\":[2]}"))]));
    let record = detailed("{\"level\":30,\"data\":{\"err\":{\"a\":1},\"context\":{\"b\":2}}}");
    assert_eq!(record.extra, None);
}

#[test]
fn compact_takes_the_body_as_payload() {
    let record = compact("{\"level\":30,\"data\":{\"body\":{\"b\":[2],\"a\":1}}}");
    assert_eq!(record.msg, " - Responding with");
    assert_eq!(
        record.extra,
        Some(vec![("a".to_string(), value("1")), ("b".to_string(), value("[2]"))])
    );
}

#[test]
fn empty_body_is_still_a_payload() {
    let record = compact("{\"level\":30,\"data\":{\"body\":{}}}");
    assert_eq!(record.msg, " - Responding with");
    assert_eq!(record.extra, Some(vec![]));
    let record = detailed("{\"level\":30,\"data\":{\"body\":{}}}");
    assert_eq!(record.extra, Some(vec![("dataBody".to_string(), value("{}"))]));
}

#[test]
fn url_that_is_no_string_leaves_the_dash() {
    assert_eq!(compact("{\"level\":30,\"data\":{\"req\":{\"url\":5}}}").msg, " - ");
    assert_eq!(compact("{\"level\":30,\"data\":{\"req\":{\"url\":null}}}").msg, " - ");
    assert_eq!(compact("{\"level\":30,\"data\":{\"req\":{\"method\":\"GET\"}}}").msg, "");
}

#[test]
fn message_object_is_written_out_indented() {
    let record = compact("{\"level\":30,\"msg\":{\"a\":1}}");
    assert_eq!(record.msg, "{\n  \"a\": 1\n}");
    let record = detailed("{\"level\":30,\"msg\":{\"b\":\"x\",\"a\":[1,2]}}");
    assert_eq!(record.msg, "{\n  \"a\": [\n    1,\n    2\n  ],\n  \"b\": \"x\"\n}");
}

#[test]
fn message_of_another_form_is_left_out() {
    assert_eq!(compact("{\"level\":30,\"msg\":5}").msg, "");
    assert_eq!(compact("{\"level\":30,\"msg\":null}").msg, "");
    assert_eq!(compact("{\"level\":30,\"msg\":[\"a\"]}").msg, "");
}

#[test]
fn http_code_is_written_in_decimal() {
    assert_eq!(compact("{\"level\":30,\"data\":{\"httpCode\":0}}").msg, " - HTTP code 0");
    assert_eq!(compact("{\"level\":30,\"data\":{\"httpCode\":-5}}").msg, " - HTTP code -5");
    assert_eq!(
        compact("{\"level\":30,\"data\":{\"httpCode\":2147483647}}").msg,
        " - HTTP code 2147483647"
    );
    assert_eq!(
        compact("{\"level\":30,\"data\":{\"httpCode\":-2147483648}}").msg,
        " - HTTP code -2147483648"
    );
}

#[test]
fn decimal_writes_integers() {
    assert_eq!(decimal(0), "0");
    assert_eq!(decimal(7), "7");
    assert_eq!(decimal(10), "10");
    assert_eq!(decimal(404), "404");
    assert_eq!(decimal(-1), "-1");
    assert_eq!(decimal(1234567890), "1234567890");
    assert_eq!(decimal(i32::MAX), "2147483647");
    assert_eq!(decimal(i32::MIN), "-2147483648");
}

#[test]
fn time_in_milliseconds_gives_the_second() {
    assert_eq!(compact("{\"level\":30,\"time\":1431648000123}").date, LogTime::At(1431648000));
    assert_eq!(detailed("{\"level\":30,\"time\":999}").date, LogTime::At(0));
    assert_eq!(detailed("{\"level\":30,\"time\":0}").date, LogTime::At(0));
}

#[test]
fn time_beyond_the_calendar_gives_the_present() {
    assert_eq!(compact("{\"level\":30,\"time\":18446744073709551615}").date, LogTime::Now);
    assert_eq!(moment(Some(8_210_266_876_799_999)), LogTime::At(LAST_SECOND));
    assert_eq!(moment(Some(8_210_266_876_800_000)), LogTime::Now);
    assert_eq!(moment(None), LogTime::Now);
}

#[test]
fn last_second_is_the_end_of_the_calendar() {
    assert_eq!(LAST_SECOND, 8_210_266_876_799);
    assert!(chrono::DateTime::from_timestamp(LAST_SECOND, 0).is_some());
    assert!(chrono::DateTime::from_timestamp(LAST_SECOND + 1, 0).is_none());
}

#[test]
fn standard_line_from_a_value() {
    assert!(StandardLog::from_value(&value("{\"level\":30}")).is_some());
    assert!(StandardLog::from_value(&value("{\"sql\":\"select 1\"}")).is_none());
    assert!(StandardLog::from_value(&Value::Null).is_none());
}

#[test]
fn plain_members_are_kept() {
    let line = "{\"level\":40,\"time\":1700000000000,\"pid\":4242,\"hostname\":\"box\",\"name\":\"api\"}";
    let log = StandardLog::from_line(line).unwrap();
    assert_eq!(log.level().whole(), Some(40));
    assert_eq!(log.time(), Some(1700000000000));
    assert_eq!(log.pid(), Some(4242));
    assert_eq!(log.hostname(), &Some("box".to_string()));
    assert_eq!(log.name(), &Some("api".to_string()));
    let log = StandardLog::from_line("{\"level\":0}").unwrap();
    assert_eq!(log.level().whole(), Some(0));
    assert_eq!(log.time(), None);
    assert_eq!(log.pid(), None);
    assert_eq!(log.hostname(), &None);
    assert_eq!(log.name(), &None);
}

#[test]
fn name_of_the_line_is_not_the_name_of_the_error() {
    let line = "{\"level\":30,\"name\":\"api\",\"data\":{\"name\":\"Timeout\"}}";
    assert_eq!(compact(line).msg, " - Responding with error Timeout");
    assert_eq!(compact("{\"level\":30,\"name\":\"api\"}").msg, "");
}

#[test]
fn status_code_is_read_and_not_shown() {
    assert_eq!(compact("{\"level\":30,\"data\":{\"statusCode\":500}}").msg, "");
    assert!(StandardLog::from_line("{\"level\":30,\"data\":{\"statusCode\":\"500\"}}").is_none());
}

#[test]
fn plain_message_comes_before_nothing_else_of_the_message() {
    let line = "{\"level\":30,\"msg\":\"\"}";
    assert_eq!(compact(line).msg, " - ");
}

#[test]
fn known_second_is_shown_as_it_is() {
    assert_eq!(LogTime::At(1431648000).second(), 1431648000);
    assert_eq!(LogTime::At(0).second(), 0);
    assert_eq!(LogTime::At(5).at(9), 5);
    assert_eq!(LogTime::Now.at(9), 9);
}

#[test]
fn present_is_read_from_the_clock() {
    let before = chrono::Utc::now().timestamp();
    let shown = LogTime::Now.second();
    let after = chrono::Utc::now().timestamp();
    assert!(before <= shown && shown <= after);
}
