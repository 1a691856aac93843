use egg::clock::ClockInstant;
use egg::duration::WaitDuration;
use egg::errors::EggError;
use egg::grammar::match_absolute;
use egg::resolve::{
    absolute_wait, consolidate_command_line, duration_from_absolute, process_command_line,
    resolve_expression, resolve_wait,
};

#[test]
fn test_absolute_error_handling() {
    let caps = match_absolute("19:99:23").unwrap();
    duration_from_absolute(&caps, ClockInstant::from_hms(0, 0, 0)).unwrap_err();
}

#[test]
fn absolute_future_time_resolves_to_remaining_wait() {
    let now = ClockInstant::from_hms(19, 29, 0);
    let d = resolve_expression("19:30:00", now).unwrap();
    assert_eq!(d, WaitDuration { secs: 60, nanos: 0 });
}

#[test]
fn absolute_without_seconds_defaults_them_to_zero() {
    let caps = match_absolute("22:59").unwrap();
    assert!(caps.seconds.is_none());
    let now = ClockInstant::from_hms(22, 0, 0);
    let d = resolve_expression("22:59", now).unwrap();
    assert_eq!(d, WaitDuration { secs: 59 * 60, nanos: 0 });
}

#[test]
fn absolute_keeps_the_subsecond_remainder() {
    let now = ClockInstant { sec_of_day: 19 * 3600 + 29 * 60, nano: 250_000_000 };
    let d = resolve_expression("19:30:00", now).unwrap();
    assert_eq!(d, WaitDuration { secs: 59, nanos: 750_000_000 });
}

#[test]
fn absolute_time_equal_to_now_already_passed() {
    let now = ClockInstant::from_hms(12, 0, 0);
    let e = resolve_expression("12:00:00", now).unwrap_err();
    assert!(matches!(&e, EggError::TimeAlreadyPassed(t) if t.as_str() == "12:00:00"));
}

#[test]
fn absolute_time_before_now_already_passed() {
    let now = ClockInstant::from_hms(12, 0, 0);
    let e = resolve_expression("00:30", now).unwrap_err();
    assert!(matches!(&e, EggError::TimeAlreadyPassed(t) if t.as_str() == "00:30:00"));
}

#[test]
fn absolute_less_than_one_second_ahead_already_passed() {
    let now = ClockInstant { sec_of_day: 12 * 3600 - 1, nano: 1 };
    let e = resolve_expression("12:00:00", now).unwrap_err();
    assert!(matches!(&e, EggError::TimeAlreadyPassed(t) if t.as_str() == "12:00:00"));
}

#[test]
fn absolute_exactly_one_second_ahead_succeeds() {
    let now = ClockInstant::from_hms(11, 59, 59);
    let d = resolve_expression("12:00:00", now).unwrap();
    assert_eq!(d, WaitDuration { secs: 1, nanos: 0 });
}

#[test]
fn absolute_minutes_out_of_range_is_invalid_format() {
    let now = ClockInstant::from_hms(0, 0, 0);
    let e = resolve_expression("19:99:23", now).unwrap_err();
    assert!(matches!(&e, EggError::InvalidTimeFormat(t) if t.as_str() == "19:99:23"));
}

#[test]
fn absolute_seconds_out_of_range_is_invalid_format() {
    let now = ClockInstant::from_hms(0, 0, 0);
    let e = resolve_expression("19:09:61", now).unwrap_err();
    assert!(matches!(&e, EggError::InvalidTimeFormat(t) if t.as_str() == "19:09:61"));
}

#[test]
fn absolute_hours_out_of_range_is_invalid_format() {
    let now = ClockInstant::from_hms(0, 0, 0);
    let e = resolve_expression("24:00", now).unwrap_err();
    assert!(matches!(&e, EggError::InvalidTimeFormat(t) if t.as_str() == "24:00:00"));
}

#[test]
fn absolute_error_text_keeps_wide_fields_unpadded() {
    let e = absolute_wait(99, 5, 0, ClockInstant::from_hms(0, 0, 0)).unwrap_err();
    assert!(matches!(&e, EggError::InvalidTimeFormat(t) if t.as_str() == "99:05:00"));
}

#[test]
fn relative_sum_ignores_the_clock() {
    for now in [ClockInstant::from_hms(0, 0, 1), ClockInstant::from_hms(23, 59, 59)] {
        let d = resolve_expression("5m49s", now).unwrap();
        assert_eq!(d, WaitDuration { secs: 349, nanos: 0 });
    }
}

#[test]
fn relative_hours_alone() {
    let now = ClockInstant::from_hms(3, 4, 5);
    let d = resolve_expression("1h", now).unwrap();
    assert_eq!(d, WaitDuration { secs: 3600, nanos: 0 });
}

#[test]
fn relative_all_components() {
    let now = ClockInstant::from_hms(3, 4, 5);
    let d = resolve_expression("2h15m30s", now).unwrap();
    assert_eq!(d, WaitDuration { secs: 2 * 3600 + 15 * 60 + 30, nanos: 0 });
}

#[test]
fn hms_wins_over_hm_on_a_string_both_accept() {
    let now = ClockInstant::from_hms(3, 4, 5);
    let d = resolve_expression("1h5m", now).unwrap();
    assert_eq!(d, WaitDuration { secs: 3900, nanos: 0 });
}

#[test]
fn hm_dialect_reads_bare_trailing_minutes() {
    let now = ClockInstant::from_hms(3, 4, 5);
    let d = resolve_expression("10h5", now).unwrap();
    assert_eq!(d, WaitDuration { secs: 10 * 3600 + 5 * 60, nanos: 0 });
}

#[test]
fn ms_dialect_reads_bare_trailing_seconds() {
    let now = ClockInstant::from_hms(3, 4, 5);
    let d = resolve_expression("19m3", now).unwrap();
    assert_eq!(d, WaitDuration { secs: 19 * 60 + 3, nanos: 0 });
}

#[test]
fn unmatched_expression_is_invalid_parameters() {
    let now = ClockInstant::from_hms(3, 4, 5);
    let e = resolve_expression("not-a-time", now).unwrap_err();
    assert!(matches!(&e, EggError::InvalidParameters(t) if t.as_str() == "not-a-time"));
}

#[test]
fn oversized_component_is_invalid_parameters() {
    let now = ClockInstant::from_hms(3, 4, 5);
    let d = resolve_expression("4294967295h", now).unwrap();
    assert_eq!(d, WaitDuration { secs: 4294967295 * 3600, nanos: 0 });
    let e = resolve_expression("4294967296h", now).unwrap_err();
    assert!(matches!(&e, EggError::InvalidParameters(t) if t.as_str() == "4294967296"));
}

#[test]
fn consolidation_concatenates_without_separators() {
    let args = vec!["19:".to_string(), "30".to_string()];
    assert_eq!(consolidate_command_line(args), "19:30");
}

#[test]
fn split_arguments_resolve_as_one_expression() {
    let now = ClockInstant::from_hms(19, 0, 0);
    let args = vec!["19:".to_string(), "30".to_string()];
    let d = resolve_wait(args, now).unwrap();
    assert_eq!(d, WaitDuration { secs: 30 * 60, nanos: 0 });
}

#[test]
fn no_arguments_resolve_to_zero_wait() {
    let now = ClockInstant::from_hms(23, 59, 59);
    let d = resolve_wait(Vec::new(), now).unwrap();
    assert_eq!(d, WaitDuration { secs: 0, nanos: 0 });
}

#[test]
fn no_arguments_resolve_to_zero_wait_on_the_real_clock() {
    let d = process_command_line(Vec::new()).unwrap();
    assert_eq!(d, WaitDuration { secs: 0, nanos: 0 });
}

#[test]
fn empty_expression_is_a_zero_relative_wait() {
    let now = ClockInstant::from_hms(3, 4, 5);
    let d = resolve_wait(vec![String::new()], now).unwrap();
    assert_eq!(d, WaitDuration { secs: 0, nanos: 0 });
}
