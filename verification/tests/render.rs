use egg::alert::{select_alert_source, AlertSource};
use egg::countdown::{Countdown, CountdownState};
use egg::duration::{format_duration, WaitDuration};
use egg::fields::{get_number, parse_u32};

#[test]
fn format_pads_every_field_to_two_digits() {
    assert_eq!(format_duration(WaitDuration { secs: 0, nanos: 0 }), "00:00:00");
    assert_eq!(format_duration(WaitDuration { secs: 3661, nanos: 0 }), "01:01:01");
    assert_eq!(format_duration(WaitDuration { secs: 59 * 60 + 59, nanos: 0 }), "00:59:59");
}

#[test]
fn format_truncates_the_subsecond_remainder() {
    assert_eq!(format_duration(WaitDuration { secs: 59, nanos: 999_999_999 }), "00:00:59");
}

#[test]
fn format_does_not_wrap_hours() {
    assert_eq!(format_duration(WaitDuration { secs: 100 * 3600, nanos: 0 }), "100:00:00");
}

#[test]
fn countdown_renders_remaining_then_goes_silent() {
    let mut c = Countdown::new(WaitDuration { secs: 10, nanos: 0 });
    assert_eq!(c.state, CountdownState::Running);
    let line = c.tick(WaitDuration { secs: 3, nanos: 0 });
    assert_eq!(line.as_deref(), Some("00:00:07"));
    assert_eq!(c.state, CountdownState::Running);
    assert!(c.tick(WaitDuration { secs: 10, nanos: 0 }).is_none());
    assert_eq!(c.state, CountdownState::Done);
    assert!(c.tick(WaitDuration { secs: 2, nanos: 0 }).is_none());
    assert_eq!(c.state, CountdownState::Done);
}

#[test]
fn countdown_rounds_partial_seconds_down() {
    let mut c = Countdown::new(WaitDuration { secs: 10, nanos: 0 });
    let line = c.tick(WaitDuration { secs: 3, nanos: 500_000_000 });
    assert_eq!(line.as_deref(), Some("00:00:06"));
}

#[test]
fn countdown_done_exactly_at_target() {
    let mut c = Countdown::new(WaitDuration { secs: 5, nanos: 0 });
    assert!(c.tick(WaitDuration { secs: 5, nanos: 0 }).is_none());
    assert_eq!(c.state, CountdownState::Done);
}

#[test]
fn alert_override_names_the_file() {
    let chosen = select_alert_source(Some("/tmp/ding.wav".to_string()));
    assert!(matches!(&chosen, AlertSource::External(p) if p.as_str() == "/tmp/ding.wav"));
}

#[test]
fn alert_without_override_is_embedded() {
    assert!(matches!(select_alert_source(None), AlertSource::Embedded));
}

#[test]
fn numbers_default_to_zero_when_absent() {
    assert_eq!(get_number(&None).unwrap(), 0);
    assert_eq!(get_number(&Some("42".to_string())).unwrap(), 42);
}

#[test]
fn numbers_at_the_u32_boundary() {
    assert_eq!(parse_u32("4294967295"), Some(4294967295));
    assert_eq!(parse_u32("4294967296"), None);
    assert_eq!(parse_u32(""), None);
    assert_eq!(parse_u32("12a"), None);
}
