use egg::grammar::{match_absolute, match_relative_hm, match_relative_hms, match_relative_ms};

#[test]
fn test_absolute_regex() {
    let caps = match_absolute("19:30:00").unwrap();
    assert_eq!("19", caps.hours.as_deref().unwrap());
    assert_eq!("30", caps.minutes.as_deref().unwrap());
    assert_eq!("00", caps.seconds.as_deref().unwrap());
    let caps = match_absolute("22:59").unwrap();
    assert_eq!("22", caps.hours.as_deref().unwrap());
    assert_eq!("59", caps.minutes.as_deref().unwrap());
    assert!(caps.seconds.is_none());
}

#[test]
fn test_relative_regex() {
    let caps = match_relative_hms("5m49s").unwrap();
    assert!(caps.hours.is_none());
    assert_eq!("5", caps.minutes.as_deref().unwrap());
    assert_eq!("49", caps.seconds.as_deref().unwrap());
    let caps = match_relative_hms("1h").unwrap();
    assert_eq!("1", caps.hours.as_deref().unwrap());
    assert!(caps.minutes.is_none());
    assert!(caps.seconds.is_none());
    let caps = match_relative_hms("6m").unwrap();
    assert!(caps.hours.is_none());
    assert_eq!("6", caps.minutes.as_deref().unwrap());
    assert!(caps.seconds.is_none());
}

#[test]
fn test_hm_regex() {
    let caps = match_relative_hm("10h5").unwrap();
    assert_eq!("10", caps.hours.as_deref().unwrap());
    assert_eq!("5", caps.minutes.as_deref().unwrap());
}

#[test]
fn test_ms_regex() {
    let caps = match_relative_ms("19m3").unwrap();
    assert_eq!("19", caps.minutes.as_deref().unwrap());
    assert_eq!("3", caps.seconds.as_deref().unwrap());
}

#[test]
fn absolute_needs_two_digit_fields() {
    assert!(match_absolute("9:30").is_none());
    assert!(match_absolute("19:30:0").is_none());
    assert!(match_absolute("193000").is_none());
    assert!(match_absolute("19:30:00:00").is_none());
    assert!(match_absolute("ab:cd").is_none());
}

#[test]
fn relative_hms_needs_ordered_suffixes() {
    assert!(match_relative_hms("49s5m").is_none());
    assert!(match_relative_hms("10h5").is_none());
    assert!(match_relative_hms("m").is_none());
    let caps = match_relative_hms("2h15m").unwrap();
    assert_eq!("2", caps.hours.as_deref().unwrap());
    assert_eq!("15", caps.minutes.as_deref().unwrap());
    assert!(caps.seconds.is_none());
}

#[test]
fn relative_empty_components_match_empty_string() {
    let caps = match_relative_hms("").unwrap();
    assert!(caps.hours.is_none());
    assert!(caps.minutes.is_none());
    assert!(caps.seconds.is_none());
}

#[test]
fn hm_allows_repeated_or_missing_suffix() {
    let caps = match_relative_hm("10h5mmm").unwrap();
    assert_eq!("10", caps.hours.as_deref().unwrap());
    assert_eq!("5", caps.minutes.as_deref().unwrap());
    let caps = match_relative_hm("105").unwrap();
    assert!(caps.hours.is_none());
    assert_eq!("105", caps.minutes.as_deref().unwrap());
    assert!(match_relative_hm("10hm").is_none());
}

#[test]
fn ms_allows_repeated_or_missing_suffix() {
    let caps = match_relative_ms("19m3sss").unwrap();
    assert_eq!("19", caps.minutes.as_deref().unwrap());
    assert_eq!("3", caps.seconds.as_deref().unwrap());
    assert!(match_relative_ms("19m3x").is_none());
}
