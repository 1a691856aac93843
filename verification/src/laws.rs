use vstd::prelude::*;
use crate::clock::ClockInstant;
use crate::duration::{WaitDuration, fmt_hms_chars};
use crate::errors::EggError;
use crate::fields::{
    all_digits, digits_value, field_num, field_num_ok, is_digit_char, lemma_two_digit_value,
};
use crate::grammar::{
    abs_hours, abs_matches, abs_minutes, abs_seconds, hm_matches, hms_hours,
    hms_matches, hms_minutes, hms_seconds, lemma_hms_excludes_absolute,
};
use crate::resolve::{
    Dialect, classify, clock_nanos, resolve_post, valid_clock,
};

verus! {

/// The numeric value of an absolute expression's hours field.
pub open spec fn abs_h(s: Seq<char>) -> int {
    digits_value(abs_hours(s))
}

/// The numeric value of an absolute expression's minutes field.
pub open spec fn abs_m(s: Seq<char>) -> int {
    digits_value(abs_minutes(s))
}

/// The numeric value of an absolute expression's seconds field (zero when
/// the field is absent).
pub open spec fn abs_s(s: Seq<char>) -> int {
    field_num(abs_seconds(s))
}

/// The fields of an absolute match are two-digit strings, so each reads as a
/// number between 0 and 99.
pub proof fn lemma_abs_fields_ok(s: Seq<char>)
    requires
        abs_matches(s),
    ensures
        field_num_ok(Some(abs_hours(s))),
        field_num_ok(Some(abs_minutes(s))),
        field_num_ok(abs_seconds(s)),
        0 <= abs_h(s) <= 99,
        0 <= abs_m(s) <= 99,
        0 <= abs_s(s) <= 99,
{
    assert forall|i: int| 0 <= i < abs_hours(s).len() implies is_digit_char(
        abs_hours(s)[i],
    ) by {
        assert(abs_hours(s)[i] == s[i]);
    }
    assert forall|i: int| 0 <= i < abs_minutes(s).len() implies is_digit_char(
        abs_minutes(s)[i],
    ) by {
        assert(abs_minutes(s)[i] == s[3 + i]);
    }
    lemma_two_digit_value(abs_hours(s));
    lemma_two_digit_value(abs_minutes(s));
    if s.len() == 8 {
        let sec = abs_seconds(s)->Some_0;
        assert forall|i: int| 0 <= i < sec.len() implies is_digit_char(sec[i]) by {
            assert(sec[i] == s[6 + i]);
        }
        lemma_two_digit_value(sec);
    }
}

/// Every absolute `HH:MM` or `HH:MM:SS` expression naming a valid clock time
/// that lies at least one whole second past `now` resolves to a success, and
/// the wait is exactly the remaining time `target - now`.
pub proof fn lemma_absolute_future_succeeds(
    s: Seq<char>,
    now: ClockInstant,
    r: Result<WaitDuration, EggError>,
)
    requires
        now.wf(),
        abs_matches(s),
        valid_clock(abs_h(s), abs_m(s), abs_s(s)),
        clock_nanos(abs_h(s), abs_m(s), abs_s(s)) - now.total_nanos() >= 1_000_000_000,
        resolve_post(s, now, r),
    ensures
        r matches Ok(d) && d.wf() && d.total_nanos() == clock_nanos(abs_h(s), abs_m(s), abs_s(s))
            - now.total_nanos(),
{
    lemma_abs_fields_ok(s);
}

/// Every absolute `HH:MM` or `HH:MM:SS` expression naming a valid clock time
/// at or before `now` (closer than one whole second ahead) is rejected as
/// `TimeAlreadyPassed`.
pub proof fn lemma_absolute_passed_rejected(
    s: Seq<char>,
    now: ClockInstant,
    r: Result<WaitDuration, EggError>,
)
    requires
        now.wf(),
        abs_matches(s),
        valid_clock(abs_h(s), abs_m(s), abs_s(s)),
        clock_nanos(abs_h(s), abs_m(s), abs_s(s)) - now.total_nanos() < 1_000_000_000,
        resolve_post(s, now, r),
    ensures
        r matches Err(e) && e matches EggError::TimeAlreadyPassed(t) && t@ == fmt_hms_chars(
            abs_h(s) as nat,
            abs_m(s) as nat,
            abs_s(s) as nat,
        ),
{
    lemma_abs_fields_ok(s);
}

/// An absolute expression whose minutes or seconds field reaches 60 (or
/// whose hours field reaches 24) is rejected as `InvalidTimeFormat`.
pub proof fn lemma_absolute_bad_clock_rejected(
    s: Seq<char>,
    now: ClockInstant,
    r: Result<WaitDuration, EggError>,
)
    requires
        now.wf(),
        abs_matches(s),
        abs_m(s) >= 60 || abs_s(s) >= 60 || abs_h(s) >= 24,
        resolve_post(s, now, r),
    ensures
        r matches Err(e) && e matches EggError::InvalidTimeFormat(t) && t@ == fmt_hms_chars(
            abs_h(s) as nat,
            abs_m(s) as nat,
            abs_s(s) as nat,
        ),
{
    lemma_abs_fields_ok(s);
}

/// Every `[Nh][Nm][Ns]` expression, any subset of the components present,
/// resolves to exactly `h * 3600 + m * 60 + s` whole seconds, an absent
/// component counting as zero, whatever the clock reads (components too
/// large for a `u32` are the one exception: they are rejected instead).
pub proof fn lemma_relative_component_sum(
    s: Seq<char>,
    now: ClockInstant,
    r: Result<WaitDuration, EggError>,
)
    requires
        hms_matches(s),
        field_num_ok(hms_hours(s)),
        field_num_ok(hms_minutes(s)),
        field_num_ok(hms_seconds(s)),
        resolve_post(s, now, r),
    ensures
        r matches Ok(d) && d.nanos == 0 && d.secs as int == field_num(hms_hours(s)) * 3600
            + field_num(hms_minutes(s)) * 60 + field_num(hms_seconds(s)),
{
    lemma_hms_excludes_absolute(s);
}

/// Dialect precedence: an expression that satisfies both the `[Nh][Nm][Ns]`
/// grammar and the `[Nh][Nm]` grammar is always resolved through the former
/// (the absolute grammar cannot also match, for want of a colon).
pub proof fn lemma_hms_takes_precedence(s: Seq<char>)
    requires
        hms_matches(s),
        hm_matches(s),
    ensures
        classify(s) == Some(Dialect::RelativeHms),
{
    lemma_hms_excludes_absolute(s);
}

/// An expression matching none of the four grammars is rejected as
/// `InvalidParameters` carrying the consolidated expression verbatim.
pub proof fn lemma_unmatched_rejected(
    s: Seq<char>,
    now: ClockInstant,
    r: Result<WaitDuration, EggError>,
)
    requires
        classify(s) is None,
        resolve_post(s, now, r),
    ensures
        r matches Err(e) && e matches EggError::InvalidParameters(t) && t@ == s,
{
}

} // verus!
