use vstd::prelude::*;
use crate::clock::{ClockInstant, now_local};
use crate::duration::{WaitDuration, fmt_hms_chars, format_clock};
use crate::errors::EggError;
use crate::fields::{FieldSet, field_num, field_num_ok, get_number};
use crate::grammar::{
    abs_hours, abs_matches, abs_minutes, abs_seconds, hm_hours, hm_matches, hm_minutes, hms_hours,
    hms_matches, hms_minutes, hms_seconds, match_absolute, match_relative_hm, match_relative_hms,
    match_relative_ms, ms_matches, ms_minutes, ms_seconds,
};

verus! {

/// The time-expression dialects, in their fixed precedence order.
#[derive(Clone, Copy, PartialEq, Eq, Structural, Debug)]
pub enum Dialect {
    Absolute,
    RelativeHms,
    RelativeHm,
    RelativeMs,
}

/// The dialect an expression is resolved through: the first of the four
/// grammars, in precedence order, that matches the whole string.
pub open spec fn classify(s: Seq<char>) -> Option<Dialect> {
    if abs_matches(s) {
        Some(Dialect::Absolute)
    } else if hms_matches(s) {
        Some(Dialect::RelativeHms)
    } else if hm_matches(s) {
        Some(Dialect::RelativeHm)
    } else if ms_matches(s) {
        Some(Dialect::RelativeMs)
    } else {
        None
    }
}

/// Whether `h:m:s` is a valid wall-clock time of day.
pub open spec fn valid_clock(h: int, m: int, s: int) -> bool {
    0 <= h < 24 && 0 <= m < 60 && 0 <= s < 60
}

/// The clock time `h:m:s` as nanoseconds since midnight.
pub open spec fn clock_nanos(h: int, m: int, s: int) -> int {
    (h * 3600 + m * 60 + s) * 1_000_000_000
}

/// What resolving the absolute dialect returns for the numeric fields
/// `h:m:s` against the clock reading `now`: `InvalidTimeFormat` when the
/// fields are no clock time, `TimeAlreadyPassed` when the target does not lie
/// at least one whole second ahead, and otherwise exactly the remaining time.
pub open spec fn abs_wait_post(
    h: int,
    m: int,
    s: int,
    now: ClockInstant,
    r: Result<WaitDuration, EggError>,
) -> bool {
    if !valid_clock(h, m, s) {
        r matches Err(e) && e matches EggError::InvalidTimeFormat(t) && t@ == fmt_hms_chars(
            h as nat,
            m as nat,
            s as nat,
        )
    } else if clock_nanos(h, m, s) - now.total_nanos() < 1_000_000_000 {
        r matches Err(e) && e matches EggError::TimeAlreadyPassed(t) && t@ == fmt_hms_chars(
            h as nat,
            m as nat,
            s as nat,
        )
    } else {
        r matches Ok(d) && d.wf() && d.total_nanos() == clock_nanos(h, m, s) - now.total_nanos()
    }
}

/// Resolves the absolute dialect's numeric fields against the clock reading
/// `now`. A target equal to `now`, or less than one whole second ahead, is
/// treated as already passed, never as a zero wait.
pub fn absolute_wait(hours: u32, minutes: u32, seconds: u32, now: ClockInstant) -> (r: Result<
    WaitDuration,
    EggError,
>)
    requires
        now.wf(),
    ensures
        abs_wait_post(hours as int, minutes as int, seconds as int, now, r),
{
    if !(hours < 24 && minutes < 60 && seconds < 60) {
        return Err(EggError::InvalidTimeFormat(format_clock(hours, minutes, seconds)));
    }
    let target: u64 = (hours as u64 * 3600 + minutes as u64 * 60 + seconds as u64) * 1_000_000_000;
    let now_ns: u64 = now.sec_of_day as u64 * 1_000_000_000 + now.nano as u64;
    if target >= now_ns + 1_000_000_000 {
        let diff = target - now_ns;
        Ok(WaitDuration { secs: diff / 1_000_000_000, nanos: (diff % 1_000_000_000) as u32 })
    } else {
        Err(EggError::TimeAlreadyPassed(format_clock(hours, minutes, seconds)))
    }
}

/// What resolving a relative dialect returns for its captured fields: the
/// exact component sum in whole seconds when every present field is a
/// `u32`-sized digit string, and otherwise `InvalidParameters` carrying the
/// first offending field (hours, then minutes, then seconds).
pub open spec fn rel_wait_post(
    h: Option<Seq<char>>,
    m: Option<Seq<char>>,
    s: Option<Seq<char>>,
    r: Result<WaitDuration, EggError>,
) -> bool {
    if field_num_ok(h) && field_num_ok(m) && field_num_ok(s) {
        r matches Ok(d) && d.nanos == 0 && d.secs as int == field_num(h) * 3600 + field_num(m)
            * 60 + field_num(s)
    } else {
        r matches Err(e) && e matches EggError::InvalidParameters(t) && Some(t@) == (if !field_num_ok(
            h,
        ) {
            h
        } else if !field_num_ok(m) {
            m
        } else {
            s
        })
    }
}

/// What resolving the absolute dialect returns for its captured fields: as
/// `abs_wait_post` over the fields' numeric values once they are read, and
/// `InvalidParameters` on a field that is no `u32`-sized digit string.
pub open spec fn abs_fields_post(
    h: Option<Seq<char>>,
    m: Option<Seq<char>>,
    s: Option<Seq<char>>,
    now: ClockInstant,
    r: Result<WaitDuration, EggError>,
) -> bool {
    if field_num_ok(h) && field_num_ok(m) && field_num_ok(s) {
        abs_wait_post(field_num(h), field_num(m), field_num(s), now, r)
    } else {
        r matches Err(e) && e matches EggError::InvalidParameters(t) && Some(t@) == (if !field_num_ok(
            h,
        ) {
            h
        } else if !field_num_ok(m) {
            m
        } else {
            s
        })
    }
}

/// Resolves the absolute dialect's captures against the clock reading `now`.
pub fn duration_from_absolute(captures: &FieldSet, now: ClockInstant) -> (r: Result<
    WaitDuration,
    EggError,
>)
    requires
        now.wf(),
    ensures
        abs_fields_post(
            captures.hours_view(),
            captures.minutes_view(),
            captures.seconds_view(),
            now,
            r,
        ),
{
    let hours = match get_number(&captures.hours) {
        Ok(v) => v,
        Err(e) => return Err(e),
    };
    let minutes = match get_number(&captures.minutes) {
        Ok(v) => v,
        Err(e) => return Err(e),
    };
    let seconds = match get_number(&captures.seconds) {
        Ok(v) => v,
        Err(e) => return Err(e),
    };
    absolute_wait(hours, minutes, seconds, now)
}

/// Resolves the `[Nh][Nm][Ns]` dialect's captures: the component sum in
/// whole seconds, absent components counting as zero.
pub fn duration_from_relative(captures: &FieldSet) -> (r: Result<WaitDuration, EggError>)
    ensures
        rel_wait_post(
            captures.hours_view(),
            captures.minutes_view(),
            captures.seconds_view(),
            r,
        ),
{
    let hours = match get_number(&captures.hours) {
        Ok(v) => v,
        Err(e) => return Err(e),
    };
    let minutes = match get_number(&captures.minutes) {
        Ok(v) => v,
        Err(e) => return Err(e),
    };
    let seconds = match get_number(&captures.seconds) {
        Ok(v) => v,
        Err(e) => return Err(e),
    };
    Ok(WaitDuration { secs: hours as u64 * 3600 + minutes as u64 * 60 + seconds as u64, nanos: 0 })
}

/// Resolves the `[Nh][N['m'...]]` dialect's captures, which carry no seconds.
pub fn duration_from_hm_relative(captures: &FieldSet) -> (r: Result<WaitDuration, EggError>)
    ensures
        rel_wait_post(captures.hours_view(), captures.minutes_view(), None, r),
{
    let hours = match get_number(&captures.hours) {
        Ok(v) => v,
        Err(e) => return Err(e),
    };
    let minutes = match get_number(&captures.minutes) {
        Ok(v) => v,
        Err(e) => return Err(e),
    };
    Ok(WaitDuration { secs: hours as u64 * 3600 + minutes as u64 * 60, nanos: 0 })
}

/// Resolves the `[Nm][N['s'...]]` dialect's captures, which carry no hours.
pub fn duration_from_ms_relative(captures: &FieldSet) -> (r: Result<WaitDuration, EggError>)
    ensures
        rel_wait_post(None, captures.minutes_view(), captures.seconds_view(), r),
{
    let minutes = match get_number(&captures.minutes) {
        Ok(v) => v,
        Err(e) => return Err(e),
    };
    let seconds = match get_number(&captures.seconds) {
        Ok(v) => v,
        Err(e) => return Err(e),
    };
    Ok(WaitDuration { secs: minutes as u64 * 60 + seconds as u64, nanos: 0 })
}

/// What resolving a whole consolidated expression returns: the first grammar
/// to match, in the order absolute, `[Nh][Nm][Ns]`, `[Nh][Nm]`, `[Nm][Ns]`,
/// decides the result; an expression matching none of them is rejected as
/// `InvalidParameters` carrying the expression verbatim.
pub open spec fn resolve_post(
    s: Seq<char>,
    now: ClockInstant,
    r: Result<WaitDuration, EggError>,
) -> bool {
    if abs_matches(s) {
        abs_fields_post(Some(abs_hours(s)), Some(abs_minutes(s)), abs_seconds(s), now, r)
    } else if hms_matches(s) {
        rel_wait_post(hms_hours(s), hms_minutes(s), hms_seconds(s), r)
    } else if hm_matches(s) {
        rel_wait_post(hm_hours(s), hm_minutes(s), None, r)
    } else if ms_matches(s) {
        rel_wait_post(None, ms_minutes(s), ms_seconds(s), r)
    } else {
        r matches Err(e) && e matches EggError::InvalidParameters(t) && t@ == s
    }
}

/// Classifies a consolidated expression against the dialects in precedence
/// order and resolves it through the first match, using the clock reading
/// `now` for the absolute dialect.
pub fn resolve_expression(expression: &str, now: ClockInstant) -> (r: Result<
    WaitDuration,
    EggError,
>)
    requires
        now.wf(),
    ensures
        resolve_post(expression@, now, r),
{
    if let Some(captures) = match_absolute(expression) {
        duration_from_absolute(&captures, now)
    } else if let Some(captures) = match_relative_hms(expression) {
        duration_from_relative(&captures)
    } else if let Some(captures) = match_relative_hm(expression) {
        duration_from_hm_relative(&captures)
    } else if let Some(captures) = match_relative_ms(expression) {
        duration_from_ms_relative(&captures)
    } else {
        Err(EggError::InvalidParameters(expression.to_owned()))
    }
}

/// The characters of the command-line arguments joined with no separator.
pub open spec fn concat_args(args: Seq<String>) -> Seq<char>
    decreases args.len(),
{
    if args.len() == 0 {
        Seq::empty()
    } else {
        concat_args(args.drop_last()) + args.last()@
    }
}

/// Joins the command-line arguments into the one consolidated expression.
pub fn consolidate_command_line(args: Vec<String>) -> (r: String)
    ensures
        r@ == concat_args(args@),
{
    let mut time_definition = String::new();
    let mut i: usize = 0;
    while i < args.len()
        invariant
            i <= args.len(),
            time_definition@ == concat_args(args@.subrange(0, i as int)),
        decreases args.len() - i,
    {
        let arg = &args[i];
        time_definition.append(arg.as_str());
        proof {
            assert(args@.subrange(0, i as int + 1).drop_last() =~= args@.subrange(0, i as int));
            assert(args@.subrange(0, i as int + 1).last() == args@[i as int]);
            assert(time_definition@ =~= concat_args(args@.subrange(0, i as int + 1)));
        }
        i = i + 1;
    }
    proof {
        assert(args@.subrange(0, args@.len() as int) =~= args@);
    }
    time_definition
}

/// What a whole command line resolves to: no arguments at all mean a
/// zero-length wait with no grammar consulted; otherwise the arguments are
/// consolidated and resolved as one expression.
pub open spec fn cmdline_post(
    args: Seq<String>,
    now: ClockInstant,
    r: Result<WaitDuration, EggError>,
) -> bool {
    if args.len() == 0 {
        r matches Ok(d) && d.total_nanos() == 0
    } else {
        resolve_post(concat_args(args), now, r)
    }
}

/// Resolves the command-line arguments (the program name excluded) against
/// the clock reading `now`.
pub fn resolve_wait(args: Vec<String>, now: ClockInstant) -> (r: Result<WaitDuration, EggError>)
    requires
        now.wf(),
    ensures
        cmdline_post(args@, now, r),
{
    if args.len() == 0 {
        Ok(WaitDuration::zero())
    } else {
        let time_definition = consolidate_command_line(args);
        resolve_expression(time_definition.as_str(), now)
    }
}

/// Resolves the command-line arguments against the clock read now. The
/// result is what `resolve_wait` gives for some well-formed clock reading:
/// no more can be said of a wait measured against the wall clock.
pub fn process_command_line(args: Vec<String>) -> (r: Result<WaitDuration, EggError>)
    ensures
        exists|now: ClockInstant| now.wf() && cmdline_post(args@, now, r),
{
    let now = now_local();
    let r = resolve_wait(args, now);
    proof {
        assert(now.wf() && cmdline_post(args@, now, r));
    }
    r
}

} // verus!
