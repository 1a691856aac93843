use vstd::prelude::*;

verus! {

/// A moment of the local day: whole seconds since midnight plus the
/// nanoseconds since that second began.
#[derive(Clone, Copy, PartialEq, Eq, Structural, Debug)]
pub struct ClockInstant {
    pub sec_of_day: u32,
    pub nano: u32,
}

impl ClockInstant {
    /// Seconds stay within one day; nanoseconds may reach into a second
    /// extra second, which represents a leap second.
    pub open spec fn wf(&self) -> bool {
        self.sec_of_day < 86400 && self.nano < 2_000_000_000
    }

    /// The instant as nanoseconds since the local midnight.
    pub open spec fn total_nanos(&self) -> int {
        self.sec_of_day as int * 1_000_000_000 + self.nano as int
    }

    /// The instant at the whole second `h:m:s` of the day.
    pub fn from_hms(h: u32, m: u32, s: u32) -> (r: ClockInstant)
        requires
            h < 24,
            m < 60,
            s < 60,
        ensures
            r.wf(),
            r.sec_of_day == h * 3600 + m * 60 + s,
            r.nano == 0,
    {
        ClockInstant { sec_of_day: h * 3600 + m * 60 + s, nano: 0 }
    }
}

/// The current local time of day.
///
/// Relies on chrono's `Local::now` and the `Timelike` view of the resulting
/// time: `num_seconds_from_midnight` is always below 86400, and `nanosecond`
/// is always below 2_000_000_000 (values of 1_000_000_000 and above mark a
/// leap second). Nothing more can be promised of a reading of the clock.
#[verifier::external_body]
pub fn now_local() -> (r: ClockInstant)
    ensures
        r.wf(),
{
    let t = chrono::Local::now().time();
    ClockInstant {
        sec_of_day: chrono::Timelike::num_seconds_from_midnight(&t),
        nano: chrono::Timelike::nanosecond(&t),
    }
}

} // verus!
