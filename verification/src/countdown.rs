use vstd::prelude::*;
use crate::duration::{WaitDuration, fmt_duration_chars, format_duration};

verus! {

/// The renderer's two states: counting down, or finished for good.
#[derive(Clone, Copy, PartialEq, Eq, Structural, Debug)]
pub enum CountdownState {
    Running,
    Done,
}

/// The countdown renderer: one "time remaining" line per tick while the
/// elapsed time has not reached the target, then silence.
pub struct Countdown {
    pub target: WaitDuration,
    pub state: CountdownState,
}

impl Countdown {
    pub open spec fn wf(&self) -> bool {
        self.target.wf()
    }

    /// A countdown towards `target`, starting in the running state.
    pub fn new(target: WaitDuration) -> (r: Countdown)
        requires
            target.wf(),
        ensures
            r.wf(),
            r.target == target,
            r.state == CountdownState::Running,
    {
        Countdown { target, state: CountdownState::Running }
    }

    /// One tick, `elapsed` after the wait began. While running and short of
    /// the target it emits the remaining time, rendered as zero-padded
    /// `HH:MM:SS` in whole seconds. Once the elapsed time reaches the target
    /// it moves to `Done`; from then on it emits nothing.
    pub fn tick(&mut self, elapsed: WaitDuration) -> (r: Option<String>)
        requires
            old(self).wf(),
            elapsed.wf(),
        ensures
            final(self).wf(),
            final(self).target == old(self).target,
            old(self).state == CountdownState::Done ==> final(self).state == CountdownState::Done
                && r is None,
            old(self).state == CountdownState::Running && elapsed.total_nanos() < old(
                self,
            ).target.total_nanos() ==> final(self).state == CountdownState::Running && (r matches
            Some(t) && t@ == fmt_duration_chars(
                (((old(self).target.total_nanos() - elapsed.total_nanos()))
                    / 1_000_000_000) as nat,
            )),
            old(self).state == CountdownState::Running && elapsed.total_nanos() >= old(
                self,
            ).target.total_nanos() ==> final(self).state == CountdownState::Done && r is None,
    {
        match self.state {
            CountdownState::Done => None,
            CountdownState::Running => {
                if elapsed.shorter_than(&self.target) {
                    let remaining = self.target.minus(&elapsed);
                    proof {
                        assert(remaining.secs as int == remaining.total_nanos() / 1_000_000_000);
                    }
                    Some(format_duration(remaining))
                } else {
                    self.state = CountdownState::Done;
                    None
                }
            },
        }
    }
}

} // verus!
