//! A deliberately simple second-resolution countdown, the model behind the
//! scripting-host timer binding.
//!
//! Unlike [`crate::engine::PomodoroTimer`], this timer has no pause and no
//! modes: it counts a fixed number of seconds down to zero.  The embedding
//! host owns the ticking loop (a background thread polling a clock); each
//! poll computes the elapsed whole seconds since `start` and hands them to
//! [`CountdownTimer::tick`], which makes every decision.

use vstd::prelude::*;

verus! {

/// A one-shot countdown from a fixed initial duration, ticked by its host.
#[derive(Clone, Copy, Debug)]
pub struct CountdownTimer {
    /// Whether the countdown is currently ticking.
    pub running: bool,
    /// Seconds still to go, as of the last tick.
    pub duration_secs: u64,
    /// The configured countdown length; immutable after construction.
    pub initial_duration: u64,
}

/// Seconds left on a countdown of `initial` seconds after `elapsed`
/// seconds have passed: saturating at zero, never negative.
pub open spec fn remaining_after(initial: u64, elapsed: u64) -> u64 {
    if elapsed >= initial {
        0u64
    } else {
        (initial - elapsed) as u64
    }
}

impl CountdownTimer {
    /// The remaining time never exceeds the configured length.
    pub open spec fn wf(self) -> bool {
        self.duration_secs <= self.initial_duration
    }

    /// A stopped countdown of `seconds` seconds, fully wound.
    pub fn new(seconds: u64) -> (t: CountdownTimer)
        ensures
            t.wf(),
            !t.running,
            t.duration_secs == seconds,
            t.initial_duration == seconds,
    {
        CountdownTimer { running: false, duration_secs: seconds, initial_duration: seconds }
    }

    /// Begin counting: rewinds to the full duration and marks the
    /// countdown running.  A no-op while already running.
    pub fn start(&mut self)
        requires
            old(self).wf(),
        ensures
            final(self).wf(),
            final(self).initial_duration == old(self).initial_duration,
            old(self).running ==> *final(self) == *old(self),
            !old(self).running ==> final(self).running
                && final(self).duration_secs == old(self).initial_duration,
    {
        if !self.running {
            self.running = true;
            self.duration_secs = self.initial_duration;
        }
    }

    /// Stop ticking; the remaining time stays where it is.
    pub fn stop(&mut self)
        requires
            old(self).wf(),
        ensures
            final(self).wf(),
            !final(self).running,
            final(self).duration_secs == old(self).duration_secs,
            final(self).initial_duration == old(self).initial_duration,
    {
        self.running = false;
    }

    /// Stop and rewind to the full duration.
    pub fn reset(&mut self)
        requires
            old(self).wf(),
        ensures
            final(self).wf(),
            !final(self).running,
            final(self).duration_secs == old(self).initial_duration,
            final(self).initial_duration == old(self).initial_duration,
    {
        self.running = false;
        self.duration_secs = self.initial_duration;
    }

    /// Seconds still to go, as of the last tick.
    pub fn get_remaining(&self) -> (r: u64)
        ensures
            r == self.duration_secs,
    {
        self.duration_secs
    }

    /// One poll of the host's ticking loop: `elapsed_secs` whole seconds
    /// have passed since the countdown was started.
    ///
    /// While running, the remaining time becomes the initial duration less
    /// the elapsed time (saturating at zero), and the countdown stops
    /// itself exactly when it reaches zero.  Ignored while stopped.
    pub fn tick(&mut self, elapsed_secs: u64)
        requires
            old(self).wf(),
        ensures
            final(self).wf(),
            final(self).initial_duration == old(self).initial_duration,
            !old(self).running ==> *final(self) == *old(self),
            old(self).running ==> final(self).duration_secs == remaining_after(
                old(self).initial_duration,
                elapsed_secs,
            ),
            old(self).running ==> (final(self).running <==> final(self).duration_secs > 0),
    {
        if self.running {
            if elapsed_secs >= self.initial_duration {
                self.duration_secs = 0;
            } else {
                self.duration_secs = self.initial_duration - elapsed_secs;
            }
            if self.duration_secs == 0 {
                self.running = false;
            }
        }
    }
}

} // verus!
