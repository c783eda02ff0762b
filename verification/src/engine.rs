//! The timer engine: a state machine over caller-supplied monotonic
//! timestamps (milliseconds).
//!
//! The engine never reads a clock itself.  Every operation that needs the
//! current time takes it as a `now_ms` argument; the caller (an interactive
//! loop, a remote-procedure server, ...) reads its monotonic clock and hands
//! the value in.  Remaining time is recomputed lazily from timestamps by
//! [`PomodoroTimer::update`], so the state is always correct relative to the
//! supplied clock no matter how long the engine goes unobserved.

use vstd::prelude::*;

verus! {

/// Lifecycle of the current interval.
#[derive(Clone, Copy, Debug, PartialEq, Eq, Structural)]
pub enum TimerState {
    Stopped,
    Running,
    Paused,
}

/// Which interval is currently active.
#[derive(Clone, Copy, Debug, PartialEq, Eq, Structural)]
pub enum TimerMode {
    Work,
    ShortBreak,
    LongBreak,
}

/// The closed set of commands understood by [`PomodoroTimer::execute_command`].
#[derive(Clone, Copy, Debug, PartialEq, Eq, Structural)]
pub enum TimerCommand {
    Start,
    Pause,
    Stop,
    Restart,
    Skip,
    ResetCounter,
}

/// The timer engine.  All durations and timestamps are in milliseconds;
/// timestamps are relative to whatever monotonic origin the caller uses,
/// and must be supplied in nondecreasing order (see [`Self::clock_le`]).
#[derive(Clone, Copy, Debug)]
pub struct PomodoroTimer {
    /// Configured length of a work interval; immutable after construction.
    pub work_duration: u64,
    /// Configured length of a short break; immutable after construction.
    pub short_break_duration: u64,
    /// Configured length of a long break; immutable after construction.
    pub long_break_duration: u64,
    /// Completed work intervals per long break; positive, immutable.
    pub sessions_before_long_break: u32,
    /// Completed work intervals since the last counter reset.
    pub current_session: u32,
    /// The interval currently active.
    pub mode: TimerMode,
    /// Lifecycle of the current interval.
    pub state: TimerState,
    /// Time left in the current interval; authoritative whenever the
    /// state is not `Running` (while `Running` it is authoritative as of
    /// `last_update`).
    pub remaining: u64,
    /// Effective origin of the running interval, shifted forward on every
    /// resume to absorb paused time.  Present unless `Stopped`.
    pub start_time: Option<u64>,
    /// When the current pause began.  Present only while `Paused`.
    pub pause_time: Option<u64>,
    /// When `remaining` was last recomputed.  Present only while `Running`.
    pub last_update: Option<u64>,
}

impl PomodoroTimer {
    /// The configured full duration of interval `m`.
    pub open spec fn duration_of(self, m: TimerMode) -> u64 {
        match m {
            TimerMode::Work => self.work_duration,
            TimerMode::ShortBreak => self.short_break_duration,
            TimerMode::LongBreak => self.long_break_duration,
        }
    }

    /// Well-formedness: the invariant every operation preserves.
    ///
    /// `remaining` never exceeds the full duration of the active mode (and,
    /// being unsigned, never goes negative); timestamps are present exactly
    /// as the lifecycle state dictates and are mutually ordered.
    pub open spec fn wf(self) -> bool {
        &&& self.sessions_before_long_break >= 1
        &&& self.remaining <= self.duration_of(self.mode)
        &&& match self.state {
            TimerState::Stopped => {
                &&& self.start_time is None
                &&& self.pause_time is None
                &&& self.last_update is None
            },
            TimerState::Running => {
                &&& self.start_time is Some
                &&& self.last_update is Some
                &&& self.pause_time is None
                &&& self.start_time->0 <= self.last_update->0
            },
            TimerState::Paused => {
                &&& self.start_time is Some
                &&& self.pause_time is Some
                &&& self.last_update is None
                &&& self.start_time->0 <= self.pause_time->0
            },
        }
    }

    /// All recorded timestamps lie at or before `now`: what a monotonic
    /// clock guarantees of any value it hands out after the ones already
    /// stored.
    pub open spec fn clock_le(self, now: u64) -> bool {
        &&& (self.start_time matches Some(t) ==> t <= now)
        &&& (self.pause_time matches Some(t) ==> t <= now)
        &&& (self.last_update matches Some(t) ==> t <= now)
    }

    /// The state after `stop`: `Stopped`, all timestamps cleared,
    /// everything else (including `remaining`) untouched.
    pub open spec fn stopped(self) -> PomodoroTimer {
        PomodoroTimer {
            state: TimerState::Stopped,
            start_time: None,
            pause_time: None,
            last_update: None,
            ..self
        }
    }

    /// The state after `start` at time `now`.
    ///
    /// From `Stopped`, the interval begins running at `now`.  From
    /// `Paused`, the recorded origin is shifted forward by the paused
    /// duration (drift compensation), so only time spent `Running` ever
    /// counts against `remaining`.  From `Running`, a no-op.
    pub open spec fn started(self, now: u64) -> PomodoroTimer {
        match self.state {
            TimerState::Stopped => PomodoroTimer {
                state: TimerState::Running,
                start_time: Some(now),
                last_update: Some(now),
                ..self
            },
            TimerState::Paused => PomodoroTimer {
                state: TimerState::Running,
                start_time: Some((self.start_time->0 + (now - self.pause_time->0)) as u64),
                pause_time: None,
                last_update: Some(now),
                ..self
            },
            TimerState::Running => self,
        }
    }

    /// The state after `pause` at time `now`: effective only while
    /// `Running`, otherwise a no-op.
    pub open spec fn paused(self, now: u64) -> PomodoroTimer {
        if self.state is Running {
            PomodoroTimer {
                state: TimerState::Paused,
                pause_time: Some(now),
                last_update: None,
                ..self
            }
        } else {
            self
        }
    }

    /// The mode-transition rule, shared by `skip` and natural expiry in
    /// `update`.
    ///
    /// Completing a work interval increments the session counter; the
    /// break kind is chosen solely by whether the incremented counter is a
    /// multiple of `sessions_before_long_break`.  Completing either break
    /// returns to work.  `remaining` is reloaded with the full duration of
    /// the new mode.
    pub open spec fn advanced(self) -> PomodoroTimer {
        match self.mode {
            TimerMode::Work => {
                let s = (self.current_session + 1) as u32;
                if s % self.sessions_before_long_break == 0 {
                    PomodoroTimer {
                        current_session: s,
                        mode: TimerMode::LongBreak,
                        remaining: self.long_break_duration,
                        ..self
                    }
                } else {
                    PomodoroTimer {
                        current_session: s,
                        mode: TimerMode::ShortBreak,
                        remaining: self.short_break_duration,
                        ..self
                    }
                }
            },
            TimerMode::ShortBreak | TimerMode::LongBreak => PomodoroTimer {
                mode: TimerMode::Work,
                remaining: self.work_duration,
                ..self
            },
        }
    }

    /// The state after `restart` at `now`: the current interval begins
    /// again from its full duration, running; mode and session count are
    /// untouched.
    pub open spec fn restarted(self, now: u64) -> PomodoroTimer {
        let t = self.stopped();
        let t = PomodoroTimer { remaining: t.duration_of(t.mode), ..t };
        t.started(now)
    }

    /// The state after `skip` at `now`: the rest of the current interval
    /// is abandoned, the mode-transition rule picks the next interval, and
    /// it starts immediately.
    pub open spec fn skipped(self, now: u64) -> PomodoroTimer {
        self.stopped().advanced().started(now)
    }

    /// The state after `reset_counter`: only the session count changes.
    pub open spec fn counter_reset(self) -> PomodoroTimer {
        PomodoroTimer { current_session: 0, ..self }
    }

    /// The state after `update` at `now`.
    ///
    /// Only acts while `Running`.  If the time elapsed since the last
    /// recomputation covers all of `remaining`, the interval has expired:
    /// the engine stops and the mode-transition rule is applied (the next
    /// interval is *not* auto-started).  Otherwise the elapsed time is
    /// subtracted from `remaining`.
    pub open spec fn updated(self, now: u64) -> PomodoroTimer {
        if self.state is Running {
            let elapsed = now - self.last_update->0;
            if elapsed >= self.remaining {
                self.stopped().advanced()
            } else {
                PomodoroTimer {
                    remaining: (self.remaining - elapsed) as u64,
                    last_update: Some(now),
                    ..self
                }
            }
        } else {
            self
        }
    }

    /// What `update` at `now` reports: the new remaining time (zero on
    /// expiry), or nothing when the engine is not `Running`.
    pub open spec fn update_report(self, now: u64) -> Option<u64> {
        if self.state is Running {
            let elapsed = now - self.last_update->0;
            if elapsed >= self.remaining {
                Some(0u64)
            } else {
                Some((self.remaining - elapsed) as u64)
            }
        } else {
            None
        }
    }

    /// The state after dispatching `cmd` at time `now`: the single
    /// transition relation all six commands share.
    pub open spec fn stepped(self, cmd: TimerCommand, now: u64) -> PomodoroTimer {
        match cmd {
            TimerCommand::Start => self.started(now),
            TimerCommand::Pause => self.paused(now),
            TimerCommand::Stop => self.stopped(),
            TimerCommand::Restart => self.restarted(now),
            TimerCommand::Skip => self.skipped(now),
            TimerCommand::ResetCounter => self.counter_reset(),
        }
    }

    /// A fresh engine: stopped, in work mode, with the full work duration
    /// remaining and no completed sessions.
    pub fn new(
        work_duration: u64,
        short_break_duration: u64,
        long_break_duration: u64,
        sessions_before_long_break: u32,
    ) -> (t: PomodoroTimer)
        requires
            sessions_before_long_break >= 1,
        ensures
            t.wf(),
            t.work_duration == work_duration,
            t.short_break_duration == short_break_duration,
            t.long_break_duration == long_break_duration,
            t.sessions_before_long_break == sessions_before_long_break,
            t.current_session == 0,
            t.mode is Work,
            t.state is Stopped,
            t.remaining == work_duration,
            t.clock_le(0),
    {
        PomodoroTimer {
            work_duration,
            short_break_duration,
            long_break_duration,
            sessions_before_long_break,
            current_session: 0,
            mode: TimerMode::Work,
            state: TimerState::Stopped,
            remaining: work_duration,
            start_time: None,
            pause_time: None,
            last_update: None,
        }
    }

    /// The default configuration: 25 minutes of work, 5-minute short
    /// breaks, 15-minute long breaks, a long break every 4 sessions.
    pub fn default() -> (t: PomodoroTimer)
        ensures
            t.wf(),
            t.work_duration == 1_500_000u64,
            t.short_break_duration == 300_000u64,
            t.long_break_duration == 900_000u64,
            t.sessions_before_long_break == 4u32,
            t.current_session == 0,
            t.mode is Work,
            t.state is Stopped,
            t.remaining == 1_500_000u64,
            t.clock_le(0),
    {
        PomodoroTimer::new(1_500_000, 300_000, 900_000, 4)
    }

    /// Start (or resume) the current interval at time `now_ms`.
    pub fn start(&mut self, now_ms: u64)
        requires
            old(self).wf(),
            old(self).clock_le(now_ms),
        ensures
            *final(self) == old(self).started(now_ms),
            final(self).wf(),
            final(self).clock_le(now_ms),
    {
        match self.state {
            TimerState::Stopped => {
                self.start_time = Some(now_ms);
                self.last_update = Some(now_ms);
                self.state = TimerState::Running;
            },
            TimerState::Paused => {
                if let (Some(pause_time), Some(start_time)) = (self.pause_time, self.start_time) {
                    let paused_duration: u64 = now_ms - pause_time;
                    self.start_time = Some(start_time + paused_duration);
                    self.pause_time = None;
                    self.last_update = Some(now_ms);
                    self.state = TimerState::Running;
                }
            },
            TimerState::Running => {},
        }
    }

    /// Pause the running interval at time `now_ms`; a no-op unless
    /// `Running`.
    pub fn pause(&mut self, now_ms: u64)
        requires
            old(self).wf(),
            old(self).clock_le(now_ms),
        ensures
            *final(self) == old(self).paused(now_ms),
            final(self).wf(),
            final(self).clock_le(now_ms),
    {
        if self.state == TimerState::Running {
            self.pause_time = Some(now_ms);
            self.last_update = None;
            self.state = TimerState::Paused;
        }
    }

    /// Stop unconditionally, clearing all timestamps.  `remaining` is
    /// preserved for a subsequent `start`.
    pub fn stop(&mut self)
        requires
            old(self).wf(),
        ensures
            *final(self) == old(self).stopped(),
            final(self).wf(),
            forall|now: u64| final(self).clock_le(now),
    {
        self.state = TimerState::Stopped;
        self.start_time = None;
        self.pause_time = None;
        self.last_update = None;
    }

    /// Restart the current interval from its full duration at time
    /// `now_ms`.  Progress in the interval is discarded; mode and session
    /// count are preserved; the engine ends up `Running`.
    pub fn restart(&mut self, now_ms: u64)
        requires
            old(self).wf(),
            old(self).clock_le(now_ms),
        ensures
            *final(self) == old(self).restarted(now_ms),
            final(self).wf(),
            final(self).clock_le(now_ms),
            final(self).mode == old(self).mode,
            final(self).current_session == old(self).current_session,
            final(self).remaining == old(self).duration_of(old(self).mode),
            final(self).state is Running,
    {
        self.stop();
        match self.mode {
            TimerMode::Work => self.remaining = self.work_duration,
            TimerMode::ShortBreak => self.remaining = self.short_break_duration,
            TimerMode::LongBreak => self.remaining = self.long_break_duration,
        }
        self.start(now_ms);
    }

    /// Abandon the current interval at time `now_ms` and begin the next
    /// one immediately, applying the mode-transition rule.
    pub fn skip(&mut self, now_ms: u64)
        requires
            old(self).wf(),
            old(self).clock_le(now_ms),
            old(self).mode is Work ==> old(self).current_session < u32::MAX,
        ensures
            *final(self) == old(self).skipped(now_ms),
            final(self).wf(),
            final(self).clock_le(now_ms),
            final(self).state is Running,
    {
        self.stop();
        self.next_mode();
        self.start(now_ms);
    }

    /// Zero the completed-session counter.  Mode, state and remaining
    /// time are untouched.
    pub fn reset_counter(&mut self)
        requires
            old(self).wf(),
        ensures
            *final(self) == old(self).counter_reset(),
            final(self).wf(),
            final(self).current_session == 0,
            final(self).mode == old(self).mode,
            final(self).state == old(self).state,
            final(self).remaining == old(self).remaining,
    {
        self.current_session = 0;
    }

    /// Apply the mode-transition rule in place.
    fn next_mode(&mut self)
        requires
            old(self).wf(),
            old(self).mode is Work ==> old(self).current_session < u32::MAX,
        ensures
            *final(self) == old(self).advanced(),
            final(self).wf(),
    {
        match self.mode {
            TimerMode::Work => {
                self.current_session = self.current_session + 1;
                if self.current_session % self.sessions_before_long_break == 0 {
                    self.mode = TimerMode::LongBreak;
                    self.remaining = self.long_break_duration;
                } else {
                    self.mode = TimerMode::ShortBreak;
                    self.remaining = self.short_break_duration;
                }
            },
            TimerMode::ShortBreak | TimerMode::LongBreak => {
                self.mode = TimerMode::Work;
                self.remaining = self.work_duration;
            },
        }
    }

    /// Recompute `remaining` against the clock reading `now_ms` and report
    /// it.
    ///
    /// Reports nothing (and changes nothing) unless `Running`.  On natural
    /// expiry the engine stops, the mode-transition rule runs, and zero is
    /// reported; the next interval is left `Stopped` until an explicit
    /// `start`.
    pub fn update(&mut self, now_ms: u64) -> (r: Option<u64>)
        requires
            old(self).wf(),
            old(self).clock_le(now_ms),
            old(self).mode is Work ==> old(self).current_session < u32::MAX,
        ensures
            *final(self) == old(self).updated(now_ms),
            r == old(self).update_report(now_ms),
            final(self).wf(),
            final(self).clock_le(now_ms),
            !(old(self).state is Running) ==> r is None && *final(self) == *old(self),
    {
        if self.state == TimerState::Running {
            if let Some(last_update) = self.last_update {
                let elapsed: u64 = now_ms - last_update;
                if elapsed >= self.remaining {
                    self.stop();
                    self.next_mode();
                    return Some(0);
                } else {
                    self.last_update = Some(now_ms);
                    self.remaining = self.remaining - elapsed;
                    return Some(self.remaining);
                }
            }
        }
        None
    }

    /// Dispatch one command at time `now_ms`: the single exhaustive match
    /// over the closed command set.
    pub fn execute_command(&mut self, cmd: TimerCommand, now_ms: u64)
        requires
            old(self).wf(),
            old(self).clock_le(now_ms),
            cmd is Skip && old(self).mode is Work ==> old(self).current_session < u32::MAX,
        ensures
            *final(self) == old(self).stepped(cmd, now_ms),
            final(self).wf(),
            final(self).clock_le(now_ms),
    {
        match cmd {
            TimerCommand::Start => self.start(now_ms),
            TimerCommand::Pause => self.pause(now_ms),
            TimerCommand::Stop => self.stop(),
            TimerCommand::Restart => self.restart(now_ms),
            TimerCommand::Skip => self.skip(now_ms),
            TimerCommand::ResetCounter => self.reset_counter(),
        }
    }

    /// The active interval kind.
    pub fn get_mode(&self) -> (m: TimerMode)
        ensures
            m == self.mode,
    {
        self.mode
    }

    /// The lifecycle state of the current interval.
    pub fn get_state(&self) -> (s: TimerState)
        ensures
            s == self.state,
    {
        self.state
    }

    /// The remaining time, in milliseconds, as of the last recomputation.
    pub fn get_remaining(&self) -> (r: u64)
        ensures
            r == self.remaining,
    {
        self.remaining
    }

    /// Completed work intervals since the last counter reset.
    pub fn get_current_session(&self) -> (n: u32)
        ensures
            n == self.current_session,
    {
        self.current_session
    }
}

} // verus!
