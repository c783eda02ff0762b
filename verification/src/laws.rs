//! Engine-wide laws, proved once over the transition relation.
//!
//! Each lemma here speaks purely of the spec-level transition functions of
//! [`crate::engine::PomodoroTimer`] (`stepped`, `updated`, `advanced`,
//! `paused`, `started`), which the executable operations are proved to
//! implement exactly.

use vstd::prelude::*;

use crate::engine::PomodoroTimer;
use crate::engine::TimerCommand;

verus! {

/// The engine after running a whole sequence of commands, each tagged
/// with the (monotonic) time at which it is dispatched.
pub open spec fn run_commands(t: PomodoroTimer, steps: Seq<(TimerCommand, u64)>) -> PomodoroTimer
    decreases steps.len(),
{
    if steps.len() == 0 {
        t
    } else {
        run_commands(t.stepped(steps[0].0, steps[0].1), steps.drop_first())
    }
}

/// One command dispatch preserves well-formedness, and leaves no
/// timestamp beyond the dispatch time.
pub proof fn lemma_command_preserves_wf(t: PomodoroTimer, cmd: TimerCommand, now: u64)
    requires
        t.wf(),
        t.clock_le(now),
    ensures
        t.stepped(cmd, now).wf(),
        t.stepped(cmd, now).clock_le(now),
{
}

/// One recomputation preserves well-formedness, and leaves no timestamp
/// beyond the observation time.
pub proof fn lemma_update_preserves_wf(t: PomodoroTimer, now: u64)
    requires
        t.wf(),
        t.clock_le(now),
    ensures
        t.updated(now).wf(),
        t.updated(now).clock_le(now),
{
}

/// A bound on recorded timestamps keeps holding as the clock moves on.
pub proof fn lemma_clock_le_mono(t: PomodoroTimer, a: u64, b: u64)
    requires
        t.clock_le(a),
        a <= b,
    ensures
        t.clock_le(b),
{
}

/// For all sequences of commands, dispatched at nondecreasing times, the
/// engine stays well-formed: in particular `remaining` (an unsigned
/// quantity, so never negative) never exceeds the full duration of the
/// active mode.
pub proof fn lemma_run_commands_wf(t: PomodoroTimer, steps: Seq<(TimerCommand, u64)>, now0: u64)
    requires
        t.wf(),
        t.clock_le(now0),
        forall|i: int| 0 <= i < steps.len() ==> now0 <= (#[trigger] steps[i]).1,
        forall|i: int, j: int|
            0 <= i <= j < steps.len() ==> (#[trigger] steps[i]).1 <= (#[trigger] steps[j]).1,
    ensures
        run_commands(t, steps).wf(),
        run_commands(t, steps).remaining <= run_commands(t, steps).duration_of(
            run_commands(t, steps).mode,
        ),
    decreases steps.len(),
{
    if steps.len() > 0 {
        let cmd = steps[0].0;
        let now = steps[0].1;
        lemma_clock_le_mono(t, now0, now);
        lemma_command_preserves_wf(t, cmd, now);
        let t1 = t.stepped(cmd, now);
        let rest = steps.drop_first();
        assert forall|i: int| 0 <= i < rest.len() implies now <= (#[trigger] rest[i]).1 by {
            assert(rest[i] == steps[i + 1]);
        }
        assert forall|i: int, j: int|
            0 <= i <= j < rest.len() implies (#[trigger] rest[i]).1 <= (#[trigger] rest[j]).1 by {
            assert(rest[i] == steps[i + 1]);
            assert(rest[j] == steps[j + 1]);
        }
        lemma_run_commands_wf(t1, rest, now);
    }
}

/// One pause/resume cycle, with any amount of real time spent paused,
/// leaves `remaining` exactly where it was; only time spent `Running`
/// afterwards is ever subtracted.
///
/// Pausing at `pause_at` and resuming at `resume_at` preserves
/// `remaining` bit for bit, and a recomputation at `observe_at` after the
/// resume subtracts exactly `observe_at - resume_at` — none of the paused
/// time.
pub proof fn lemma_pause_resume_preserves_remaining(
    t: PomodoroTimer,
    pause_at: u64,
    resume_at: u64,
    observe_at: u64,
)
    requires
        t.wf(),
        t.state is Running,
        t.clock_le(pause_at),
        pause_at <= resume_at,
        resume_at <= observe_at,
        observe_at - resume_at < t.remaining,
    ensures
        t.paused(pause_at).remaining == t.remaining,
        t.paused(pause_at).started(resume_at).remaining == t.remaining,
        t.paused(pause_at).started(resume_at).state is Running,
        t.paused(pause_at).started(resume_at).updated(observe_at).remaining == t.remaining - (
        observe_at - resume_at),
{
}

/// The engine after a whole sequence of pause/resume cycles, each cycle a
/// pair of the time paused and the (no earlier) time resumed.
pub open spec fn run_pause_resume(t: PomodoroTimer, cycles: Seq<(u64, u64)>) -> PomodoroTimer
    decreases cycles.len(),
{
    if cycles.len() == 0 {
        t
    } else {
        run_pause_resume(t.paused(cycles[0].0).started(cycles[0].1), cycles.drop_first())
    }
}

/// Pausing and resuming repeatedly, with any amount of real time elapsed
/// while paused, never changes `remaining` (nor the mode or the session
/// count): after the last resume the engine is running again with exactly
/// the remaining time it had at the first pause.
pub proof fn lemma_repeated_pause_resume(t: PomodoroTimer, cycles: Seq<(u64, u64)>)
    requires
        t.wf(),
        t.state is Running,
        cycles.len() > 0 ==> t.clock_le(cycles[0].0),
        forall|i: int| 0 <= i < cycles.len() ==> (#[trigger] cycles[i]).0 <= cycles[i].1,
        forall|i: int|
            0 <= i < cycles.len() - 1 ==> (#[trigger] cycles[i]).1 <= cycles[i + 1].0,
    ensures
        run_pause_resume(t, cycles).wf(),
        run_pause_resume(t, cycles).state is Running,
        run_pause_resume(t, cycles).remaining == t.remaining,
        run_pause_resume(t, cycles).mode == t.mode,
        run_pause_resume(t, cycles).current_session == t.current_session,
        cycles.len() > 0 ==> run_pause_resume(t, cycles).last_update == Some(
            cycles.last().1,
        ),
        cycles.len() == 0 ==> run_pause_resume(t, cycles) == t,
    decreases cycles.len(),
{
    if cycles.len() > 0 {
        let pause_at = cycles[0].0;
        let resume_at = cycles[0].1;
        let t1 = t.paused(pause_at).started(resume_at);
        assert(t1.wf());
        assert(t1.clock_le(resume_at));
        let rest = cycles.drop_first();
        assert forall|i: int| 0 <= i < rest.len() implies (#[trigger] rest[i]).0 <= rest[i].1 by {
            assert(rest[i] == cycles[i + 1]);
        }
        assert forall|i: int|
            0 <= i < rest.len() - 1 implies (#[trigger] rest[i]).1 <= rest[i + 1].0 by {
            assert(rest[i] == cycles[i + 1]);
            assert(rest[i + 1] == cycles[i + 2]);
        }
        if rest.len() > 0 {
            assert(rest[0] == cycles[1]);
            assert(resume_at <= cycles[1].0);
            lemma_clock_le_mono(t1, resume_at, cycles[1].0);
        }
        lemma_repeated_pause_resume(t1, rest);
        if rest.len() > 0 {
            assert(rest.last() == cycles.last());
        }
    }
}

/// The break-kind rule at a work-interval completion (reached the same
/// way by `skip` and by natural expiry in `update`): the session counter
/// rises by exactly one, and the break that follows is the long one
/// exactly when the risen counter is a multiple of
/// `sessions_before_long_break`, the short one otherwise — each loaded
/// with its full configured duration.
pub proof fn lemma_work_completion_break_kind(t: PomodoroTimer, now: u64)
    requires
        t.wf(),
        t.mode is Work,
        t.current_session < u32::MAX,
    ensures
        t.advanced().current_session == t.current_session + 1,
        (t.current_session + 1) % (t.sessions_before_long_break as int) == 0 ==> t.advanced().mode
            is LongBreak && t.advanced().remaining == t.long_break_duration,
        (t.current_session + 1) % (t.sessions_before_long_break as int) != 0 ==> t.advanced().mode
            is ShortBreak && t.advanced().remaining == t.short_break_duration,
        t.skipped(now).mode == t.advanced().mode,
        t.skipped(now).current_session == t.advanced().current_session,
        t.skipped(now).remaining == t.advanced().remaining,
        t.state is Running && now >= t.last_update->0 + t.remaining ==> t.updated(now).mode
            == t.advanced().mode && t.updated(now).current_session
            == t.advanced().current_session && t.updated(now).remaining == t.advanced().remaining
            && t.updated(now).state is Stopped,
{
}

/// How the session counter moves: up by exactly one per work-interval
/// completion (whether by `skip` or by natural expiry), and untouched by
/// break completions, `pause`, `stop`, `start` and `restart`.
pub proof fn lemma_session_counting(t: PomodoroTimer, now: u64)
    requires
        t.wf(),
        t.mode is Work ==> t.current_session < u32::MAX,
    ensures
        t.mode is Work ==> t.advanced().current_session == t.current_session + 1,
        !(t.mode is Work) ==> t.advanced().current_session == t.current_session,
        t.paused(now).current_session == t.current_session,
        t.stopped().current_session == t.current_session,
        t.started(now).current_session == t.current_session,
        t.restarted(now).current_session == t.current_session,
        t.state is Running && t.mode is Work && now >= t.last_update->0 + t.remaining
            ==> t.updated(now).current_session == t.current_session + 1,
        t.state is Running && !(t.mode is Work) && now >= t.last_update->0 + t.remaining
            ==> t.updated(now).current_session == t.current_session,
        !(t.state is Running && now >= t.last_update->0 + t.remaining)
            ==> t.updated(now).current_session == t.current_session,
{
}

} // verus!
