//! Rendering the engine's snapshot as a human-readable status line:
//! `Mode: <mode> | State: <state> | Remaining: MM:SS | Session: <n>/<threshold>`.

use vstd::prelude::*;
use vstd::string::StringExecFns;

use crate::engine::PomodoroTimer;
use crate::engine::TimerMode;
use crate::engine::TimerState;

verus! {

/// The decimal digit character for `d` (meaningful for `0 <= d <= 9`).
pub open spec fn digit_char(d: int) -> char {
    if d == 0 {
        '0'
    } else if d == 1 {
        '1'
    } else if d == 2 {
        '2'
    } else if d == 3 {
        '3'
    } else if d == 4 {
        '4'
    } else if d == 5 {
        '5'
    } else if d == 6 {
        '6'
    } else if d == 7 {
        '7'
    } else if d == 8 {
        '8'
    } else {
        '9'
    }
}

/// The usual decimal rendering of `n`: most significant digit first, no
/// leading zeroes (a single `'0'` for zero itself).
pub open spec fn dec_digits(n: int) -> Seq<char>
    decreases n,
{
    if n <= 9 {
        seq![digit_char(n)]
    } else {
        dec_digits(n / 10).push(digit_char(n % 10))
    }
}

/// The decimal rendering of `n` padded with a leading zero to at least
/// two digits, as a clock display wants it.
pub open spec fn pad2_digits(n: int) -> Seq<char> {
    if n <= 9 {
        seq!['0', digit_char(n)]
    } else {
        dec_digits(n)
    }
}

/// `MM:SS` for a span of `secs` seconds: whole minutes, a colon, and the
/// leftover seconds, each padded to two digits.
pub open spec fn mmss_digits(secs: int) -> Seq<char> {
    pad2_digits(secs / 60) + seq![':'] + pad2_digits(secs % 60)
}

/// The display label of an interval kind.
pub open spec fn mode_label(m: TimerMode) -> Seq<char> {
    match m {
        TimerMode::Work => "Work"@,
        TimerMode::ShortBreak => "Short Break"@,
        TimerMode::LongBreak => "Long Break"@,
    }
}

/// The display label of a lifecycle state.
pub open spec fn state_label(s: TimerState) -> Seq<char> {
    match s {
        TimerState::Stopped => "Stopped"@,
        TimerState::Running => "Running"@,
        TimerState::Paused => "Paused"@,
    }
}

/// The whole status line for a snapshot of the engine.  The remaining
/// time is shown in whole seconds (`remaining` is in milliseconds).
pub open spec fn status_chars(t: PomodoroTimer) -> Seq<char> {
    "Mode: "@ + mode_label(t.mode) + " | State: "@ + state_label(t.state) + " | Remaining: "@
        + mmss_digits(t.remaining as int / 1000) + " | Session: "@ + dec_digits(
        t.current_session as int,
    ) + "/"@ + dec_digits(t.sessions_before_long_break as int)
}

/// The one-character string for the decimal digit `d`.
fn digit_str(d: u64) -> (r: &'static str)
    requires
        d <= 9,
    ensures
        r@ == seq![digit_char(d as int)],
{
    let r: &'static str = if d == 0 {
        "0"
    } else if d == 1 {
        "1"
    } else if d == 2 {
        "2"
    } else if d == 3 {
        "3"
    } else if d == 4 {
        "4"
    } else if d == 5 {
        "5"
    } else if d == 6 {
        "6"
    } else if d == 7 {
        "7"
    } else if d == 8 {
        "8"
    } else {
        "9"
    };
    proof {
        reveal_strlit("0");
        reveal_strlit("1");
        reveal_strlit("2");
        reveal_strlit("3");
        reveal_strlit("4");
        reveal_strlit("5");
        reveal_strlit("6");
        reveal_strlit("7");
        reveal_strlit("8");
        reveal_strlit("9");
        assert(r@ =~= seq![digit_char(d as int)]);
    }
    r
}

/// The decimal rendering of `n`.
pub fn u64_to_dec(n: u64) -> (r: String)
    ensures
        r@ == dec_digits(n as int),
    decreases n,
{
    if n <= 9 {
        digit_str(n).to_owned()
    } else {
        let mut r = u64_to_dec(n / 10);
        r.append(digit_str(n % 10));
        proof {
            assert(r@ =~= dec_digits(n as int));
        }
        r
    }
}

/// The decimal rendering of `n`, zero-padded to at least two digits.
fn pad2(n: u64) -> (r: String)
    ensures
        r@ == pad2_digits(n as int),
{
    if n <= 9 {
        let mut r = "0".to_owned();
        r.append(digit_str(n));
        proof {
            reveal_strlit("0");
            assert(r@ =~= pad2_digits(n as int));
        }
        r
    } else {
        u64_to_dec(n)
    }
}

/// `secs` seconds rendered as `MM:SS`.
fn mmss(secs: u64) -> (r: String)
    ensures
        r@ == mmss_digits(secs as int),
{
    let mut r = pad2(secs / 60);
    r.append(":");
    let sec_part = pad2(secs % 60);
    r.append(sec_part.as_str());
    proof {
        reveal_strlit(":");
        assert(r@ =~= mmss_digits(secs as int));
    }
    r
}

/// The display label of an interval kind.
fn mode_str(m: TimerMode) -> (r: &'static str)
    ensures
        r@ == mode_label(m),
{
    match m {
        TimerMode::Work => "Work",
        TimerMode::ShortBreak => "Short Break",
        TimerMode::LongBreak => "Long Break",
    }
}

/// The display label of a lifecycle state.
fn state_str(s: TimerState) -> (r: &'static str)
    ensures
        r@ == state_label(s),
{
    match s {
        TimerState::Stopped => "Stopped",
        TimerState::Running => "Running",
        TimerState::Paused => "Paused",
    }
}

impl PomodoroTimer {
    /// The status line for the current snapshot, exactly as
    /// [`status_chars`] describes it.  The caller recomputes first
    /// (`update`) if it wants the line current against the clock.
    pub fn get_status(&self) -> (r: String)
        ensures
            r@ == status_chars(*self),
    {
        let mut r = "Mode: ".to_owned();
        r.append(mode_str(self.mode));
        r.append(" | State: ");
        r.append(state_str(self.state));
        r.append(" | Remaining: ");
        let time_part = mmss(self.remaining / 1000);
        r.append(time_part.as_str());
        r.append(" | Session: ");
        let session_part = u64_to_dec(self.current_session as u64);
        r.append(session_part.as_str());
        r.append("/");
        let threshold_part = u64_to_dec(self.sessions_before_long_break as u64);
        r.append(threshold_part.as_str());
        proof {
            assert(r@ =~= status_chars(*self));
        }
        r
    }
}

} // verus!
