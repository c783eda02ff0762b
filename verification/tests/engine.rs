use tomato::PomodoroTimer;
use tomato::TimerCommand;
use tomato::TimerMode;
use tomato::TimerState;

#[test]
fn new_sets_configuration() {
    let t = PomodoroTimer::new(10_000, 2_000, 5_000, 3);
    assert_eq!(t.get_mode(), TimerMode::Work);
    assert_eq!(t.get_state(), TimerState::Stopped);
    assert_eq!(t.get_remaining(), 10_000);
    assert_eq!(t.get_current_session(), 0);
    assert_eq!(t.work_duration, 10_000);
    assert_eq!(t.short_break_duration, 2_000);
    assert_eq!(t.long_break_duration, 5_000);
    assert_eq!(t.sessions_before_long_break, 3);
}

#[test]
fn default_is_25_5_15_4() {
    let t = PomodoroTimer::default();
    assert_eq!(t.work_duration, 1_500_000);
    assert_eq!(t.short_break_duration, 300_000);
    assert_eq!(t.long_break_duration, 900_000);
    assert_eq!(t.sessions_before_long_break, 4);
    assert_eq!(t.get_remaining(), 1_500_000);
    assert_eq!(t.get_state(), TimerState::Stopped);
}

#[test]
fn update_while_stopped_reports_nothing() {
    let mut t = PomodoroTimer::default();
    assert_eq!(t.update(0), None);
    assert_eq!(t.update(123_456), None);
    assert_eq!(t.get_state(), TimerState::Stopped);
    assert_eq!(t.get_remaining(), 1_500_000);
}

#[test]
fn update_while_paused_reports_nothing() {
    let mut t = PomodoroTimer::default();
    t.start(0);
    t.pause(5_000);
    assert_eq!(t.update(9_000), None);
    assert_eq!(t.get_state(), TimerState::Paused);
}

#[test]
fn start_counts_down_and_update_reports() {
    let mut t = PomodoroTimer::default();
    t.start(0);
    assert_eq!(t.get_state(), TimerState::Running);
    assert_eq!(t.update(1_000), Some(1_499_000));
    assert_eq!(t.update(2_500), Some(1_497_500));
    assert_eq!(t.get_remaining(), 1_497_500);
}

#[test]
fn natural_expiry_stops_and_advances() {
    // Default config, start, then recompute after a simulated 25 minutes.
    let mut t = PomodoroTimer::default();
    t.start(0);
    assert_eq!(t.update(1_500_000), Some(0));
    assert_eq!(t.get_mode(), TimerMode::ShortBreak);
    assert_eq!(t.get_remaining(), 300_000);
    assert_eq!(t.get_current_session(), 1);
    assert_eq!(t.get_state(), TimerState::Stopped);
}

#[test]
fn expiry_counts_overshoot_as_elapsed() {
    let mut t = PomodoroTimer::new(10_000, 2_000, 5_000, 4);
    t.start(0);
    // The engine goes unobserved long past the interval's end.
    assert_eq!(t.update(60_000), Some(0));
    assert_eq!(t.get_mode(), TimerMode::ShortBreak);
    assert_eq!(t.get_state(), TimerState::Stopped);
}

#[test]
fn pause_absorbs_wall_clock_time() {
    // Start, pause after 10s, wait 1000s paused, resume, observe 5s later.
    let mut t = PomodoroTimer::default();
    t.start(0);
    assert_eq!(t.update(10_000), Some(1_490_000));
    t.pause(10_000);
    assert_eq!(t.get_remaining(), 1_490_000);
    t.start(1_010_000);
    assert_eq!(t.get_remaining(), 1_490_000);
    assert_eq!(t.update(1_015_000), Some(1_485_000));
}

#[test]
fn repeated_pause_resume_keeps_remaining() {
    let mut t = PomodoroTimer::default();
    t.start(0);
    assert_eq!(t.update(60_000), Some(1_440_000));
    let mut now = 60_000;
    for _ in 0..5 {
        t.pause(now);
        now += 100_000; // arbitrary paused stretch
        t.start(now);
        assert_eq!(t.get_remaining(), 1_440_000);
        assert_eq!(t.get_state(), TimerState::Running);
    }
    // Only running time counts after the cycles.
    assert_eq!(t.update(now + 40_000), Some(1_400_000));
}

#[test]
fn fourth_work_completion_is_long_break() {
    // Full Work -> Break cycle four times via Skip.
    let mut t = PomodoroTimer::default();
    t.start(0);
    let mut now = 0;
    for session in 1..4u32 {
        now += 1_000;
        t.skip(now); // Work -> ShortBreak
        assert_eq!(t.get_mode(), TimerMode::ShortBreak);
        assert_eq!(t.get_current_session(), session);
        now += 1_000;
        t.skip(now); // ShortBreak -> Work
        assert_eq!(t.get_mode(), TimerMode::Work);
    }
    now += 1_000;
    t.skip(now); // 4th work completion
    assert_eq!(t.get_mode(), TimerMode::LongBreak);
    assert_eq!(t.get_remaining(), 900_000);
    assert_eq!(t.get_current_session(), 4);
    assert_eq!(t.get_state(), TimerState::Running);
}

#[test]
fn threshold_one_always_long_break() {
    let mut t = PomodoroTimer::new(10_000, 2_000, 5_000, 1);
    t.start(0);
    t.skip(1_000);
    assert_eq!(t.get_mode(), TimerMode::LongBreak);
    assert_eq!(t.get_remaining(), 5_000);
    t.skip(2_000);
    assert_eq!(t.get_mode(), TimerMode::Work);
    t.skip(3_000);
    assert_eq!(t.get_mode(), TimerMode::LongBreak);
    assert_eq!(t.get_current_session(), 2);
}

#[test]
fn break_completion_does_not_count_a_session() {
    let mut t = PomodoroTimer::new(10_000, 2_000, 5_000, 4);
    t.start(0);
    t.skip(1_000); // Work -> ShortBreak, session 1
    assert_eq!(t.get_current_session(), 1);
    // Let the short break expire naturally.
    assert_eq!(t.update(4_000), Some(0));
    assert_eq!(t.get_mode(), TimerMode::Work);
    assert_eq!(t.get_current_session(), 1);
}

#[test]
fn reset_counter_only_clears_the_count() {
    let mut t = PomodoroTimer::default();
    t.start(0);
    t.skip(1_000);
    t.skip(2_000);
    t.skip(3_000);
    assert_eq!(t.get_current_session(), 2);
    let mode = t.get_mode();
    let remaining = t.get_remaining();
    let state = t.get_state();
    t.reset_counter();
    assert_eq!(t.get_current_session(), 0);
    assert_eq!(t.get_mode(), mode);
    assert_eq!(t.get_remaining(), remaining);
    assert_eq!(t.get_state(), state);
}

#[test]
fn reset_counter_while_stopped() {
    let mut t = PomodoroTimer::default();
    t.reset_counter();
    assert_eq!(t.get_current_session(), 0);
    assert_eq!(t.get_state(), TimerState::Stopped);
}

#[test]
fn restart_discards_progress_keeps_mode_and_count() {
    let mut t = PomodoroTimer::default();
    t.start(0);
    t.skip(1_000); // ShortBreak, session 1
    assert_eq!(t.update(101_000), Some(200_000));
    t.restart(102_000);
    assert_eq!(t.get_mode(), TimerMode::ShortBreak);
    assert_eq!(t.get_current_session(), 1);
    assert_eq!(t.get_remaining(), 300_000);
    assert_eq!(t.get_state(), TimerState::Running);
}

#[test]
fn restart_works_from_paused_and_stopped() {
    let mut t = PomodoroTimer::default();
    t.start(0);
    t.update(30_000);
    t.pause(30_000);
    t.restart(40_000);
    assert_eq!(t.get_remaining(), 1_500_000);
    assert_eq!(t.get_state(), TimerState::Running);

    let mut u = PomodoroTimer::default();
    u.start(0);
    u.update(30_000);
    u.stop();
    assert_eq!(u.get_remaining(), 1_470_000);
    u.restart(50_000);
    assert_eq!(u.get_remaining(), 1_500_000);
    assert_eq!(u.get_state(), TimerState::Running);
}

#[test]
fn stop_preserves_remaining_for_next_start() {
    let mut t = PomodoroTimer::default();
    t.start(0);
    assert_eq!(t.update(200_000), Some(1_300_000));
    t.stop();
    assert_eq!(t.get_state(), TimerState::Stopped);
    assert_eq!(t.get_remaining(), 1_300_000);
    assert_eq!(t.start_time, None);
    assert_eq!(t.pause_time, None);
    assert_eq!(t.last_update, None);
    t.start(500_000);
    assert_eq!(t.update(500_000 + 300_000), Some(1_000_000));
}

#[test]
fn start_while_running_is_a_no_op() {
    let mut t = PomodoroTimer::default();
    t.start(0);
    let start_time = t.start_time;
    let last_update = t.last_update;
    t.start(50_000);
    assert_eq!(t.start_time, start_time);
    assert_eq!(t.last_update, last_update);
    assert_eq!(t.get_state(), TimerState::Running);
}

#[test]
fn pause_outside_running_is_a_no_op() {
    let mut t = PomodoroTimer::default();
    t.pause(1_000);
    assert_eq!(t.get_state(), TimerState::Stopped);
    t.start(2_000);
    t.pause(3_000);
    t.pause(4_000);
    assert_eq!(t.get_state(), TimerState::Paused);
    assert_eq!(t.pause_time, Some(3_000));
}

#[test]
fn execute_command_dispatches_all_six() {
    let mut t = PomodoroTimer::default();
    t.execute_command(TimerCommand::Start, 0);
    assert_eq!(t.get_state(), TimerState::Running);
    t.execute_command(TimerCommand::Pause, 1_000);
    assert_eq!(t.get_state(), TimerState::Paused);
    t.execute_command(TimerCommand::Start, 2_000);
    assert_eq!(t.get_state(), TimerState::Running);
    t.execute_command(TimerCommand::Skip, 3_000);
    assert_eq!(t.get_mode(), TimerMode::ShortBreak);
    assert_eq!(t.get_current_session(), 1);
    t.execute_command(TimerCommand::Restart, 4_000);
    assert_eq!(t.get_remaining(), 300_000);
    t.execute_command(TimerCommand::ResetCounter, 5_000);
    assert_eq!(t.get_current_session(), 0);
    t.execute_command(TimerCommand::Stop, 6_000);
    assert_eq!(t.get_state(), TimerState::Stopped);
}

#[test]
fn remaining_stays_within_bounds_over_a_command_mix() {
    let mut t = PomodoroTimer::new(9_000, 3_000, 6_000, 2);
    let commands = [
        TimerCommand::Start,
        TimerCommand::Pause,
        TimerCommand::Start,
        TimerCommand::Skip,
        TimerCommand::Restart,
        TimerCommand::Stop,
        TimerCommand::Start,
        TimerCommand::Skip,
        TimerCommand::ResetCounter,
        TimerCommand::Skip,
        TimerCommand::Pause,
        TimerCommand::Restart,
    ];
    let mut now = 0;
    for cmd in commands {
        now += 1_700;
        t.execute_command(cmd, now);
        t.update(now);
        let full = match t.get_mode() {
            TimerMode::Work => 9_000,
            TimerMode::ShortBreak => 3_000,
            TimerMode::LongBreak => 6_000,
        };
        assert!(t.get_remaining() <= full);
    }
}
