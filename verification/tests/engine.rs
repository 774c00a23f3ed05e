use recurring_timer::engine::{Command, CompletionMode, ConfigField, Lifecycle, TimerEngine};

#[test]
fn completion_boundary_fixed_rounds() {
    // interval 5 s, 3 rounds: total 15 s; chimes at ticks 5, 10, 15; the
    // round counter increments at ticks 5 and 10 but not at the final chime.
    let mut e = TimerEngine::new_fixed_rounds();
    e.update(Command::Configure(ConfigField::Interval, String::from("5")));
    e.update(Command::Configure(ConfigField::RoundsOrDuration, String::from("3")));
    e.update(Command::Start);
    assert_eq!(e.total_duration_secs(), 15);
    let mut chime_ticks = Vec::new();
    let mut counters = Vec::new();
    for t in 1..=15u64 {
        let chime = e.update(Command::Tick);
        if chime {
            chime_ticks.push(t);
        }
        counters.push(e.counter());
    }
    assert_eq!(chime_ticks, vec![5, 10, 15]);
    assert_eq!(counters, vec![1, 1, 1, 1, 2, 2, 2, 2, 2, 3, 3, 3, 3, 3, 3]);
    assert_eq!(e.lifecycle(), Lifecycle::Stopped);
    assert_eq!(e.elapsed_secs(), 15);
}

#[test]
fn fixed_duration_chime_count() {
    // interval 10 s, 1 minute: 6 chimes, the final tick included.
    let mut e = TimerEngine::new_fixed_duration();
    e.update(Command::Configure(ConfigField::Interval, String::from("10")));
    e.update(Command::Configure(ConfigField::RoundsOrDuration, String::from("1")));
    e.update(Command::Start);
    assert_eq!(e.total_duration_secs(), 60);
    let mut chimes = 0u64;
    for _ in 0..60 {
        if e.update(Command::Tick) {
            chimes += 1;
        }
    }
    assert_eq!(chimes, 6);
    assert_eq!(e.counter(), 6);
    assert_eq!(e.lifecycle(), Lifecycle::Stopped);
    assert_eq!(e.elapsed_secs(), 60);
}

#[test]
fn chime_cadence() {
    // interval 3 s: a chime fires exactly on ticks whose elapsed time is a
    // multiple of 3.
    let mut e = TimerEngine::new_fixed_duration();
    e.update(Command::Configure(ConfigField::Interval, String::from("3")));
    e.update(Command::Start);
    for t in 1..=10u64 {
        let chime = e.update(Command::Tick);
        assert_eq!(chime, t % 3 == 0);
    }
}

#[test]
fn pause_resume_elapsed() {
    // 5 ticks, pause, 100 ignored ticks, resume, 3 ticks: 8 s elapsed.
    let mut e = TimerEngine::new_fixed_duration();
    e.update(Command::Start);
    for _ in 0..5 {
        e.update(Command::Tick);
    }
    e.update(Command::Pause);
    assert_eq!(e.lifecycle(), Lifecycle::Paused);
    for _ in 0..100 {
        let chime = e.update(Command::Tick);
        assert!(!chime);
    }
    assert_eq!(e.elapsed_secs(), 5);
    e.update(Command::Resume);
    assert_eq!(e.lifecycle(), Lifecycle::Running);
    for _ in 0..3 {
        e.update(Command::Tick);
    }
    assert_eq!(e.elapsed_secs(), 8);
}

#[test]
fn stop_resets_start_reinitializes() {
    let mut e = TimerEngine::new_fixed_rounds();
    e.update(Command::Configure(ConfigField::Interval, String::from("5")));
    e.update(Command::Configure(ConfigField::RoundsOrDuration, String::from("4")));
    e.update(Command::Start);
    for _ in 0..12 {
        e.update(Command::Tick);
    }
    assert_eq!(e.elapsed_secs(), 12);
    assert_eq!(e.counter(), 3);
    e.update(Command::Stop);
    assert_eq!(e.lifecycle(), Lifecycle::Stopped);
    assert_eq!(e.elapsed_secs(), 0);
    assert_eq!(e.counter(), 1);
    // Start recomputes the total from the current configuration and resets
    // the counters regardless of the prior run.
    e.update(Command::Configure(ConfigField::RoundsOrDuration, String::from("2")));
    e.update(Command::Start);
    assert_eq!(e.lifecycle(), Lifecycle::Running);
    assert_eq!(e.total_duration_secs(), 10);
    assert_eq!(e.elapsed_secs(), 0);
    assert_eq!(e.counter(), 1);
}

#[test]
fn configure_rejection() {
    // "0", "-5" and "abc" each leave the interval at its prior valid value,
    // while the raw text is still stored for redisplay.
    let mut e = TimerEngine::new_fixed_duration();
    e.update(Command::Configure(ConfigField::Interval, String::from("0")));
    assert_eq!(e.interval_secs(), 60);
    e.update(Command::Configure(ConfigField::Interval, String::from("-5")));
    assert_eq!(e.interval_secs(), 60);
    e.update(Command::Configure(ConfigField::Interval, String::from("abc")));
    assert_eq!(e.interval_secs(), 60);
    assert_eq!(e.interval_text(), "abc");
    assert_eq!(e.total_duration_secs(), 1200);
}

#[test]
fn configure_overflow_rejected() {
    let mut e = TimerEngine::new_fixed_duration();
    e.update(Command::Configure(ConfigField::Interval, String::from("4294967296")));
    assert_eq!(e.interval_secs(), 60);
    e.update(Command::Configure(ConfigField::Interval, String::from("4294967295")));
    assert_eq!(e.interval_secs(), 4294967295);
}

#[test]
fn configure_updates_mode_quantity() {
    let mut e = TimerEngine::new_fixed_rounds();
    e.update(Command::Configure(ConfigField::RoundsOrDuration, String::from("7")));
    assert_eq!(e.completion_mode(), CompletionMode::FixedRounds { num_rounds: 7 });
    assert_eq!(e.total_duration_secs(), 420);
    assert_eq!(e.quantity_text(), "7");
}

#[test]
fn configure_ignored_while_running() {
    let mut e = TimerEngine::new_fixed_duration();
    e.update(Command::Start);
    e.update(Command::Configure(ConfigField::Interval, String::from("5")));
    assert_eq!(e.interval_secs(), 60);
    assert_eq!(e.interval_text(), "60");
    assert_eq!(e.total_duration_secs(), 1200);
}

#[test]
fn tick_ignored_while_stopped() {
    let mut e = TimerEngine::new_fixed_duration();
    let chime = e.update(Command::Tick);
    assert!(!chime);
    assert_eq!(e.elapsed_secs(), 0);
    assert_eq!(e.lifecycle(), Lifecycle::Stopped);
}

#[test]
fn pause_resume_ignored_while_stopped() {
    let mut e = TimerEngine::new_fixed_rounds();
    e.update(Command::Pause);
    assert_eq!(e.lifecycle(), Lifecycle::Stopped);
    e.update(Command::Resume);
    assert_eq!(e.lifecycle(), Lifecycle::Stopped);
    e.update(Command::Stop);
    assert_eq!(e.lifecycle(), Lifecycle::Stopped);
    assert_eq!(e.elapsed_secs(), 0);
}

#[test]
fn start_ignored_while_running() {
    let mut e = TimerEngine::new_fixed_duration();
    e.update(Command::Start);
    for _ in 0..4 {
        e.update(Command::Tick);
    }
    e.update(Command::Start);
    assert_eq!(e.elapsed_secs(), 4);
    assert_eq!(e.lifecycle(), Lifecycle::Running);
}

#[test]
fn completion_keeps_final_values_until_start() {
    // Reaching the total stops the engine without resetting the completed
    // values; the next Start performs the reset.
    let mut e = TimerEngine::new_fixed_rounds();
    e.update(Command::Configure(ConfigField::Interval, String::from("2")));
    e.update(Command::Configure(ConfigField::RoundsOrDuration, String::from("2")));
    e.update(Command::Start);
    for _ in 0..4 {
        e.update(Command::Tick);
    }
    assert_eq!(e.lifecycle(), Lifecycle::Stopped);
    assert_eq!(e.elapsed_secs(), 4);
    assert_eq!(e.counter(), 2);
    // Further ticks are no-ops.
    let chime = e.update(Command::Tick);
    assert!(!chime);
    assert_eq!(e.elapsed_secs(), 4);
    e.update(Command::Start);
    assert_eq!(e.elapsed_secs(), 0);
    assert_eq!(e.counter(), 1);
    assert_eq!(e.lifecycle(), Lifecycle::Running);
}

#[test]
fn defaults_at_construction() {
    let rounds = TimerEngine::new_fixed_rounds();
    assert_eq!(rounds.interval_secs(), 60);
    assert_eq!(rounds.completion_mode(), CompletionMode::FixedRounds { num_rounds: 20 });
    assert_eq!(rounds.total_duration_secs(), 1200);
    assert_eq!(rounds.counter(), 1);
    assert_eq!(rounds.lifecycle(), Lifecycle::Stopped);
    assert_eq!(rounds.interval_text(), "60");
    assert_eq!(rounds.quantity_text(), "20");
    let duration = TimerEngine::new_fixed_duration();
    assert_eq!(duration.completion_mode(), CompletionMode::FixedDuration { duration_mins: 20 });
    assert_eq!(duration.total_duration_secs(), 1200);
    assert_eq!(duration.counter(), 0);
}
