use pomodoro_block::errors::BlockError;
use pomodoro_block::timer::{Phase, PomodoroTimer};

fn timer(work: u64, brk: u64, long: u64, rounds: u64, notify: bool) -> PomodoroTimer {
    PomodoroTimer::new(work, brk, long, rounds, notify).expect("valid settings")
}

#[test]
fn construction_rejects_zero_rounds() {
    let r = PomodoroTimer::new(1500, 300, 900, 0, true);
    assert_eq!(r.err().unwrap(), BlockError::ConfigurationError);
}

#[test]
fn construction_rejects_zero_lengths() {
    assert_eq!(
        PomodoroTimer::new(0, 300, 900, 4, true).err().unwrap(),
        BlockError::ConfigurationError
    );
    assert_eq!(
        PomodoroTimer::new(1500, 0, 900, 4, true).err().unwrap(),
        BlockError::ConfigurationError
    );
    assert_eq!(
        PomodoroTimer::new(1500, 300, 0, 4, true).err().unwrap(),
        BlockError::ConfigurationError
    );
}

#[test]
fn construction_starts_paused_in_work() {
    let t = timer(1500, 300, 900, 4, true);
    assert_eq!(t.phase, Phase::Work);
    assert_eq!(t.remaining, 1500);
    assert_eq!(t.round, 1);
    assert!(!t.running);
    assert!(t.notify);
}

#[test]
fn paused_tick_is_noop() {
    let mut t = timer(1500, 300, 900, 4, true);
    for elapsed in [0, 1, 10, 100000, u64::MAX] {
        let st = t.tick(elapsed);
        assert_eq!(st.phase, Phase::Work);
        assert_eq!(st.remaining, 1500);
        assert_eq!(st.round, 1);
        assert!(!st.notified);
    }
    assert_eq!(t.remaining, 1500);
    assert!(!t.running);
}

#[test]
fn work_completes_to_short_break() {
    let mut t = timer(5, 3, 10, 2, false);
    t.play();
    let st = t.tick(5);
    assert_eq!(st.phase, Phase::ShortBreak);
    assert_eq!(st.remaining, 3);
    assert_eq!(st.round, 1);
}

#[test]
fn work_completes_to_long_break_with_single_round() {
    let mut t = timer(5, 3, 10, 1, false);
    t.play();
    let st = t.tick(5);
    assert_eq!(st.phase, Phase::LongBreak);
    assert_eq!(st.remaining, 10);
    assert_eq!(st.round, 1);
}

#[test]
fn short_break_starts_next_round() {
    let mut t = timer(5, 3, 10, 2, false);
    t.play();
    t.tick(5);
    let st = t.tick(3);
    assert_eq!(st.phase, Phase::Work);
    assert_eq!(st.remaining, 5);
    assert_eq!(st.round, 2);
}

#[test]
fn long_break_resets_cycle() {
    let mut t = timer(5, 3, 10, 2, false);
    t.play();
    t.tick(5); // short break, round 1
    t.tick(3); // work, round 2
    t.tick(5); // long break after the cycle's last round
    assert_eq!(t.phase, Phase::LongBreak);
    let st = t.tick(10);
    assert_eq!(st.phase, Phase::Work);
    assert_eq!(st.remaining, 5);
    assert_eq!(st.round, 1);
}

#[test]
fn play_pause_play_does_not_drift() {
    let mut t = timer(100, 3, 10, 2, false);
    t.play();
    t.tick(42);
    t.pause();
    let at_pause = t.remaining;
    t.tick(9999);
    t.tick(1);
    t.play();
    assert_eq!(t.remaining, at_pause);
    assert_eq!(t.remaining, 58);
}

#[test]
fn coarse_tick_crosses_multiple_phases() {
    let mut t = timer(5, 3, 10, 2, true);
    t.play();
    // 5 seconds of work, 3 of short break, and the full second work
    // interval: the tick must land at the start of the long break.
    let st = t.tick(13);
    assert_eq!(st.phase, Phase::LongBreak);
    assert_eq!(st.remaining, 10);
    assert_eq!(st.round, 2);
    assert!(st.notified);
}

#[test]
fn notification_only_on_transitions() {
    let mut t = timer(5, 3, 10, 2, true);
    t.play();
    let st = t.tick(1);
    assert!(!st.notified);
    let st = t.tick(4);
    assert!(st.notified);

    let mut quiet = timer(5, 3, 10, 2, false);
    quiet.play();
    let st = quiet.tick(5);
    assert_eq!(st.phase, Phase::ShortBreak);
    assert!(!st.notified);
}

#[test]
fn status_is_a_plain_snapshot() {
    let mut t = timer(5, 3, 10, 2, true);
    t.play();
    t.tick(2);
    let st = t.status();
    assert_eq!(st.phase, Phase::Work);
    assert_eq!(st.remaining, 3);
    assert_eq!(st.round, 1);
    assert!(!st.notified);
}
