use lyrtick::PausableClock;
use lyrtick::Timer;

#[test]
fn playtime_advances_while_running() {
    let c = PausableClock::new(1000);
    assert_eq!(c.playtime(1000), 0);
    assert_eq!(c.playtime(5000), 4000);
    assert_eq!(c.playtime(6500), 5500);
}

#[test]
fn paused_time_does_not_accumulate() {
    let mut c = PausableClock::new(1000);
    let before_pause = c.playtime(5000);
    c.pause(5000);
    // Frozen while paused, however long the pause lasts.
    assert_eq!(c.playtime(8000), before_pause);
    assert_eq!(c.playtime(90000), before_pause);
    c.resume(90000);
    // Immediately after resuming, playtime equals the value measured
    // just before pausing.
    assert_eq!(c.playtime(90000), before_pause);
    // And it advances again from there.
    assert_eq!(c.playtime(91000), before_pause + 1000);
}

#[test]
fn pause_and_resume_are_idempotent_safe() {
    let mut c = PausableClock::new(0);
    c.pause(3000);
    c.pause(7000);
    // The second pause must not move the freeze point.
    assert_eq!(c.playtime(7000), 3000);
    c.resume(10000);
    assert_eq!(c.playtime(10000), 3000);
    c.resume(12000);
    // The second resume must not double-count the paused interval.
    assert_eq!(c.playtime(12000), 5000);
}

#[test]
fn repeated_pause_cycles_only_drop_paused_spans() {
    let mut c = PausableClock::new(0);
    c.pause(1000);
    c.resume(2000);
    c.pause(3000);
    c.resume(5000);
    // 5000 elapsed, 1000 + 2000 paused.
    assert_eq!(c.playtime(5000), 2000);
    assert_eq!(c.playtime(6000), 3000);
}

#[test]
fn timer_expires_at_its_deadline() {
    let t = Timer::new(100, 50);
    assert!(!t.expired(100));
    assert!(!t.expired(149));
    assert!(t.expired(150));
    assert!(t.expired(400));
}

#[test]
fn zero_length_timer_is_expired_at_once() {
    let t = Timer::new(100, 0);
    assert!(t.expired(100));
}
