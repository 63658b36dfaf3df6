use drug_test::timer::{Timer, TimerMode};

#[test]
fn new_timer_has_counted_nothing() {
    let t = Timer::new(1_500_000, TimerMode::Once);
    assert_eq!(t.duration(), 1_500_000);
    assert_eq!(t.elapsed(), 0);
    assert_eq!(t.remaining(), 1_500_000);
    assert_eq!(t.mode(), TimerMode::Once);
    assert!(!t.finished());
    assert!(!t.just_finished());
    assert_eq!(t.times_finished_this_tick(), 0);
}

#[test]
fn default_timer_runs_once_without_duration() {
    let t = Timer::default();
    assert_eq!(t.duration(), 0);
    assert_eq!(t.mode(), TimerMode::Once);
    assert!(!t.finished());
}

#[test]
fn once_timer_counts_up_to_its_duration() {
    let mut t = Timer::new(1_000_000, TimerMode::Once);
    t.tick(250_000);
    assert_eq!(t.elapsed(), 250_000);
    assert_eq!(t.remaining(), 750_000);
    assert!(!t.finished());
    assert!(!t.just_finished());
    t.tick(749_999);
    assert_eq!(t.elapsed(), 999_999);
    assert!(!t.finished());
    t.tick(1);
    assert_eq!(t.elapsed(), 1_000_000);
    assert!(t.finished());
    assert!(t.just_finished());
    assert_eq!(t.times_finished_this_tick(), 1);
}

#[test]
fn once_timer_stops_at_its_duration() {
    let mut t = Timer::new(1_000_000, TimerMode::Once);
    t.tick(5_000_000);
    assert_eq!(t.elapsed(), 1_000_000);
    assert!(t.finished());
    assert!(t.just_finished());
    t.tick(5_000_000);
    assert_eq!(t.elapsed(), 1_000_000);
    assert!(t.finished());
    assert!(!t.just_finished());
    assert_eq!(t.times_finished_this_tick(), 0);
}

#[test]
fn once_timer_without_duration_finishes_on_its_first_tick() {
    let mut t = Timer::new(0, TimerMode::Once);
    t.tick(0);
    assert!(t.finished());
    assert!(t.just_finished());
    assert_eq!(t.elapsed(), 0);
}

#[test]
fn repeating_timer_starts_over() {
    let mut t = Timer::new(1_000_000, TimerMode::Repeating);
    t.tick(600_000);
    assert!(!t.finished());
    assert_eq!(t.elapsed(), 600_000);
    t.tick(600_000);
    assert!(t.finished());
    assert!(t.just_finished());
    assert_eq!(t.times_finished_this_tick(), 1);
    assert_eq!(t.elapsed(), 200_000);
    t.tick(100_000);
    assert!(!t.finished());
    assert!(!t.just_finished());
    assert_eq!(t.elapsed(), 300_000);
}

#[test]
fn repeating_timer_counts_every_round_of_a_long_tick() {
    let mut t = Timer::new(1_000_000, TimerMode::Repeating);
    t.tick(2_500_000);
    assert!(t.finished());
    assert_eq!(t.times_finished_this_tick(), 2);
    assert_eq!(t.elapsed(), 500_000);
    t.tick(500_000);
    assert_eq!(t.times_finished_this_tick(), 1);
    assert_eq!(t.elapsed(), 0);
}

#[test]
fn repeating_timer_of_one_microsecond_with_the_longest_tick() {
    let mut t = Timer::new(1, TimerMode::Repeating);
    t.tick(u32::MAX);
    assert_eq!(t.times_finished_this_tick(), u32::MAX);
    assert_eq!(t.elapsed(), 0);
    assert!(t.finished());
}

#[test]
fn timer_with_the_longest_duration() {
    let mut t = Timer::new(u64::MAX, TimerMode::Once);
    t.tick(u32::MAX);
    assert_eq!(t.elapsed(), u32::MAX as u64);
    assert!(!t.finished());
    let mut r = Timer::new(u64::MAX, TimerMode::Repeating);
    r.tick(u32::MAX);
    r.tick(u32::MAX);
    assert_eq!(r.elapsed(), 2 * (u32::MAX as u64));
    assert!(!r.finished());
}

#[test]
fn reset_puts_a_timer_back() {
    let mut t = Timer::new(1_000_000, TimerMode::Once);
    t.tick(2_000_000);
    assert!(t.finished());
    t.reset();
    assert!(!t.finished());
    assert!(!t.just_finished());
    assert_eq!(t.elapsed(), 0);
    assert_eq!(t.duration(), 1_000_000);
    assert_eq!(t, Timer::new(1_000_000, TimerMode::Once));
}
