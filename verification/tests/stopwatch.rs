use sport::duration::{Duration, DurationExt};
use sport::stopwatch::Stopwatch;

#[test]
fn duration_counts_whole_seconds() {
    let mut duration = Duration::from_secs(2);
    assert_eq!(duration.as_secs(), 2);
    assert!(duration.decrement());
    assert!(duration.decrement());
    assert_eq!(duration.as_secs(), 0);
    assert!(!duration.decrement());
    assert_eq!(duration.as_secs(), 0);
    duration.increment();
    assert_eq!(duration.as_secs(), 1);
    assert_eq!(Duration::default(), Duration::from_secs(0));
}

#[test]
fn duration_increment_saturates() {
    let mut duration = Duration::from_secs(u64::MAX);
    duration.increment();
    assert_eq!(duration.as_secs(), u64::MAX);
    let mut through_trait = Duration::from_secs(u64::MAX - 1);
    DurationExt::increment(&mut through_trait);
    assert_eq!(through_trait.as_secs(), u64::MAX);
    DurationExt::increment(&mut through_trait);
    assert_eq!(through_trait.as_secs(), u64::MAX);
    assert!(DurationExt::decrement(&mut through_trait));
    assert_eq!(through_trait.as_secs(), u64::MAX - 1);
}

#[test]
fn duration_text_switches_to_minutes_after_sixty_seconds() {
    assert_eq!(DurationExt::to_string(&Duration::from_secs(0)), "0s");
    assert_eq!(DurationExt::to_string(&Duration::from_secs(7)), "7s");
    assert_eq!(DurationExt::to_string(&Duration::from_secs(45)), "45s");
    assert_eq!(DurationExt::to_string(&Duration::from_secs(60)), "60s");
    assert_eq!(DurationExt::to_string(&Duration::from_secs(61)), "1:01");
    assert_eq!(DurationExt::to_string(&Duration::from_secs(125)), "2:05");
    assert_eq!(DurationExt::to_string(&Duration::from_secs(600)), "10:00");
    assert_eq!(DurationExt::to_string(&Duration::from_secs(3599)), "59:59");
    assert_eq!(
        DurationExt::to_string(&Duration::from_secs(u64::MAX)),
        format!("{}:{:02}", u64::MAX / 60, u64::MAX % 60)
    );
}

#[test]
fn duration_clock_always_shows_minutes() {
    assert_eq!(Duration::from_secs(0).clock(), "0:00");
    assert_eq!(Duration::from_secs(5).clock(), "0:05");
    assert_eq!(Duration::from_secs(65).clock(), "1:05");
    assert_eq!(Duration::from_secs(1234).clock(), "20:34");
}

#[test]
fn stopwatch_counts_down_and_stops_at_zero() {
    let mut stopwatch = Stopwatch::new(Duration::from_secs(2));
    assert_eq!(stopwatch.duration().as_secs(), 2);
    assert_eq!(stopwatch.left().as_secs(), 2);
    assert_eq!(stopwatch.elapsed().as_secs(), 0);
    assert!(stopwatch.decrement());
    assert_eq!(stopwatch.left().as_secs(), 1);
    assert_eq!(stopwatch.elapsed().as_secs(), 1);
    assert!(stopwatch.decrement());
    assert_eq!(stopwatch.left().as_secs(), 0);
    assert_eq!(stopwatch.elapsed().as_secs(), 2);
    for _ in 0..10 {
        assert!(!stopwatch.decrement());
        assert_eq!(stopwatch.left().as_secs(), 0);
        assert_eq!(stopwatch.elapsed().as_secs(), 2);
        assert_eq!(stopwatch.duration().as_secs(), 2);
    }
    stopwatch.reset();
    assert_eq!(stopwatch.left().as_secs(), 2);
    assert_eq!(stopwatch.elapsed().as_secs(), 2);
    assert!(stopwatch.decrement());
}

#[test]
fn stopwatch_reset_can_be_chained() {
    let mut stopwatch = Stopwatch::new(Duration::from_secs(3));
    stopwatch.decrement();
    assert!(stopwatch.reset().decrement());
    assert_eq!(stopwatch.left().as_secs(), 2);
}

#[test]
fn stopwatch_last_seconds_is_one_to_three() {
    let mut stopwatch = Stopwatch::new(Duration::from_secs(5));
    let mut window = Vec::new();
    loop {
        window.push((stopwatch.left().as_secs(), stopwatch.last_seconds()));
        if !stopwatch.decrement() {
            break;
        }
    }
    assert_eq!(
        window,
        vec![(5, false), (4, false), (3, true), (2, true), (1, true), (0, false)]
    );
}

#[test]
fn stopwatch_increment_adds_to_what_is_left() {
    let mut stopwatch = Stopwatch::new(Duration::from_secs(0));
    stopwatch.increment();
    assert_eq!(stopwatch.left().as_secs(), 1);
    assert_eq!(stopwatch.duration().as_secs(), 0);
    assert_eq!(stopwatch.elapsed().as_secs(), 0);
    let mut full = Stopwatch::new(Duration::from_secs(u64::MAX));
    full.increment();
    assert_eq!(full.left().as_secs(), u64::MAX);
}

#[test]
fn stopwatch_shows_left_and_span() {
    let mut stopwatch = Stopwatch::new(Duration::from_secs(90));
    for _ in 0..45 {
        stopwatch.decrement();
    }
    assert_eq!(stopwatch.to_string(), "45s / 1:30");
    assert_eq!(Stopwatch::default().to_string(), "0s / 0s");
}

#[test]
fn stopwatches_compare_by_value() {
    let mut left = Stopwatch::new(Duration::from_secs(3));
    let right = Stopwatch::new(Duration::from_secs(3));
    assert_eq!(left, right);
    left.decrement();
    assert_ne!(left, right);
    left.reset();
    assert_ne!(left, right);
    assert_ne!(Stopwatch::new(Duration::from_secs(4)), right);
}
