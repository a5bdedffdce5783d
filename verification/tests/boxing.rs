use sport::boxing_timer::BoxingTimer;
use sport::duration::Duration;
use sport::item::Item;
use sport::sequence::Sequence;
use sport::sound::Sound;
use sport::status::Status;

fn secs(seconds: u64) -> Duration {
    Duration::from_secs(seconds)
}

fn rounds() -> Sequence {
    Sequence::rounds("Fight", None, 2, Item::new("Round").workout(secs(2)), secs(1), &Sound::Bell, None, None)
}

#[test]
fn a_new_round_timer_waits() {
    let mut timer = BoxingTimer::new(rounds());
    assert_eq!(timer.status(), &Status::Paused);
    assert_eq!(timer.next_status(), Status::Running);
    assert_eq!(timer.current_item(), None);
    assert_eq!(timer.sequence().len(), 3);
    assert!(!timer.tick());
    assert_eq!(timer.current_item(), None);
    assert_eq!(timer.stopwatch().left().as_secs(), 0);
}

#[test]
fn round_timer_plays_through_and_rings_between_workouts() {
    let mut timer = BoxingTimer::new(rounds());
    timer.toggle();
    assert_eq!(timer.status(), &Status::Running);
    assert_eq!(timer.current_item(), Some(0));
    assert_eq!(timer.stopwatch().left().as_secs(), 2);
    let mut seen = Vec::new();
    for _ in 0..8 {
        let ring = timer.tick();
        seen.push((timer.current_item(), timer.stopwatch().left().as_secs(), ring));
    }
    assert_eq!(
        seen,
        vec![
            (Some(0), 1, false),
            (Some(0), 0, false),
            (Some(1), 1, true),
            (Some(1), 0, false),
            (Some(2), 2, true),
            (Some(2), 1, false),
            (Some(2), 0, false),
            (None, 0, true),
        ]
    );
    assert_eq!(timer.status(), &Status::Paused);
    assert!(!timer.tick());
    timer.toggle();
    assert_eq!(timer.current_item(), Some(0));
    assert_eq!(timer.stopwatch().left().as_secs(), 2);
}

#[test]
fn round_timer_steps_stop_at_the_ends() {
    let mut timer = BoxingTimer::new(rounds());
    timer.goto_next();
    assert_eq!(timer.current_item(), Some(0));
    timer.goto_previous();
    assert_eq!(timer.current_item(), Some(0));
    timer.goto_next();
    timer.goto_next();
    assert_eq!(timer.current_item(), Some(2));
    assert_eq!(timer.stopwatch().left().as_secs(), 2);
    timer.goto_next();
    assert_eq!(timer.current_item(), Some(2));
    timer.goto_previous();
    assert_eq!(timer.current_item(), Some(1));
    assert_eq!(timer.stopwatch().left().as_secs(), 1);
    let mut fresh = BoxingTimer::new(rounds());
    fresh.goto_previous();
    assert_eq!(fresh.current_item(), Some(0));
    assert_eq!(fresh.status(), &Status::Paused);
}

#[test]
fn round_timer_resets() {
    let mut timer = BoxingTimer::new(rounds());
    timer.reset_current();
    assert_eq!(timer.current_item(), None);
    timer.toggle();
    timer.tick();
    timer.goto_next();
    timer.goto_next();
    timer.tick();
    assert_eq!(timer.stopwatch().left().as_secs(), 1);
    timer.reset_current();
    assert_eq!(timer.current_item(), Some(2));
    assert_eq!(timer.stopwatch().left().as_secs(), 2);
    timer.reset_beginning();
    assert_eq!(timer.current_item(), Some(0));
    assert_eq!(timer.status(), &Status::Running);
    timer.toggle();
    assert_eq!(timer.status(), &Status::Paused);
    assert!(!timer.tick());
    assert_eq!(timer.stopwatch().left().as_secs(), 2);
}

#[test]
fn round_timer_on_an_empty_sequence_never_starts() {
    let mut timer = BoxingTimer::new(Sequence::default());
    timer.toggle();
    assert_eq!(timer.status(), &Status::Running);
    assert_eq!(timer.current_item(), None);
    timer.goto_next();
    timer.goto_previous();
    timer.reset_beginning();
    assert_eq!(timer.current_item(), None);
    assert!(!timer.tick());
}
