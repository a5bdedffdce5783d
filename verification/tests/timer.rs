use sport::duration::Duration;
use sport::errors::ErrorKind;
use sport::item::Item;
use sport::mobiletimer::{MobileTimer, Tick, PREPARE, PREPARE_LABEL};
use sport::player::Player;
use sport::sequence::Sequence;
use sport::signal::{SoundSignal, SoundState};
use sport::sound::Sound;
use sport::status::Status;
use std::cell::RefCell;

fn secs(seconds: u64) -> Duration {
    Duration::from_secs(seconds)
}

/// Remembers every cue it was asked to play.
struct Recorder {
    played: RefCell<Vec<Sound>>,
    fail: bool,
}

impl Recorder {
    fn new() -> Self {
        Recorder { played: RefCell::new(Vec::new()), fail: false }
    }

    fn failing() -> Self {
        Recorder { played: RefCell::new(Vec::new()), fail: true }
    }

    fn count(&self) -> usize {
        self.played.borrow().len()
    }
}

impl Player for Recorder {
    fn play(&self, sound: &Sound) -> Result<(), ErrorKind> {
        self.played.borrow_mut().push(*sound);
        if self.fail {
            Err(ErrorKind::PlayerError("no device".to_string()))
        } else {
            Ok(())
        }
    }

    fn muted(&self, sound: &Sound) -> Option<Result<bool, ErrorKind>> {
        if sound.is_silent() {
            None
        } else {
            Some(Ok(false))
        }
    }

    fn unmute(&self, _sound: &Sound) -> Result<(), ErrorKind> {
        Ok(())
    }
}

fn left(timer: &MobileTimer) -> Option<u64> {
    timer.current_workout().map(|workout| workout.stopwatch().left().as_secs())
}

#[test]
fn a_new_timer_is_paused_and_ticks_do_nothing() {
    let sequence = Sequence::simple("S", None, &[Item::new("A").workout(secs(3))], &Sound::Bell, None, None);
    let mut timer = MobileTimer::from_sequence(&sequence, &SoundSignal::default());
    let player = Recorder::new();
    assert!(timer.paused());
    assert!(!timer.running());
    assert_eq!(timer.status(), &Status::Paused);
    assert_eq!(timer.next_status(), Status::Running);
    assert_eq!(timer.preparation().duration().as_secs(), PREPARE);
    assert_eq!(timer.left().as_secs(), 15);
    assert_eq!(timer.label(), PREPARE_LABEL);
    assert_eq!(timer.label(), "Prepare");
    assert_eq!(timer.sequence(), &sequence);
    for _ in 0..5 {
        assert!(!timer.tick(&player));
    }
    assert_eq!(timer.left().as_secs(), 15);
    assert_eq!(timer.elapsed().as_secs(), 0);
    assert!(timer.current_workout().is_none());
    assert_eq!(player.count(), 0);
}

#[test]
fn toggle_starts_at_the_first_workout() {
    let sequence = Sequence::simple("S", None, &[Item::new("A").workout(secs(3)), Item::new("B").workout(secs(4))], &Sound::Silent, None, None);
    let mut timer = MobileTimer::new(secs(5), &sequence, &SoundSignal::default());
    timer.toggle();
    assert!(timer.running());
    assert_eq!(timer.label(), "A");
    assert_eq!(timer.left().as_secs(), 3);
    timer.toggle();
    assert!(timer.paused());
    assert_eq!(timer.label(), "A");
    timer.manual_next();
    timer.toggle();
    assert!(timer.running());
    assert_eq!(timer.label(), "B");
    let mut empty = MobileTimer::new(secs(5), &Sequence::default(), &SoundSignal::default());
    empty.toggle();
    assert!(empty.running());
    assert!(empty.current_workout().is_none());
}

#[test]
fn rounds_play_through_and_pause_at_the_end() {
    let work = Item::new("W").workout(secs(2));
    let sequence = Sequence::rounds("R", None, 3, work, secs(1), &Sound::Silent, None, None);
    let mut timer = MobileTimer::new(secs(5), &sequence, &SoundSignal::default());
    let player = Recorder::new();
    timer.toggle();
    let mut lefts = Vec::new();
    let mut labels = Vec::new();
    let mut ticks = 0;
    loop {
        ticks += 1;
        assert!(ticks < 100);
        let again = timer.tick(&player);
        if again {
            assert_eq!(left(&timer), timer.current_workout().map(|w| w.stopwatch().duration().as_secs()));
            continue;
        }
        if timer.paused() {
            break;
        }
        lefts.push(left(&timer).unwrap());
        labels.push(timer.label().to_string());
    }
    assert_eq!(lefts, vec![1, 0, 0, 1, 0, 0, 1, 0]);
    assert_eq!(labels, vec!["W", "W", "Rest", "W", "W", "Rest", "W", "W"]);
    assert!(timer.paused());
    assert!(timer.current_workout().is_none());
    assert!(!timer.tick(&player));
    assert!(timer.paused());
    assert_eq!(timer.elapsed().as_secs(), 13);
    assert_eq!(player.count(), 0);
}

#[test]
fn rounds_with_a_rest_as_long_as_the_work_alternate_one_and_zero() {
    let work = Item::new("W").workout(secs(2));
    let sequence = Sequence::rounds("R", None, 3, work, secs(2), &Sound::Silent, None, None);
    let mut timer = MobileTimer::new(secs(5), &sequence, &SoundSignal::default());
    let player = Recorder::new();
    timer.toggle();
    let mut lefts = Vec::new();
    loop {
        if timer.tick(&player) {
            continue;
        }
        if timer.paused() {
            break;
        }
        lefts.push(left(&timer).unwrap());
    }
    assert_eq!(lefts, vec![1, 0, 1, 0, 1, 0, 1, 0, 1, 0]);
    assert!(!timer.tick(&player));
    assert_eq!(timer.status(), &Status::Paused);
}

#[test]
fn manual_next_on_a_running_timer_absorbs_one_tick() {
    let sequence = Sequence::simple("S", None, &[Item::new("A").workout(secs(5)), Item::new("B").workout(secs(7))], &Sound::Beep, None, None);
    let mut timer = MobileTimer::new(secs(5), &sequence, &SoundSignal::default());
    let player = Recorder::new();
    timer.toggle();
    assert!(!timer.tick(&player));
    assert_eq!(left(&timer), Some(4));
    timer.manual_next();
    assert_eq!(timer.label(), "B");
    assert_eq!(left(&timer), Some(7));
    let elapsed = timer.elapsed().as_secs();
    assert!(!timer.tick(&player));
    assert_eq!(left(&timer), Some(7));
    assert_eq!(timer.elapsed().as_secs(), elapsed);
    assert!(!timer.tick(&player));
    assert_eq!(left(&timer), Some(6));
    timer.manual_previous();
    assert_eq!(timer.label(), "A");
    assert_eq!(left(&timer), Some(5));
    assert!(!timer.tick(&player));
    assert_eq!(left(&timer), Some(5));
    assert!(!timer.tick(&player));
    assert_eq!(left(&timer), Some(4));
}

#[test]
fn manual_steps_on_a_paused_timer_absorb_nothing() {
    let sequence = Sequence::simple("S", None, &[Item::new("A").workout(secs(5)), Item::new("B").workout(secs(7))], &Sound::Silent, None, None);
    let mut timer = MobileTimer::new(secs(5), &sequence, &SoundSignal::default());
    let player = Recorder::new();
    timer.manual_next();
    timer.manual_next();
    assert_eq!(timer.label(), "B");
    timer.manual_next();
    assert_eq!(timer.label(), "A");
    timer.manual_previous();
    assert_eq!(timer.label(), "B");
    timer.toggle();
    assert!(!timer.tick(&player));
    assert_eq!(left(&timer), Some(6));
}

#[test]
fn early_warning_rings_at_three_two_one() {
    let sequence = Sequence::simple("S", None, &[Item::new("A").workout(secs(5))], &Sound::Beep, None, None);
    let mut timer = MobileTimer::new(secs(5), &sequence, &SoundSignal::default());
    let player = Recorder::new();
    timer.toggle();
    let mut rings = Vec::new();
    for _ in 0..5 {
        let before = player.count();
        assert!(!timer.tick(&player));
        rings.push((left(&timer).unwrap(), player.count() - before));
    }
    assert_eq!(rings, vec![(4, 0), (3, 1), (2, 1), (1, 1), (0, 0)]);
    let before = player.count();
    assert!(!timer.tick(&player));
    assert_eq!(player.count(), before);
    assert!(timer.paused());
    assert_eq!(player.played.borrow().as_slice(), &[Sound::Beep, Sound::Beep, Sound::Beep]);
}

#[test]
fn advance_reports_the_cue_without_playing_it() {
    let sequence = Sequence::simple("S", None, &[Item::new("A").workout(secs(2)), Item::new("B").workout(secs(1))], &Sound::Bell, None, None);
    let mut timer = MobileTimer::new(secs(5), &sequence, &SoundSignal::from_muted(true));
    timer.toggle();
    assert_eq!(timer.advance(), Tick { again: false, signal: None });
    assert_eq!(timer.advance(), Tick { again: false, signal: None });
    assert_eq!(timer.advance(), Tick { again: true, signal: Some(Sound::Bell) });
    assert_eq!(timer.label(), "B");
    assert_eq!(timer.advance(), Tick { again: false, signal: None });
    assert_eq!(timer.advance(), Tick { again: false, signal: Some(Sound::Bell) });
    assert!(timer.paused());
    assert_eq!(timer.advance(), Tick { again: false, signal: None });
}

#[test]
fn the_bell_rings_on_expiry_unless_muted() {
    let sequence = Sequence::simple("S", None, &[Item::new("A").workout(secs(1)), Item::new("B").workout(secs(1))], &Sound::Bell, None, None);
    let player = Recorder::new();
    let mut timer = MobileTimer::new(secs(5), &sequence, &SoundSignal::default());
    timer.toggle();
    assert!(!timer.tick(&player));
    assert_eq!(player.count(), 0);
    assert!(timer.tick(&player));
    assert_eq!(player.count(), 1);
    assert!(!timer.tick(&player));
    assert!(!timer.tick(&player));
    assert_eq!(player.played.borrow().as_slice(), &[Sound::Bell, Sound::Bell]);

    let quiet = Recorder::new();
    let mut muted = MobileTimer::new(secs(5), &sequence, &SoundSignal::from_muted(true));
    muted.toggle();
    for _ in 0..4 {
        muted.tick(&quiet);
    }
    assert!(muted.paused());
    assert_eq!(quiet.count(), 0);
    muted.toggle_sound();
    assert!(muted.sound_signal().enabled());
    assert!(muted.always_ring(&quiet).is_ok());
    assert_eq!(quiet.count(), 1);
}

#[test]
fn a_failing_device_changes_nothing() {
    let sequence = Sequence::simple("S", None, &[Item::new("A").workout(secs(1)), Item::new("B").workout(secs(1))], &Sound::Bell, None, None);
    let broken = Recorder::failing();
    let working = Recorder::new();
    let mut one = MobileTimer::new(secs(5), &sequence, &SoundSignal::default());
    let mut other = MobileTimer::new(secs(5), &sequence, &SoundSignal::default());
    one.toggle();
    other.toggle();
    for _ in 0..6 {
        assert_eq!(one.tick(&broken), other.tick(&working));
        assert_eq!(one.sequence(), other.sequence());
        assert_eq!(one.status(), other.status());
    }
    assert_eq!(broken.count(), 2);
    assert!(one.always_ring(&broken).is_err());
}

#[test]
fn preparation_counts_down_after_a_restart_while_running() {
    let sequence = Sequence::simple("S", None, &[Item::new("A").workout(secs(2))], &Sound::Beep, None, None);
    let mut timer = MobileTimer::new(secs(5), &sequence, &SoundSignal::default());
    let player = Recorder::new();
    timer.toggle();
    assert!(!timer.tick(&player));
    timer.restart_sequence();
    assert!(timer.running());
    assert!(timer.current_workout().is_none());
    assert_eq!(timer.label(), "Prepare");
    assert_eq!(timer.left().as_secs(), 5);
    assert!(!timer.tick(&player));
    assert_eq!(timer.left().as_secs(), 5);
    let mut seen = Vec::new();
    for _ in 0..5 {
        let before = player.count();
        assert!(!timer.tick(&player));
        seen.push((timer.left().as_secs(), player.count() - before));
    }
    assert_eq!(seen, vec![(4, 0), (3, 1), (2, 1), (1, 1), (0, 0)]);
    assert!(timer.tick(&player));
    assert_eq!(timer.label(), "A");
    assert_eq!(timer.left().as_secs(), 2);
    assert_eq!(timer.preparation().left().as_secs(), 5);
    assert!(!timer.tick(&player));
    assert_eq!(timer.left().as_secs(), 1);
}

#[test]
fn restart_workout_resets_the_current_countdown() {
    let sequence = Sequence::simple("S", None, &[Item::new("A").workout(secs(4))], &Sound::Silent, None, None);
    let mut timer = MobileTimer::new(secs(5), &sequence, &SoundSignal::default());
    let player = Recorder::new();
    timer.toggle();
    timer.tick(&player);
    timer.tick(&player);
    assert_eq!(left(&timer), Some(2));
    timer.restart_workout();
    assert!(timer.running());
    assert_eq!(left(&timer), Some(4));
    assert!(!timer.tick(&player));
    assert_eq!(left(&timer), Some(3));
}

#[test]
fn set_sequence_replaces_the_sequence() {
    let first = Sequence::simple("first", None, &[Item::new("A").workout(secs(4))], &Sound::Silent, None, None);
    let mut second = Sequence::simple("second", None, &[Item::new("B").workout(secs(9))], &Sound::Bell, None, None);
    second.manual_next();
    second.decrement();
    let mut timer = MobileTimer::new(secs(5), &first, &SoundSignal::default());
    timer.toggle();
    timer.set_sequence(&second);
    assert!(timer.running());
    assert_eq!(timer.sequence().name(), "second (9s total)");
    assert!(timer.current_workout().is_none());
    assert_eq!(timer.sequence().left_total().as_secs(), 9);
    assert_eq!(timer.left().as_secs(), 5);
}

#[test]
fn timer_shuffle_goes_to_the_sequence() {
    let workouts: Vec<_> = (0..10).map(|i| Item::new(&format!("w{i}")).workout(secs(30))).collect();
    let sequence = Sequence::random("Random", None, &workouts, secs(10), &Sound::Beep, None, None);
    let mut timer = MobileTimer::new(secs(5), &sequence, &SoundSignal::default());
    timer.toggle();
    timer.shuffle();
    assert!(timer.running());
    assert!(timer.current_workout().is_none());
    assert_eq!(timer.sequence().len(), 19);
}

#[test]
fn for_slug_picks_the_sequence_or_fails() {
    let first = Sequence::simple("Warm Up", None, &[Item::new("A").workout(secs(1))], &Sound::Silent, None, None);
    let second = Sequence::simple("Cool Down", None, &[], &Sound::Bell, None, None);
    let catalog = vec![first, second.clone()];
    let timer = MobileTimer::for_slug(true, 0, "cool-down-0s-total", &catalog).unwrap();
    assert_eq!(timer.sequence(), &second);
    assert_eq!(timer.preparation().duration().as_secs(), 15);
    assert_eq!(timer.sound_signal().state(), SoundState::Disabled);
    assert!(timer.paused());
    let timer = MobileTimer::for_slug(false, 7, "warm-up-1s-total", &catalog).unwrap();
    assert_eq!(timer.preparation().duration().as_secs(), 7);
    assert!(timer.sound_signal().enabled());
    let missing = MobileTimer::for_slug(false, 7, "nothing", &catalog);
    assert!(matches!(missing, Err(ErrorKind::InvalidSequence)));
    assert!(matches!(MobileTimer::for_slug(false, 7, "nothing", &[]), Err(ErrorKind::InvalidSequence)));
}
