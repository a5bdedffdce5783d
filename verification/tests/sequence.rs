use sport::duration::Duration;
use sport::exercises::Exercises;
use sport::item::Item;
use sport::sequence::Sequence;
use sport::sound::Sound;
use sport::tag::{Body, Difficulty, Mouvement, Tag, Tags};
use sport::workout::Workout;

fn secs(seconds: u64) -> Duration {
    Duration::from_secs(seconds)
}

fn names(sequence: &Sequence) -> Vec<String> {
    sequence
        .workouts()
        .iter()
        .map(|workout| workout.name().to_string())
        .collect()
}

fn lefts(sequence: &Sequence) -> Vec<u64> {
    sequence
        .workouts()
        .iter()
        .map(|workout| workout.stopwatch().left().as_secs())
        .collect()
}

#[test]
fn sequence_simple_tests() {
    let warm_up = Item::new("warm up").workout(secs(3));
    let workout = Item::new("workout").workout(secs(6));
    let mut simple = Sequence::simple(
        "simple sequence",
        None,
        &[warm_up.clone(), workout.clone()],
        &Sound::Silent,
        None,
        None,
    );

    assert!(simple.auto_next().is_some());
    assert_eq!(simple.get(), Some(&warm_up));

    assert!(simple.auto_next().is_some());
    assert_eq!(simple.get(), Some(&workout));

    assert!(simple.auto_next().is_none());
    assert_eq!(simple.get(), None);

    simple.manual_next();
    assert_eq!(simple.get(), Some(&warm_up));

    simple.manual_next();
    assert_eq!(simple.get(), Some(&workout));

    assert!(simple.auto_next().is_none());
    assert_eq!(simple.get(), None);

    simple.manual_next();
    assert_eq!(simple.get(), Some(&warm_up));

    simple.reset();
    assert_eq!(simple.get(), None);
}

#[test]
fn auto_next_ends_and_manual_next_wraps() {
    let a = Item::new("A").workout(secs(3));
    let b = Item::new("B").workout(secs(6));
    let mut sequence = Sequence::simple("S", None, &[a.clone(), b.clone()], &Sound::Silent, None, None);
    assert_eq!(sequence.auto_next().map(|w| w.clone()), Some(a.clone()));
    assert_eq!(sequence.auto_next().map(|w| w.clone()), Some(b.clone()));
    assert_eq!(sequence.auto_next(), None);
    assert_eq!(sequence.index(), None);
    assert_eq!(sequence.manual_next().map(|w| w.clone()), Some(a.clone()));
    assert_eq!(sequence.index(), Some(0));
    assert_eq!(sequence.manual_next().map(|w| w.clone()), Some(b.clone()));
    assert_eq!(sequence.manual_next().map(|w| w.clone()), Some(a));
    assert_eq!(sequence.index(), Some(0));
}

#[test]
fn simple_keeps_order_and_names_the_total() {
    let a = Item::new("A").workout(secs(20));
    let b = Item::new("B").workout(secs(40));
    let c = Item::new("C").workout(secs(30));
    let sequence = Sequence::simple(
        "Warm-up",
        Some("loosen up"),
        &[a, b, c],
        &Sound::Beep,
        Some(Difficulty::Easy),
        Some('x'),
    );
    assert_eq!(sequence.name(), "Warm-up (1:30 total)");
    assert_eq!(sequence.description(), &Some("loosen up".to_string()));
    assert_eq!(names(&sequence), vec!["A", "B", "C"]);
    assert_eq!(sequence.sound(), &Sound::Beep);
    assert_eq!(sequence.difficulty(), Some(Difficulty::Easy));
    assert_eq!(sequence.icon(), Some('x'));
    assert!(!sequence.shufflable());
    assert_eq!(sequence.index(), None);
    assert_eq!(sequence.total().as_secs(), 90);
    let short = Sequence::simple("Short", None, &[Item::new("A").workout(secs(45))], &Sound::Silent, None, None);
    assert_eq!(short.name(), "Short (45s total)");
    let empty = Sequence::simple("Empty", None, &[], &Sound::Silent, None, None);
    assert_eq!(empty.name(), "Empty (0s total)");
    assert!(empty.is_empty());
    assert!(empty.last());
}

#[test]
fn rounds_puts_a_rest_between_rounds_only() {
    let work = Item::new("W").workout(secs(120));
    let sequence = Sequence::rounds("R", None, 3, work.clone(), secs(30), &Sound::Bell, None, None);
    assert_eq!(sequence.name(), "R (30s rest)");
    assert_eq!(names(&sequence), vec!["W", "Rest", "W", "Rest", "W"]);
    assert_eq!(lefts(&sequence), vec![120, 30, 120, 30, 120]);
    assert_eq!(sequence.len(), 5);
    assert!(!sequence.shufflable());
    assert_eq!(sequence.workouts()[1], Workout::rest(secs(30)));
    assert!(sequence.workouts()[1].is_rest());
    assert!(!sequence.workouts()[0].is_rest());
    assert_eq!(sequence.total().as_secs(), 420);
    assert_eq!(sequence.workout_total().as_secs(), 360);
    assert_eq!(sequence.rest_total().as_secs(), 60);
    assert_eq!(sequence.left_total().as_secs(), 420);

    let one = Sequence::rounds("R", None, 1, work.clone(), secs(30), &Sound::Bell, None, None);
    assert_eq!(names(&one), vec!["W"]);
    let none = Sequence::rounds("R", None, 0, work, secs(90), &Sound::Bell, None, None);
    assert!(none.is_empty());
    assert_eq!(none.name(), "R (90s rest)");
}

#[test]
fn repeat_goes_through_the_exercises_each_round() {
    let exercises = Exercises::from_strings(vec!["jab", "cross"], None);
    let sequence = Sequence::repeat(
        "Boxing",
        None,
        exercises,
        secs(20),
        3,
        secs(10),
        &Sound::Beep,
        None,
        None,
    );
    assert_eq!(sequence.name(), "Boxing (10s rest)");
    assert_eq!(
        names(&sequence),
        vec!["jab", "cross", "Rest", "jab", "cross", "Rest", "jab", "cross"]
    );
    assert_eq!(lefts(&sequence), vec![20, 20, 10, 20, 20, 10, 20, 20]);
    assert!(!sequence.shufflable());
    assert_eq!(sequence.workouts()[0].item().icon(), Some('🎯'));

    let no_exercise = Sequence::repeat(
        "Nothing",
        None,
        Exercises::from_items(vec![]),
        secs(20),
        3,
        secs(10),
        &Sound::Beep,
        None,
        None,
    );
    assert_eq!(names(&no_exercise), vec!["Rest", "Rest"]);
    let no_round = Sequence::repeat(
        "Nothing",
        None,
        Exercises::from_strings(vec!["jab"], Some('j')),
        secs(20),
        0,
        secs(10),
        &Sound::Beep,
        None,
        None,
    );
    assert!(no_round.is_empty());
}

fn check_interleave(sequence: &Sequence, mut expected: Vec<String>, rest: u64) {
    let workouts = sequence.workouts();
    assert_eq!(workouts.len(), 2 * expected.len() - 1);
    let mut work = Vec::new();
    for (slot, workout) in workouts.iter().enumerate() {
        if slot % 2 == 1 {
            assert_eq!(workout, &Workout::rest(secs(rest)));
        } else {
            assert!(!workout.is_rest());
            work.push(workout.name().to_string());
        }
    }
    work.sort();
    expected.sort();
    assert_eq!(work, expected);
}

#[test]
fn random_intersperses_rest_and_is_shuffle_eligible() {
    let workouts: Vec<Workout> = (0..20)
        .map(|i| Item::new(&format!("w{i}")).workout(secs(30)))
        .collect();
    let expected: Vec<String> = (0..20).map(|i| format!("w{i}")).collect();
    let sequence = Sequence::random("Random", None, &workouts, secs(10), &Sound::Beep, None, Some('r'));
    assert_eq!(sequence.name(), "Random");
    assert!(sequence.shufflable());
    assert_eq!(sequence.index(), None);
    check_interleave(&sequence, expected, 10);
}

#[test]
fn shuffle_keeps_the_interleave_and_the_workouts() {
    let workouts: Vec<Workout> = (0..20)
        .map(|i| Item::new(&format!("w{i}")).workout(secs(30)))
        .collect();
    let expected: Vec<String> = (0..20).map(|i| format!("w{i}")).collect();
    let mut sequence = Sequence::random("Random", None, &workouts, secs(10), &Sound::Beep, None, None);
    sequence.manual_next();
    assert_eq!(sequence.index(), Some(0));
    sequence.reset();
    let mut orders = Vec::new();
    for _ in 0..5 {
        sequence.shuffle();
        assert_eq!(sequence.index(), None);
        check_interleave(&sequence, expected.clone(), 10);
        orders.push(names(&sequence));
    }
    orders.dedup();
    assert!(orders.len() > 1);
}

#[test]
fn shuffle_takes_played_rests_out_too() {
    let workouts = vec![Item::new("a").workout(secs(5)), Item::new("b").workout(secs(5))];
    let mut sequence = Sequence::random("Random", None, &workouts, secs(3), &Sound::Beep, None, None);
    sequence.set_index(1);
    assert!(sequence.decrement());
    assert_eq!(lefts(&sequence), vec![5, 2, 5]);
    sequence.shuffle();
    let all = names(&sequence);
    assert_eq!(all.len(), 3);
    assert_eq!(all.iter().filter(|name| name.as_str() == "Rest").count(), 1);
    assert_eq!(sequence.index(), None);
    check_interleave(&sequence, vec!["a".to_string(), "b".to_string()], 3);
    assert_eq!(lefts(&sequence), vec![5, 3, 5]);
}

#[test]
fn shuffle_keeps_the_pattern_of_a_sequence_played_to_the_end() {
    let workouts: Vec<Workout> = (0..6)
        .map(|i| Item::new(&format!("w{i}")).workout(secs(2)))
        .collect();
    let expected: Vec<String> = (0..6).map(|i| format!("w{i}")).collect();
    let mut sequence = Sequence::random("Random", None, &workouts, secs(1), &Sound::Beep, None, None);
    while sequence.auto_next().is_some() {
        while sequence.decrement() {}
    }
    assert_eq!(sequence.left_total().as_secs(), 0);
    sequence.shuffle();
    assert_eq!(sequence.len(), 11);
    assert_eq!(sequence.rest_total().as_secs(), 5);
    check_interleave(&sequence, expected, 1);
    assert_eq!(lefts(&sequence), vec![0, 1, 0, 1, 0, 1, 0, 1, 0, 1, 0]);
}

#[test]
fn shuffle_drops_a_rest_that_was_given_as_work() {
    let workouts = vec![
        Item::new("a").workout(secs(5)),
        Workout::rest(secs(9)),
        Item::new("b").workout(secs(5)),
    ];
    let mut sequence = Sequence::random("Random", None, &workouts, secs(3), &Sound::Beep, None, None);
    assert_eq!(sequence.len(), 5);
    sequence.shuffle();
    assert_eq!(sequence.len(), 3);
    check_interleave(&sequence, vec!["a".to_string(), "b".to_string()], 3);
}

#[test]
fn shuffle_is_ignored_by_other_sequences() {
    let a = Item::new("A").workout(secs(3));
    let b = Item::new("B").workout(secs(6));
    let mut simple = Sequence::simple("S", None, &[a, b], &Sound::Silent, None, None);
    simple.manual_next();
    let before = simple.clone();
    for _ in 0..10 {
        simple.shuffle();
    }
    assert_eq!(simple, before);
    let mut rounds = Sequence::rounds("R", None, 4, Item::new("W").workout(secs(9)), secs(1), &Sound::Bell, None, None);
    let before = rounds.clone();
    rounds.shuffle();
    assert_eq!(rounds, before);
}

#[test]
fn shuffle_without_rest_reorders_in_place() {
    let workouts: Vec<Workout> = (0..30)
        .map(|i| Item::new(&format!("w{i}")).workout(secs(30)))
        .collect();
    let mut sequence = Sequence::new(
        "loose".to_string(),
        None,
        workouts,
        Sound::Silent,
        None,
        true,
        None,
        None,
    );
    sequence.set_index(4);
    let before = names(&sequence);
    sequence.shuffle();
    assert_eq!(sequence.index(), Some(4));
    let mut after = names(&sequence);
    assert_eq!(after.len(), 30);
    after.sort();
    let mut sorted = before;
    sorted.sort();
    assert_eq!(after, sorted);
}

#[test]
fn goto_previous_wraps_and_resets() {
    let a = Item::new("A").workout(secs(3));
    let b = Item::new("B").workout(secs(6));
    let mut sequence = Sequence::simple("S", None, &[a, b], &Sound::Silent, None, None);
    assert_eq!(sequence.goto_previous().map(|w| w.name().to_string()), Some("B".to_string()));
    assert!(sequence.decrement());
    assert_eq!(lefts(&sequence), vec![3, 5]);
    assert_eq!(sequence.goto_previous().map(|w| w.name().to_string()), Some("A".to_string()));
    assert_eq!(sequence.goto_previous().map(|w| w.name().to_string()), Some("B".to_string()));
    assert_eq!(lefts(&sequence), vec![3, 6]);
    let mut empty = Sequence::simple("E", None, &[], &Sound::Silent, None, None);
    assert!(empty.goto_previous().is_none());
    assert!(empty.manual_next().is_none());
    assert!(empty.auto_next().is_none());
    assert_eq!(empty.index(), None);
}

#[test]
fn decrement_and_reset_act_on_the_current_workout() {
    let a = Item::new("A").workout(secs(2));
    let b = Item::new("B").workout(secs(5));
    let mut sequence = Sequence::simple("S", None, &[a, b], &Sound::Silent, None, None);
    assert!(!sequence.decrement());
    assert!(!sequence.last_seconds());
    assert!(sequence.stopwatch().is_none());
    sequence.manual_next();
    assert!(sequence.decrement());
    assert!(sequence.last_seconds());
    assert!(sequence.decrement());
    assert!(!sequence.decrement());
    assert!(!sequence.last_seconds());
    assert_eq!(lefts(&sequence), vec![0, 5]);
    assert_eq!(sequence.left_total().as_secs(), 5);
    assert_eq!(sequence.stopwatch().map(|s| s.elapsed().as_secs()), Some(2));
    sequence.reset_workout();
    assert_eq!(lefts(&sequence), vec![2, 5]);
    sequence.manual_next();
    sequence.decrement();
    assert_eq!(lefts(&sequence), vec![2, 4]);
    sequence.reset();
    assert_eq!(sequence.index(), None);
    assert_eq!(lefts(&sequence), vec![2, 5]);
}

#[test]
fn totals_stop_at_the_largest_duration() {
    let a = Item::new("A").workout(secs(u64::MAX));
    let b = Item::new("B").workout(secs(5));
    let sequence = Sequence::simple("S", None, &[a, b], &Sound::Silent, None, None);
    assert_eq!(sequence.total().as_secs(), u64::MAX);
}

#[test]
fn tags_are_those_of_the_work_each_once() {
    let plank = Item::new("Plank").with_tags(Tags::new(vec![
        Tag::Mouvement(Mouvement::Stationary),
        Tag::Body(Body::Core),
    ]));
    let crunch = Item::new("Crunch").with_tags(Tags::new(vec![
        Tag::Body(Body::Abs),
        Tag::Body(Body::Core),
    ]));
    let workouts = vec![plank.workout(secs(30)), crunch.workout(secs(30)), plank.workout(secs(10))];
    let sequence = Sequence::random("Core", None, &workouts, secs(10), &Sound::Beep, None, None);
    let mut tags = sequence.tags();
    assert_eq!(tags.len(), 3);
    assert!(!tags.contains(&Tag::Rest));
    tags.retain(|tag| {
        ![Tag::Mouvement(Mouvement::Stationary), Tag::Body(Body::Core), Tag::Body(Body::Abs)]
            .contains(tag)
    });
    assert!(tags.is_empty());
    let ordered = Sequence::simple("Core", None, &workouts, &Sound::Beep, None, None);
    assert_eq!(
        ordered.tags(),
        vec![Tag::Mouvement(Mouvement::Stationary), Tag::Body(Body::Core), Tag::Body(Body::Abs)]
    );
}

#[test]
fn slug_is_made_from_the_name() {
    let sequence = Sequence::rounds("1m/5x Workout", None, 5, Item::new("W").workout(secs(60)), secs(30), &Sound::Beep, None, None);
    assert_eq!(sequence.name(), "1m/5x Workout (30s rest)");
    assert_eq!(sequence.slug(), "1m-5x-workout-30s-rest");
    assert_ne!(sequence.slug(), sequence.name());
}

#[test]
fn find_by_slug_takes_the_first_match() {
    let first = Sequence::simple("Warm Up", None, &[Item::new("A").workout(secs(1))], &Sound::Silent, None, None);
    let second = Sequence::simple("Cool Down", None, &[], &Sound::Bell, None, None);
    let third = Sequence::simple("warm-up", None, &[Item::new("B").workout(secs(1))], &Sound::Beep, None, None);
    let catalog = vec![first.clone(), second.clone(), third];
    assert_eq!(Sequence::slugs(&catalog), vec!["warm-up-1s-total", "cool-down-0s-total", "warm-up-1s-total"]);
    assert_eq!(Sequence::find_by_slug(&catalog, "warm-up-1s-total"), Some(&first));
    assert_eq!(Sequence::find_by_slug(&catalog, "cool-down-0s-total"), Some(&second));
    assert_eq!(Sequence::find_by_slug(&catalog, "Warm Up (1s total)"), None);
    assert_eq!(Sequence::find_by_slug(&catalog, ""), None);
    assert_eq!(Sequence::find_by_slug(&[], "warm-up-1s-total"), None);
}

#[test]
fn position_of_finds_the_first_equal_text() {
    let slugs = vec!["a".to_string(), "b".to_string(), "a".to_string()];
    assert_eq!(sport::slugs::position_of(&slugs, "a"), Some(0));
    assert_eq!(sport::slugs::position_of(&slugs, "b"), Some(1));
    assert_eq!(sport::slugs::position_of(&slugs, "c"), None);
    assert_eq!(sport::slugs::position_of(&vec![], "a"), None);
}

#[test]
fn a_workout_makes_a_sequence_of_its_own() {
    let item = Item::new("Workout").with_icon('🎯').with_description("Generic workout");
    let sequence = item.workout(secs(120)).sequence(&Sound::Bell);
    assert_eq!(sequence.name(), "Workout (2:00)");
    assert_eq!(sequence.description(), &Some("Generic workout".to_string()));
    assert_eq!(sequence.icon(), Some('🎯'));
    assert_eq!(sequence.sound(), &Sound::Bell);
    assert_eq!(sequence.len(), 1);
    assert!(!sequence.shufflable());
    assert_eq!(sequence.difficulty(), None);
    let bare = Item::new("Run").workout(secs(30)).sequence(&Sound::Silent);
    assert_eq!(bare.name(), "Run (30s)");
    assert_eq!(bare.description(), &Some(String::new()));
    assert_eq!(bare.icon(), Some('\0'));
}

#[test]
fn default_sequence_is_empty_and_silent() {
    let sequence = Sequence::default();
    assert_eq!(sequence.name(), "");
    assert!(sequence.is_empty());
    assert!(sequence.sound().is_silent());
    assert!(!sequence.shufflable());
}
