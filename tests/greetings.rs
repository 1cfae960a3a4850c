use greetings::greeting::get_greeting;
use greetings::greeting_set::GreetingSet;
use greetings::person::{update_kat, update_kat_person, Name, Person, Position, Position2D};
use greetings::text::push_int;
use greetings::timer::GreetTimer;
use greetings::tracker::GreetPreviousGreetings;
use greetings::world::{add_people, greet, greet_all, snapshot};

const SECOND: u64 = 1_000_000_000;

fn name(s: &str) -> Name {
    Name(s.to_string())
}

fn at(x: i32, y: i32) -> Position {
    Position::Position2D(Position2D { x, y })
}

fn set_of(texts: &[&str]) -> GreetingSet {
    let mut s = GreetingSet::new();
    for t in texts {
        s.insert(t.to_string());
    }
    s
}

fn sorted(set: GreetingSet) -> Vec<String> {
    let mut v = set.into_vec();
    v.sort();
    v
}

fn person(n: Option<&str>, position: Position) -> Person {
    Person { name: n.map(name), position }
}

#[test]
fn greeting_named_at_point() {
    let n = name("Kathryn Sakura");
    assert_eq!(get_greeting(Some(&n), &at(0, 0)), "Hello, Kathryn Sakura at (0, 0)");
}

#[test]
fn greeting_named_in_place() {
    let n = name("kat");
    let p = Position::Imaginary("PC".to_string());
    assert_eq!(get_greeting(Some(&n), &p), "Hello, kat in PC");
}

#[test]
fn greeting_named_dead() {
    let n = name("Gabriel");
    assert_eq!(get_greeting(Some(&n), &Position::Dead), "Goodbye, Gabriel");
}

#[test]
fn greeting_nameless_in_place() {
    let p = Position::Imaginary("the attic".to_string());
    assert_eq!(get_greeting(None, &p), "there's something in the attic");
}

#[test]
fn greeting_nameless_at_point() {
    assert_eq!(get_greeting(None, &at(100, 1)), "there's something at (100, 1)");
}

#[test]
fn greeting_negative_coordinates() {
    let n = name("Kathleen Sakura");
    assert_eq!(get_greeting(Some(&n), &at(-1, 1)), "Hello, Kathleen Sakura at (-1, 1)");
    assert_eq!(get_greeting(None, &at(-30, -2147483648)), "there's something at (-30, -2147483648)");
}

#[test]
fn greeting_is_deterministic() {
    let n = name("Ms Kae Sakura");
    let p = at(0, 1);
    assert_eq!(get_greeting(Some(&n), &p), get_greeting(Some(&n), &p));
}

#[test]
fn decimal_text_of_integers() {
    let mut s = String::from("x=");
    push_int(&mut s, 2147483647);
    assert_eq!(s, "x=2147483647");
    let mut s = String::new();
    push_int(&mut s, i32::MIN);
    assert_eq!(s, "-2147483648");
    let mut s = String::new();
    push_int(&mut s, 0);
    assert_eq!(s, "0");
    let mut s = String::new();
    push_int(&mut s, 1090);
    assert_eq!(s, "1090");
}

#[test]
fn set_keeps_each_text_once() {
    let s = set_of(&["A", "B", "A"]);
    assert!(s.contains(&"A".to_string()));
    assert!(s.contains(&"B".to_string()));
    assert!(!s.contains(&"C".to_string()));
    assert_eq!(sorted(s), vec!["A".to_string(), "B".to_string()]);
}

#[test]
fn set_difference() {
    let a = set_of(&["A", "B", "C"]);
    let b = set_of(&["B", "D"]);
    assert_eq!(sorted(a.difference(&b)), vec!["A".to_string(), "C".to_string()]);
    assert_eq!(sorted(b.difference(&a)), vec!["D".to_string()]);
}

#[test]
fn tracker_reports_old_minus_new() {
    let mut tracker = GreetPreviousGreetings::new();
    let first = tracker.update(set_of(&["A", "B"]));
    assert!(sorted(first).is_empty());
    let delta = tracker.update(set_of(&["B", "C"]));
    assert_eq!(sorted(delta), vec!["A".to_string()]);
    let state = tracker.previous();
    assert!(state.contains(&"B".to_string()));
    assert!(state.contains(&"C".to_string()));
    assert!(!state.contains(&"A".to_string()));
}

#[test]
fn tracker_same_snapshot_twice_reports_nothing() {
    let mut tracker = GreetPreviousGreetings::new();
    let _ = tracker.update(set_of(&["A"]));
    let _ = tracker.update(set_of(&["X", "Y"]));
    let second = tracker.update(set_of(&["X", "Y"]));
    assert!(sorted(second).is_empty());
}

#[test]
fn kat_moves_back_and_forth() {
    let mut kat = person(Some("kat"), Position::Imaginary("PC".to_string()));
    update_kat_person(&mut kat);
    assert!(matches!(kat.position, Position::Position2D(Position2D { x: 100, y: 12 })));
    update_kat_person(&mut kat);
    assert!(matches!(&kat.position, Position::Imaginary(p) if p == "pc"));
    assert_eq!(kat.name.as_ref().map(|n| n.0.as_str()), Some("kat"));
}

#[test]
fn dead_kat_stays_dead() {
    let mut kat = person(Some("kat"), Position::Dead);
    update_kat_person(&mut kat);
    update_kat_person(&mut kat);
    assert!(matches!(kat.position, Position::Dead));
}

#[test]
fn only_kat_moves() {
    let mut people = add_people();
    update_kat(&mut people);
    assert!(matches!(people[0].position, Position::Position2D(Position2D { x: 100, y: 12 })));
    assert!(matches!(people[1].position, Position::Position2D(Position2D { x: 0, y: 0 })));
    assert!(matches!(people[3].position, Position::Position2D(Position2D { x: 100, y: 1 })));
    assert!(matches!(people[4].position, Position::Dead));
    let mut kitty = vec![person(Some("Kat"), Position::Imaginary("PC".to_string()))];
    update_kat(&mut kitty);
    assert!(matches!(&kitty[0].position, Position::Imaginary(p) if p == "PC"));
}

#[test]
fn timer_fires_when_period_reached() {
    let mut timer = GreetTimer::new(2 * SECOND);
    assert!(!timer.tick(SECOND));
    assert_eq!(timer.elapsed_ns(), SECOND);
    assert!(timer.tick(SECOND));
    assert_eq!(timer.elapsed_ns(), 0);
    assert!(!timer.tick(SECOND));
    assert!(timer.tick(SECOND));
    assert_eq!(timer.period_ns(), 2 * SECOND);
}

#[test]
fn timer_resets_after_overshooting_the_period() {
    let mut timer = GreetTimer::new(2 * SECOND);
    assert!(timer.tick(3 * SECOND));
    assert_eq!(timer.elapsed_ns(), 0);
    assert!(!timer.tick(SECOND));
    assert_eq!(timer.elapsed_ns(), SECOND);
    assert!(timer.tick(SECOND));
    assert_eq!(timer.elapsed_ns(), 0);
}

#[test]
fn timer_of_zero_period_always_fires() {
    let mut timer = GreetTimer::new(0);
    assert!(timer.tick(0));
    assert!(timer.tick(5));
    assert_eq!(timer.elapsed_ns(), 0);
}

#[test]
fn startup_greets_everyone() {
    let people = add_people();
    let lines = greet_all(&people);
    assert_eq!(lines.len(), 6);
    assert_eq!(lines[0], "Hello, kat in PC");
    assert_eq!(lines[1], "Hello, Kathryn Sakura at (0, 0)");
    assert_eq!(lines[2], "Hello, Ms Kae Sakura at (0, 1)");
    assert_eq!(lines[5], "Hello, Kathleen Sakura at (-1, 1)");
    assert_eq!(lines.iter().filter(|l| *l == "there's something at (100, 1)").count(), 1);
    assert_eq!(lines.iter().filter(|l| *l == "Goodbye, Gabriel").count(), 1);
}

#[test]
fn report_before_the_period_ignores_the_people() {
    let people = vec![person(None, Position::Dead)];
    let mut timer = GreetTimer::new(2 * SECOND);
    let mut previous = GreetPreviousGreetings::new();
    assert!(greet(&mut timer, &mut previous, &people, SECOND).is_empty());
    assert_eq!(timer.elapsed_ns(), SECOND);
    assert!(!previous.previous().contains(&"there's something at (0, 0)".to_string()));
}

#[test]
fn equal_greetings_collapse_in_snapshot() {
    let people = vec![
        person(Some("Ann"), at(1, 2)),
        person(Some("Ann"), at(1, 2)),
        person(None, Position::Imaginary("x".to_string())),
    ];
    assert_eq!(greet_all(&people).len(), 3);
    assert_eq!(
        sorted(snapshot(&people)),
        vec!["Hello, Ann at (1, 2)".to_string(), "there's something in x".to_string()]
    );
}

#[test]
fn gated_report_of_what_changed() {
    let mut people = add_people();
    let mut timer = GreetTimer::new(2 * SECOND);
    let mut previous = GreetPreviousGreetings::new();
    // before the period nothing happens, and the snapshot is not taken
    assert!(greet(&mut timer, &mut previous, &people, SECOND).is_empty());
    assert!(!previous.previous().contains(&"Goodbye, Gabriel".to_string()));
    // the first firing stores the snapshot; nothing was there before it
    assert!(greet(&mut timer, &mut previous, &people, SECOND).is_empty());
    assert!(previous.previous().contains(&"Goodbye, Gabriel".to_string()));
    // kat moves: the greeting that went away is reported
    update_kat(&mut people);
    assert!(greet(&mut timer, &mut previous, &people, SECOND).is_empty());
    let lines = greet(&mut timer, &mut previous, &people, SECOND);
    assert_eq!(lines, vec!["Hello, kat in PC".to_string()]);
    assert!(previous.previous().contains(&"Hello, kat at (100, 12)".to_string()));
}
