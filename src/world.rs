//! The people of the world, the greetings for all of them, and the gated
//! report of what changed.
use vstd::prelude::*;
use crate::greeting::{get_greeting, greeting_text};
use crate::greeting_set::{GreetingSet, distinct_texts, texts_of};
use crate::person::{
    Name, Person, PersonView, Position, Position2D, PositionView, valid_people, valid_person,
};
use crate::timer::{GreetTimer, tick_elapsed};
use crate::tracker::{GreetPreviousGreetings, update_delta};

verus! {

/// The greeting for one person.
pub open spec fn person_greeting(p: PersonView) -> Seq<char> {
    greeting_text(p.name, p.position)
}

/// The set of greetings for all of `people`.
pub open spec fn snapshot_of(people: Seq<Person>) -> Set<Seq<char>> {
    Set::new(
        |t: Seq<char>| exists|i: int| 0 <= i < people.len() && #[trigger] person_greeting(people[i]@) == t,
    )
}

/// The people the world starts with.
pub open spec fn reference_people() -> Seq<PersonView> {
    seq![
        PersonView { name: Some("kat"@), position: PositionView::Imaginary("PC"@) },
        PersonView { name: Some("Kathryn Sakura"@), position: PositionView::Position2D(0, 0) },
        PersonView { name: Some("Ms Kae Sakura"@), position: PositionView::Position2D(0, 1) },
        PersonView { name: None, position: PositionView::Position2D(100, 1) },
        PersonView { name: Some("Gabriel"@), position: PositionView::Dead },
        PersonView { name: Some("Kathleen Sakura"@), position: PositionView::Position2D(-1, 1) },
    ]
}

fn named(name: &str) -> (r: Option<Name>)
    ensures
        r matches Some(n) && n@ == name@,
{
    Some(Name(String::from_str(name)))
}

fn at(x: i32, y: i32) -> (r: Position)
    ensures
        r@ == PositionView::Position2D(x as int, y as int),
{
    Position::Position2D(Position2D { x, y })
}

/// The people the world starts with, in order.
pub fn add_people() -> (r: Vec<Person>)
    ensures
        r@.len() == reference_people().len(),
        forall|i: int| 0 <= i < r@.len() ==> #[trigger] r@[i]@ == reference_people()[i],
        valid_people(r@),
{
    let mut r: Vec<Person> = Vec::new();
    r.push(Person { name: named("kat"), position: Position::Imaginary(String::from_str("PC")) });
    r.push(Person { name: named("Kathryn Sakura"), position: at(0, 0) });
    r.push(Person { name: named("Ms Kae Sakura"), position: at(0, 1) });
    r.push(Person { name: None, position: at(100, 1) });
    r.push(Person { name: named("Gabriel"), position: Position::Dead });
    r.push(Person { name: named("Kathleen Sakura"), position: at(-1, 1) });
    assert forall|i: int| 0 <= i < r@.len() implies #[trigger] r@[i]@ == reference_people()[i] by {
        if i == 0 {
            assert(r@[0]@ == reference_people()[0]);
        }
    }
    r
}

fn person_greeting_of(person: &Person) -> (r: String)
    requires
        valid_person(person@.name, person@.position),
    ensures
        r@ == person_greeting(person@),
{
    get_greeting(person.name.as_ref(), &person.position)
}

/// The greeting for each person, in order, duplicates kept.
pub fn greet_all(people: &Vec<Person>) -> (r: Vec<String>)
    requires
        valid_people(people@),
    ensures
        r@.len() == people@.len(),
        forall|i: int| 0 <= i < r@.len() ==> #[trigger] r@[i]@ == person_greeting(people@[i]@),
{
    let mut r: Vec<String> = Vec::new();
    let n = people.len();
    for i in 0..n
        invariant
            n == people@.len(),
            valid_people(people@),
            r@.len() == i,
            forall|j: int| 0 <= j < i ==> #[trigger] r@[j]@ == person_greeting(people@[j]@),
    {
        assert(valid_person(people@[i as int]@.name, people@[i as int]@.position));
        r.push(person_greeting_of(&people[i]));
    }
    r
}

/// The set of greetings for all of `people`.
pub fn snapshot(people: &Vec<Person>) -> (r: GreetingSet)
    requires
        valid_people(people@),
    ensures
        r.wf(),
        r@ == snapshot_of(people@),
{
    let mut r = GreetingSet::new();
    let n = people.len();
    for i in 0..n
        invariant
            n == people@.len(),
            valid_people(people@),
            r.wf(),
            r@ == snapshot_of(people@.take(i as int)),
    {
        assert(valid_person(people@[i as int]@.name, people@[i as int]@.position));
        r.insert(person_greeting_of(&people[i]));
        assert(snapshot_of(people@.take(i + 1)) =~= snapshot_of(people@.take(i as int)).insert(
            person_greeting(people@[i as int]@),
        )) by {
            assert forall|t: Seq<char>| #[trigger]
                snapshot_of(people@.take(i + 1)).contains(t) implies snapshot_of(
                people@.take(i as int),
            ).insert(person_greeting(people@[i as int]@)).contains(t) by {
                let k = choose|k: int|
                    0 <= k < i + 1 && #[trigger] person_greeting(people@.take(i + 1)[k]@) == t;
                if k < i {
                    assert(person_greeting(people@.take(i as int)[k]@) == t);
                }
            }
            assert forall|t: Seq<char>| #[trigger]
                snapshot_of(people@.take(i as int)).contains(t) implies snapshot_of(
                people@.take(i + 1),
            ).contains(t) by {
                let k = choose|k: int|
                    0 <= k < i && #[trigger] person_greeting(people@.take(i as int)[k]@) == t;
                assert(person_greeting(people@.take(i + 1)[k]@) == t);
            }
            assert(people@.take(i + 1)[i as int] == people@[i as int]);
        }
    }
    assert(people@.take(n as int) =~= people@);
    r
}

/// One gated report: advances `timer` by `delta_ns`; when it fires, takes
/// the snapshot of the greetings of `people`, stores it in `previous`, and
/// returns the texts of the previous snapshot that the new one lacks. When
/// it does not fire, nothing is reported, `previous` stays, and `people` is
/// not looked at.
pub fn greet(
    timer: &mut GreetTimer,
    previous: &mut GreetPreviousGreetings,
    people: &Vec<Person>,
    delta_ns: u64,
) -> (r: Vec<String>)
    requires
        old(previous).wf(),
        old(timer).elapsed() + delta_ns >= old(timer).period() ==> valid_people(people@),
    ensures
        final(timer).period() == old(timer).period(),
        final(timer).elapsed() == tick_elapsed(
            old(timer).period() as int,
            old(timer).elapsed() as int,
            delta_ns as int,
        ),
        final(previous).wf(),
        distinct_texts(r@),
        if old(timer).elapsed() + delta_ns >= old(timer).period() {
            &&& final(previous)@ == snapshot_of(people@)
            &&& texts_of(r@) == update_delta(old(previous)@, snapshot_of(people@))
        } else {
            &&& final(previous)@ == old(previous)@
            &&& r@.len() == 0
        },
{
    if !timer.tick(delta_ns) {
        return Vec::new();
    }
    let delta = previous.update(snapshot(people));
    delta.into_vec()
}

} // verus!
