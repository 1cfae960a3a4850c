//! People, their names and where they are, and the rule that moves "kat".
use vstd::prelude::*;

verus! {

/// A person's name.
#[derive(Clone, Debug)]
pub struct Name(pub String);

impl View for Name {
    type V = Seq<char>;

    open spec fn view(&self) -> Seq<char> {
        self.0@
    }
}

/// A point of the plane, in whole units.
#[derive(Clone, Copy, Debug, PartialEq, Eq, Structural)]
pub struct Position2D {
    pub x: i32,
    pub y: i32,
}

/// Where a person is.
#[derive(Clone, Debug)]
pub enum Position {
    /// A place that exists only in the story, named by the text.
    Imaginary(String),
    /// A point of the plane.
    Position2D(Position2D),
    /// No place at all: the person has died. Nothing leaves this state.
    Dead,
}

/// What a `Position` stands for.
pub enum PositionView {
    Imaginary(Seq<char>),
    Position2D(int, int),
    Dead,
}

impl View for Position {
    type V = PositionView;

    open spec fn view(&self) -> PositionView {
        match self {
            Position::Imaginary(place) => PositionView::Imaginary(place@),
            Position::Position2D(xy) => PositionView::Position2D(xy.x as int, xy.y as int),
            Position::Dead => PositionView::Dead,
        }
    }
}

/// A person of the world: an optional name, fixed once the person exists,
/// and a position that may change.
#[derive(Clone, Debug)]
pub struct Person {
    pub name: Option<Name>,
    pub position: Position,
}

/// What a `Person` stands for.
pub struct PersonView {
    pub name: Option<Seq<char>>,
    pub position: PositionView,
}

/// The text of an optional name.
pub open spec fn name_view(name: Option<&Name>) -> Option<Seq<char>> {
    match name {
        Some(n) => Some(n@),
        None => None,
    }
}

impl View for Person {
    type V = PersonView;

    open spec fn view(&self) -> PersonView {
        let name = match &self.name {
            Some(n) => Some(n@),
            None => None,
        };
        PersonView { name, position: self.position@ }
    }
}

/// A person without a name is never dead.
pub open spec fn valid_person(name: Option<Seq<char>>, position: PositionView) -> bool {
    !(name is None && position is Dead)
}

/// The one pair of name and position that has no greeting is a nameless
/// dead person: validity rules out exactly that pair.
pub proof fn lemma_only_nameless_dead_is_invalid(name: Option<Seq<char>>, position: PositionView)
    ensures
        !valid_person(name, position) <==> (name is None && position is Dead),
{
}

/// Every person of `people` is valid.
pub open spec fn valid_people(people: Seq<Person>) -> bool {
    forall|i: int| 0 <= i < people.len() ==> #[trigger] valid_person(people[i]@.name, people[i]@.position)
}

/// The name whose bearer moves each pass.
pub open spec fn kat_name() -> Seq<char> {
    "kat"@
}

/// The position that follows `pos` for the moving person: an imaginary place
/// gives the point (100, 12), a point gives the imaginary place "pc", and
/// death stays.
pub open spec fn next_position(pos: PositionView) -> PositionView {
    match pos {
        PositionView::Imaginary(_) => PositionView::Position2D(100, 12),
        PositionView::Position2D(_, _) => PositionView::Imaginary("pc"@),
        PositionView::Dead => PositionView::Dead,
    }
}

/// One pass of the rule on one person: the person named "kat" moves, any
/// other stays where it is; the name never changes.
pub open spec fn kat_step(p: PersonView) -> PersonView {
    if p.name == Some(kat_name()) {
        PersonView { name: p.name, position: next_position(p.position) }
    } else {
        p
    }
}

/// Death is absorbing: the rule leaves a dead person as it is, whatever
/// the name.
pub proof fn lemma_dead_stays_dead(p: PersonView)
    requires
        p.position is Dead,
    ensures
        kat_step(p) == p,
{
}

/// The rule keeps a valid person valid and never changes a name.
pub proof fn lemma_kat_step_keeps_valid(p: PersonView)
    requires
        valid_person(p.name, p.position),
    ensures
        valid_person(kat_step(p).name, kat_step(p).position),
        kat_step(p).name == p.name,
{
}

/// The position that follows `pos` under the rule that moves "kat".
pub fn kat_transition(pos: &Position) -> (r: Position)
    ensures
        r@ == next_position(pos@),
{
    match pos {
        Position::Imaginary(_) => Position::Position2D(Position2D { x: 100, y: 12 }),
        Position::Position2D(_) => Position::Imaginary(String::from_str("pc")),
        Position::Dead => Position::Dead,
    }
}

/// Applies one pass of the rule to one person.
pub fn update_kat_person(person: &mut Person)
    ensures
        final(person)@ == kat_step(old(person)@),
{
    let kat = String::from_str("kat");
    let is_kat = match &person.name {
        Some(n) => n.0 == kat,
        None => false,
    };
    if is_kat {
        person.position = kat_transition(&person.position);
    }
}

/// Applies one pass of the rule to every person, in place.
pub fn update_kat(people: &mut Vec<Person>)
    ensures
        final(people)@.len() == old(people)@.len(),
        forall|i: int|
            0 <= i < old(people)@.len() ==> #[trigger] final(people)@[i]@ == kat_step(
                old(people)@[i]@,
            ),
        valid_people(old(people)@) ==> valid_people(final(people)@),
{
    let n = people.len();
    for i in 0..n
        invariant
            n == old(people)@.len(),
            people@.len() == n,
            forall|j: int| 0 <= j < i ==> #[trigger] people@[j]@ == kat_step(old(people)@[j]@),
            forall|j: int| i <= j < n ==> #[trigger] people@[j] == old(people)@[j],
    {
        update_kat_person(&mut people[i]);
    }
    proof {
        if valid_people(old(people)@) {
            assert forall|j: int| 0 <= j < people@.len() implies #[trigger] valid_person(
                people@[j]@.name,
                people@[j]@.position,
            ) by {
                assert(valid_person(old(people)@[j]@.name, old(people)@[j]@.position));
                lemma_kat_step_keeps_valid(old(people)@[j]@);
            }
        }
    }
}

} // verus!
