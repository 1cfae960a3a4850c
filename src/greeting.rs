//! The greeting that describes one person.
use vstd::prelude::*;
use crate::person::{Name, Position, PositionView, name_view, valid_person};
use crate::text::{int_text, push_int};

verus! {

/// The text of a point: `(<x>, <y>)`.
pub open spec fn point_text(x: int, y: int) -> Seq<char> {
    "("@ + int_text(x) + ", "@ + int_text(y) + ")"@
}

/// The greeting for a person with this name at this position.
/// A nameless dead person has no greeting; the value there means nothing.
pub open spec fn greeting_text(name: Option<Seq<char>>, pos: PositionView) -> Seq<char> {
    match name {
        Some(n) => match pos {
            PositionView::Imaginary(place) => "Hello, "@ + n + " in "@ + place,
            PositionView::Position2D(x, y) => "Hello, "@ + n + " at "@ + point_text(x, y),
            PositionView::Dead => "Goodbye, "@ + n,
        },
        None => match pos {
            PositionView::Imaginary(place) => "there's something in "@ + place,
            PositionView::Position2D(x, y) => "there's something at "@ + point_text(x, y),
            PositionView::Dead => Seq::empty(),
        },
    }
}

/// The greeting for a person with this name at this position. A person
/// without a name is never dead, so that pair is not a valid argument.
pub fn get_greeting(name: Option<&Name>, pos: &Position) -> (r: String)
    requires
        valid_person(name_view(name), pos@),
    ensures
        r@ == greeting_text(name_view(name), pos@),
{
    match name {
        Some(n) => match pos {
            Position::Imaginary(place) => {
                let mut r = String::from_str("Hello, ");
                r.append(n.0.as_str());
                r.append(" in ");
                r.append(place.as_str());
                r
            },
            Position::Position2D(xy) => {
                let mut r = String::from_str("Hello, ");
                r.append(n.0.as_str());
                r.append(" at ");
                push_point(&mut r, xy.x, xy.y);
                r
            },
            Position::Dead => {
                let mut r = String::from_str("Goodbye, ");
                r.append(n.0.as_str());
                r
            },
        },
        None => match pos {
            Position::Imaginary(place) => {
                let mut r = String::from_str("there's something in ");
                r.append(place.as_str());
                r
            },
            Position::Position2D(xy) => {
                let mut r = String::from_str("there's something at ");
                push_point(&mut r, xy.x, xy.y);
                r
            },
            Position::Dead => {
                // Excluded by the precondition; a caller that skipped the
                // check stops here instead of receiving a greeting.
                assert(false);
                let none: Option<String> = None;
                none.unwrap()
            },
        },
    }
}

/// Appends the text of the point (x, y) to `s`.
fn push_point(s: &mut String, x: i32, y: i32)
    ensures
        final(s)@ == old(s)@ + point_text(x as int, y as int),
{
    s.append("(");
    push_int(s, x);
    s.append(", ");
    push_int(s, y);
    s.append(")");
    assert(s@ =~= old(s)@ + point_text(x as int, y as int));
}

} // verus!
