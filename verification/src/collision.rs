use vstd::prelude::*;

verus! {

/// The side of a floor on which a moving body touches it, as an
/// axis-aligned box test reports it.
#[derive(PartialEq, Eq, Structural, Debug, Clone, Copy)]
pub enum Contact {
    Left,
    Right,
    Top,
    Bottom,
    Inside,
}

/// A body comes to rest on a floor when it touches the floor's top or has
/// sunk inside it.
pub open spec fn spec_lands(hit: Option<Contact>) -> bool {
    hit == Some(Contact::Top) || hit == Some(Contact::Inside)
}

/// Decides, from the outcome of the box test between a body and a floor,
/// whether the body is stopped and put back on top of that floor.
pub fn lands_on_floor(hit: Option<Contact>) -> (r: bool)
    ensures
        r == spec_lands(hit),
{
    match hit {
        Some(Contact::Top) => true,
        Some(Contact::Inside) => true,
        _ => false,
    }
}

} // verus!
