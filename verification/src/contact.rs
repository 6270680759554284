//! Contacts between two bodies, as the physics engine reports them.
//!
//! The engine names two bodies and says whether their contact has just begun
//! or just ended. The rules of the game look only at what each
//! body is, which this module records as plain flags.

use vstd::prelude::*;

verus! {

/// The parts of a body that the rules of a contact look at.
#[derive(Clone, Copy, Debug, PartialEq, Eq, Structural)]
pub struct Body {
    /// It is a ship.
    pub ship: bool,
    /// A player steers it.
    pub player: bool,
    /// It carries an energy reserve.
    pub energy: bool,
    /// It is an orb.
    pub orb: bool,
    /// It is a projectile in flight, with the damage that it deals.
    pub projectile: bool,
    /// It has hit points.
    pub hp: bool,
}

/// One of the two bodies of a contact, by the place in which the engine
/// named it.
#[derive(Clone, Copy, Debug, PartialEq, Eq, Structural)]
pub enum Side {
    First,
    Second,
}

impl Side {
    /// The other place.
    pub open spec fn spec_other(self) -> Side {
        match self {
            Side::First => Side::Second,
            Side::Second => Side::First,
        }
    }

    /// The other body of the same contact.
    #[verifier::when_used_as_spec(spec_other)]
    pub fn other(self) -> (r: Side)
        ensures
            r == self.spec_other(),
    {
        match self {
            Side::First => Side::Second,
            Side::Second => Side::First,
        }
    }
}

/// A contact event: whether the contact has just begun (otherwise it has just
/// ended) and the two bodies in the order in which the engine named them.
#[derive(Clone, Copy, Debug, PartialEq, Eq, Structural)]
pub struct Contact {
    pub started: bool,
    pub first: Body,
    pub second: Body,
}

impl Contact {
    /// The same contact with its two bodies named in the other order.
    pub open spec fn swapped(self) -> Contact {
        Contact { started: self.started, first: self.second, second: self.first }
    }
}

/// The same outcome for a contact whose bodies are named in the other order.
pub open spec fn mirrored(outcome: Option<Side>) -> Option<Side> {
    match outcome {
        Some(side) => Some(side.spec_other()),
        None => None,
    }
}

} // verus!
