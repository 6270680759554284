//! Weapons: when a shot leaves the barrel and what a projectile hits.

use vstd::prelude::*;
use crate::contact::{Contact, Side, mirrored};

verus! {

/// How long a projectile flies before it disappears, in milliseconds.
pub const PROJECTILE_LIFETIME_MS: u64 = 1500;

/// Which body a projectile damages.
///
/// The first body is asked first. If it has hit points, it is struck where
/// the second is a projectile, and nothing happens otherwise, whatever the
/// second body is. Only where the first has no hit points is the second asked
/// in the same way. The body at the other place is the projectile: it deals
/// its damage and is removed. A contact that has ended strikes nothing.
pub open spec fn struck(contact: Contact) -> Option<Side> {
    if !contact.started {
        None
    } else if contact.first.hp {
        if contact.second.projectile {
            Some(Side::First)
        } else {
            None
        }
    } else if contact.second.hp {
        if contact.first.projectile {
            Some(Side::Second)
        } else {
            None
        }
    } else {
        None
    }
}

/// Decides whether a weapon fires in this frame.
///
/// The weapon's timer beats at its rate of fire whether or not the trigger is
/// held. A shot leaves on a beat during which the trigger is held, and at no
/// other time.
pub fn fire_weapons(timer_finished: bool, trigger_held: bool) -> (r: bool)
    ensures
        r == (timer_finished && trigger_held),
{
    timer_finished && trigger_held
}

/// Decides which body, if any, a contact damages. The other body of the
/// contact is then the projectile that struck it.
pub fn collide(contact: &Contact) -> (r: Option<Side>)
    ensures
        r == struck(*contact),
{
    if !contact.started {
        None
    } else if contact.first.hp {
        if contact.second.projectile {
            Some(Side::First)
        } else {
            None
        }
    } else if contact.second.hp {
        if contact.first.projectile {
            Some(Side::Second)
        } else {
            None
        }
    } else {
        None
    }
}

/// The order in which the engine names the two bodies does not change which
/// body is struck, as long as neither body has hit points and is a projectile
/// at once.
pub proof fn lemma_strike_ignores_order(contact: Contact)
    requires
        !(contact.first.hp && contact.first.projectile),
        !(contact.second.hp && contact.second.projectile),
    ensures
        struck(contact.swapped()) == mirrored(struck(contact)),
{
}

} // verus!
