//! Ships: how a ship gains energy from the orbs it touches.

use vstd::prelude::*;
use crate::contact::{Body, Contact, Side, mirrored};
use crate::orb::picked_up;

verus! {

/// The energy that one orb gives to the ship that touches it.
pub const ORB_ENERGY: u32 = 10;

/// Whether a body is a ship that a player steers and that carries an energy
/// reserve. Only such a body gains energy from an orb.
pub open spec fn is_powered(body: Body) -> bool {
    body.ship && body.energy && body.player
}

/// Which body gains [`ORB_ENERGY`] from a contact.
///
/// The first body is asked first. If it is a powered ship, it gains energy
/// where the second is an orb, and nothing happens otherwise, whatever the
/// second body is. Only where the first is no powered ship is the second asked
/// in the same way. A contact that has ended gives nothing.
pub open spec fn recharged(contact: Contact) -> Option<Side> {
    if !contact.started {
        None
    } else if is_powered(contact.first) {
        if contact.second.orb {
            Some(Side::First)
        } else {
            None
        }
    } else if is_powered(contact.second) {
        if contact.first.orb {
            Some(Side::Second)
        } else {
            None
        }
    } else {
        None
    }
}

/// Decides which body, if any, gains [`ORB_ENERGY`] from a contact.
pub fn collision_event(contact: &Contact) -> (r: Option<Side>)
    ensures
        r == recharged(*contact),
{
    if !contact.started {
        return None;
    }
    let first = &contact.first;
    let second = &contact.second;
    if first.ship && first.energy && first.player {
        if second.orb {
            Some(Side::First)
        } else {
            None
        }
    } else if second.ship && second.energy && second.player {
        if first.orb {
            Some(Side::Second)
        } else {
            None
        }
    } else {
        None
    }
}

/// The order in which the engine names the two bodies does not change which
/// ship gains energy, as long as neither body is a powered ship and an orb at
/// once.
pub proof fn lemma_recharge_ignores_order(contact: Contact)
    requires
        !(is_powered(contact.first) && contact.first.orb),
        !(is_powered(contact.second) && contact.second.orb),
    ensures
        recharged(contact.swapped()) == mirrored(recharged(contact)),
{
}

/// Whenever a ship gains energy from a contact, the same contact removes the
/// orb that it touched: the body picked up is the other one. The one contact
/// left out is that of two bodies that are each an orb and a ship at once.
pub proof fn lemma_recharge_takes_the_orb(contact: Contact)
    requires
        recharged(contact).is_some(),
        !(contact.first.orb && contact.first.ship && contact.second.orb && contact.second.ship),
    ensures
        picked_up(contact) == mirrored(recharged(contact)),
{
}

} // verus!
