//! Orbs: when a new one appears and when one is picked up.

use vstd::prelude::*;
use rand::Rng;
use crate::contact::{Contact, Side, mirrored};

verus! {

/// How many orbs may drift in the arena at once.
pub const MAX_ORBS: usize = 5;

/// Seconds from the start of the game to the first beat of the orb timer.
pub const FIRST_DELAY_SECS: u64 = 1;

/// The shortest pause, in seconds, between two beats of the orb timer.
pub const MIN_DELAY_SECS: u64 = 1;

/// The longest pause, in seconds, between two beats of the orb timer.
pub const MAX_DELAY_SECS: u64 = 10;

/// The limit on the orbs in the arena.
#[derive(Clone, Copy, Debug, PartialEq, Eq, Structural)]
pub struct OrbConfig {
    pub max_orbs: usize,
}

/// What one beat of the orb timer asks for.
#[derive(Clone, Copy, Debug, PartialEq, Eq, Structural)]
pub struct OrbTick {
    /// A new orb is to appear.
    pub spawn: bool,
    /// The timer is to run for this many seconds until its next beat; `None`
    /// leaves the timer as it is.
    pub next_delay_secs: Option<u64>,
}

/// What a frame asks of the orbs, given whether the timer has just run out,
/// the orbs in the arena, and the pause drawn for the timer's next round.
pub open spec fn tick_outcome(
    config: OrbConfig,
    timer_finished: bool,
    orbs: usize,
    delay_secs: u64,
) -> OrbTick {
    if timer_finished {
        OrbTick { spawn: orbs < config.max_orbs, next_delay_secs: Some(delay_secs) }
    } else {
        OrbTick { spawn: false, next_delay_secs: None }
    }
}

/// Which body an orb pickup removes: the orb, where one body is an orb and
/// the other a ship and their contact has just begun. Where both orders fit,
/// the second body goes.
pub open spec fn picked_up(contact: Contact) -> Option<Side> {
    if !contact.started {
        None
    } else if contact.second.orb && contact.first.ship {
        Some(Side::Second)
    } else if contact.first.orb && contact.second.ship {
        Some(Side::First)
    } else {
        None
    }
}

impl Default for OrbConfig {
    /// The limit that the game starts with.
    fn default() -> (r: Self)
        ensures
            r.max_orbs == MAX_ORBS,
    {
        OrbConfig { max_orbs: MAX_ORBS }
    }
}

/// Draws a whole number between `low` and `high`, both included, by
/// `rand::Rng::gen_range` on the generator of the current thread
/// (`rand::thread_rng`).
///
/// Believed without proof: the number drawn lies in the range. Which number
/// comes is left open. The call panics on an empty range, which the
/// precondition rules out; apart from that it fails only where the operating
/// system cannot seed the generator.
#[verifier::external_body]
fn random_between(low: u64, high: u64) -> (r: u64)
    requires
        low <= high,
    ensures
        low <= r <= high,
{
    rand::thread_rng().gen_range(low..=high)
}

/// One frame of the orb timer, for a pause already drawn.
///
/// While the timer runs nothing happens. When it has run out, an orb appears
/// unless the arena is full, and the timer starts again with the given pause
/// whether or not an orb appeared.
pub fn tick_with(
    config: &OrbConfig,
    timer_finished: bool,
    orbs: usize,
    delay_secs: u64,
) -> (r: OrbTick)
    ensures
        r == tick_outcome(*config, timer_finished, orbs, delay_secs),
{
    if timer_finished {
        OrbTick { spawn: orbs < config.max_orbs, next_delay_secs: Some(delay_secs) }
    } else {
        OrbTick { spawn: false, next_delay_secs: None }
    }
}

/// One frame of the orb timer.
///
/// As [`tick_with`], with the next pause drawn at random between
/// [`MIN_DELAY_SECS`] and [`MAX_DELAY_SECS`]. No number is drawn while the
/// timer runs.
pub fn tick(config: &OrbConfig, timer_finished: bool, orbs: usize) -> (r: OrbTick)
    ensures
        r.spawn == (timer_finished && orbs < config.max_orbs),
        r.next_delay_secs.is_some() == timer_finished,
        r.next_delay_secs matches Some(secs) ==> MIN_DELAY_SECS <= secs <= MAX_DELAY_SECS,
        exists|secs: u64|
            MIN_DELAY_SECS <= secs <= MAX_DELAY_SECS
                && r == tick_outcome(*config, timer_finished, orbs, secs),
{
    if timer_finished {
        let secs = random_between(MIN_DELAY_SECS, MAX_DELAY_SECS);
        tick_with(config, true, orbs, secs)
    } else {
        tick_with(config, false, orbs, MIN_DELAY_SECS)
    }
}

/// Decides which body, if any, a contact removes as a picked-up orb.
pub fn collision(contact: &Contact) -> (r: Option<Side>)
    ensures
        r == picked_up(*contact),
{
    if !contact.started {
        None
    } else if contact.second.orb && contact.first.ship {
        Some(Side::Second)
    } else if contact.first.orb && contact.second.ship {
        Some(Side::First)
    } else {
        None
    }
}

/// The order in which the engine names the two bodies does not change which
/// orb is picked up, as long as neither body is an orb and a ship at once.
pub proof fn lemma_pickup_ignores_order(contact: Contact)
    requires
        !(contact.first.orb && contact.first.ship),
        !(contact.second.orb && contact.second.ship),
    ensures
        picked_up(contact.swapped()) == mirrored(picked_up(contact)),
{
}

} // verus!
