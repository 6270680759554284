//! The lobby: when the peer-to-peer session of a match is started.

use vstd::prelude::*;

verus! {

/// The players of a match.
pub const NUM_PLAYERS: usize = 2;

/// The frames by which a player's own input is held back, so that the other
/// peer's input for the same frame has time to arrive.
pub const INPUT_DELAY: usize = 2;

/// What the lobby does in a frame.
#[derive(Clone, Copy, Debug, PartialEq, Eq, Structural)]
pub enum Lobby {
    /// The socket has been handed to a session already: the match is on.
    InGame,
    /// Too few peers have joined: look again in the next frame.
    Waiting,
    /// Every seat is taken: build the session, seat the peers in the order in
    /// which the socket lists them, the first at handle zero, and hand the
    /// socket over to the session.
    Start,
}

/// The lobby's decision, from whether the socket is still held and how many
/// players it lists, the local one included.
pub open spec fn lobby_of(socket_held: bool, joined: usize) -> Lobby {
    if !socket_held {
        Lobby::InGame
    } else if joined < NUM_PLAYERS {
        Lobby::Waiting
    } else {
        Lobby::Start
    }
}

/// Decides what the lobby does in this frame.
pub fn wait_for_players(socket_held: bool, joined: usize) -> (r: Lobby)
    ensures
        r == lobby_of(socket_held, joined),
{
    if !socket_held {
        Lobby::InGame
    } else if joined < NUM_PLAYERS {
        Lobby::Waiting
    } else {
        Lobby::Start
    }
}

} // verus!
