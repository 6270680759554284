//! Rules of a small two-player space arcade game, kept apart from the engine
//! that draws and simulates it.

pub mod args;
pub mod contact;
pub mod input;
pub mod orb;
pub mod player;
pub mod session;
pub mod ship;
pub mod weapon;
