//! The keyboard of the player's ship: which orders the keys give in a frame.

use vstd::prelude::*;

verus! {

/// One key in one frame.
#[derive(Clone, Copy, Debug, PartialEq, Eq, Structural)]
pub struct Key {
    /// The key is down.
    pub pressed: bool,
    /// The key went down in this frame.
    pub just_pressed: bool,
    /// The key came up in this frame.
    pub just_released: bool,
}

/// The four keys that fly the ship.
#[derive(Clone, Copy, Debug, PartialEq, Eq, Structural)]
pub struct Controls {
    /// `A` turns the ship to the left.
    pub a: Key,
    /// `D` turns the ship to the right.
    pub d: Key,
    /// `W` fires the engine.
    pub w: Key,
    /// The space bar pulls the trigger.
    pub space: Key,
}

/// An order to the ship's steering.
#[derive(Clone, Copy, Debug, PartialEq, Eq, Structural)]
pub enum Turn {
    /// Apply a torque that turns the ship counter-clockwise.
    Left,
    /// Apply a torque that turns the ship clockwise.
    Right,
    /// Apply no torque and bring the ship's spin to rest.
    Stop,
}

/// An order to switch something on or off.
#[derive(Clone, Copy, Debug, PartialEq, Eq, Structural)]
pub enum Switch {
    On,
    Off,
}

/// The orders of one frame. `None` leaves the part of the ship as it is.
#[derive(Clone, Copy, Debug, PartialEq, Eq, Structural)]
pub struct Orders {
    pub turn: Option<Turn>,
    /// `On`: push the ship along its heading and show the exhaust. `Off`:
    /// stop pushing and hide the exhaust.
    pub thrust: Option<Switch>,
    /// `On`: the ship's weapons start firing. `Off`: they stop.
    pub fire: Option<Switch>,
}

impl Turn {
    /// The torque that the order applies: one to the left, minus one to the
    /// right, none to stop.
    pub open spec fn spec_torque(self) -> int {
        match self {
            Turn::Left => 1,
            Turn::Right => -1,
            Turn::Stop => 0,
        }
    }

    /// The torque that the order applies.
    pub fn torque(self) -> (r: i8)
        ensures
            r == self.spec_torque(),
    {
        match self {
            Turn::Left => 1,
            Turn::Right => -1,
            Turn::Stop => 0,
        }
    }
}

/// The steering order of a frame. A held `A` wins over `D`; the ship stops
/// turning in the frame in which either key comes up while neither is held.
pub open spec fn turn_of(controls: Controls) -> Option<Turn> {
    if controls.a.pressed {
        Some(Turn::Left)
    } else if controls.d.pressed {
        Some(Turn::Right)
    } else if controls.a.just_released || controls.d.just_released {
        Some(Turn::Stop)
    } else {
        None
    }
}

/// The engine order of a frame: on for as long as `W` is held, off in the
/// frame in which it comes up.
pub open spec fn thrust_of(controls: Controls) -> Option<Switch> {
    if controls.w.pressed {
        Some(Switch::On)
    } else if controls.w.just_released {
        Some(Switch::Off)
    } else {
        None
    }
}

/// The trigger order of a frame: on in the frame in which the space bar goes
/// down, off in the frame in which it comes up. Going down wins where both
/// happen in one frame.
pub open spec fn fire_of(controls: Controls) -> Option<Switch> {
    if controls.space.just_pressed {
        Some(Switch::On)
    } else if controls.space.just_released {
        Some(Switch::Off)
    } else {
        None
    }
}

/// Reads the orders of one frame off the keyboard.
pub fn user_input(controls: &Controls) -> (r: Orders)
    ensures
        r.turn == turn_of(*controls),
        r.thrust == thrust_of(*controls),
        r.fire == fire_of(*controls),
{
    let turn = if controls.a.pressed {
        Some(Turn::Left)
    } else if controls.d.pressed {
        Some(Turn::Right)
    } else if controls.a.just_released || controls.d.just_released {
        Some(Turn::Stop)
    } else {
        None
    };
    let thrust = if controls.w.pressed {
        Some(Switch::On)
    } else if controls.w.just_released {
        Some(Switch::Off)
    } else {
        None
    };
    let fire = if controls.space.just_pressed {
        Some(Switch::On)
    } else if controls.space.just_released {
        Some(Switch::Off)
    } else {
        None
    };
    Orders { turn, thrust, fire }
}

} // verus!
