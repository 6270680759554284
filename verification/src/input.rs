//! The per-frame input byte that the two peers exchange.
//!
//! Each frame a player's held keys are folded into one byte, five flags wide.
//! The rollback session carries that byte to the other peer, and both sides
//! turn it back into a step on the grid of the eight compass directions.

use vstd::prelude::*;

verus! {

/// Flag set while the player steers up.
pub const INPUT_UP: u8 = 1;

/// Flag set while the player steers down.
pub const INPUT_DOWN: u8 = 2;

/// Flag set while the player steers left.
pub const INPUT_LEFT: u8 = 4;

/// Flag set while the player steers right.
pub const INPUT_RIGHT: u8 = 8;

/// Flag set while the player fires.
pub const INPUT_FIRE: u8 = 16;

/// The keys that steer and fire, each `true` while it is held down.
#[derive(Clone, Copy, Debug, PartialEq, Eq, Structural)]
pub struct PressedKeys {
    pub up: bool,
    pub w: bool,
    pub down: bool,
    pub s: bool,
    pub left: bool,
    pub a: bool,
    pub right: bool,
    pub d: bool,
    pub space: bool,
    pub enter: bool,
}

impl PressedKeys {
    /// Up arrow or `W`.
    pub open spec fn steers_up(self) -> bool {
        self.up || self.w
    }

    /// Down arrow or `S`.
    pub open spec fn steers_down(self) -> bool {
        self.down || self.s
    }

    /// Left arrow or `A`.
    pub open spec fn steers_left(self) -> bool {
        self.left || self.a
    }

    /// Right arrow or `D`.
    pub open spec fn steers_right(self) -> bool {
        self.right || self.d
    }

    /// Space bar or the return key.
    pub open spec fn fires(self) -> bool {
        self.space || self.enter
    }
}

/// `weight` where `on` holds, nothing otherwise.
pub open spec fn weigh(on: bool, weight: int) -> int {
    if on {
        weight
    } else {
        0
    }
}

/// The input byte as a number: the sum of the flags of the actions that the
/// held keys ask for.
pub open spec fn packed(keys: PressedKeys) -> int {
    weigh(keys.steers_up(), INPUT_UP as int)
        + weigh(keys.steers_down(), INPUT_DOWN as int)
        + weigh(keys.steers_left(), INPUT_LEFT as int)
        + weigh(keys.steers_right(), INPUT_RIGHT as int)
        + weigh(keys.fires(), INPUT_FIRE as int)
}

/// Whether `flag` is set in the input byte `input`.
pub open spec fn has_flag(input: u8, flag: u8) -> bool {
    input & flag != 0
}

/// The step that an input byte asks for, as `(x, y)` with each part one of
/// -1, 0 and 1: right and up count positive, and opposite flags cancel.
pub open spec fn step_of(input: u8) -> (int, int) {
    (
        weigh(has_flag(input, INPUT_RIGHT), 1) - weigh(has_flag(input, INPUT_LEFT), 1),
        weigh(has_flag(input, INPUT_UP), 1) - weigh(has_flag(input, INPUT_DOWN), 1),
    )
}

/// A flag of the input byte is set exactly where the byte, read as a number
/// in base two, has the digit one at the flag's place.
pub proof fn lemma_flag_is_digit(input: u8)
    ensures
        has_flag(input, INPUT_UP) == (input % 2 == 1),
        has_flag(input, INPUT_DOWN) == ((input / 2) % 2 == 1),
        has_flag(input, INPUT_LEFT) == ((input / 4) % 2 == 1),
        has_flag(input, INPUT_RIGHT) == ((input / 8) % 2 == 1),
        has_flag(input, INPUT_FIRE) == ((input / 16) % 2 == 1),
{
    assert((input & 1 != 0) == (input % 2 == 1)) by (bit_vector);
    assert((input & 2 != 0) == ((input / 2) % 2 == 1)) by (bit_vector);
    assert((input & 4 != 0) == ((input / 4) % 2 == 1)) by (bit_vector);
    assert((input & 8 != 0) == ((input / 8) % 2 == 1)) by (bit_vector);
    assert((input & 16 != 0) == ((input / 16) % 2 == 1)) by (bit_vector);
}

/// Setting a flag above every flag already set adds the flag's weight.
proof fn lemma_set_adds(input: u8)
    ensures
        input < 1 ==> (input | 1) == input + 1,
        input < 2 ==> (input | 2) == input + 2,
        input < 4 ==> (input | 4) == input + 4,
        input < 8 ==> (input | 8) == input + 8,
        input < 16 ==> (input | 16) == input + 16,
{
    assert(input < 1 ==> (input | 1) == input + 1) by (bit_vector);
    assert(input < 2 ==> (input | 2) == input + 2) by (bit_vector);
    assert(input < 4 ==> (input | 4) == input + 4) by (bit_vector);
    assert(input < 8 ==> (input | 8) == input + 8) by (bit_vector);
    assert(input < 16 ==> (input | 16) == input + 16) by (bit_vector);
}

/// Folds the held keys into the input byte of this frame.
///
/// Two keys are bound to each action, and either one sets the action's flag.
/// The three high bits stay clear.
pub fn input(keys: &PressedKeys) -> (r: u8)
    ensures
        r == packed(*keys),
        has_flag(r, INPUT_UP) == keys.steers_up(),
        has_flag(r, INPUT_DOWN) == keys.steers_down(),
        has_flag(r, INPUT_LEFT) == keys.steers_left(),
        has_flag(r, INPUT_RIGHT) == keys.steers_right(),
        has_flag(r, INPUT_FIRE) == keys.fires(),
{
    let mut input: u8 = 0;
    if keys.up || keys.w {
        proof {
            lemma_set_adds(input);
        }
        input |= INPUT_UP;
    }
    if keys.down || keys.s {
        proof {
            lemma_set_adds(input);
        }
        input |= INPUT_DOWN;
    }
    if keys.left || keys.a {
        proof {
            lemma_set_adds(input);
        }
        input |= INPUT_LEFT;
    }
    if keys.right || keys.d {
        proof {
            lemma_set_adds(input);
        }
        input |= INPUT_RIGHT;
    }
    if keys.space || keys.enter {
        proof {
            lemma_set_adds(input);
        }
        input |= INPUT_FIRE;
    }
    proof {
        lemma_flag_is_digit(input);
    }
    input
}

/// Reads the step that an input byte asks for.
///
/// Returns `None` where the byte asks for no movement: no steering flag is
/// set, or each flag that is set meets its opposite. The fire flag and the
/// unused high bits play no part.
pub fn step(input: u8) -> (r: Option<(i8, i8)>)
    ensures
        step_of(input) == (0int, 0int) <==> r.is_none(),
        r matches Some(d) ==> (d.0 as int, d.1 as int) == step_of(input),
{
    let mut x: i8 = 0;
    let mut y: i8 = 0;
    if input & INPUT_UP != 0 {
        y += 1;
    }
    if input & INPUT_DOWN != 0 {
        y -= 1;
    }
    if input & INPUT_RIGHT != 0 {
        x += 1;
    }
    if input & INPUT_LEFT != 0 {
        x -= 1;
    }
    if x == 0 && y == 0 {
        None
    } else {
        Some((x, y))
    }
}

/// What a peer reads from the byte is what the sender's keys asked for:
/// the step is right minus left and up minus down, and the fire flag is the
/// fire keys.
pub proof fn lemma_input_round_trip(keys: PressedKeys, byte: u8)
    requires
        byte == packed(keys),
    ensures
        step_of(byte) == (
            weigh(keys.steers_right(), 1) - weigh(keys.steers_left(), 1),
            weigh(keys.steers_up(), 1) - weigh(keys.steers_down(), 1),
        ),
        has_flag(byte, INPUT_FIRE) == keys.fires(),
        byte < 32,
{
    lemma_flag_is_digit(byte);
}

} // verus!
