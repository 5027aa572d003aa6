//! Turning the buttons a player holds into game events.

use vstd::prelude::*;

use crate::player::unit;

verus! {

/// The buttons of the game, each bound to one or more keys.
#[derive(Clone, Copy, Debug, PartialEq, Eq, Hash, Structural)]
pub enum InputButton {
    Up,
    Down,
    Left,
    Right,
    Primary,
    Secondary,
}

/// A direction on the screen: `x` to the right, `y` up; each is -1, 0 or 1.
#[derive(Clone, Copy, Debug, PartialEq, Eq, Structural)]
pub struct ScreenDirection {
    pub x: i8,
    pub y: i8,
}

/// Asks for the player to move.
#[derive(Clone, Copy, Debug, PartialEq, Eq, Structural)]
pub struct MovePlayerEvent {
    pub direction: ScreenDirection,
}

/// The events one update of the input sends.
#[derive(Clone, Copy, Debug, PartialEq, Eq, Structural)]
pub struct InputEvents {
    /// The primary button went down during this update.
    pub primary_press: bool,
    pub movement: Option<MovePlayerEvent>,
}

/// A fresh primary press is passed on; the held directions add up, opposite
/// ones cancelling, and a move is sent only when the sum is not zero.
pub open spec fn spec_input_events(
    primary_pressed: bool,
    left: bool,
    right: bool,
    up: bool,
    down: bool,
) -> InputEvents {
    let d = ScreenDirection { x: (unit(right) - unit(left)) as i8, y: (unit(up) - unit(down)) as i8 };
    InputEvents {
        primary_press: primary_pressed,
        movement: if d.x != 0 || d.y != 0 {
            Some(MovePlayerEvent { direction: d })
        } else {
            None
        },
    }
}

fn axis(positive: bool, negative: bool) -> (r: i8)
    ensures
        r == unit(positive) - unit(negative),
{
    if positive == negative {
        0
    } else if positive {
        1
    } else {
        -1
    }
}

/// The events for this update, given a fresh press of the primary button and
/// the direction buttons held.
pub fn input_events(primary_pressed: bool, left: bool, right: bool, up: bool, down: bool) -> (r:
    InputEvents)
    ensures
        r == spec_input_events(primary_pressed, left, right, up, down),
{
    let direction = ScreenDirection { x: axis(right, left), y: axis(up, down) };
    let movement = if direction.x != 0 || direction.y != 0 {
        Some(MovePlayerEvent { direction })
    } else {
        None
    };
    InputEvents { primary_press: primary_pressed, movement }
}

} // verus!
