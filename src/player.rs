//! Players, the states their sprites and controls go through, and how the
//! user's keys move them.

use vstd::prelude::*;

use crate::animation::{frames_of, span_through, Animation, ClockView};

verus! {

/// Which side of the net a player is on.
#[derive(Clone, Copy, Debug, PartialEq, Eq, Structural)]
pub enum Player {
    User,
    Opponent,
}

/// What a player is doing; each state has its own animation.
#[derive(Clone, Copy, Debug, PartialEq, Eq, Hash, Structural)]
pub enum PlayerState {
    ServeReady,
    ServeToss,
    ServeHit,
    Idle,
    Run,
    Charge,
    Swing,
}

/// Whether a player shows their back or their front.
#[derive(Clone, Copy, Debug, PartialEq, Eq, Structural)]
pub enum Facing {
    Away,
    Toward,
}

/// The hand that holds the racket; the sprite is mirrored for the left.
#[derive(Clone, Copy, Debug, PartialEq, Eq, Structural)]
pub enum RacketHand {
    Right,
    Left,
}

/// Speed of the user, in court units per second.
pub const USER_DEFAULT_SPEED: u32 = 10;

/// Speed of the user while the secondary button is held.
pub const USER_SLOW_SPEED: u32 = 4;

/// How fast the user moves.
pub fn user_speed(secondary_held: bool) -> (r: u32)
    ensures
        r == if secondary_held {
            USER_SLOW_SPEED
        } else {
            USER_DEFAULT_SPEED
        },
{
    if secondary_held {
        USER_SLOW_SPEED
    } else {
        USER_DEFAULT_SPEED
    }
}

/// Direction of travel on the court: `x` to the right, `z` toward the
/// camera; each is -1, 0 or 1.
#[derive(Clone, Copy, Debug, PartialEq, Eq, Structural)]
pub struct Heading {
    pub x: i8,
    pub z: i8,
}

pub open spec fn unit(b: bool) -> int {
    if b {
        1
    } else {
        0
    }
}

/// The heading that the arrow keys held ask for: right and left cancel out,
/// as do down (toward the camera) and up.
pub open spec fn spec_heading(right: bool, left: bool, up: bool, down: bool) -> Heading {
    Heading { x: (unit(right) - unit(left)) as i8, z: (unit(down) - unit(up)) as i8 }
}

/// The user's move for this update and their state after it.
#[derive(Clone, Copy, Debug, PartialEq, Eq, Structural)]
pub struct MoveDecision {
    pub heading: Option<Heading>,
    pub state: PlayerState,
}

/// A player winding up or swinging stays put; otherwise a non-zero heading
/// moves them and an idle player starts to run, while no heading stops them
/// and a running player goes idle.
pub open spec fn spec_user_move(
    state: PlayerState,
    right: bool,
    left: bool,
    up: bool,
    down: bool,
) -> MoveDecision {
    let h = spec_heading(right, left, up, down);
    if state == PlayerState::Charge || state == PlayerState::Swing {
        MoveDecision { heading: None, state }
    } else if h.x != 0 || h.z != 0 {
        MoveDecision {
            heading: Some(h),
            state: if state == PlayerState::Idle {
                PlayerState::Run
            } else {
                state
            },
        }
    } else {
        MoveDecision {
            heading: None,
            state: if state == PlayerState::Run {
                PlayerState::Idle
            } else {
                state
            },
        }
    }
}

fn unit_of(b: bool) -> (r: i8)
    ensures
        r == unit(b),
{
    if b {
        1
    } else {
        0
    }
}

/// The heading that the arrow keys held ask for.
pub fn heading(right: bool, left: bool, up: bool, down: bool) -> (r: Heading)
    ensures
        r == spec_heading(right, left, up, down),
{
    Heading { x: unit_of(right) - unit_of(left), z: unit_of(down) - unit_of(up) }
}

/// Decides how the user moves, given their state and the arrow keys held.
pub fn user_move(state: PlayerState, right: bool, left: bool, up: bool, down: bool) -> (r:
    MoveDecision)
    ensures
        r == spec_user_move(state, right, left, up, down),
{
    match state {
        PlayerState::Charge | PlayerState::Swing => MoveDecision { heading: None, state },
        _ => {
            let h = heading(right, left, up, down);
            if h.x != 0 || h.z != 0 {
                let next = match state {
                    PlayerState::Idle => PlayerState::Run,
                    _ => state,
                };
                MoveDecision { heading: Some(h), state: next }
            } else {
                let next = match state {
                    PlayerState::Run => PlayerState::Idle,
                    _ => state,
                };
                MoveDecision { heading: None, state: next }
            }
        },
    }
}

/// A fresh press of left moves the racket to the left hand and a fresh press
/// of right to the right hand, mirroring the sprite; nothing changes while
/// the secondary button is held or when the racket is already there.
pub open spec fn spec_switch_hand(
    hand: RacketHand,
    flip_x: bool,
    left_pressed: bool,
    right_pressed: bool,
    secondary_held: bool,
) -> (RacketHand, bool) {
    if (left_pressed || right_pressed) && !secondary_held {
        if left_pressed && hand == RacketHand::Right {
            (RacketHand::Left, !flip_x)
        } else if right_pressed && hand == RacketHand::Left {
            (RacketHand::Right, !flip_x)
        } else {
            (hand, flip_x)
        }
    } else {
        (hand, flip_x)
    }
}

/// The racket hand and sprite mirroring after this update's key presses.
pub fn switch_hand(
    hand: RacketHand,
    flip_x: bool,
    left_pressed: bool,
    right_pressed: bool,
    secondary_held: bool,
) -> (r: (RacketHand, bool))
    ensures
        r == spec_switch_hand(hand, flip_x, left_pressed, right_pressed, secondary_held),
{
    if (left_pressed || right_pressed) && !secondary_held {
        match hand {
            RacketHand::Right if left_pressed => (RacketHand::Left, !flip_x),
            RacketHand::Left if right_pressed => (RacketHand::Right, !flip_x),
            _ => (hand, flip_x),
        }
    } else {
        (hand, flip_x)
    }
}

/// Frames of each state's animation, as sprite indices and milliseconds, and
/// whether it loops. Winding up and swinging have none yet.
pub open spec fn frame_table(state: PlayerState) -> Option<(Seq<(usize, u64)>, bool)> {
    match state {
        PlayerState::ServeReady => Some((seq![(0usize, u64::MAX)], false)),
        PlayerState::ServeToss => Some((seq![(1usize, u64::MAX)], false)),
        PlayerState::ServeHit => Some((seq![(2usize, 50u64), (3usize, 300u64)], false)),
        PlayerState::Idle => Some(
            (seq![(4usize, 300u64), (5usize, 100u64), (6usize, 200u64), (7usize, 100u64)], true),
        ),
        PlayerState::Run => Some(
            (seq![(11usize, 150u64), (8usize, 75u64), (9usize, 150u64), (10usize, 75u64)], true),
        ),
        PlayerState::Charge => None,
        PlayerState::Swing => None,
    }
}

/// An animation of the given frames with its clock at zero.
pub open spec fn fresh_animation(a: Animation, data: Seq<(usize, u64)>, repeating: bool) -> bool {
    &&& a.wf()
    &&& a.spec_frames() == frames_of(data)
    &&& a.clock() == (ClockView {
        duration: span_through(frames_of(data), data.len() as int) as nat,
        elapsed: 0,
        repeating,
        finished: false,
        just_finished: false,
    })
}

/// The animation a player in `state` starts with, if that state has one.
pub fn player_animation(state: PlayerState) -> (r: Option<Animation>)
    ensures
        frame_table(state) is None ==> r is None,
        frame_table(state) matches Some((data, repeating)) ==> r matches Some(a)
            && fresh_animation(a, data, repeating),
{
    let (data, repeating) = match state {
        PlayerState::ServeReady => (vec![(0usize, u64::MAX)], false),
        PlayerState::ServeToss => (vec![(1usize, u64::MAX)], false),
        PlayerState::ServeHit => (vec![(2usize, 50u64), (3usize, 300u64)], false),
        PlayerState::Idle => (
            vec![(4usize, 300u64), (5usize, 100u64), (6usize, 200u64), (7usize, 100u64)],
            true,
        ),
        PlayerState::Run => (
            vec![(11usize, 150u64), (8usize, 75u64), (9usize, 150u64), (10usize, 75u64)],
            true,
        ),
        PlayerState::Charge | PlayerState::Swing => {
            return None;
        },
    };
    proof {
        assert(data@ =~= frame_table(state)->Some_0.0);
    }
    Some(Animation::new(data, repeating))
}

/// The animation to switch to when a player's state changes; only the user
/// standing or running has one so far.
pub fn animation_for(player: Player, state: PlayerState) -> (r: Animation)
    requires
        player == Player::User,
        state == PlayerState::Idle || state == PlayerState::Run,
    ensures
        frame_table(state) matches Some((data, repeating)) && fresh_animation(r, data, repeating),
{
    player_animation(state).unwrap()
}

/// The state a player is in once this update's animation step is done: an
/// animation that plays once and has just ended hands over to `next`.
pub fn state_after_animation(animation: &Animation, current: PlayerState, next: PlayerState) -> (r:
    PlayerState)
    ensures
        r == if animation.clock().just_finished && !animation.clock().repeating {
            next
        } else {
            current
        },
{
    let timer = animation.timer();
    if timer.just_finished() && !timer.repeating() {
        next
    } else {
        current
    }
}

} // verus!
