//! The ball and what is counted about it.

use vstd::prelude::*;

use crate::player::Player;

verus! {

/// Times the ball has bounced since a player last hit it.
#[derive(Clone, Copy, Debug, Default, PartialEq, Eq, Structural)]
pub struct BallBouncesSinceHit(pub u32);

impl BallBouncesSinceHit {
    /// Takes in this update's hits: any hit starts the count again.
    pub fn register_hits(&mut self, hits: usize)
        ensures
            final(self).0 == if hits > 0 {
                0
            } else {
                old(self).0
            },
    {
        if hits > 0 {
            self.0 = 0;
        }
    }
}

/// Marks the ball.
#[derive(Clone, Copy, Debug, Default, PartialEq, Eq, Structural)]
pub struct GameBall;

/// Marks the ball's shadow.
#[derive(Clone, Copy, Debug, Default, PartialEq, Eq, Structural)]
pub struct GameBallShadow;

/// The player who touched the ball last.
#[derive(Clone, Copy, Debug, PartialEq, Eq, Structural)]
pub struct LastHitBy(pub Player);

} // verus!
