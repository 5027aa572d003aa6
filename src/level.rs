//! Scoring: points won by each side and the end of a game.

use vstd::prelude::*;

use crate::player::Player;

verus! {

/// Points needed before a game can end.
pub const POINTS_TO_WIN: u32 = 7;

/// Lead a side needs, in points, to win the game.
pub const WINNING_MARGIN: u32 = 2;

/// Points won by the user.
#[derive(Clone, Copy, Debug, Default, PartialEq, Eq, Structural)]
pub struct UserScore(pub u32);

/// Points won by the opponent.
#[derive(Clone, Copy, Debug, Default, PartialEq, Eq, Structural)]
pub struct OpponentScore(pub u32);

/// Announces that a point is over and who won it.
#[derive(Clone, Copy, Debug, PartialEq, Eq, Structural)]
pub struct PointOverEvent {
    pub winner: Player,
}

/// Announces that one side has won the game.
#[derive(Clone, Copy, Debug, PartialEq, Eq, Structural)]
pub struct GameOverEvent;

/// How a finished game ended, seen from the user's side.
#[derive(Clone, Copy, Debug, PartialEq, Eq, Structural)]
pub enum GameResult {
    UserWon,
    UserLost,
}

/// A side has won once it has at least seven points and leads by two.
pub open spec fn has_won(own: int, other: int) -> bool {
    own >= POINTS_TO_WIN && own >= other + WINNING_MARGIN
}

/// The result of a game at the given scores, if it is over. A user win is
/// checked first.
pub open spec fn spec_game_result(user: int, opponent: int) -> Option<GameResult> {
    if has_won(user, opponent) {
        Some(GameResult::UserWon)
    } else if has_won(opponent, user) {
        Some(GameResult::UserLost)
    } else {
        None
    }
}

/// Gives the point to its winner.
pub fn award_point(user: &mut UserScore, opponent: &mut OpponentScore, event: &PointOverEvent)
    requires
        event.winner == Player::User ==> old(user).0 < u32::MAX,
        event.winner == Player::Opponent ==> old(opponent).0 < u32::MAX,
    ensures
        event.winner == Player::User ==> final(user).0 == old(user).0 + 1 && final(opponent).0
            == old(opponent).0,
        event.winner == Player::Opponent ==> final(opponent).0 == old(opponent).0 + 1
            && final(user).0 == old(user).0,
{
    match event.winner {
        Player::User => user.0 = user.0 + 1,
        Player::Opponent => opponent.0 = opponent.0 + 1,
    }
}

/// Decides whether the game is over at the given scores.
pub fn game_result(user: &UserScore, opponent: &OpponentScore) -> (r: Option<GameResult>)
    ensures
        r == spec_game_result(user.0 as int, opponent.0 as int),
{
    let u = user.0 as u64;
    let o = opponent.0 as u64;
    if u >= POINTS_TO_WIN as u64 && u >= o + WINNING_MARGIN as u64 {
        Some(GameResult::UserWon)
    } else if o >= POINTS_TO_WIN as u64 && o >= u + WINNING_MARGIN as u64 {
        Some(GameResult::UserLost)
    } else {
        None
    }
}

impl GameResult {
    /// The line shown to the user when the game ends.
    pub fn message(&self) -> (r: String)
        ensures
            *self == GameResult::UserWon ==> r@ == "You won!"@,
            *self == GameResult::UserLost ==> r@ == "You lost!"@,
    {
        match self {
            GameResult::UserWon => String::from_str("You won!"),
            GameResult::UserLost => String::from_str("You lost!"),
        }
    }
}

} // verus!
