use tennis::ball::BallBouncesSinceHit;
use tennis::court::{CourtDimensions, CourtPoint};
use tennis::input::{input_events, InputEvents, MovePlayerEvent, ScreenDirection};
use tennis::level::{award_point, game_result, GameResult, OpponentScore, PointOverEvent, UserScore};
use tennis::player::{
    heading, switch_hand, user_move, user_speed, Heading, MoveDecision, Player, PlayerState,
    RacketHand, USER_DEFAULT_SPEED, USER_SLOW_SPEED,
};

fn p(x: i64, z: i64) -> CourtPoint {
    CourtPoint { x, y: 0, z }
}

#[test]
fn award_point_to_each_side() {
    let mut user = UserScore(3);
    let mut opponent = OpponentScore(5);
    award_point(&mut user, &mut opponent, &PointOverEvent { winner: Player::User });
    assert_eq!((user.0, opponent.0), (4, 5));
    award_point(&mut user, &mut opponent, &PointOverEvent { winner: Player::Opponent });
    assert_eq!((user.0, opponent.0), (4, 6));
}

#[test]
fn award_point_beside_a_full_score() {
    let mut user = UserScore(u32::MAX);
    let mut opponent = OpponentScore(0);
    award_point(&mut user, &mut opponent, &PointOverEvent { winner: Player::Opponent });
    assert_eq!((user.0, opponent.0), (u32::MAX, 1));
}

#[test]
fn game_needs_seven_points_and_two_ahead() {
    assert_eq!(game_result(&UserScore(0), &OpponentScore(0)), None);
    assert_eq!(game_result(&UserScore(6), &OpponentScore(0)), None);
    assert_eq!(game_result(&UserScore(7), &OpponentScore(5)), Some(GameResult::UserWon));
    assert_eq!(game_result(&UserScore(7), &OpponentScore(6)), None);
    assert_eq!(game_result(&UserScore(10), &OpponentScore(8)), Some(GameResult::UserWon));
    assert_eq!(game_result(&UserScore(5), &OpponentScore(7)), Some(GameResult::UserLost));
    assert_eq!(game_result(&UserScore(8), &OpponentScore(9)), None);
    assert_eq!(game_result(&UserScore(u32::MAX), &OpponentScore(u32::MAX)), None);
    assert_eq!(game_result(&UserScore(u32::MAX), &OpponentScore(0)), Some(GameResult::UserWon));
}

#[test]
fn game_result_messages() {
    assert_eq!(GameResult::UserWon.message(), "You won!");
    assert_eq!(GameResult::UserLost.message(), "You lost!");
}

#[test]
fn bounce_count_resets_on_hit() {
    let mut b = BallBouncesSinceHit(3);
    b.register_hits(0);
    assert_eq!(b.0, 3);
    b.register_hits(2);
    assert_eq!(b.0, 0);
    assert_eq!(BallBouncesSinceHit::default().0, 0);
}

#[test]
fn speed_slows_with_secondary() {
    assert_eq!(user_speed(false), USER_DEFAULT_SPEED);
    assert_eq!(user_speed(true), USER_SLOW_SPEED);
    assert_eq!((USER_DEFAULT_SPEED, USER_SLOW_SPEED), (10, 4));
}

#[test]
fn heading_from_keys() {
    assert_eq!(heading(true, false, false, false), Heading { x: 1, z: 0 });
    assert_eq!(heading(false, true, true, false), Heading { x: -1, z: -1 });
    assert_eq!(heading(true, true, false, true), Heading { x: 0, z: 1 });
    assert_eq!(heading(true, true, true, true), Heading { x: 0, z: 0 });
}

#[test]
fn idle_user_starts_running() {
    assert_eq!(
        user_move(PlayerState::Idle, true, false, false, false),
        MoveDecision { heading: Some(Heading { x: 1, z: 0 }), state: PlayerState::Run }
    );
    assert_eq!(
        user_move(PlayerState::Run, false, false, true, false),
        MoveDecision { heading: Some(Heading { x: 0, z: -1 }), state: PlayerState::Run }
    );
}

#[test]
fn running_user_stops() {
    assert_eq!(
        user_move(PlayerState::Run, false, false, false, false),
        MoveDecision { heading: None, state: PlayerState::Idle }
    );
    assert_eq!(
        user_move(PlayerState::Run, true, true, false, false),
        MoveDecision { heading: None, state: PlayerState::Idle }
    );
    assert_eq!(
        user_move(PlayerState::Idle, false, false, false, false),
        MoveDecision { heading: None, state: PlayerState::Idle }
    );
}

#[test]
fn swinging_user_stays_put() {
    for state in [PlayerState::Charge, PlayerState::Swing] {
        assert_eq!(
            user_move(state, true, false, true, false),
            MoveDecision { heading: None, state }
        );
    }
}

#[test]
fn serving_user_moves_without_changing_state() {
    assert_eq!(
        user_move(PlayerState::ServeReady, false, true, false, true),
        MoveDecision { heading: Some(Heading { x: -1, z: 1 }), state: PlayerState::ServeReady }
    );
}

#[test]
fn racket_changes_hand() {
    assert_eq!(switch_hand(RacketHand::Right, false, true, false, false), (RacketHand::Left, true));
    assert_eq!(switch_hand(RacketHand::Left, true, false, true, false), (RacketHand::Right, false));
    assert_eq!(switch_hand(RacketHand::Left, true, true, false, false), (RacketHand::Left, true));
    assert_eq!(switch_hand(RacketHand::Right, false, true, false, true), (RacketHand::Right, false));
    assert_eq!(switch_hand(RacketHand::Right, false, false, false, false), (RacketHand::Right, false));
    assert_eq!(switch_hand(RacketHand::Right, false, true, true, false), (RacketHand::Left, true));
}

#[test]
fn input_events_from_buttons() {
    assert_eq!(
        input_events(true, false, false, false, false),
        InputEvents { primary_press: true, movement: None }
    );
    assert_eq!(
        input_events(false, true, false, true, false),
        InputEvents {
            primary_press: false,
            movement: Some(MovePlayerEvent { direction: ScreenDirection { x: -1, y: 1 } }),
        }
    );
    assert_eq!(
        input_events(false, false, true, false, true),
        InputEvents {
            primary_press: false,
            movement: Some(MovePlayerEvent { direction: ScreenDirection { x: 1, y: -1 } }),
        }
    );
    assert_eq!(
        input_events(false, true, true, true, true),
        InputEvents { primary_press: false, movement: None }
    );
}

#[test]
fn regulation_court_dimensions() {
    assert_eq!(
        CourtDimensions::default(),
        CourtDimensions {
            net_to_baseline: 468,
            net_to_service_line: 252,
            center_to_sideline: 162,
            center_to_alley: 216,
        }
    );
}

#[test]
fn court_surface_corners() {
    let surface = CourtDimensions::default().court_surface_path();
    assert_eq!(surface.corners, vec![p(-216, 468), p(216, 468), p(216, -468), p(-216, -468)]);
}

#[test]
fn court_lines() {
    let d = CourtDimensions {
        net_to_baseline: 40,
        net_to_service_line: 20,
        center_to_sideline: 10,
        center_to_alley: 15,
    };
    let lines = d.court_boundaries_path();
    assert_eq!(
        lines.segments,
        vec![
            (p(-15, 0), p(15, 0)),
            (p(-15, 40), p(15, 40)),
            (p(-15, -40), p(15, -40)),
            (p(-10, 20), p(10, 20)),
            (p(10, -40), p(10, 40)),
            (p(15, -40), p(15, 40)),
            (p(-15, -40), p(-15, 40)),
            (p(-10, -40), p(-10, 40)),
            (p(-10, -20), p(10, -20)),
            (p(0, -20), p(0, 20)),
        ]
    );
}

#[test]
fn court_at_largest_size() {
    let d = CourtDimensions {
        net_to_baseline: u32::MAX,
        net_to_service_line: u32::MAX,
        center_to_sideline: u32::MAX,
        center_to_alley: u32::MAX,
    };
    let m = u32::MAX as i64;
    assert_eq!(d.court_surface_path().corners[3], p(-m, -m));
    assert_eq!(d.court_boundaries_path().segments.len(), 10);
}
