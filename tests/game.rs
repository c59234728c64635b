use pong_serv::game::{
    combined_send_outcome, game_record, result_delivery, Game0Control, Game0Event, Game1Control,
    Game1Event, GameAction, GameRecord, PointOutcome, ResultDelivery, Scoreboard,
};
use pong_serv::{ClientUpdateError, GameAbortedMessage, GameCompletedMessage, Side, WinType};

fn control_at(scores: [u32; 2], service_side: Side) -> Game0Control {
    Game0Control {
        board: Scoreboard { scores, service_side },
        l_pad_dy: 0,
        r_pad_dy: 0,
    }
}

#[test]
fn scoring_and_wall_out_ends_match() {
    let mut control = control_at([9, 9], Side::Left);
    match control.next(Game0Event::Tick(Some(Side::Left))) {
        GameAction::Finish(result) => {
            assert_eq!(result.score, [9, 10]);
            assert_eq!(result.winner, Side::Right);
            assert_eq!(result.win_type, WinType::ScoreReached);
            assert_eq!(
                result_delivery(&result),
                ResultDelivery::Both(GameCompletedMessage { side: 1 })
            );
            assert_eq!(
                game_record(&result),
                Some(GameRecord { winner: Side::Right, left_score: 9, right_score: 10 })
            );
        }
        _ => panic!("the match should be over"),
    }
}

#[test]
fn point_scored_gives_service_to_loser() {
    let mut control = control_at([0, 0], Side::Left);
    assert!(matches!(
        control.next(Game0Event::Tick(Some(Side::Right))),
        GameAction::SendPointScored(Side::Left)
    ));
    assert_eq!(control.board.scores, [1, 0]);
    assert_eq!(control.board.service_side, Side::Right);
    // The same side loses again: it serves again.
    assert!(matches!(
        control.next(Game0Event::Tick(Some(Side::Right))),
        GameAction::SendPointScored(Side::Left)
    ));
    assert_eq!(control.board.scores, [2, 0]);
    assert_eq!(control.board.service_side, Side::Right);
}

#[test]
fn ball_in_sends_position_update() {
    let mut control = control_at([3, 4], Side::Right);
    assert!(matches!(control.next(Game0Event::Tick(None)), GameAction::SendPositionUpdate));
    assert_eq!(control.board.scores, [3, 4]);
}

#[test]
fn score_point_continue_and_done() {
    let board = Scoreboard { scores: [5, 9], service_side: Side::Left };
    match board.score_point(Side::Right) {
        PointOutcome::Continue { board, scorer } => {
            assert_eq!(scorer, Side::Left);
            assert_eq!(board.scores, [6, 9]);
            assert_eq!(board.service_side, Side::Right);
        }
        PointOutcome::Done(_) => panic!("not over yet"),
    }
    match board.score_point(Side::Left) {
        PointOutcome::Done(result) => assert_eq!(result.score, [5, 10]),
        PointOutcome::Continue { .. } => panic!("right reached the winning score"),
    }
}

#[test]
fn scores_never_decrease_over_a_match() {
    let mut control = Game0Control::new(Side::Left);
    let mut previous = control.board.scores;
    let walls = [Some(Side::Left), None, Some(Side::Right), Some(Side::Left), None];
    let mut i = 0;
    loop {
        let action = control.next(Game0Event::Tick(walls[i % walls.len()]));
        let now = match action {
            GameAction::Finish(result) => result.score,
            _ => control.board.scores,
        };
        assert!(now[0] >= previous[0] && now[1] >= previous[1]);
        assert!(now[0] <= 10 && now[1] <= 10);
        previous = now;
        if matches!(action, GameAction::Finish(_)) {
            break;
        }
        i += 1;
    }
    assert_eq!(previous, [5, 10]);
}

#[test]
fn withdrawal_of_left_client() {
    let mut control = control_at([2, 3], Side::Left);
    match control.next(Game0Event::LeftInput(Err(ClientUpdateError::ConnectionLost))) {
        GameAction::Finish(result) => {
            assert_eq!(result.score, [2, 3]);
            assert_eq!(result.winner, Side::Right);
            assert_eq!(result.win_type, WinType::Withdrawal);
            assert_eq!(
                result_delivery(&result),
                ResultDelivery::Survivor(Side::Right, GameAbortedMessage::new())
            );
            assert_eq!(game_record(&result), None);
        }
        _ => panic!("a closed connection is a withdrawal"),
    }
}

#[test]
fn send_failure_is_withdrawal() {
    let mut control = control_at([1, 1], Side::Left);
    match control.next(Game0Event::SendFailed(Side::Right)) {
        GameAction::Finish(result) => {
            assert_eq!(result.winner, Side::Left);
            assert_eq!(result.win_type, WinType::Withdrawal);
        }
        _ => panic!("a failed send is a withdrawal"),
    }
}

#[test]
fn inputs_set_pad_movement() {
    let mut control = control_at([0, 0], Side::Left);
    assert!(matches!(control.next(Game0Event::LeftInput(Ok(Some(-1)))), GameAction::Continue));
    assert!(matches!(control.next(Game0Event::RightInput(Ok(Some(1)))), GameAction::Continue));
    assert!(matches!(control.next(Game0Event::LeftInput(Ok(None))), GameAction::Continue));
    assert_eq!((control.l_pad_dy, control.r_pad_dy), (-1, 1));
}

#[test]
fn local_mode_cooldown() {
    let mut control = Game1Control::new(Side::Right);
    assert!(control.reads_allowed());
    assert!(matches!(control.next(Game1Event::Input(Ok(Some((1, -1))))), GameAction::StartCooldown));
    assert!(!control.reads_allowed());
    assert_eq!((control.l_pad_dy, control.r_pad_dy), (1, -1));
    assert!(matches!(control.next(Game1Event::Tick(None)), GameAction::SendPositionUpdate));
    assert!(!control.reads_allowed());
    assert!(matches!(control.next(Game1Event::CooldownElapsed), GameAction::Continue));
    assert!(control.reads_allowed());
    assert!(matches!(control.next(Game1Event::Input(Ok(None))), GameAction::StartCooldown));
    assert_eq!((control.l_pad_dy, control.r_pad_dy), (1, -1));
    assert!(matches!(control.next(Game1Event::SendFailed), GameAction::Stop));
}

#[test]
fn local_mode_input_error_stops() {
    let mut control = Game1Control::new(Side::Left);
    assert!(matches!(
        control.next(Game1Event::Input(Err(ClientUpdateError::ParsingFailed))),
        GameAction::Stop
    ));
}

#[test]
fn combined_send() {
    assert_eq!(combined_send_outcome::<u8>(Ok(()), Ok(())), Ok(()));
    assert_eq!(combined_send_outcome(Err(1u8), Err(2u8)), Err((1, Side::Left)));
    assert_eq!(combined_send_outcome(Ok(()), Err(2u8)), Err((2, Side::Right)));
}
