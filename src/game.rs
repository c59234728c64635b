//! Scoring and the decisions of a running match.
//!
//! Ball and pad physics run outside this module; each simulation step reports
//! here only whether the ball crossed a side wall. What follows from that, and
//! from the clients' inputs and send failures, is decided here.

use vstd::prelude::*;

use crate::constants::WINNING_SCORE;
use crate::messages::{valid_delta, ClientUpdateError, GameAbortedMessage, GameCompletedMessage};
use crate::side::{opposite, side_code, Side};

verus! {

/// Why a match ended.
#[derive(Clone, Copy, Debug, PartialEq, Eq, Structural)]
pub enum WinType {
    /// The winner reached the winning score.
    ScoreReached,
    /// The winner's opponent disconnected or broke the protocol.
    Withdrawal,
}

/// Outcome of a match: final score (left, then right), winner and cause.
#[derive(Clone, Copy, Debug)]
pub struct GameResult {
    pub score: [u32; 2],
    pub winner: Side,
    pub win_type: WinType,
}

impl GameResult {
    pub fn new(score: [u32; 2], winner: Side, win_type: WinType) -> (r: GameResult)
        ensures
            r.score@ == score@,
            r.winner == winner,
            r.win_type == win_type,
    {
        GameResult { score, winner, win_type }
    }
}

/// Scores and service side of a match in play.
#[derive(Clone, Copy, Debug)]
pub struct Scoreboard {
    /// Points of the left side, then of the right side.
    pub scores: [u32; 2],
    /// The side towards which the next ball is served.
    pub service_side: Side,
}

/// Whether both scores lie in `0..=WINNING_SCORE`.
pub open spec fn scores_bounded(s: Seq<u32>) -> bool {
    s.len() == 2 && s[0] <= WINNING_SCORE && s[1] <= WINNING_SCORE
}

/// Whether every score of `new` is at least the one of `old`.
pub open spec fn scores_not_decreased(old: Seq<u32>, new: Seq<u32>) -> bool {
    old.len() == 2 && new.len() == 2 && old[0] <= new[0] && old[1] <= new[1]
}

/// The scores after `winner` takes one point.
pub open spec fn scores_after_point(s: Seq<u32>, winner: Side) -> Seq<u32> {
    s.update(side_code(winner) as int, (s[side_code(winner) as int] + 1) as u32)
}

/// What a wall-out on `out_side` leads to.
pub enum PointOutcome {
    /// Play goes on with this scoreboard; `scorer` took the point.
    Continue { board: Scoreboard, scorer: Side },
    /// The match is over.
    Done(GameResult),
}

impl Scoreboard {
    /// A match in play: no side has reached the winning score.
    pub open spec fn wf(&self) -> bool {
        self.scores@[0] < WINNING_SCORE && self.scores@[1] < WINNING_SCORE
    }

    /// Zero to zero, first ball served towards `service_side`.
    pub fn new(service_side: Side) -> (r: Scoreboard)
        ensures
            r.wf(),
            r.scores@ == seq![0u32, 0u32],
            r.service_side == service_side,
    {
        let r = Scoreboard { scores: [0, 0], service_side };
        proof {
            assert(r.scores@ =~= seq![0u32, 0u32]);
        }
        r
    }

    /// The ball left the court over the wall of `out_side`: the opposite side
    /// scores. If it reaches the winning score the match ends; otherwise the
    /// side that lost the point receives the next service.
    pub fn score_point(self, out_side: Side) -> (r: PointOutcome)
        requires
            self.wf(),
        ensures
            match r {
                PointOutcome::Continue { board, scorer } => {
                    &&& scorer == opposite(out_side)
                    &&& board.wf()
                    &&& board.scores@ == scores_after_point(self.scores@, scorer)
                    &&& board.service_side == out_side
                },
                PointOutcome::Done(res) => {
                    &&& res.winner == opposite(out_side)
                    &&& res.win_type == WinType::ScoreReached
                    &&& res.score@ == scores_after_point(self.scores@, res.winner)
                    &&& res.score@[side_code(res.winner) as int] == WINNING_SCORE
                },
            },
            (r matches PointOutcome::Done(_)) <==> self.scores@[side_code(opposite(out_side)) as int] + 1
                == WINNING_SCORE,
    {
        let winner = out_side.opposite();
        let scores = match winner {
            Side::Left => [self.scores[0] + 1, self.scores[1]],
            Side::Right => [self.scores[0], self.scores[1] + 1],
        };
        proof {
            assert(scores@ =~= scores_after_point(self.scores@, winner));
        }
        let won = match winner {
            Side::Left => scores[0] == WINNING_SCORE,
            Side::Right => scores[1] == WINNING_SCORE,
        };
        if won {
            PointOutcome::Done(GameResult::new(scores, winner, WinType::ScoreReached))
        } else {
            PointOutcome::Continue {
                board: Scoreboard { scores, service_side: out_side },
                scorer: winner,
            }
        }
    }

    /// Ends the match early, for a withdrawal of `loser`.
    pub fn end_by_withdrawal(self, loser: Side) -> (r: GameResult)
        ensures
            r.score@ == self.scores@,
            r.winner == opposite(loser),
            r.win_type == WinType::Withdrawal,
    {
        GameResult::new(self.scores, loser.opposite(), WinType::Withdrawal)
    }
}

/// What the driver of a match does after one decision.
#[derive(Clone, Copy, Debug)]
pub enum GameAction {
    /// Nothing to send.
    Continue,
    /// Send the positions after this step.
    SendPositionUpdate,
    /// Send that `scorer` took a point; the ball is served again.
    SendPointScored(Side),
    /// The match is over with this result.
    Finish(GameResult),
    /// Stop reading inputs until the cooldown elapses (local mode).
    StartCooldown,
    /// End the match without a result and without a final message (local mode).
    Stop,
}

/// Events of a remote match, in the order the driver observes them.
pub enum Game0Event {
    /// A simulation step ran; `wall_out` is the wall the ball crossed, if any.
    Tick(Option<Side>),
    /// What was read from the left client.
    LeftInput(Result<Option<i8>, ClientUpdateError>),
    /// What was read from the right client.
    RightInput(Result<Option<i8>, ClientUpdateError>),
    /// Sending the last update failed on this side.
    SendFailed(Side),
}

impl Game0Event {
    /// Inputs carry movements in `-1..=1`, as the input parser yields them.
    pub open spec fn wf(&self) -> bool {
        match self {
            Game0Event::LeftInput(Ok(Some(d))) => valid_delta(*d),
            Game0Event::RightInput(Ok(Some(d))) => valid_delta(*d),
            _ => true,
        }
    }
}

/// Decision state of a remote match: scoreboard and each pad's last movement.
#[derive(Clone, Copy, Debug)]
pub struct Game0Control {
    pub board: Scoreboard,
    pub l_pad_dy: i8,
    pub r_pad_dy: i8,
}

/// Whether `next` and `act` follow a simulation step on `board` in which the
/// ball crossed the wall of `wall_out`, if any: without a wall-out the
/// positions are sent; otherwise the opposite side scores, and either the match
/// ends at the winning score with the board left as it was, or the point is
/// announced and the side that lost it receives the next service.
pub open spec fn tick_follows(board: Scoreboard, wall_out: Option<Side>, next: Scoreboard, act: GameAction) -> bool {
    match wall_out {
        None => next == board && act == GameAction::SendPositionUpdate,
        Some(out) => {
            let winner = opposite(out);
            let scores = scores_after_point(board.scores@, winner);
            if scores[side_code(winner) as int] == WINNING_SCORE {
                &&& next == board
                &&& act matches GameAction::Finish(r)
                &&& r.score@ == scores
                &&& r.winner == winner
                &&& r.win_type == WinType::ScoreReached
            } else {
                &&& next.scores@ == scores
                &&& next.service_side == out
                &&& act == GameAction::SendPointScored(winner)
            }
        },
    }
}

/// What an input read from one client does to that side's pad movement, or the
/// withdrawal it causes.
pub open spec fn input_effect(current: i8, input: Result<Option<i8>, ClientUpdateError>) -> Option<i8> {
    match input {
        Ok(Some(d)) => Some(d),
        Ok(None) => Some(current),
        Err(_) => None,
    }
}

/// Whether `r` ends a match with the current scores by a withdrawal of `loser`.
pub open spec fn is_withdrawal(r: GameAction, scores: Seq<u32>, loser: Side) -> bool {
    r matches GameAction::Finish(res) && res.score@ == scores && res.winner == opposite(loser)
        && res.win_type == WinType::Withdrawal
}

/// What one decision does to a scoreboard's scores, stated for every action.
pub open spec fn scores_step_ok(old: Scoreboard, new: Scoreboard, act: GameAction) -> bool {
    &&& scores_not_decreased(old.scores@, new.scores@)
    &&& scores_bounded(new.scores@)
    &&& (act matches GameAction::Finish(res) ==> scores_not_decreased(old.scores@, res.score@)
        && scores_bounded(res.score@))
}

impl Game0Control {
    pub open spec fn wf(&self) -> bool {
        self.board.wf() && valid_delta(self.l_pad_dy) && valid_delta(self.r_pad_dy)
    }

    /// Start of play: pads still, first service towards `service_side`.
    pub fn new(service_side: Side) -> (r: Game0Control)
        ensures
            r.wf(),
            r.board.scores@ == seq![0u32, 0u32],
            r.board.service_side == service_side,
            r.l_pad_dy == 0 && r.r_pad_dy == 0,
    {
        Game0Control { board: Scoreboard::new(service_side), l_pad_dy: 0, r_pad_dy: 0 }
    }

    /// Decides what one event of a remote match leads to.
    ///
    /// A wall-out scores for the opposite side and ends the match at the winning
    /// score. An input sets that side's pad movement; a ping keeps it; a read
    /// error is a withdrawal of that side. A failed send is a withdrawal of the
    /// side it failed on.
    pub fn next(&mut self, event: Game0Event) -> (r: GameAction)
        requires
            old(self).wf(),
            event.wf(),
        ensures
            final(self).wf(),
            scores_step_ok(old(self).board, final(self).board, r),
            match event {
                Game0Event::Tick(w) => tick_follows(old(self).board, w, final(self).board, r)
                    && final(self).l_pad_dy == old(self).l_pad_dy && final(self).r_pad_dy == old(self).r_pad_dy,
                Game0Event::LeftInput(i) => match input_effect(old(self).l_pad_dy, i) {
                    Some(d) => r == GameAction::Continue && *final(self) == (Game0Control { l_pad_dy: d, ..*old(self) }),
                    None => is_withdrawal(r, old(self).board.scores@, Side::Left),
                },
                Game0Event::RightInput(i) => match input_effect(old(self).r_pad_dy, i) {
                    Some(d) => r == GameAction::Continue && *final(self) == (Game0Control { r_pad_dy: d, ..*old(self) }),
                    None => is_withdrawal(r, old(self).board.scores@, Side::Right),
                },
                Game0Event::SendFailed(s) => is_withdrawal(r, old(self).board.scores@, s),
            },
    {
        match event {
            Game0Event::Tick(wall_out) => {
                let stepped = tick(self.board, wall_out);
                self.board = stepped.0;
                stepped.1
            },
            Game0Event::LeftInput(input) => match input {
                Ok(Some(d)) => {
                    self.l_pad_dy = d;
                    GameAction::Continue
                },
                Ok(None) => GameAction::Continue,
                Err(_) => GameAction::Finish(self.board.end_by_withdrawal(Side::Left)),
            },
            Game0Event::RightInput(input) => match input {
                Ok(Some(d)) => {
                    self.r_pad_dy = d;
                    GameAction::Continue
                },
                Ok(None) => GameAction::Continue,
                Err(_) => GameAction::Finish(self.board.end_by_withdrawal(Side::Right)),
            },
            Game0Event::SendFailed(side) => GameAction::Finish(self.board.end_by_withdrawal(side)),
        }
    }
}

/// Events of a local match, in the order the driver observes them.
pub enum Game1Event {
    /// A simulation step ran; `wall_out` is the wall the ball crossed, if any.
    Tick(Option<Side>),
    /// The input cooldown is over.
    CooldownElapsed,
    /// What was read from the client; only read while reading is allowed.
    Input(Result<Option<(i8, i8)>, ClientUpdateError>),
    /// Sending the last update failed.
    SendFailed,
}

impl Game1Event {
    /// Inputs carry movements in `-1..=1`, as the input parser yields them.
    pub open spec fn wf(&self) -> bool {
        self matches Game1Event::Input(Ok(Some((l, r)))) ==> valid_delta(*l) && valid_delta(*r)
    }
}

/// Decision state of a local match: scoreboard, both pads' last movement, and
/// whether the next input may be read.
#[derive(Clone, Copy, Debug)]
pub struct Game1Control {
    pub board: Scoreboard,
    pub l_pad_dy: i8,
    pub r_pad_dy: i8,
    pub reading_allowed: bool,
}

impl Game1Control {
    pub open spec fn wf(&self) -> bool {
        self.board.wf() && valid_delta(self.l_pad_dy) && valid_delta(self.r_pad_dy)
    }

    /// Start of play: pads still, reading allowed, first service towards `service_side`.
    pub fn new(service_side: Side) -> (r: Game1Control)
        ensures
            r.wf(),
            r.board.scores@ == seq![0u32, 0u32],
            r.board.service_side == service_side,
            r.l_pad_dy == 0 && r.r_pad_dy == 0,
            r.reading_allowed,
    {
        Game1Control { board: Scoreboard::new(service_side), l_pad_dy: 0, r_pad_dy: 0, reading_allowed: true }
    }

    /// Whether the driver may read the client's next input now.
    pub fn reads_allowed(&self) -> (r: bool)
        ensures
            r == self.reading_allowed,
    {
        self.reading_allowed
    }

    /// Decides what one event of a local match leads to.
    ///
    /// Steps score as in a remote match. After each input read (a ping too),
    /// reading pauses until the cooldown elapses. A read error or a failed send
    /// ends the match silently.
    pub fn next(&mut self, event: Game1Event) -> (r: GameAction)
        requires
            old(self).wf(),
            event.wf(),
            event matches Game1Event::Input(_) ==> old(self).reading_allowed,
        ensures
            final(self).wf(),
            scores_step_ok(old(self).board, final(self).board, r),
            match event {
                Game1Event::Tick(w) => tick_follows(old(self).board, w, final(self).board, r)
                    && final(self).l_pad_dy == old(self).l_pad_dy && final(self).r_pad_dy == old(self).r_pad_dy
                    && final(self).reading_allowed == old(self).reading_allowed,
                Game1Event::CooldownElapsed => r == GameAction::Continue
                    && *final(self) == (Game1Control { reading_allowed: true, ..*old(self) }),
                Game1Event::Input(Ok(Some((a, b)))) => r == GameAction::StartCooldown
                    && *final(self) == (Game1Control { l_pad_dy: a, r_pad_dy: b, reading_allowed: false, ..*old(self) }),
                Game1Event::Input(Ok(None)) => r == GameAction::StartCooldown
                    && *final(self) == (Game1Control { reading_allowed: false, ..*old(self) }),
                Game1Event::Input(Err(_)) => r == GameAction::Stop,
                Game1Event::SendFailed => r == GameAction::Stop,
            },
    {
        match event {
            Game1Event::Tick(wall_out) => {
                let stepped = tick(self.board, wall_out);
                self.board = stepped.0;
                stepped.1
            },
            Game1Event::CooldownElapsed => {
                self.reading_allowed = true;
                GameAction::Continue
            },
            Game1Event::Input(input) => match input {
                Ok(Some((a, b))) => {
                    self.l_pad_dy = a;
                    self.r_pad_dy = b;
                    self.reading_allowed = false;
                    GameAction::StartCooldown
                },
                Ok(None) => {
                    self.reading_allowed = false;
                    GameAction::StartCooldown
                },
                Err(_) => GameAction::Stop,
            },
            Game1Event::SendFailed => GameAction::Stop,
        }
    }
}

/// Which clients hear how a remote match ended.
#[derive(Clone, Copy, Debug, PartialEq, Eq, Structural)]
pub enum ResultDelivery {
    /// Both clients receive this game-completed message.
    Both(GameCompletedMessage),
    /// Only the surviving client, on this side, receives the game-aborted message.
    Survivor(Side, GameAbortedMessage),
}

/// The final message of a remote match: a completed match is announced to both
/// clients with its winner; after a withdrawal only the winner hears of it.
pub fn result_delivery(result: &GameResult) -> (r: ResultDelivery)
    ensures
        match result.win_type {
            WinType::ScoreReached => r == ResultDelivery::Both(GameCompletedMessage { side: side_code(result.winner) }),
            WinType::Withdrawal => r == ResultDelivery::Survivor(result.winner, GameAbortedMessage {}),
        },
{
    match result.win_type {
        WinType::ScoreReached => ResultDelivery::Both(GameCompletedMessage::new(result.winner)),
        WinType::Withdrawal => ResultDelivery::Survivor(result.winner, GameAbortedMessage::new()),
    }
}

/// What the store keeps of a completed remote match.
#[derive(Clone, Copy, Debug, PartialEq, Eq, Structural)]
pub struct GameRecord {
    pub winner: Side,
    pub left_score: i16,
    pub right_score: i16,
}

/// The record to store for a remote match: only a match that ended by reaching
/// the winning score is stored.
pub fn game_record(result: &GameResult) -> (r: Option<GameRecord>)
    requires
        scores_bounded(result.score@),
    ensures
        match result.win_type {
            WinType::ScoreReached => r == Some(GameRecord {
                winner: result.winner,
                left_score: result.score@[0] as i16,
                right_score: result.score@[1] as i16,
            }),
            WinType::Withdrawal => r.is_none(),
        },
{
    match result.win_type {
        WinType::ScoreReached => Some(GameRecord {
            winner: result.winner,
            left_score: result.score[0] as i16,
            right_score: result.score[1] as i16,
        }),
        WinType::Withdrawal => None,
    }
}

/// Outcome of sending one update to both clients of a remote match: success
/// only if both sends succeeded, otherwise the error and the side it came from,
/// the left side first.
pub fn combined_send_outcome<E>(left: Result<(), E>, right: Result<(), E>) -> (r: Result<(), (E, Side)>)
    ensures
        match (left, right) {
            (Err(e), _) => r == Err::<(), (E, Side)>((e, Side::Left)),
            (Ok(_), Err(e)) => r == Err::<(), (E, Side)>((e, Side::Right)),
            (Ok(_), Ok(_)) => r == Ok::<(), (E, Side)>(()),
        },
{
    match left {
        Err(e) => Err((e, Side::Left)),
        Ok(_) => match right {
            Err(e) => Err((e, Side::Right)),
            Ok(_) => Ok(()),
        },
    }
}

/// One simulation step's effect on the scoreboard. A finished match keeps the
/// board it had; its result holds the final score.
fn tick(board: Scoreboard, wall_out: Option<Side>) -> (r: (Scoreboard, GameAction))
    requires
        board.wf(),
    ensures
        r.0.wf(),
        tick_follows(board, wall_out, r.0, r.1),
        scores_step_ok(board, r.0, r.1),
{
    match wall_out {
        None => (board, GameAction::SendPositionUpdate),
        Some(out) => match board.score_point(out) {
            PointOutcome::Continue { board: next, scorer } => (next, GameAction::SendPointScored(scorer)),
            PointOutcome::Done(res) => (board, GameAction::Finish(res)),
        },
    }
}

} // verus!
