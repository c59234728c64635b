//! Messages of the protocol: what the server sends, and how what clients send is read.

use vstd::prelude::*;

use crate::codec::{
    cbor_decoded_hello, cbor_decoded_i8, cbor_decoded_i8_pair, cbor_text_uint_uint,
    cbor_uint_array, decode_hello, decode_i8, decode_i8_pair, encode_text_uint_uint,
    encode_uint_array,
};
use crate::side::{side_code, Side};

verus! {

/// Message that ends a completed match, naming the winner.
#[derive(Clone, Copy, Debug, PartialEq, Eq, Structural)]
pub struct GameCompletedMessage {
    /// Protocol code of the winning side.
    pub side: u8,
}

/// Message that tells the surviving client that its opponent withdrew.
#[derive(Clone, Copy, Debug, PartialEq, Eq, Structural)]
pub struct GameAbortedMessage {}

/// Start message of a remote match: opponent, own side, and start time.
#[derive(Clone, Debug)]
pub struct GameMode0StartMessage {
    pub enemy_username: String,
    /// Protocol code of the receiving client's side.
    pub side: u8,
    /// Start of play, in milliseconds since the Unix epoch (UTC).
    pub starting_time: u64,
}

/// Start message of a local match.
#[derive(Clone, Copy, Debug, PartialEq, Eq, Structural)]
pub struct GameMode1StartMessage {
    /// Start of play, in milliseconds since the Unix epoch (UTC).
    pub starting_time: u64,
}

/// Message identifier of the game-completed message.
pub const GAME_COMPLETED_ID: u8 = 2;

/// Message identifier of the game-aborted message.
pub const GAME_ABORTED_ID: u8 = 3;

impl GameCompletedMessage {
    pub fn new(side: Side) -> (r: GameCompletedMessage)
        ensures
            r.side == side_code(side),
    {
        GameCompletedMessage { side: u8::from(side) }
    }

    /// The wire form `(2, side)`.
    pub fn to_bytes(&self) -> (r: Vec<u8>)
        ensures
            r@ == cbor_uint_array(seq![GAME_COMPLETED_ID as u64, self.side as u64]),
    {
        let v: Vec<u64> = vec![GAME_COMPLETED_ID as u64, self.side as u64];
        proof {
            assert(v@ =~= seq![GAME_COMPLETED_ID as u64, self.side as u64]);
        }
        encode_uint_array(&v)
    }
}

impl GameAbortedMessage {
    pub fn new() -> (r: GameAbortedMessage) {
        GameAbortedMessage {}
    }

    /// The wire form `(3,)`.
    pub fn to_bytes(&self) -> (r: Vec<u8>)
        ensures
            r@ == cbor_uint_array(seq![GAME_ABORTED_ID as u64]),
    {
        let v: Vec<u64> = vec![GAME_ABORTED_ID as u64];
        proof {
            assert(v@ =~= seq![GAME_ABORTED_ID as u64]);
        }
        encode_uint_array(&v)
    }
}

impl GameMode0StartMessage {
    pub fn new(enemy_username: &str, side: Side, starting_time: u64) -> (r: GameMode0StartMessage)
        ensures
            r.enemy_username@ == enemy_username@,
            r.side == side_code(side),
            r.starting_time == starting_time,
    {
        GameMode0StartMessage {
            enemy_username: enemy_username.to_string(),
            side: u8::from(side),
            starting_time,
        }
    }

    /// The wire form `(enemy_username, side, starting_time)`.
    pub fn to_bytes(&self) -> (r: Vec<u8>)
        ensures
            r@ == cbor_text_uint_uint(self.enemy_username@, self.side as u64, self.starting_time),
    {
        encode_text_uint_uint(self.enemy_username.as_str(), self.side as u64, self.starting_time)
    }
}

impl GameMode1StartMessage {
    pub fn new(starting_time: u64) -> (r: GameMode1StartMessage)
        ensures
            r.starting_time == starting_time,
    {
        GameMode1StartMessage { starting_time }
    }

    /// The wire form `(starting_time,)`.
    pub fn to_bytes(&self) -> (r: Vec<u8>)
        ensures
            r@ == cbor_uint_array(seq![self.starting_time]),
    {
        let v: Vec<u64> = vec![self.starting_time];
        proof {
            assert(v@ =~= seq![self.starting_time]);
        }
        encode_uint_array(&v)
    }
}

/// A WebSocket event as the transport delivers it, reduced to what the protocol reads.
#[derive(Clone, Debug, PartialEq, Eq)]
pub enum WsEvent {
    /// A binary frame and its payload.
    Binary(Vec<u8>),
    /// A ping frame; the transport answers it.
    Ping,
    /// A pong frame and its payload.
    Pong(Vec<u8>),
    /// Any other frame: text, close, or raw.
    OtherFrame,
    /// The stream ended, or the connection was closed.
    Closed,
    /// The transport reported another error.
    TransportError,
}

/// Errors met while reading a client's input during a match.
#[derive(Clone, Copy, Debug, PartialEq, Eq, Structural)]
pub enum ClientUpdateError {
    ConnectionError,
    ConnectionLost,
    ParsingFailed,
    ProtocolViolation,
}

/// Whether a pad movement is one of `-1`, `0`, `1`.
pub open spec fn valid_delta(d: i8) -> bool {
    -1 <= d && d <= 1
}

/// What an event that is not a binary frame means while a match runs.
pub open spec fn non_binary_input_outcome<T>(ev: WsEvent) -> Result<Option<T>, ClientUpdateError> {
    match ev {
        WsEvent::Ping => Ok(None),
        WsEvent::Closed => Err(ClientUpdateError::ConnectionLost),
        WsEvent::TransportError => Err(ClientUpdateError::ConnectionError),
        _ => Err(ClientUpdateError::ProtocolViolation),
    }
}

/// Outcome of a decoded remote-match input.
pub open spec fn gm0_decoded_outcome(decoded: Option<i8>) -> Result<Option<i8>, ClientUpdateError> {
    match decoded {
        Some(d) => if valid_delta(d) {
            Ok(Some(d))
        } else {
            Err(ClientUpdateError::ProtocolViolation)
        },
        None => Err(ClientUpdateError::ParsingFailed),
    }
}

/// Outcome of a decoded local-match input.
pub open spec fn gm1_decoded_outcome(decoded: Option<(i8, i8)>) -> Result<
    Option<(i8, i8)>,
    ClientUpdateError,
> {
    match decoded {
        Some((l, r)) => if valid_delta(l) && valid_delta(r) {
            Ok(Some((l, r)))
        } else {
            Err(ClientUpdateError::ProtocolViolation)
        },
        None => Err(ClientUpdateError::ParsingFailed),
    }
}

/// Outcome of an event read from a remote-match client.
pub open spec fn gm0_input_outcome(ev: WsEvent) -> Result<Option<i8>, ClientUpdateError> {
    match ev {
        WsEvent::Binary(b) => gm0_decoded_outcome(cbor_decoded_i8(b@)),
        _ => non_binary_input_outcome(ev),
    }
}

/// Outcome of an event read from a local-match client.
pub open spec fn gm1_input_outcome(ev: WsEvent) -> Result<Option<(i8, i8)>, ClientUpdateError> {
    match ev {
        WsEvent::Binary(b) => gm1_decoded_outcome(cbor_decoded_i8_pair(b@)),
        _ => non_binary_input_outcome(ev),
    }
}

/// Checks a decoded remote-match input: a movement in `-1..=1` is accepted.
pub fn check_gm0_input(decoded: Option<i8>) -> (r: Result<Option<i8>, ClientUpdateError>)
    ensures
        r == gm0_decoded_outcome(decoded),
{
    match decoded {
        Some(d) => if -1 <= d && d <= 1 {
            Ok(Some(d))
        } else {
            Err(ClientUpdateError::ProtocolViolation)
        },
        None => Err(ClientUpdateError::ParsingFailed),
    }
}

/// Checks a decoded local-match input: both movements must lie in `-1..=1`.
pub fn check_gm1_input(decoded: Option<(i8, i8)>) -> (r: Result<Option<(i8, i8)>, ClientUpdateError>)
    ensures
        r == gm1_decoded_outcome(decoded),
{
    match decoded {
        Some((l, rr)) => if -1 <= l && l <= 1 && -1 <= rr && rr <= 1 {
            Ok(Some((l, rr)))
        } else {
            Err(ClientUpdateError::ProtocolViolation)
        },
        None => Err(ClientUpdateError::ParsingFailed),
    }
}

/// Reads an event from a remote-match client: `Ok(None)` for a ping, the new pad
/// movement for a valid binary frame, an error otherwise.
pub fn parse_gm0_input_message(msg: WsEvent) -> (r: Result<Option<i8>, ClientUpdateError>)
    ensures
        r == gm0_input_outcome(msg),
        r matches Ok(Some(d)) ==> valid_delta(d),
{
    match msg {
        WsEvent::Binary(b) => check_gm0_input(decode_i8(b.as_slice())),
        WsEvent::Ping => Ok(None),
        WsEvent::Closed => Err(ClientUpdateError::ConnectionLost),
        WsEvent::TransportError => Err(ClientUpdateError::ConnectionError),
        _ => Err(ClientUpdateError::ProtocolViolation),
    }
}

/// Reads an event from a local-match client: `Ok(None)` for a ping, the new pair of
/// pad movements for a valid binary frame, an error otherwise.
pub fn parse_gm1_input_message(msg: WsEvent) -> (r: Result<Option<(i8, i8)>, ClientUpdateError>)
    ensures
        r == gm1_input_outcome(msg),
        r matches Ok(Some((a, b))) ==> valid_delta(a) && valid_delta(b),
{
    match msg {
        WsEvent::Binary(b) => check_gm1_input(decode_i8_pair(b.as_slice())),
        WsEvent::Ping => Ok(None),
        WsEvent::Closed => Err(ClientUpdateError::ConnectionLost),
        WsEvent::TransportError => Err(ClientUpdateError::ConnectionError),
        _ => Err(ClientUpdateError::ProtocolViolation),
    }
}

/// Game modes by their protocol integer.
#[derive(Clone, Copy, Debug, PartialEq, Eq, Structural)]
pub enum GameModes {
    /// Two clients paired by the match-maker, one side each.
    MatchMadeRemote1v1,
    /// Both sides played from one connection.
    Local1v1,
}

/// Protocol integer of a game mode.
pub open spec fn game_mode_code(m: GameModes) -> u8 {
    match m {
        GameModes::MatchMadeRemote1v1 => 0,
        GameModes::Local1v1 => 1,
    }
}

impl From<GameModes> for u8 {
    fn from(value: GameModes) -> (r: u8) {
        match value {
            GameModes::MatchMadeRemote1v1 => 0,
            GameModes::Local1v1 => 1,
        }
    }
}

impl vstd::std_specs::convert::FromSpecImpl<GameModes> for u8 {
    open spec fn obeys_from_spec() -> bool {
        true
    }

    open spec fn from_spec(v: GameModes) -> u8 {
        game_mode_code(v)
    }
}

/// The first message of every client: protocol version, user name and game mode.
#[derive(Clone, Debug, PartialEq, Eq)]
pub struct HelloMessage {
    pub proto_version: u8,
    pub id: String,
    pub game_mode: u8,
}

impl HelloMessage {
    pub fn new(proto_version: u8, id: String, game_mode: u8) -> (r: HelloMessage)
        ensures
            r.proto_version == proto_version,
            r.id@ == id@,
            r.game_mode == game_mode,
    {
        HelloMessage { proto_version, id, game_mode }
    }
}

/// Errors met while waiting for the hello message.
#[derive(Clone, Copy, Debug, PartialEq, Eq, Structural)]
pub enum HelloUpdateError {
    ConnectionError,
    ConnectionLost,
    ParsingFailed,
    ProtocolViolation,
    /// No hello message came within the allowed time.
    Timeout,
}

/// Whether `r` is the hello message `(v, id, m)`.
pub open spec fn is_hello(r: Result<HelloMessage, HelloUpdateError>, v: u8, id: Seq<char>, m: u8) -> bool {
    r matches Ok(h) && h.proto_version == v && h.id@ == id && h.game_mode == m
}

/// Builds the hello message out of a decoded triple.
pub fn hello_from_decoded(decoded: Option<(u8, String, u8)>) -> (r: Result<HelloMessage, HelloUpdateError>)
    ensures
        match decoded {
            Some((v, id, m)) => is_hello(r, v, id@, m),
            None => r == Err::<HelloMessage, HelloUpdateError>(HelloUpdateError::ParsingFailed),
        },
{
    match decoded {
        Some((v, id, m)) => Ok(HelloMessage::new(v, id, m)),
        None => Err(HelloUpdateError::ParsingFailed),
    }
}

/// Reads one event while waiting for the hello message: `None` means keep waiting
/// (a ping), otherwise the hello message or the error that ends the wait.
pub fn hello_step(ev: WsEvent) -> (r: Option<Result<HelloMessage, HelloUpdateError>>)
    ensures
        match ev {
            WsEvent::Ping => r.is_none(),
            WsEvent::Binary(b) => match cbor_decoded_hello(b@) {
                Some((v, id, m)) => r matches Some(h) && is_hello(h, v, id, m),
                None => r == Some(Err::<HelloMessage, HelloUpdateError>(HelloUpdateError::ParsingFailed)),
            },
            WsEvent::Closed => r == Some(Err::<HelloMessage, HelloUpdateError>(HelloUpdateError::ConnectionLost)),
            WsEvent::TransportError => r == Some(Err::<HelloMessage, HelloUpdateError>(HelloUpdateError::ConnectionError)),
            _ => r == Some(Err::<HelloMessage, HelloUpdateError>(HelloUpdateError::ProtocolViolation)),
        },
{
    match ev {
        WsEvent::Ping => None,
        WsEvent::Binary(b) => Some(hello_from_decoded(decode_hello(b.as_slice()))),
        WsEvent::Closed => Some(Err(HelloUpdateError::ConnectionLost)),
        WsEvent::TransportError => Some(Err(HelloUpdateError::ConnectionError)),
        _ => Some(Err(HelloUpdateError::ProtocolViolation)),
    }
}

} // verus!
