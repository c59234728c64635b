//! Pairing of the connections that ask for a remote match.
//!
//! A process-wide slot holds at most one waiting task's sender. The first task
//! to find the slot empty leaves a sender there and becomes the executor; the
//! next one takes that sender out, leaving the slot empty, and gives its
//! connection away through it. While it waits, the executor keeps its own
//! client alive with pings.

use vstd::prelude::*;

use tokio::sync::oneshot::{Receiver, Sender};

use crate::messages::WsEvent;

verus! {

/// `tokio::sync::oneshot::Sender`, carried through opaquely.
#[verifier::external_type_specification]
#[verifier::external_body]
#[verifier::reject_recursive_types(T)]
pub struct ExOneshotSender<T>(Sender<T>);

/// `tokio::sync::oneshot::Receiver`, carried through opaquely.
#[verifier::external_type_specification]
#[verifier::external_body]
#[verifier::reject_recursive_types(T)]
pub struct ExOneshotReceiver<T>(Receiver<T>);

/// `tokio::sync::oneshot::error::RecvError`, which the receiver's `Future` impl names.
#[verifier::external_type_specification]
#[verifier::external_body]
pub struct ExOneshotRecvError(tokio::sync::oneshot::error::RecvError);

/// Relies on `tokio::sync::oneshot::channel`: a fresh single-use channel, sender and receiver.
#[verifier::external_body]
fn oneshot_channel<T>() -> (r: (Sender<T>, Receiver<T>)) {
    tokio::sync::oneshot::channel()
}

/// A client: its connection and its user name.
pub struct Player<W> {
    pub ws: W,
    pub id: String,
}

impl<W> Player<W> {
    pub fn new(websocket: W, id: String) -> (r: Player<W>)
        ensures
            r.ws == websocket,
            r.id@ == id@,
    {
        Player { ws: websocket, id }
    }
}

/// What a giver hands to the executor: its connection and user name.
pub struct GiverToExecutorData<W> {
    pub giver_websocket: W,
    pub giver_id: String,
}

impl<W> GiverToExecutorData<W> {
    pub fn new(giver: Player<W>) -> (r: GiverToExecutorData<W>)
        ensures
            r.giver_websocket == giver.ws,
            r.giver_id@ == giver.id@,
    {
        GiverToExecutorData { giver_websocket: giver.ws, giver_id: giver.id }
    }

    /// The players of the match: the giver plays left, the executor right.
    pub fn pair_with(self, executor: Player<W>) -> (r: (Player<W>, Player<W>))
        ensures
            r.0.ws == self.giver_websocket,
            r.0.id@ == self.giver_id@,
            r.1.ws == executor.ws,
            r.1.id@ == executor.id@,
    {
        (Player::new(self.giver_websocket, self.giver_id), executor)
    }

    /// The giver becomes the executor's own client, after the executor's client left.
    pub fn into_player(self) -> (r: Player<W>)
        ensures
            r.ws == self.giver_websocket,
            r.id@ == self.giver_id@,
    {
        Player::new(self.giver_websocket, self.giver_id)
    }
}

/// The role a task takes at the match-making slot.
#[verifier::reject_recursive_types(T)]
pub enum GameRunRole<T> {
    /// First to arrive: waits on this receiver for a giver's data.
    Executor(Receiver<T>),
    /// Second to arrive: sends its data through this sender.
    Giver(Sender<T>),
}

impl<T> GameRunRole<T> {
    /// Takes a role at the slot. If a sender waits there, it is taken out and
    /// the slot is left empty: the caller is the giver. Otherwise a new channel
    /// is opened, its sender is left in the slot, and the caller is the executor.
    pub fn extract_from_slot(slot: &mut Option<Sender<T>>) -> (r: GameRunRole<T>)
        ensures
            match *old(slot) {
                Some(tx) => r == GameRunRole::<T>::Giver(tx) && final(slot).is_none(),
                None => r is Executor && final(slot).is_some(),
            },
    {
        match slot.take() {
            Some(tx) => GameRunRole::Giver(tx),
            None => {
                let (tx, rx) = oneshot_channel();
                *slot = Some(tx);
                GameRunRole::Executor(rx)
            },
        }
    }
}

/// Payload of the keep-alive pings sent to a waiting client.
pub const PING_PAYLOAD: [u8; 8] = [1, 3, 0, 7, 3, 15, 3, 4];

/// The keep-alive ping payload as a sequence.
pub open spec fn ping_payload() -> Seq<u8> {
    seq![1u8, 3u8, 0u8, 7u8, 3u8, 15u8, 3u8, 4u8]
}

/// Errors that end an executor's wait for a giver.
#[derive(Clone, Copy, Debug, PartialEq, Eq, Structural)]
pub enum WaitError {
    ConnectionError,
    /// The connection closed, or a ping went unanswered.
    ConnectionLost,
    /// The client sent something other than a ping or the awaited pong.
    ProtocolViolation,
}

/// What an event from the waiting client means: pings are fine; a pong is fine
/// only while one is awaited and only with the ping's payload, and then no pong
/// is awaited any more; anything else ends the wait.
pub open spec fn wait_event_outcome(ev: WsEvent, waiting_for_pong: bool) -> Result<bool, WaitError> {
    match ev {
        WsEvent::Ping => Ok(waiting_for_pong),
        WsEvent::Pong(p) => if waiting_for_pong && p@ == ping_payload() {
            Ok(false)
        } else {
            Err(WaitError::ProtocolViolation)
        },
        WsEvent::Closed => Err(WaitError::ConnectionLost),
        WsEvent::TransportError => Err(WaitError::ConnectionError),
        _ => Err(WaitError::ProtocolViolation),
    }
}

/// Whether `p` is the keep-alive ping payload.
pub fn is_ping_payload(p: &Vec<u8>) -> (r: bool)
    ensures
        r == (p@ == ping_payload()),
{
    let expected = PING_PAYLOAD;
    if p.len() != 8 {
        return false;
    }
    let mut i: usize = 0;
    while i < 8
        invariant
            p@.len() == 8,
            expected@ == ping_payload(),
            0 <= i <= 8,
            forall|j: int| 0 <= j < i ==> p@[j] == ping_payload()[j],
        decreases 8 - i,
    {
        if p[i] != expected[i] {
            return false;
        }
        i = i + 1;
    }
    assert(p@ =~= ping_payload());
    true
}

/// Handles an event from the waiting client; `Ok` tells whether a pong is still awaited.
pub fn handle_websocket_event(message: WsEvent, waiting_for_pong: bool) -> (r: Result<bool, WaitError>)
    ensures
        r == wait_event_outcome(message, waiting_for_pong),
        r matches Ok(w) ==> (w ==> waiting_for_pong),
{
    match message {
        WsEvent::Ping => Ok(waiting_for_pong),
        WsEvent::Pong(p) => if waiting_for_pong && is_ping_payload(&p) {
            Ok(false)
        } else {
            Err(WaitError::ProtocolViolation)
        },
        WsEvent::Closed => Err(WaitError::ConnectionLost),
        WsEvent::TransportError => Err(WaitError::ConnectionError),
        _ => Err(WaitError::ProtocolViolation),
    }
}

/// Events of an executor's wait, besides the giver's arrival.
pub enum KeepAliveEvent {
    /// The ping interval elapsed.
    PingDue,
    /// The pong deadline passed; only armed while a pong is awaited.
    PongDeadline,
    /// Something came from the waiting client.
    Client(WsEvent),
}

/// What the waiting executor does next.
#[derive(Clone, Copy, Debug, PartialEq, Eq, Structural)]
pub enum KeepAliveAction {
    /// Keep waiting.
    Wait,
    /// Send a ping with the keep-alive payload and arm the pong deadline.
    SendPing,
    /// Stop waiting: the client is gone or misbehaved.
    Fail(WaitError),
}

/// Keep-alive state of a waiting executor.
#[derive(Clone, Copy, Debug, PartialEq, Eq, Structural)]
pub struct KeepAlive {
    pub waiting_for_pong: bool,
}

impl KeepAlive {
    pub fn new() -> (r: KeepAlive)
        ensures
            !r.waiting_for_pong,
    {
        KeepAlive { waiting_for_pong: false }
    }

    /// Whether the pong deadline is armed.
    pub fn deadline_armed(&self) -> (r: bool)
        ensures
            r == self.waiting_for_pong,
    {
        self.waiting_for_pong
    }

    /// Decides what one event of the wait leads to.
    pub fn next(&mut self, event: KeepAliveEvent) -> (r: KeepAliveAction)
        requires
            event matches KeepAliveEvent::PongDeadline ==> old(self).waiting_for_pong,
        ensures
            match event {
                KeepAliveEvent::PingDue => r == KeepAliveAction::SendPing && final(self).waiting_for_pong,
                KeepAliveEvent::PongDeadline => r == KeepAliveAction::Fail(WaitError::ConnectionLost),
                KeepAliveEvent::Client(ev) => match wait_event_outcome(ev, old(self).waiting_for_pong) {
                    Ok(w) => r == KeepAliveAction::Wait && final(self).waiting_for_pong == w,
                    Err(e) => r == KeepAliveAction::Fail(e),
                },
            },
    {
        match event {
            KeepAliveEvent::PingDue => {
                self.waiting_for_pong = true;
                KeepAliveAction::SendPing
            },
            KeepAliveEvent::PongDeadline => KeepAliveAction::Fail(WaitError::ConnectionLost),
            KeepAliveEvent::Client(ev) => match handle_websocket_event(ev, self.waiting_for_pong) {
                Ok(w) => {
                    self.waiting_for_pong = w;
                    KeepAliveAction::Wait
                },
                Err(e) => KeepAliveAction::Fail(e),
            },
        }
    }
}

} // verus!
