//! Decisions of the per-connection protocol driver and of a remote match's startup.

use vstd::prelude::*;

use crate::constants::SUPPORTED_PROTO_VERSION;
use crate::messages::{GameMode0StartMessage, HelloMessage, WsEvent};
use crate::side::{opposite, side_code, Side};

verus! {

/// Why a connection is closed right after its hello message.
#[derive(Clone, Copy, Debug, PartialEq, Eq, Structural)]
pub enum RejectReason {
    /// The store has no user of that name.
    UnknownUser,
    /// The client speaks another protocol version.
    UnsupportedVersion,
    /// The game mode is not one this version offers.
    UnsupportedMode,
}

/// Where a connection goes after its hello message.
#[derive(Clone, Debug, PartialEq, Eq)]
pub enum Route {
    /// Close the connection.
    Reject(RejectReason),
    /// Enter match-making for a remote match, as this user.
    Remote(String),
    /// Play a local match on this connection alone.
    Local,
}

/// Routes a connection by its hello message, once the store has said whether
/// the user exists: unknown users and other protocol versions are rejected;
/// mode `0` is a remote match, mode `1` a local one, other modes are rejected.
pub fn dispatch_requested_game_mode(hello: HelloMessage, id_known: bool) -> (r: Route)
    ensures
        !id_known ==> r == Route::Reject(RejectReason::UnknownUser),
        id_known && hello.proto_version != SUPPORTED_PROTO_VERSION ==> r == Route::Reject(
            RejectReason::UnsupportedVersion,
        ),
        id_known && hello.proto_version == SUPPORTED_PROTO_VERSION ==> match r {
            Route::Remote(id) => hello.game_mode == 0 && id@ == hello.id@,
            Route::Local => hello.game_mode == 1,
            Route::Reject(reason) => hello.game_mode > 1 && reason == RejectReason::UnsupportedMode,
        },
{
    if !id_known {
        Route::Reject(RejectReason::UnknownUser)
    } else if hello.proto_version != SUPPORTED_PROTO_VERSION {
        Route::Reject(RejectReason::UnsupportedVersion)
    } else if hello.game_mode == 0 {
        Route::Remote(hello.id)
    } else if hello.game_mode == 1 {
        Route::Local
    } else {
        Route::Reject(RejectReason::UnsupportedMode)
    }
}

/// The start messages of a remote match: each client learns its opponent's name
/// and its own side, and both the same start time.
pub fn mode_0_start_messages(left_id: &str, right_id: &str, starting_time: u64) -> (r: (
    GameMode0StartMessage,
    GameMode0StartMessage,
))
    ensures
        r.0.enemy_username@ == right_id@,
        r.0.side == side_code(Side::Left),
        r.0.starting_time == starting_time,
        r.1.enemy_username@ == left_id@,
        r.1.side == side_code(Side::Right),
        r.1.starting_time == starting_time,
{
    (
        GameMode0StartMessage::new(right_id, Side::Left, starting_time),
        GameMode0StartMessage::new(left_id, Side::Right, starting_time),
    )
}

/// During the grace period before a remote match, an event from the client on
/// `from`: frames are read and dropped; a close or an error ends the startup,
/// and the opposite player, returned here, goes back to match-making.
pub fn grace_period_event(from: Side, ev: &WsEvent) -> (r: Option<Side>)
    ensures
        match ev {
            WsEvent::Closed | WsEvent::TransportError => r == Some(opposite(from)),
            _ => r.is_none(),
        },
{
    match ev {
        WsEvent::Closed | WsEvent::TransportError => Some(from.opposite()),
        _ => None,
    }
}

} // verus!
