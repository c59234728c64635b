//! Integer constants of the protocol and of the server's timing rules.

use vstd::prelude::*;

verus! {

/// The only protocol version that this server speaks.
pub const SUPPORTED_PROTO_VERSION: u8 = 3;

/// Simulation steps per second.
pub const TICKS_PER_SECOND: u64 = 100;

/// Milliseconds between two simulation steps.
pub const TICK_PERIOD_MS: u64 = 1000 / TICKS_PER_SECOND;

/// In local mode, the most inputs read from the client per second.
pub const MAX_CLIENT_UPDATES_PER_SECOND: u64 = 20;

/// In local mode, milliseconds during which no further input is read after one is accepted.
pub const INPUT_COOLDOWN_MS: u64 = 1000 / MAX_CLIENT_UPDATES_PER_SECOND;

/// Points that win a match.
pub const WINNING_SCORE: u32 = 10;

/// Seconds a client has to send its hello message.
pub const HELLO_TIMEOUT_SECS: u64 = 5;

/// Seconds between the start message and the first simulation step.
pub const GRACE_PERIOD_SECS: u64 = 5;

/// Seconds between two keep-alive pings sent to a waiting client.
pub const PING_INTERVAL_SECS: u64 = 15;

/// Seconds a waiting client has to answer a keep-alive ping.
pub const PONG_TIMEOUT_SECS: u64 = 5;

/// Consecutive failed TCP accepts after which the server gives up.
pub const MAX_ACCEPT_FAILURES: u32 = 3;

} // verus!
