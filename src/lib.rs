//! A real-time Pong server's game logic, protocol decisions and match-making rules.

pub mod accept;
pub mod codec;
pub mod constants;
pub mod game;
pub mod match_making;
pub mod messages;
pub mod protocol;
pub mod side;

pub use accept::OnAcceptGenerator;
pub use game::{GameResult, WinType};
pub use match_making::{GameRunRole, GiverToExecutorData, Player, WaitError};
pub use messages::{
    parse_gm0_input_message, parse_gm1_input_message, ClientUpdateError, GameAbortedMessage,
    GameCompletedMessage, GameMode0StartMessage, GameMode1StartMessage, GameModes, HelloMessage,
    HelloUpdateError, WsEvent,
};
pub use side::{Side, SideCastError};
