//! Message and data-model types for the live session protocol and the
//! matchmaking interface.

use vstd::prelude::*;

verus! {

/// The two fixed seats of a session. The first player popped by the
/// matcher takes White, the second Black.
#[derive(Clone, Copy, Debug, PartialEq, Eq, Structural)]
pub enum Color {
    White,
    Black,
}

/// User-visible protocol errors.
#[derive(Clone, Copy, Debug, PartialEq, Eq, Structural)]
pub enum Error {
    Deserialization,
    Unauthorized,
    InvalidTurn,
    InvalidMove,
}

/// Messages a client may send over a live session connection.
#[derive(Clone, Debug, PartialEq)]
pub enum ClientMessage {
    Auth { game_id: String, user_id: String },
    Move(String),
    Ping,
}

/// How a game ended: a win for one seat, or a draw.
#[derive(Clone, Copy, Debug, PartialEq, Eq, Structural)]
pub enum GameOutcome {
    Win(Color),
    Draw,
}

/// Messages the server sends over a live session connection.
#[derive(Clone, Debug, PartialEq)]
pub enum ServerMessage {
    Move(String),
    GameEnd(GameOutcome),
    Error(Error),
    AuthSuccess,
    MoveHistory(Vec<String>),
    Pong,
}

impl ServerMessage {
    /// A writer forwards messages in arrival order and stops after
    /// forwarding a `GameEnd`; this is its stopping test.
    pub fn is_game_end(&self) -> (r: bool)
        ensures
            r == (self is GameEnd),
    {
        match self {
            ServerMessage::GameEnd(_) => true,
            _ => false,
        }
    }
}

} // verus!
