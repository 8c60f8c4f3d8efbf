//! Rules engine for a two-player 3×3 marking game, and the byte framing of
//! the messages two peers exchange while playing it.

pub mod board;
pub mod errors;
pub mod game;
pub mod laws;
pub mod msg;

pub use board::{BoardState, CellCoord, CellState, Outcome, WinLine, XorZ};
pub use errors::{MarkError, MarkResult, MultiplayerError};
pub use game::{Game, GameView};
pub use msg::{Msg, MsgCodec};
