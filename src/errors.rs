//! Why a move was rejected.

use vstd::prelude::*;

use crate::board::{Outcome, MAX_INDEX};

verus! {

/// A move that was not applied. The game is left exactly as it was.
#[derive(Debug, Copy, Clone, PartialEq, Eq, Structural)]
pub enum MarkError {
    /// A coordinate is larger than `max`, the largest valid one.
    OutOfBounds { index: usize, max: usize },
    /// The targeted cell already holds a mark.
    CellMarked,
    /// The game already has an outcome.
    GameEnded,
}

impl MarkError {
    /// The error for the offending coordinate `index`.
    pub fn new_oob(index: usize) -> (r: Self)
        ensures
            r == (MarkError::OutOfBounds { index, max: MAX_INDEX }),
    {
        MarkError::OutOfBounds { index, max: MAX_INDEX }
    }
}

/// Why a message from a peer could not be read.
#[derive(Debug, Copy, Clone, PartialEq, Eq, Structural)]
pub enum MultiplayerError {
    /// The first byte of the message names no known message type.
    UnknownMsgType { msg_type: u8 },
    /// A data value the message type needs is missing.
    IncompleteMsgData,
    /// A string value is not valid base64.
    InvalidEncoding,
    /// A decoded string value is not valid UTF-8.
    InvalidText,
}

/// What applying a move gives: the outcome it produced, if the game ended.
pub type MarkResult = Result<Option<Outcome>, MarkError>;

} // verus!
