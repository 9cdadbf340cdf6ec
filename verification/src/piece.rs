//! The tri-state cell value and the error taxonomy of the board core.

use vstd::prelude::*;

verus! {

/// The state of one cell of the board: empty, or held by one of the two
/// players. A `Piece` has no identity beyond its value and is compared by
/// equality.
#[derive(Clone, Copy, Debug, PartialEq, Eq, Structural)]
pub enum Piece {
    Empty,
    PlayerA,
    PlayerB,
}

/// The recoverable failures of the board core.
#[derive(Clone, Copy, Debug, PartialEq, Eq, Structural)]
pub enum BoardError {
    /// A coordinate passed to a cell accessor was at or beyond the board
    /// dimension.
    OutOfBounds,
    /// A character other than `-`, `O` or `X` appeared in a textual line
    /// notation.
    InvalidNotation,
}

} // verus!
