//! The error taxonomy of the rules engine.
//!
//! Every validation failure is returned to the caller as one of these
//! variants; no operation mutates any state on an error path.

use vstd::prelude::*;

verus! {

#[derive(Clone, Copy, Debug, PartialEq, Eq, Structural)]
pub enum Error {
    /// The board cannot take a move: every cell is taken and nobody won.
    BoardIsFull,
    /// The roster already holds three players.
    CannotAddMoreThanThreePlayers,
    /// The player identifier is already on the roster.
    CannotAddSamePlayerTwice,
    /// The game reached its terminal state; no move can be added.
    GameIsOver,
    /// Fewer than three players joined; no move can be added yet.
    GameNotStartedYet,
    /// The label is not one of the 27 cell labels.
    InvalidPosition,
    /// The move was submitted by a player out of turn.
    PlayerMustWaitForTurn,
    /// The player identifier is not on the roster.
    PlayerNotFound,
    /// The cell was already taken by an earlier move.
    PositionAlreadyTaken,
    /// Two of the three labels handed to the detector coincide.
    PositionsMustBeDistinct,
    /// The board already has a winner; no move can be added.
    ThereIsAlreadyAWinner,
}

} // verus!
