//! Rules engine for a three-player tic-tac-toe variant played on the 27
//! cells of a 3x3x3 cube.

use vstd::prelude::*;

pub mod board;
pub mod errors;
pub mod game;
pub mod winning_combinations;
pub mod z3;
pub mod z3xz3xz3;

verus! {

/// Create a new [`game::Game`], with no players and an empty board.
#[must_use]
pub fn new_game() -> (g: game::Game)
    ensures
        g.well_formed(),
        g.spec_status() == game::Status::WaitingForPlayers,
        g.spec_player_ids() == Seq::<Seq<char>>::empty(),
        g.spec_moves() == Seq::<char>::empty(),
{
    game::Game::new()
}

} // verus!
