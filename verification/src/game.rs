//! The game orchestration around a board.
//!
//! A game owns a roster of up to three distinct player identifiers and a
//! board.  It waits until the third player joins, then enforces the turn
//! order: the move at position `k` of the history belongs to the roster
//! entry `k % 3`.  When the board leaves its playing state the game is
//! over; both transitions are one-directional.

use vstd::prelude::*;

use crate::board::Board;
use crate::board::Status as BoardStatus;
use crate::board::spec_num_winning_combinations;
use crate::errors::Error;
use crate::winning_combinations::is_valid_position;

verus! {

#[derive(Clone, Copy, Debug, PartialEq, Eq, Structural)]
pub enum Status {
    WaitingForPlayers,
    IsPlaying,
    IsOver,
}

/// The contents of a roster, each identifier as its character sequence.
pub open spec fn view_of_ids(ids: Seq<String>) -> Seq<Seq<char>> {
    ids.map_values(|s: String| s@)
}

proof fn lemma_view_of_ids_push(ids: Seq<String>, id: String)
    ensures
        view_of_ids(ids.push(id)) == view_of_ids(ids).push(id@),
{
    assert(view_of_ids(ids.push(id)) =~= view_of_ids(ids).push(id@));
}

/// Whether a roster holds a given player identifier.
fn contains_player(ids: &Vec<String>, id: &String) -> (r: bool)
    ensures
        r == view_of_ids(ids@).contains(id@),
{
    let mut i: usize = 0;
    while i < ids.len()
        invariant
            i <= ids@.len(),
            forall|j: int| 0 <= j < i ==> ids@[j]@ != id@,
        decreases ids@.len() - i,
    {
        if ids[i] == *id {
            proof {
                assert(view_of_ids(ids@)[i as int] == id@);
            }
            return true;
        }
        i = i + 1;
    }
    proof {
        assert forall|j: int| 0 <= j < view_of_ids(ids@).len() implies view_of_ids(ids@)[j]
            != id@ by {
            assert(view_of_ids(ids@)[j] == ids@[j]@);
        }
    }
    false
}

pub struct Game {
    board: Board,
    player_ids: Vec<String>,
    pub status: Status,
}

impl Game {
    /// The roster, in joining order, each identifier as its character
    /// sequence.
    pub closed spec fn spec_player_ids(&self) -> Seq<Seq<char>> {
        view_of_ids(self.player_ids@)
    }

    /// The board's move history, oldest first.
    pub closed spec fn spec_moves(&self) -> Seq<char> {
        self.board.spec_moves()
    }

    /// The board's status tag.
    pub closed spec fn spec_board_status(&self) -> BoardStatus {
        self.board.spec_status()
    }

    /// The game's status tag, for use in contracts.
    pub closed spec fn spec_status(&self) -> Status {
        self.status
    }

    /// The game's invariant: a well-formed board, at most three players
    /// with distinct identifiers, a game that waits exactly until the
    /// third joins, and a status tag that mirrors the board's.
    pub closed spec fn well_formed(&self) -> bool {
        &&& self.board.well_formed()
        &&& self.player_ids@.len() <= 3
        &&& forall|i: int, j: int|
            0 <= i < j < self.player_ids@.len() ==> self.player_ids@[i]@ != self.player_ids@[j]@
        &&& (self.status == Status::WaitingForPlayers <==> self.player_ids@.len() < 3)
        &&& (self.status == Status::WaitingForPlayers ==> self.board.spec_status()
            == BoardStatus::IsPlaying)
        &&& (self.status == Status::IsPlaying ==> self.board.spec_status()
            == BoardStatus::IsPlaying)
        &&& (self.status == Status::IsOver ==> self.board.spec_status() != BoardStatus::IsPlaying)
    }

    /// Create a new game, with no players and an empty board.
    pub fn new() -> (g: Self)
        ensures
            g.well_formed(),
            g.spec_status() == Status::WaitingForPlayers,
            g.spec_player_ids() == Seq::<Seq<char>>::empty(),
            g.spec_moves() == Seq::<char>::empty(),
    {
        let g = Self {
            board: Board::new(),
            player_ids: Vec::new(),
            status: Status::WaitingForPlayers,
        };
        proof {
            assert(g.spec_player_ids() =~= Seq::<Seq<char>>::empty());
            assert(g.spec_moves() =~= Seq::<char>::empty());
        }
        g
    }

    /// Add a player to the game.
    ///
    /// Fails with [`Error::CannotAddMoreThanThreePlayers`] on a full
    /// roster and with [`Error::CannotAddSamePlayerTwice`] on a repeated
    /// identifier; when the third player joins, the game starts.
    pub fn add_player(&mut self, player_id: String) -> (r: Result<(), Error>)
        requires
            old(self).well_formed(),
        ensures
            final(self).well_formed(),
            old(self).spec_player_ids().len() == 3 ==> r == Err::<(), Error>(
                Error::CannotAddMoreThanThreePlayers,
            ) && *final(self) == *old(self),
            old(self).spec_player_ids().len() < 3 && old(self).spec_player_ids().contains(
                player_id@,
            ) ==> r == Err::<(), Error>(Error::CannotAddSamePlayerTwice) && *final(self) == *old(
                self,
            ),
            old(self).spec_player_ids().len() < 3 && !old(self).spec_player_ids().contains(
                player_id@,
            ) ==> {
                &&& r == Ok::<(), Error>(())
                &&& final(self).spec_player_ids() == old(self).spec_player_ids().push(player_id@)
                &&& final(self).spec_moves() == old(self).spec_moves()
                &&& final(self).spec_status() == (if old(self).spec_player_ids().len() + 1 == 3 {
                    Status::IsPlaying
                } else {
                    Status::WaitingForPlayers
                })
            },
    {
        if self.num_players() == 3 {
            return Err(Error::CannotAddMoreThanThreePlayers);
        }
        if contains_player(&self.player_ids, &player_id) {
            return Err(Error::CannotAddSamePlayerTwice);
        }
        proof {
            lemma_view_of_ids_push(self.player_ids@, player_id);
            // No roster entry matches the new identifier.
            assert forall|i: int| 0 <= i < self.player_ids@.len() implies self.player_ids@[i]@
                != player_id@ by {
                assert(view_of_ids(self.player_ids@)[i] == self.player_ids@[i]@);
            }
        }
        self.player_ids.push(player_id);
        if self.num_players() == 3 {
            self.status = Status::IsPlaying;
        }
        Ok(())
    }

    /// Add a move to the board on behalf of a player.
    /// Return the number of winning combinations formed by it.
    ///
    /// Fails when the game has not started or is already over, when the
    /// player is unknown, or when it is not that player's turn; otherwise
    /// the move is delegated to the board, whose error or count is passed
    /// through, and the game ends when the board does.
    pub fn add_move(&mut self, player_id: String, position: char) -> (r: Result<u8, Error>)
        requires
            old(self).well_formed(),
        ensures
            final(self).well_formed(),
            old(self).spec_status() == Status::WaitingForPlayers ==> r == Err::<u8, Error>(
                Error::GameNotStartedYet,
            ) && *final(self) == *old(self),
            old(self).spec_status() == Status::IsOver ==> r == Err::<u8, Error>(Error::GameIsOver)
                && *final(self) == *old(self),
            old(self).spec_status() == Status::IsPlaying && !old(self).spec_player_ids().contains(
                player_id@,
            ) ==> r == Err::<u8, Error>(Error::PlayerNotFound) && *final(self) == *old(self),
            old(self).spec_status() == Status::IsPlaying && old(self).spec_player_ids().contains(
                player_id@,
            ) && player_id@ != old(self).spec_player_ids()[old(self).spec_moves().len() as int % 3]
                ==> r == Err::<u8, Error>(Error::PlayerMustWaitForTurn) && *final(self) == *old(
                self,
            ),
            old(self).spec_status() == Status::IsPlaying && player_id@ == old(
                self,
            ).spec_player_ids()[old(self).spec_moves().len() as int % 3] ==> {
                &&& (old(self).spec_moves().contains(position) ==> r == Err::<u8, Error>(
                    Error::PositionAlreadyTaken,
                ) && *final(self) == *old(self))
                &&& (!old(self).spec_moves().contains(position) && !is_valid_position(position)
                    ==> r == Err::<u8, Error>(Error::InvalidPosition) && *final(self) == *old(
                    self,
                ))
                &&& (!old(self).spec_moves().contains(position) && is_valid_position(position)
                    ==> {
                    &&& final(self).spec_moves() == old(self).spec_moves().push(position)
                    &&& final(self).spec_player_ids() == old(self).spec_player_ids()
                    &&& r is Ok
                    &&& r->Ok_0 as nat == spec_num_winning_combinations(final(self).spec_moves())
                    &&& final(self).spec_status() == (if r->Ok_0 > 0 || old(
                        self,
                    ).spec_moves().len() + 1 == 27 {
                        Status::IsOver
                    } else {
                        Status::IsPlaying
                    })
                })
            },
    {
        if self.status == Status::WaitingForPlayers {
            return Err(Error::GameNotStartedYet);
        }
        if self.status == Status::IsOver {
            return Err(Error::GameIsOver);
        }
        if !contains_player(&self.player_ids, &player_id) {
            return Err(Error::PlayerNotFound);
        }
        let next_player_index = self.board.get_num_moves() % 3;
        if !(player_id == self.player_ids[next_player_index]) {
            proof {
                assert(self.spec_player_ids()[next_player_index as int]
                    == self.player_ids@[next_player_index as int]@);
            }
            return Err(Error::PlayerMustWaitForTurn);
        }
        proof {
            assert(self.spec_player_ids()[next_player_index as int]
                == self.player_ids@[next_player_index as int]@);
        }
        match self.board.add_move(position) {
            Ok(num) => {
                if !(self.board.get_status() == BoardStatus::IsPlaying) {
                    self.status = Status::IsOver;
                }
                Ok(num)
            },
            Err(error) => Err(error),
        }
    }

    /// The number of players on the roster.
    pub fn num_players(&self) -> (n: usize)
        ensures
            n == self.spec_player_ids().len(),
    {
        self.player_ids.len()
    }
}

impl Default for Game {
    /// Create a new game, with no players and an empty board.
    fn default() -> (g: Self)
        ensures
            g.well_formed(),
            g.spec_status() == Status::WaitingForPlayers,
            g.spec_player_ids() == Seq::<Seq<char>>::empty(),
            g.spec_moves() == Seq::<char>::empty(),
    {
        Self::new()
    }
}

} // verus!
