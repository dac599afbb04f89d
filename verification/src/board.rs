//! The board state machine.
//!
//! A board owns the chronological move list and a status tag.  Moves are
//! appended one at a time through [`Board::add_move`]; the move at position
//! `k` of the list belongs to player `k % 3`.  After each move the board
//! counts the winning combinations among the cells of the player who just
//! moved: if the count is positive the board has a winner, and if instead
//! every cell is taken the match is tied.  Both outcomes are terminal.

use vstd::prelude::*;

use crate::errors::Error;
use crate::winning_combinations::get_is_winning_combination;
use crate::winning_combinations::is_valid_position;
use crate::winning_combinations::spec_is_winning_combination;
use crate::winning_combinations::vector_of_position;

verus! {

#[derive(Clone, Copy, Debug, PartialEq, Eq, Structural)]
pub enum Status {
    IsPlaying,
    HasWinner,
    Tie,
}

/// The cells of the player who made the last move: every third entry of
/// the move list, starting at offset `(len - 1) % 3`.
pub open spec fn player_cells(moves: Seq<char>) -> Seq<char>
    recommends
        moves.len() >= 1,
{
    let p = (moves.len() - 1) % 3;
    Seq::new((((moves.len() - 1 - p) / 3) + 1) as nat, |m: int| moves[p + 3 * m])
}

/// The number of winning triples `(a, b, c[..])` for fixed `a < b` and
/// `c` ranging over `[c, own.len())`.
pub open spec fn count_wins_c(own: Seq<char>, a: int, b: int, c: int) -> nat
    decreases own.len() - c,
{
    if c < own.len() {
        (if spec_is_winning_combination(own[a], own[b], own[c]) {
            1nat
        } else {
            0nat
        }) + count_wins_c(own, a, b, c + 1)
    } else {
        0
    }
}

/// The number of winning triples `(a, b[..], c)` for fixed `a`, with
/// `b` ranging over `[b, own.len())` and `c` over `(b, own.len())`.
pub open spec fn count_wins_b(own: Seq<char>, a: int, b: int) -> nat
    decreases own.len() - b,
{
    if b < own.len() {
        count_wins_c(own, a, b, b + 1) + count_wins_b(own, a, b + 1)
    } else {
        0
    }
}

/// The number of winning index triples `a <= a' < b' < c' < own.len()`
/// over the cells `own`.
pub open spec fn count_wins_a(own: Seq<char>, a: int) -> nat
    decreases own.len() - a,
{
    if a < own.len() {
        count_wins_b(own, a, a + 1) + count_wins_a(own, a + 1)
    } else {
        0
    }
}

/// The number of winning combinations formed by the player who made the
/// last move of `moves`.  No player owns three cells before the seventh
/// move overall, so shorter histories count zero.
pub open spec fn spec_num_winning_combinations(moves: Seq<char>) -> nat {
    if moves.len() < 7 {
        0
    } else {
        count_wins_a(player_cells(moves), 0)
    }
}

/// A legal move history: at most 27 moves, all of them valid cell labels,
/// no cell taken twice.
pub open spec fn moves_ok(moves: Seq<char>) -> bool {
    &&& moves.len() <= 27
    &&& forall|i: int| 0 <= i < moves.len() ==> is_valid_position(#[trigger] moves[i])
    &&& forall|i: int, j: int| 0 <= i < j < moves.len() ==> moves[i] != moves[j]
}

proof fn lemma_count_wins_c_le(own: Seq<char>, a: int, b: int, c: int)
    requires
        0 <= c <= own.len(),
    ensures
        count_wins_c(own, a, b, c) <= own.len() - c,
    decreases own.len() - c,
{
    if c < own.len() {
        lemma_count_wins_c_le(own, a, b, c + 1);
    }
}

proof fn lemma_count_wins_b_le(own: Seq<char>, a: int, b: int)
    requires
        0 <= b <= own.len(),
    ensures
        2 * count_wins_b(own, a, b) <= (own.len() - b) * (own.len() - b - 1),
    decreases own.len() - b,
{
    let l = own.len() as int;
    if b < l {
        lemma_count_wins_c_le(own, a, b, b + 1);
        lemma_count_wins_b_le(own, a, b + 1);
        let cc = count_wins_c(own, a, b, b + 1) as int;
        let cb = count_wins_b(own, a, b + 1) as int;
        assert(2 * count_wins_b(own, a, b) <= (own.len() - b) * (own.len() - b - 1))
            by (nonlinear_arith)
            requires
                l == own.len(),
                count_wins_b(own, a, b) == cc + cb,
                cc <= l - b - 1,
                2 * cb <= (l - b - 1) * (l - b - 2),
                b < l,
        ;
    } else {
        assert(2 * count_wins_b(own, a, b) <= (own.len() - b) * (own.len() - b - 1))
            by (nonlinear_arith)
            requires
                count_wins_b(own, a, b) == 0,
                b == own.len(),
        ;
    }
}

proof fn lemma_count_wins_a_le(own: Seq<char>, a: int)
    requires
        0 <= a <= own.len(),
    ensures
        6 * count_wins_a(own, a) <= (own.len() - a) * (own.len() - a - 1) * (own.len() - a - 2),
    decreases own.len() - a,
{
    let l = own.len() as int;
    if a < l {
        lemma_count_wins_b_le(own, a, a + 1);
        lemma_count_wins_a_le(own, a + 1);
        let cb = count_wins_b(own, a, a + 1) as int;
        let ca = count_wins_a(own, a + 1) as int;
        assert(6 * count_wins_a(own, a) <= (own.len() - a) * (own.len() - a - 1) * (own.len() - a
            - 2)) by (nonlinear_arith)
            requires
                l == own.len(),
                count_wins_a(own, a) == cb + ca,
                0 <= cb,
                0 <= ca,
                2 * cb <= (l - a - 1) * (l - a - 2),
                6 * ca <= (l - a - 1) * (l - a - 2) * (l - a - 3),
                a < l,
        ;
    } else {
        assert(6 * count_wins_a(own, a) <= (own.len() - a) * (own.len() - a - 1) * (own.len() - a
            - 2)) by (nonlinear_arith)
            requires
                count_wins_a(own, a) == 0,
                a == own.len(),
        ;
    }
}

/// Whether a vector of characters holds a given character.
fn contains_char(v: &Vec<char>, c: char) -> (r: bool)
    ensures
        r == v@.contains(c),
{
    let mut i: usize = 0;
    while i < v.len()
        invariant
            i <= v@.len(),
            forall|j: int| 0 <= j < i ==> v@[j] != c,
        decreases v@.len() - i,
    {
        if v[i] == c {
            return true;
        }
        i = i + 1;
    }
    false
}

pub struct Board {
    pub status: Status,
    moves: Vec<char>,
}

impl Board {
    /// The move history, oldest first.
    pub closed spec fn spec_moves(&self) -> Seq<char> {
        self.moves@
    }

    /// The status tag, for use in contracts.
    pub closed spec fn spec_status(&self) -> Status {
        self.status
    }

    /// The board's invariant: a legal move history, and a status tag that
    /// agrees with it.  A playing board has a free cell left; a tied board
    /// is full.
    pub open spec fn well_formed(&self) -> bool {
        &&& moves_ok(self.spec_moves())
        &&& (self.spec_status() == Status::IsPlaying ==> self.spec_moves().len() < 27)
        &&& (self.spec_status() == Status::Tie ==> self.spec_moves().len() == 27)
    }

    /// Create an empty board.
    pub fn new() -> (b: Self)
        ensures
            b.well_formed(),
            b.spec_status() == Status::IsPlaying,
            b.spec_moves().len() == 0,
    {
        Self { moves: Vec::new(), status: Status::IsPlaying }
    }

    /// Add a move to the board.
    /// Return the number of winning combinations formed by it.
    pub fn add_move(&mut self, position: char) -> (r: Result<u8, Error>)
        requires
            old(self).well_formed(),
        ensures
            final(self).well_formed(),
            old(self).spec_status() == Status::Tie ==> r == Err::<u8, Error>(Error::BoardIsFull)
                && *final(self) == *old(self),
            old(self).spec_status() == Status::HasWinner ==> r == Err::<u8, Error>(
                Error::ThereIsAlreadyAWinner,
            ) && *final(self) == *old(self),
            old(self).spec_status() == Status::IsPlaying && old(self).spec_moves().contains(position)
                ==> r == Err::<u8, Error>(Error::PositionAlreadyTaken) && *final(self) == *old(
                self,
            ),
            old(self).spec_status() == Status::IsPlaying && !old(self).spec_moves().contains(position)
                && !is_valid_position(position) ==> r == Err::<u8, Error>(Error::InvalidPosition)
                && *final(self) == *old(self),
            old(self).spec_status() == Status::IsPlaying && !old(self).spec_moves().contains(position)
                && is_valid_position(position) ==> {
                &&& final(self).spec_moves() == old(self).spec_moves().push(position)
                &&& r is Ok
                &&& r->Ok_0 as nat == spec_num_winning_combinations(final(self).spec_moves())
                &&& final(self).spec_status() == (if r->Ok_0 > 0 {
                    Status::HasWinner
                } else if old(self).spec_moves().len() + 1 == 27 {
                    Status::Tie
                } else {
                    Status::IsPlaying
                })
            },
    {
        if self.status == Status::Tie {
            return Err(Error::BoardIsFull);
        }
        if self.status == Status::HasWinner {
            return Err(Error::ThereIsAlreadyAWinner);
        }
        if contains_char(&self.moves, position) {
            return Err(Error::PositionAlreadyTaken);
        }
        if vector_of_position(position).is_none() {
            return Err(Error::InvalidPosition);
        }
        self.moves.push(position);
        let num_winning_combinations = self.get_num_winning_combinations();
        if num_winning_combinations == 0 {
            if self.moves.len() == 27 {
                self.status = Status::Tie;
            }
            Ok(num_winning_combinations)
        } else {
            self.status = Status::HasWinner;
            Ok(num_winning_combinations)
        }
    }

    /// The status tag.
    pub fn get_status(&self) -> (s: Status)
        ensures
            s == self.spec_status(),
    {
        self.status
    }

    /// The number of moves made so far.
    pub fn get_num_moves(&self) -> (n: usize)
        ensures
            n == self.spec_moves().len(),
    {
        self.moves.len()
    }

    /// Count the winning combinations formed by the player who made the
    /// last move.
    #[verifier::loop_isolation(false)]
    pub fn get_num_winning_combinations(&self) -> (n: u8)
        requires
            moves_ok(self.spec_moves()),
        ensures
            n as nat == spec_num_winning_combinations(self.spec_moves()),
    {
        let ghost s = self.spec_moves();
        let num_moves = self.moves.len();
        // No player can win before the seventh move.
        if num_moves < 7 {
            return 0;
        }
        // Collect the cells of the player who made the last move.
        let current_player_index = (num_moves - 1) % 3;
        let mut own: Vec<char> = Vec::new();
        let mut i = current_player_index;
        while i < num_moves
            invariant
                i == current_player_index + 3 * own@.len(),
                i < num_moves + 3,
                forall|m: int| 0 <= m < own@.len() ==> own@[m] == s[current_player_index + 3 * m],
            decreases num_moves + 3 - i,
        {
            own.push(self.moves[i]);
            i = i + 3;
        }
        proof {
            assert(own@ =~= player_cells(s));
        }
        let ghost ow = own@;
        let ghost total = count_wins_a(ow, 0);
        let own_len = own.len();
        proof {
            lemma_count_wins_a_le(ow, 0);
            let l = ow.len() as int;
            assert(l * (l - 1) * (l - 2) <= 504) by (nonlinear_arith)
                requires
                    0 <= l <= 9,
            ;
            // Every cell of `own` is a cell of the history, so the labels
            // are valid and pairwise distinct.
            assert(forall|m: int| 0 <= m < ow.len() ==> is_valid_position(#[trigger] ow[m]));
            assert(forall|m1: int, m2: int| 0 <= m1 < m2 < ow.len() ==> ow[m1] != ow[m2]);
        }
        // Count the winning combinations over all index triples a < b < c.
        let mut num_winning_combinations: usize = 0;
        let mut a: usize = 0;
        while a < own_len
            invariant
                a <= own_len,
                num_winning_combinations + count_wins_a(ow, a as int) == total,
            decreases own_len - a,
        {
            let mut b = a + 1;
            while b < own_len
                invariant
                    a < b <= own_len + 1,
                    num_winning_combinations + count_wins_b(ow, a as int, b as int) + count_wins_a(
                        ow,
                        a + 1,
                    ) == total,
                decreases own_len - b,
            {
                let mut c = b + 1;
                while c < own_len
                    invariant
                        b < c <= own_len + 1,
                        num_winning_combinations + count_wins_c(ow, a as int, b as int, c as int)
                            + count_wins_b(ow, a as int, b + 1) + count_wins_a(ow, a + 1) == total,
                    decreases own_len - c,
                {
                    match get_is_winning_combination(own[a], own[b], own[c]) {
                        Ok(is_winning_combination) => {
                            if is_winning_combination {
                                num_winning_combinations = num_winning_combinations + 1;
                            }
                        },
                        Err(_) => {
                            proof {
                                assert(false);
                            }
                        },
                    }
                    c = c + 1;
                }
                b = b + 1;
            }
            a = a + 1;
        }
        num_winning_combinations as u8
    }
}

impl Default for Board {
    /// Create an empty board.
    fn default() -> (b: Self)
        ensures
            b.well_formed(),
            b.spec_status() == Status::IsPlaying,
            b.spec_moves().len() == 0,
    {
        Self::new()
    }
}

} // verus!
