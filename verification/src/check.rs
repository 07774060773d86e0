//! The check test: where the king of a side stands, and whether an enemy
//! piece can move to its square.

use vstd::prelude::*;
use vstd::pervasive::unreached;
use crate::board::{on_board, Board, Position, Square};
use crate::pieces::{Color, Piece, PieceType};

verus! {

/// Whether the square at `file` and `rank` comes before `s` when the board is
/// gone through rank by rank from rank 0, and each rank from file 0.
pub open spec fn comes_before(file: int, rank: int, s: Square) -> bool {
    rank < s.1 || (rank == s.1 && file < s.0)
}

impl Position {
    /// Whether the king of side `color` stands at the given file and rank.
    pub open spec fn king_at(self, color: Color, file: int, rank: int) -> bool {
        self.at(file, rank) == Some(Piece { color, typ: PieceType::King })
    }

    /// Whether a king of side `color` stands on the board.
    pub open spec fn has_king(self, color: Color) -> bool {
        exists|file: int, rank: int|
            0 <= file < 8 && 0 <= rank < 8 && #[trigger] self.king_at(color, file, rank)
    }

    /// Whether `s` holds the first king of side `color`: no square of the
    /// board that comes before `s` holds one.
    pub open spec fn first_king(self, color: Color, s: Square) -> bool {
        &&& on_board(s)
        &&& self.king_at(color, s.0 as int, s.1 as int)
        &&& forall|file: int, rank: int|
            0 <= file < 8 && 0 <= rank < 8 && comes_before(file, rank, s)
                ==> !#[trigger] self.king_at(color, file, rank)
    }

    /// The square of the king of side `color`. A position is meant to hold
    /// one king of each side; where it holds several of one side, the first
    /// of them counts.
    pub open spec fn king_square(self, color: Color) -> Square {
        choose|s: Square| self.first_king(color, s)
    }

    /// Whether `s` holds an enemy of side `color` that can move to `target`
    /// by the rule of its kind.
    pub open spec fn enemy_can_move(self, color: Color, s: Square, target: Square) -> bool {
        &&& self.occupant(s) matches Some(p)
        &&& p.color != color
        &&& self.pseudo_legal(s, target)
    }

    /// Whether some enemy of side `color` can move to `target` by the rule of
    /// its kind. Of an occupied square this says that it is attacked.
    pub open spec fn enemy_can_reach(self, color: Color, target: Square) -> bool {
        exists|s: Square| #[trigger] self.enemy_can_move(color, s, target)
    }

    /// Whether the king of side `color` is in check: some enemy can move to
    /// its square.
    pub open spec fn in_check(self, color: Color) -> bool {
        self.enemy_can_reach(color, self.king_square(color))
    }
}

/// The king squares of one side are found in a fixed order, so at most one
/// square holds the first king.
pub proof fn lemma_first_king_unique(pos: Position, color: Color, s: Square, t: Square)
    requires
        pos.first_king(color, s),
        pos.first_king(color, t),
    ensures
        s == t,
{
}

impl Board {
    /// The square of the king of side `color`, or `None` where the board
    /// holds no such king.
    pub fn find_king(&self, color: Color) -> (found: Option<Square>)
        ensures
            found is Some <==> self@.has_king(color),
            found matches Some(k) ==> k == self@.king_square(color) && self@.first_king(color, k),
    {
        let mut y: usize = 0;
        while y < 8
            invariant
                y <= 8,
                forall|file: int, rank: int|
                    0 <= file < 8 && 0 <= rank < y ==> !#[trigger] self@.king_at(color, file, rank),
            decreases 8 - y,
        {
            let mut x: usize = 0;
            while x < 8
                invariant
                    y < 8,
                    x <= 8,
                    forall|file: int, rank: int|
                        0 <= file < 8 && 0 <= rank < 8 && comes_before(file, rank, (x, y))
                            ==> !#[trigger] self@.king_at(color, file, rank),
                decreases 8 - x,
            {
                if let Some(p) = self.board[y][x] {
                    if p.color == color && p.typ == PieceType::King {
                        proof {
                            assert(self@.first_king(color, (x, y)));
                            lemma_first_king_unique(
                                self@,
                                color,
                                (x, y),
                                self@.king_square(color),
                            );
                        }
                        return Some((x, y));
                    }
                }
                x += 1;
            }
            y += 1;
        }
        None
    }

    /// Whether some enemy piece of side `color` can move to `target` by the
    /// rule of its kind. Of an occupied square this says that it is attacked.
    pub fn enemy_can_reach(&self, color: Color, target: Square) -> (hit: bool)
        ensures
            hit == self@.enemy_can_reach(color, target),
    {
        let mut y: usize = 0;
        while y < 8
            invariant
                y <= 8,
                forall|s: Square|
                    on_board(s) && s.1 < y ==> !#[trigger] self@.enemy_can_move(color, s, target),
            decreases 8 - y,
        {
            let mut x: usize = 0;
            while x < 8
                invariant
                    y < 8,
                    x <= 8,
                    forall|s: Square|
                        on_board(s) && comes_before(s.0 as int, s.1 as int, (x, y))
                            ==> !#[trigger] self@.enemy_can_move(color, s, target),
                decreases 8 - x,
            {
                if let Some(p) = self.board[y][x] {
                    if p.color != color && self.is_pseudo_legal((x, y), target) {
                        assert(self@.enemy_can_move(color, (x, y), target));
                        return true;
                    }
                }
                x += 1;
            }
            y += 1;
        }
        false
    }

    /// Whether the king of side `color` is in check: some enemy piece can
    /// move to its square by the rule of its kind. The board must hold a
    /// king of that side.
    pub fn in_check(&self, color: Color) -> (check: bool)
        requires
            self@.has_king(color),
        ensures
            check == self@.in_check(color),
    {
        match self.find_king(color) {
            Some(king) => self.enemy_can_reach(color, king),
            None => unreached(),
        }
    }
}

} // verus!
