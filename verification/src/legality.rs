//! The two questions that callers ask: whether a piece may make a move, and
//! whether a side may make it.

use vstd::prelude::*;
use crate::board::{Board, Position, Square};
use crate::pieces::{Color, PieceType};

verus! {

impl Position {
    /// Whether the occupant of `a` may move to `b`: by the rule of its kind,
    /// and for a king also without standing in check afterwards.
    pub open spec fn valid_move(self, a: Square, b: Square) -> bool {
        &&& self.pseudo_legal(a, b)
        &&& self.occupant(a) matches Some(p)
        &&& p.typ == PieceType::King ==> !self.apply_move(a, b).in_check(p.color)
    }

    /// Whether side `mover` may move the occupant of `a` to `b`: the piece is
    /// its own, the move is valid, and it does not leave the king of `mover`
    /// in check. A side without a king has no king to leave in check.
    pub open spec fn legal(self, a: Square, b: Square, mover: Color) -> bool {
        &&& self.side_at(a) == Some(mover)
        &&& self.valid_move(a, b)
        &&& self.apply_move(a, b).has_king(mover) ==> !self.apply_move(a, b).in_check(mover)
    }
}

impl Board {
    /// Whether the occupant of `a` may move to `b`: by the rule of its kind,
    /// and for a king also without standing in check afterwards.
    pub fn valid_move(&self, a: Square, b: Square) -> (ok: bool)
        ensures
            ok == self@.valid_move(a, b),
    {
        if !self.is_pseudo_legal(a, b) {
            return false;
        }
        match self.board[a.1][a.0] {
            None => false,
            Some(p) => match p.typ {
                PieceType::King => {
                    let next = self.test_move(a, b);
                    assert(next@.king_at(p.color, b.0 as int, b.1 as int));
                    !next.in_check(p.color)
                },
                _ => true,
            },
        }
    }

    /// Whether side `mover` may move the occupant of `a` to `b`: the piece is
    /// its own, it can move there by the rule of its kind, and the move does
    /// not leave the king of `mover` in check.
    pub fn is_legal(&self, a: Square, b: Square, mover: Color) -> (ok: bool)
        ensures
            ok == self@.legal(a, b, mover),
    {
        if a.0 >= 8 || a.1 >= 8 {
            return false;
        }
        match self.board[a.1][a.0] {
            None => false,
            Some(p) => {
                if p.color != mover || !self.is_pseudo_legal(a, b) {
                    return false;
                }
                let next = self.test_move(a, b);
                assert(p.typ == PieceType::King ==> next@.king_at(mover, b.0 as int, b.1 as int));
                match next.find_king(mover) {
                    Some(king) => !next.enemy_can_reach(mover, king),
                    None => true,
                }
            },
        }
    }
}

} // verus!
