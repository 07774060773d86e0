//! The movement rules of the pieces: the geometry of each kind of move and
//! the squares that must be empty for it.
//!
//! The rules are stated over the mathematical [`Position`]; the functions on
//! [`Board`] decide them.

use vstd::prelude::*;
use crate::board::{on_board, Board, Position, Square};
use crate::pieces::{Color, Piece, PieceType};

verus! {

/// The distance between two coordinates.
pub open spec fn span(x: int, y: int) -> int {
    if x >= y {
        x - y
    } else {
        y - x
    }
}

/// The number of files between the files of `a` and `b`.
pub open spec fn file_delta(a: Square, b: Square) -> int {
    span(a.0 as int, b.0 as int)
}

/// The number of ranks between the ranks of `a` and `b`.
pub open spec fn rank_delta(a: Square, b: Square) -> int {
    span(a.1 as int, b.1 as int)
}

/// The number of king steps from `a` to `b`: the larger of the two deltas.
pub open spec fn distance(a: Square, b: Square) -> int {
    if file_delta(a, b) >= rank_delta(a, b) {
        file_delta(a, b)
    } else {
        rank_delta(a, b)
    }
}

/// Whether `a` and `b` share a file or a rank.
pub open spec fn straight(a: Square, b: Square) -> bool {
    a.0 == b.0 || a.1 == b.1
}

/// Whether `a` and `b` share a diagonal.
pub open spec fn diagonal(a: Square, b: Square) -> bool {
    file_delta(a, b) == rank_delta(a, b)
}

/// The coordinate `k` steps from `from` in the direction of `to`.
pub open spec fn toward(from: int, to: int, k: int) -> int {
    if to > from {
        from + k
    } else if to < from {
        from - k
    } else {
        from
    }
}

/// The square `k` steps from `a` on the line to `b`.
pub open spec fn path_square(a: Square, b: Square, k: int) -> Square {
    (toward(a.0 as int, b.0 as int, k) as usize, toward(a.1 as int, b.1 as int, k) as usize)
}

/// Whether `c` lies strictly between `a` and `b` on the file, rank or
/// diagonal that the two share.
pub open spec fn lies_between(a: Square, b: Square, c: Square) -> bool {
    &&& straight(a, b) || diagonal(a, b)
    &&& c != a && c != b
    &&& a.0 <= c.0 <= b.0 || b.0 <= c.0 <= a.0
    &&& a.1 <= c.1 <= b.1 || b.1 <= c.1 <= a.1
    &&& a.0 != b.0 && a.1 != b.1 ==> diagonal(a, c) && diagonal(c, b)
}

/// The change of rank when a pawn of the given side advances one step.
pub open spec fn forward(color: Color) -> int {
    match color {
        Color::White => 1,
        Color::Black => -1,
    }
}

/// The rank on which the pawns of the given side start.
pub open spec fn start_rank(color: Color) -> int {
    match color {
        Color::White => 1,
        Color::Black => 6,
    }
}

/// The geometry of a knight's jump: one file and two ranks, or two files and
/// one rank.
pub open spec fn knight_rule(a: Square, b: Square) -> bool {
    ||| file_delta(a, b) == 1 && rank_delta(a, b) == 2
    ||| file_delta(a, b) == 2 && rank_delta(a, b) == 1
}

/// The geometry of a king's step: at most one file and at most one rank.
pub open spec fn king_rule(a: Square, b: Square) -> bool {
    file_delta(a, b) <= 1 && rank_delta(a, b) <= 1
}

impl Position {
    /// The side of the occupant of `s`, if there is one.
    pub open spec fn side_at(self, s: Square) -> Option<Color> {
        match self.occupant(s) {
            Some(p) => Some(p.color),
            None => None,
        }
    }

    /// The occupant of the square `k` steps from `a` on the line to `b`.
    pub open spec fn on_path(self, a: Square, b: Square, k: int) -> Option<Piece> {
        self.at(toward(a.0 as int, b.0 as int, k), toward(a.1 as int, b.1 as int, k))
    }

    /// Every square strictly between `a` and `b` is empty. It is meant for
    /// squares that share a file, a rank or a diagonal.
    pub open spec fn clear_between(self, a: Square, b: Square) -> bool {
        forall|k: int| 0 < k < distance(a, b) ==> (#[trigger] self.on_path(a, b, k)) is None
    }

    /// The rook's rule: along a file or a rank, over empty squares only.
    pub open spec fn rook_rule(self, a: Square, b: Square) -> bool {
        straight(a, b) && self.clear_between(a, b)
    }

    /// The bishop's rule: along a diagonal, over empty squares only.
    pub open spec fn bishop_rule(self, a: Square, b: Square) -> bool {
        diagonal(a, b) && self.clear_between(a, b)
    }

    /// The queen's rule: as a rook or as a bishop.
    pub open spec fn queen_rule(self, a: Square, b: Square) -> bool {
        self.rook_rule(a, b) || self.bishop_rule(a, b)
    }

    /// The pawn's rule for a pawn of side `color`. On its file it advances
    /// one rank onto an empty square, or two ranks from its starting rank
    /// over an empty square onto an empty square. One file aside and one rank
    /// ahead it captures an enemy, or moves onto the empty en-passant target.
    pub open spec fn pawn_rule(self, color: Color, a: Square, b: Square) -> bool {
        let ahead = a.1 + forward(color);
        if a.0 == b.0 {
            &&& self.occupant(b) is None
            &&& {
                ||| b.1 == ahead
                ||| a.1 == start_rank(color) && b.1 == ahead + forward(color)
                    && self.at(a.0 as int, ahead) is None
            }
        } else {
            &&& file_delta(a, b) == 1
            &&& b.1 == ahead
            &&& match self.occupant(b) {
                Some(q) => q.color != color,
                None => self.en_passant_target == Some(b),
            }
        }
    }

    /// Whether the occupant of `a` can move to `b` by the rule of its kind,
    /// whatever that does to its own king. Squares off the board, `a == b`, an
    /// empty `a` and a `b` that holds a piece of the same side all give
    /// `false`.
    pub open spec fn pseudo_legal(self, a: Square, b: Square) -> bool {
        &&& on_board(a)
        &&& on_board(b)
        &&& a != b
        &&& self.occupant(a) matches Some(p)
        &&& self.side_at(b) != Some(p.color)
        &&& match p.typ {
            PieceType::Pawn => self.pawn_rule(p.color, a, b),
            PieceType::Rook => self.rook_rule(a, b),
            PieceType::Knight => knight_rule(a, b),
            PieceType::Bishop => self.bishop_rule(a, b),
            PieceType::Queen => self.queen_rule(a, b),
            PieceType::King => king_rule(a, b),
        }
    }
}

/// The distance between two coordinates.
fn delta(x: usize, y: usize) -> (d: usize)
    ensures
        d == span(x as int, y as int),
{
    if x >= y {
        x - y
    } else {
        y - x
    }
}

/// The coordinate `k` steps from `from` in the direction of `to`.
fn step_toward(from: usize, to: usize, k: usize) -> (c: usize)
    requires
        k <= span(from as int, to as int),
    ensures
        c == toward(from as int, to as int, k as int),
{
    if to > from {
        from + k
    } else if to < from {
        from - k
    } else {
        from
    }
}

impl Board {
    /// Whether the file and rank deltas between `a` and `b` are one of the
    /// pairs in `list`.
    pub fn rel_posns(self, list: &[Square], a: Square, b: Square) -> (found: bool)
        ensures
            found <==> exists|i: int|
                0 <= i < list@.len() && (#[trigger] list@[i]).0 == file_delta(a, b) && list@[i].1
                    == rank_delta(a, b),
    {
        let df = delta(a.0, b.0);
        let dr = delta(a.1, b.1);
        let mut i: usize = 0;
        while i < list.len()
            invariant
                i <= list@.len(),
                df == file_delta(a, b),
                dr == rank_delta(a, b),
                forall|j: int|
                    0 <= j < i ==> !((#[trigger] list@[j]).0 == df && list@[j].1 == dr),
            decreases list@.len() - i,
        {
            if list[i].0 == df && list[i].1 == dr {
                return true;
            }
            i += 1;
        }
        false
    }

    /// Whether every square strictly between `a` and `b` is empty.
    fn path_clear(&self, a: Square, b: Square) -> (clear: bool)
        requires
            on_board(a),
            on_board(b),
            straight(a, b) || diagonal(a, b),
        ensures
            clear == self@.clear_between(a, b),
    {
        let df = delta(a.0, b.0);
        let dr = delta(a.1, b.1);
        let n = if df >= dr { df } else { dr };
        let mut k: usize = 1;
        while k < n
            invariant
                1 <= k,
                on_board(a),
                on_board(b),
                straight(a, b) || diagonal(a, b),
                df == file_delta(a, b),
                dr == rank_delta(a, b),
                n == distance(a, b),
                forall|j: int| 0 < j < k ==> (#[trigger] self@.on_path(a, b, j)) is None,
            decreases n - k,
        {
            let file = if df == 0 { a.0 } else { step_toward(a.0, b.0, k) };
            let rank = if dr == 0 { a.1 } else { step_toward(a.1, b.1, k) };
            if self.board[rank][file].is_some() {
                return false;
            }
            assert(self@.on_path(a, b, k as int) is None);
            k += 1;
        }
        true
    }

    /// The rook's rule.
    fn rook_move(&self, a: Square, b: Square) -> (ok: bool)
        requires
            on_board(a),
            on_board(b),
        ensures
            ok == self@.rook_rule(a, b),
    {
        (a.0 == b.0 || a.1 == b.1) && self.path_clear(a, b)
    }

    /// The bishop's rule.
    fn bishop_move(&self, a: Square, b: Square) -> (ok: bool)
        requires
            on_board(a),
            on_board(b),
        ensures
            ok == self@.bishop_rule(a, b),
    {
        delta(a.0, b.0) == delta(a.1, b.1) && self.path_clear(a, b)
    }

    /// The queen's rule.
    fn queen_move(&self, a: Square, b: Square) -> (ok: bool)
        requires
            on_board(a),
            on_board(b),
        ensures
            ok == self@.queen_rule(a, b),
    {
        self.rook_move(a, b) || self.bishop_move(a, b)
    }

    /// The pawn's rule for a pawn of side `color`.
    fn pawn_move(&self, color: Color, a: Square, b: Square) -> (ok: bool)
        requires
            on_board(a),
            on_board(b),
        ensures
            ok == self@.pawn_rule(color, a, b),
    {
        let one_ahead = match color {
            Color::White => a.1 + 1 == b.1,
            Color::Black => b.1 + 1 == a.1,
        };
        if a.0 == b.0 {
            if self.board[b.1][b.0].is_some() {
                false
            } else if one_ahead {
                true
            } else {
                match color {
                    Color::White => a.1 == 1 && b.1 == 3 && self.board[2][a.0].is_none(),
                    Color::Black => a.1 == 6 && b.1 == 4 && self.board[5][a.0].is_none(),
                }
            }
        } else if delta(a.0, b.0) == 1 && one_ahead {
            match self.board[b.1][b.0] {
                Some(q) => q.color != color,
                None => match self.en_passant_target {
                    Some(t) => t.0 == b.0 && t.1 == b.1,
                    None => false,
                },
            }
        } else {
            false
        }
    }

    /// Whether the occupant of `a` can move to `b` by the rule of its kind,
    /// whatever that does to its own king.
    pub fn is_pseudo_legal(&self, a: Square, b: Square) -> (ok: bool)
        ensures
            ok == self@.pseudo_legal(a, b),
    {
        if a.0 >= 8 || a.1 >= 8 || b.0 >= 8 || b.1 >= 8 || (a.0 == b.0 && a.1 == b.1) {
            return false;
        }
        match self.board[a.1][a.0] {
            None => false,
            Some(p1) => {
                if let Some(p2) = self.board[b.1][b.0] {
                    if p1.color == p2.color {
                        return false;
                    }
                }
                match p1.typ {
                    PieceType::Pawn => self.pawn_move(p1.color, a, b),
                    PieceType::Rook => self.rook_move(a, b),
                    PieceType::Knight => self.rel_posns(&[(1, 2), (2, 1)], a, b),
                    PieceType::Bishop => self.bishop_move(a, b),
                    PieceType::Queen => self.queen_move(a, b),
                    PieceType::King => self.rel_posns(&[(1, 1), (1, 0), (0, 1)], a, b),
                }
            },
        }
    }
}

} // verus!
