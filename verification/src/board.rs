//! The position model: an 8×8 grid of optional pieces with the en-passant
//! target and the castling rights, and the mathematical position that the
//! rules are stated over.

use vstd::prelude::*;
use crate::pieces::{Color, Piece, PieceType};

verus! {

/// A square of the board: zero-based file, then zero-based rank.
pub type Square = (usize, usize);

/// Whether both coordinates of `s` lie on the board.
pub open spec fn on_board(s: Square) -> bool {
    s.0 < 8 && s.1 < 8
}

/// Which castling moves are still available, by side and by wing. The left
/// wing is the queen's (the rook of file 0), the right wing the king's (the
/// rook of file 7); the kings start on file 4.
#[derive(Copy, Clone, Debug, PartialEq, Eq, Structural)]
pub struct CastleRights {
    pub white_left: bool,
    pub white_right: bool,
    pub black_left: bool,
    pub black_right: bool,
}

/// Whether a move from `a` to `b` starts from or ends on the given square.
pub open spec fn touches(a: Square, b: Square, file: int, rank: int) -> bool {
    (a.0 == file && a.1 == rank) || (b.0 == file && b.1 == rank)
}

/// Whether a move from `a` to `b` starts from or ends on the given square.
fn move_touches(a: Square, b: Square, file: usize, rank: usize) -> (t: bool)
    ensures
        t == touches(a, b, file as int, rank as int),
{
    (a.0 == file && a.1 == rank) || (b.0 == file && b.1 == rank)
}

impl CastleRights {
    /// The rights at the start of a game: every castling move is available.
    pub open spec fn all() -> CastleRights {
        CastleRights { white_left: true, white_right: true, black_left: true, black_right: true }
    }

    /// The rights that are left once a move from `a` to `b` has been made. A
    /// right is lost as soon as a move starts from or ends on the home square
    /// of its king or of its rook: then that piece has moved or has been
    /// captured. A right that is lost stays lost.
    pub open spec fn kept(self, a: Square, b: Square) -> CastleRights {
        CastleRights {
            white_left: self.white_left && !touches(a, b, 4, 0) && !touches(a, b, 0, 0),
            white_right: self.white_right && !touches(a, b, 4, 0) && !touches(a, b, 7, 0),
            black_left: self.black_left && !touches(a, b, 4, 7) && !touches(a, b, 0, 7),
            black_right: self.black_right && !touches(a, b, 4, 7) && !touches(a, b, 7, 7),
        }
    }

    /// The rights that are left once a move from `a` to `b` has been made.
    pub fn after_move(self, a: Square, b: Square) -> (r: Self)
        ensures
            r == self.kept(a, b),
    {
        let white_king = move_touches(a, b, 4, 0);
        let black_king = move_touches(a, b, 4, 7);
        CastleRights {
            white_left: self.white_left && !white_king && !move_touches(a, b, 0, 0),
            white_right: self.white_right && !white_king && !move_touches(a, b, 7, 0),
            black_left: self.black_left && !black_king && !move_touches(a, b, 0, 7),
            black_right: self.black_right && !black_king && !move_touches(a, b, 7, 7),
        }
    }
}

impl Default for CastleRights {
    fn default() -> (r: Self)
        ensures
            r == CastleRights::all(),
    {
        Self { white_left: true, white_right: true, black_left: true, black_right: true }
    }
}

/// The mathematical position: what stands on each square, where a pawn may
/// capture en passant, and the castling rights.
pub struct Position {
    /// The occupant of each square, keyed by (file, rank).
    pub cells: Map<(int, int), Option<Piece>>,
    /// The square onto which a pawn may capture en passant, if any.
    pub en_passant_target: Option<Square>,
    pub castle_rights: CastleRights,
}

/// The kind of piece that starts a game on the given file of a back rank.
pub open spec fn back_rank_kind(file: int) -> PieceType {
    if file == 0 || file == 7 {
        PieceType::Rook
    } else if file == 1 || file == 6 {
        PieceType::Knight
    } else if file == 2 || file == 5 {
        PieceType::Bishop
    } else if file == 3 {
        PieceType::Queen
    } else {
        PieceType::King
    }
}

/// The occupant of a square at the start of a game.
pub open spec fn initial_occupant(file: int, rank: int) -> Option<Piece> {
    if !(0 <= file < 8) {
        None
    } else if rank == 0 {
        Some(Piece { color: Color::White, typ: back_rank_kind(file) })
    } else if rank == 1 {
        Some(Piece { color: Color::White, typ: PieceType::Pawn })
    } else if rank == 6 {
        Some(Piece { color: Color::Black, typ: PieceType::Pawn })
    } else if rank == 7 {
        Some(Piece { color: Color::Black, typ: back_rank_kind(file) })
    } else {
        None
    }
}

impl Position {
    /// The occupant of the square at the given file and rank.
    pub open spec fn at(self, file: int, rank: int) -> Option<Piece> {
        self.cells[(file, rank)]
    }

    /// The occupant of square `s`.
    pub open spec fn occupant(self, s: Square) -> Option<Piece> {
        self.at(s.0 as int, s.1 as int)
    }

    /// The position without any piece, with full castling rights and no
    /// en-passant target.
    pub open spec fn empty() -> Position {
        Position {
            cells: Map::total(|s: (int, int)| None),
            en_passant_target: None,
            castle_rights: CastleRights::all(),
        }
    }

    /// The position at the start of a game.
    pub open spec fn initial() -> Position {
        Position {
            cells: Map::total(|s: (int, int)| initial_occupant(s.0, s.1)),
            en_passant_target: None,
            castle_rights: CastleRights::all(),
        }
    }

    /// The position with `p` as the occupant of square `s`.
    pub open spec fn put(self, s: Square, p: Option<Piece>) -> Position {
        Position { cells: self.cells.insert((s.0 as int, s.1 as int), p), ..self }
    }

    /// The position after the occupant of `a` has been carried to `b`: `a` is
    /// left empty, whatever stood on `b` is gone, nothing else changes.
    pub open spec fn apply_move(self, a: Square, b: Square) -> Position {
        self.put(a, None).put(b, self.occupant(a))
    }

    /// The square that a pawn passes over when the occupant of `a` is a pawn
    /// and the move from `a` to `b` carries it two ranks along its file;
    /// `None` for any other move.
    pub open spec fn passed_square(self, a: Square, b: Square) -> Option<Square> {
        if self.occupant(a) matches Some(p) && p.typ == PieceType::Pawn && a.0 == b.0 && b.1
            == a.1 + 2 {
            Some((a.0, (a.1 + 1) as usize))
        } else if self.occupant(a) matches Some(p) && p.typ == PieceType::Pawn && a.0 == b.0
            && a.1 == b.1 + 2 {
            Some((a.0, (a.1 - 1) as usize))
        } else {
            None
        }
    }

    /// The position after the move from `a` to `b` has been played. The
    /// squares change as in [`Position::apply_move`], and only so: a pawn
    /// that is passed en passant stays. The en-passant target is the square
    /// that a pawn has just passed over in a double advance and is absent
    /// after any other move. The castling rights are those that the move
    /// leaves.
    pub open spec fn play_move(self, a: Square, b: Square) -> Position {
        Position {
            cells: self.apply_move(a, b).cells,
            en_passant_target: self.passed_square(a, b),
            castle_rights: self.castle_rights.kept(a, b),
        }
    }
}

/// A chess board: the grid of squares, indexed by rank and then by file, the
/// en-passant target and the castling rights.
#[derive(Copy, Clone, Debug)]
pub struct Board {
    pub board: [[Option<Piece>; 8]; 8],
    pub en_passant_target: Option<Square>,
    pub castle_rights: CastleRights,
}

impl View for Board {
    type V = Position;

    open spec fn view(&self) -> Position {
        Position {
            cells: Map::total(
                |s: (int, int)|
                    if 0 <= s.0 < 8 && 0 <= s.1 < 8 {
                        self.board[s.1][s.0]
                    } else {
                        None
                    },
            ),
            en_passant_target: self.en_passant_target,
            castle_rights: self.castle_rights,
        }
    }
}

impl Default for Board {
    fn default() -> (b: Self)
        ensures
            b@ == Position::empty(),
    {
        let b = Board {
            board: [[None; 8]; 8],
            en_passant_target: None,
            castle_rights: CastleRights::default(),
        };
        assert(b@.cells =~= Position::empty().cells);
        b
    }
}

impl Board {
    /// The board at the start of a game.
    pub fn new() -> (b: Self)
        ensures
            b@ == Position::initial(),
    {
        let b = Board {
            board: [
                [
                    Some(Piece::new(Color::White, PieceType::Rook)),
                    Some(Piece::new(Color::White, PieceType::Knight)),
                    Some(Piece::new(Color::White, PieceType::Bishop)),
                    Some(Piece::new(Color::White, PieceType::Queen)),
                    Some(Piece::new(Color::White, PieceType::King)),
                    Some(Piece::new(Color::White, PieceType::Bishop)),
                    Some(Piece::new(Color::White, PieceType::Knight)),
                    Some(Piece::new(Color::White, PieceType::Rook)),
                ],
                [Some(Piece::new(Color::White, PieceType::Pawn)); 8],
                [None; 8],
                [None; 8],
                [None; 8],
                [None; 8],
                [Some(Piece::new(Color::Black, PieceType::Pawn)); 8],
                [
                    Some(Piece::new(Color::Black, PieceType::Rook)),
                    Some(Piece::new(Color::Black, PieceType::Knight)),
                    Some(Piece::new(Color::Black, PieceType::Bishop)),
                    Some(Piece::new(Color::Black, PieceType::Queen)),
                    Some(Piece::new(Color::Black, PieceType::King)),
                    Some(Piece::new(Color::Black, PieceType::Bishop)),
                    Some(Piece::new(Color::Black, PieceType::Knight)),
                    Some(Piece::new(Color::Black, PieceType::Rook)),
                ],
            ],
            en_passant_target: None,
            castle_rights: CastleRights::default(),
        };
        assert(b@.cells =~= Position::initial().cells);
        b
    }

    /// The occupant of square `s`.
    pub fn piece_at(&self, s: Square) -> (p: Option<Piece>)
        requires
            on_board(s),
        ensures
            p == self@.occupant(s),
    {
        self.board[s.1][s.0]
    }

    /// The board after the occupant of `a` has been carried to `b`; this
    /// board is left as it was. No rule of movement is consulted.
    pub fn test_move(&self, a: Square, b: Square) -> (next: Self)
        requires
            on_board(a),
            on_board(b),
        ensures
            next@ == self@.apply_move(a, b),
    {
        let mut board = *self;
        board.make_move(a, b);
        board
    }

    /// Carries the occupant of `a` to `b`, leaving `a` empty and discarding
    /// whatever stood on `b`. No rule of movement is consulted.
    pub fn make_move(&mut self, a: Square, b: Square)
        requires
            on_board(a),
            on_board(b),
        ensures
            final(self)@ == old(self)@.apply_move(a, b),
    {
        let p = self.board[a.1][a.0];
        self.board[a.1][a.0] = None;
        self.board[b.1][b.0] = p;
        assert(self@.cells =~= old(self)@.apply_move(a, b).cells);
    }

    /// Plays the move from `a` to `b`: carries the occupant of `a` to `b` as
    /// [`Board::make_move`] does, and brings the en-passant target and the
    /// castling rights up to date. No rule of movement is consulted.
    pub fn play_move(&mut self, a: Square, b: Square)
        requires
            on_board(a),
            on_board(b),
        ensures
            final(self)@ == old(self)@.play_move(a, b),
    {
        let double_advance = match self.board[a.1][a.0] {
            Some(p) => p.typ == PieceType::Pawn && a.0 == b.0,
            None => false,
        };
        let target = if double_advance && b.1 == a.1 + 2 {
            Some((a.0, a.1 + 1))
        } else if double_advance && a.1 == b.1 + 2 {
            Some((a.0, a.1 - 1))
        } else {
            None
        };
        self.castle_rights = self.castle_rights.after_move(a, b);
        self.make_move(a, b);
        self.en_passant_target = target;
    }
}

} // verus!
