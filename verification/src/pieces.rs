//! The occupants of a chess board: sides, piece kinds and pieces.

use vstd::prelude::*;
use vstd::string::StringExecFns;

verus! {

/// The escape sequence that ends the colouring of a piece.
pub const RESET_COLOR: &'static str = "\x1b[0m";

/// The kind of a chess piece.
#[derive(Copy, Clone, Debug, PartialEq, Eq, Structural)]
pub enum PieceType {
    Pawn,
    Rook,
    Knight,
    Bishop,
    Queen,
    King,
}

/// One of the two sides of a game.
#[derive(Copy, Clone, Debug, PartialEq, Eq, Structural)]
pub enum Color {
    Black,
    White,
}

/// A piece standing on a square: its side and its kind.
#[derive(Copy, Clone, Debug, PartialEq, Eq, Structural)]
pub struct Piece {
    pub color: Color,
    pub typ: PieceType,
}

impl PieceType {
    /// The letter that a kind of piece is shown as. Knights and kings share
    /// a letter.
    pub open spec fn letter_text(self) -> Seq<char> {
        match self {
            PieceType::Pawn => "p"@,
            PieceType::Rook => "R"@,
            PieceType::Knight => "K"@,
            PieceType::Bishop => "B"@,
            PieceType::Queen => "Q"@,
            PieceType::King => "K"@,
        }
    }

    /// The letter that this kind of piece is shown as.
    pub fn letter(&self) -> (s: &'static str)
        ensures
            s@ == self.letter_text(),
    {
        match self {
            PieceType::Pawn => "p",
            PieceType::Rook => "R",
            PieceType::Knight => "K",
            PieceType::Bishop => "B",
            PieceType::Queen => "Q",
            PieceType::King => "K",
        }
    }
}

impl Color {
    /// The escape sequence that colours the pieces of a side: black on a
    /// bright background for Black, the terminal's own colours for White.
    pub open spec fn escape_text(self) -> Seq<char> {
        match self {
            Color::Black => "\x1b[30;107m"@,
            Color::White => RESET_COLOR@,
        }
    }

    /// The escape sequence that colours the pieces of this side.
    pub fn escape(&self) -> (s: &'static str)
        ensures
            s@ == self.escape_text(),
    {
        match self {
            Color::Black => "\x1b[30;107m",
            Color::White => RESET_COLOR,
        }
    }
}

impl Piece {
    /// A piece of the given side and kind.
    pub fn new(color: Color, typ: PieceType) -> (p: Self)
        ensures
            p == (Piece { color, typ }),
    {
        Self { color, typ }
    }

    /// The text that shows a piece: the escape sequence of its side, the
    /// letter of its kind, and the escape sequence that ends the colouring.
    pub open spec fn glyph_text(self) -> Seq<char> {
        self.color.escape_text() + self.typ.letter_text() + RESET_COLOR@
    }

    /// The text that shows this piece on a terminal.
    pub fn glyph(&self) -> (s: String)
        ensures
            s@ == self.glyph_text(),
    {
        let mut s = String::from_str(self.color.escape());
        s.append(self.typ.letter());
        s.append(RESET_COLOR);
        s
    }
}

} // verus!
