//! General facts about the rules, each proved from their definitions.

use vstd::prelude::*;
use crate::board::{on_board, Position, Square};
use crate::pieces::{Color, Piece, PieceType};
use crate::check::lemma_first_king_unique;
use crate::geometry::{
    diagonal, distance, file_delta, forward, king_rule, knight_rule, lies_between, path_square,
    rank_delta, start_rank, straight,
};

verus! {

/// Whether a piece of the given kind moves along lines: a rook, a bishop or
/// a queen.
pub open spec fn slides(kind: PieceType) -> bool {
    kind == PieceType::Rook || kind == PieceType::Bishop || kind == PieceType::Queen
}

/// Whether `a` and `b` share a line along which a piece of the given kind
/// slides.
pub open spec fn lines_up(kind: PieceType, a: Square, b: Square) -> bool {
    match kind {
        PieceType::Rook => straight(a, b),
        PieceType::Bishop => diagonal(a, b),
        PieceType::Queen => straight(a, b) || diagonal(a, b),
        _ => false,
    }
}

// Squares between two squares

/// The squares that are passed in going from `a` to `b` along their line lie
/// strictly between the two, each as many steps from `a` as its number says.
pub proof fn lemma_path_square_lies_between(a: Square, b: Square, k: int)
    requires
        straight(a, b) || diagonal(a, b),
        0 < k < distance(a, b),
    ensures
        lies_between(a, b, path_square(a, b, k)),
        distance(a, path_square(a, b, k)) == k,
        distance(path_square(a, b, k), b) == distance(a, b) - k,
{
}

/// Every square strictly between `a` and `b` is passed in going from `a` to
/// `b` along their line.
pub proof fn lemma_between_is_path_square(a: Square, b: Square, c: Square)
    requires
        lies_between(a, b, c),
    ensures
        0 < distance(a, c) < distance(a, b),
        c == path_square(a, b, distance(a, c)),
{
}

/// The way from `a` to `b` is clear exactly when no square strictly between
/// the two holds a piece.
pub proof fn lemma_clear_iff_nothing_between(pos: Position, a: Square, b: Square)
    requires
        straight(a, b) || diagonal(a, b),
    ensures
        pos.clear_between(a, b) <==> forall|c: Square|
            lies_between(a, b, c) ==> (#[trigger] pos.occupant(c)) is None,
{
    let n = distance(a, b);
    if pos.clear_between(a, b) {
        assert forall|c: Square| lies_between(a, b, c) implies (#[trigger] pos.occupant(c))
            is None by {
            lemma_between_is_path_square(a, b, c);
            assert(pos.on_path(a, b, distance(a, c)) is None);
        }
    }
    if forall|c: Square| lies_between(a, b, c) ==> (#[trigger] pos.occupant(c)) is None {
        assert forall|k: int| 0 < k < n implies (#[trigger] pos.on_path(a, b, k)) is None by {
            lemma_path_square_lies_between(a, b, k);
            assert(pos.occupant(path_square(a, b, k)) is None);
        }
    }
}

/// The way from `a` to `b` is clear exactly when the way back is.
pub proof fn lemma_clear_between_is_symmetric(pos: Position, a: Square, b: Square)
    requires
        straight(a, b) || diagonal(a, b),
    ensures
        pos.clear_between(a, b) == pos.clear_between(b, a),
{
    lemma_clear_iff_nothing_between(pos, a, b);
    lemma_clear_iff_nothing_between(pos, b, a);
    assert forall|c: Square| lies_between(a, b, c) == lies_between(b, a, c) by {}
}

// Moving a piece

/// A move changes two squares at most: the destination holds what the source
/// held, the source is empty, and every other square is as it was. The
/// en-passant target and the castling rights stay.
pub proof fn lemma_apply_move_squares(pos: Position, a: Square, b: Square, s: Square)
    ensures
        pos.apply_move(a, b).occupant(s) == if s == b {
            pos.occupant(a)
        } else if s == a {
            None
        } else {
            pos.occupant(s)
        },
        pos.apply_move(a, b).en_passant_target == pos.en_passant_target,
        pos.apply_move(a, b).castle_rights == pos.castle_rights,
{
}

/// Playing a move moves the pieces as the bare move does.
pub proof fn lemma_play_moves_like_apply(pos: Position, a: Square, b: Square)
    ensures
        pos.play_move(a, b).cells == pos.apply_move(a, b).cells,
{
}

/// Playing a move sets an en-passant target exactly when it carries a pawn
/// two ranks along its file, and the target is then the square that the pawn
/// passed over. After any other move there is no target, so a target lasts
/// for one move.
pub proof fn lemma_en_passant_target_after_play(pos: Position, a: Square, b: Square)
    requires
        on_board(a),
        on_board(b),
    ensures
        pos.play_move(a, b).en_passant_target is Some <==> (pos.occupant(a) matches Some(p)
            && p.typ == PieceType::Pawn && a.0 == b.0 && rank_delta(a, b) == 2),
        pos.play_move(a, b).en_passant_target matches Some(t) ==> t == path_square(a, b, 1),
{
}

/// Playing a move never brings a castling right back.
pub proof fn lemma_lost_rights_stay_lost(pos: Position, a: Square, b: Square)
    ensures
        pos.play_move(a, b).castle_rights.white_left ==> pos.castle_rights.white_left,
        pos.play_move(a, b).castle_rights.white_right ==> pos.castle_rights.white_right,
        pos.play_move(a, b).castle_rights.black_left ==> pos.castle_rights.black_left,
        pos.play_move(a, b).castle_rights.black_right ==> pos.castle_rights.black_right,
{
}

// The king's square and check

/// Going through the squares in order from the given file and rank, with no
/// king of side `color` before them, comes to a first king if there is any.
proof fn lemma_scan_finds_first_king(pos: Position, color: Color, file: int, rank: int)
    requires
        pos.has_king(color),
        0 <= file < 8,
        0 <= rank <= 8,
        forall|f: int, r: int|
            0 <= f < 8 && 0 <= r < 8 && (r < rank || (r == rank && f < file))
                ==> !#[trigger] pos.king_at(color, f, r),
    ensures
        exists|s: Square| pos.first_king(color, s),
    decreases 8 - rank, 8 - file,
{
    if rank == 8 {
        // every square has been passed, so there is no king at all
    } else if pos.king_at(color, file, rank) {
        let s: Square = (file as usize, rank as usize);
        assert(pos.first_king(color, s));
    } else if file == 7 {
        lemma_scan_finds_first_king(pos, color, 0, rank + 1);
    } else {
        lemma_scan_finds_first_king(pos, color, file + 1, rank);
    }
}

/// Where a king of side `color` stands on the board, the king's square is a
/// square of the board, holds such a king, and is the first that does.
pub proof fn lemma_king_square_holds_king(pos: Position, color: Color)
    requires
        pos.has_king(color),
    ensures
        pos.first_king(color, pos.king_square(color)),
        on_board(pos.king_square(color)),
        pos.occupant(pos.king_square(color)) == Some(Piece { color, typ: PieceType::King }),
{
    lemma_scan_finds_first_king(pos, color, 0, 0);
}

/// Where exactly one square of the board holds a king of side `color`, that
/// square is the king's square.
pub proof fn lemma_only_king_is_king_square(pos: Position, color: Color, k: Square)
    requires
        on_board(k),
        pos.king_at(color, k.0 as int, k.1 as int),
        forall|file: int, rank: int|
            0 <= file < 8 && 0 <= rank < 8 && #[trigger] pos.king_at(color, file, rank) ==> file
                == k.0 && rank == k.1,
    ensures
        pos.has_king(color),
        pos.king_square(color) == k,
{
    lemma_first_king_unique(pos, color, k, pos.king_square(color));
}

/// A king is in check exactly when some square of the board holds a piece
/// of the other side that can move to the king's square by the rule of its
/// kind.
pub proof fn lemma_check_iff_enemy_reaches_king(pos: Position, color: Color)
    ensures
        pos.in_check(color) <==> exists|s: Square|
            on_board(s) && pos.side_at(s) is Some && pos.side_at(s) != Some(color)
                && #[trigger] pos.pseudo_legal(s, pos.king_square(color)),
{
    let king = pos.king_square(color);
    if exists|s: Square|
        on_board(s) && pos.side_at(s) is Some && pos.side_at(s) != Some(color)
            && #[trigger] pos.pseudo_legal(s, king) {
        let s = choose|s: Square|
            on_board(s) && pos.side_at(s) is Some && pos.side_at(s) != Some(color)
                && #[trigger] pos.pseudo_legal(s, king);
        assert(pos.enemy_can_move(color, s, king));
    }
}

/// Whether a king is in check depends on the occupants of the squares alone,
/// not on the en-passant target or the castling rights.
pub proof fn lemma_check_depends_on_squares_only(pos: Position, other: Position, color: Color)
    requires
        pos.has_king(color),
        other.cells == pos.cells,
    ensures
        other.has_king(color),
        other.king_square(color) == pos.king_square(color),
        other.in_check(color) == pos.in_check(color),
{
    let king = pos.king_square(color);
    lemma_king_square_holds_king(pos, color);
    assert forall|f: int, r: int| other.king_at(color, f, r) == pos.king_at(color, f, r) by {}
    lemma_first_king_unique(other, color, king, other.king_square(color));
    assert forall|s: Square|
        other.enemy_can_move(color, s, king) == pos.enemy_can_move(color, s, king) by {
        if other.occupant(s) is Some {
            assert forall|k: int| other.on_path(s, king, k) == pos.on_path(s, king, k) by {}
        }
    }
}

// Valid moves

/// A valid move starts on an occupied square of the board and ends on
/// another square of the board, one that holds no piece of the same side. It
/// obeys the rule of the piece, and a legal move is a valid move of a piece
/// of the side that moves.
pub proof fn lemma_valid_move_needs(pos: Position, a: Square, b: Square, mover: Color)
    ensures
        pos.pseudo_legal(a, b) ==> on_board(a) && on_board(b) && a != b && pos.occupant(a) is Some
            && pos.side_at(b) != pos.side_at(a),
        pos.valid_move(a, b) ==> pos.pseudo_legal(a, b),
        pos.legal(a, b, mover) ==> pos.valid_move(a, b) && pos.side_at(a) == Some(mover),
{
}

/// No piece may move onto a square that holds a piece of its own side,
/// whatever the two pieces are and wherever they stand.
pub proof fn lemma_no_same_side_capture(pos: Position, a: Square, b: Square, mover: Color)
    requires
        pos.side_at(a) is Some,
        pos.side_at(a) == pos.side_at(b),
    ensures
        !pos.pseudo_legal(a, b),
        !pos.valid_move(a, b),
        !pos.legal(a, b, mover),
{
}

/// A rook, bishop or queen may move exactly when the two squares are
/// distinct squares of the board on a line of its kind, the destination
/// holds no piece of its side, and every square strictly between the two is
/// empty.
pub proof fn lemma_slide_iff_clear(pos: Position, a: Square, b: Square)
    requires
        pos.occupant(a) matches Some(p) && slides(p.typ),
    ensures
        pos.valid_move(a, b) <==> (on_board(a) && on_board(b) && a != b && pos.side_at(b)
            != pos.side_at(a) && lines_up(pos.occupant(a).unwrap().typ, a, b)
            && pos.clear_between(a, b)),
{
}

/// A piece placed on any square strictly between a rook, bishop or queen and
/// its destination stops the move.
pub proof fn lemma_blocker_stops_slide(
    pos: Position,
    a: Square,
    b: Square,
    c: Square,
    blocker: Piece,
)
    requires
        pos.occupant(a) matches Some(p) && slides(p.typ),
        lies_between(a, b, c),
    ensures
        !pos.put(c, Some(blocker)).valid_move(a, b),
        forall|mover: Color| !pos.put(c, Some(blocker)).legal(a, b, mover),
{
    let blocked = pos.put(c, Some(blocker));
    lemma_between_is_path_square(a, b, c);
    assert(blocked.on_path(a, b, distance(a, c)) == Some(blocker));
}

/// A knight may move exactly when both squares are on the board, the
/// destination holds no piece of its side, and the jump is one file by two
/// ranks or two files by one rank.
pub proof fn lemma_knight_jump(pos: Position, a: Square, b: Square)
    requires
        pos.occupant(a) matches Some(p) && p.typ == PieceType::Knight,
    ensures
        pos.valid_move(a, b) <==> (on_board(a) && on_board(b) && pos.side_at(b) != pos.side_at(a)
            && knight_rule(a, b)),
{
}

/// Whether a knight may jump does not depend on any square but its own and
/// its destination: two positions that hold the same knight on `a` and a
/// piece of the same side, or none, on `b` agree on the move.
pub proof fn lemma_knight_ignores_other_squares(
    pos: Position,
    other: Position,
    a: Square,
    b: Square,
)
    requires
        pos.occupant(a) matches Some(p) && p.typ == PieceType::Knight,
        other.occupant(a) == pos.occupant(a),
        other.side_at(b) == pos.side_at(b),
    ensures
        other.valid_move(a, b) == pos.valid_move(a, b),
{
}

/// A pawn may step one file aside and one rank ahead onto an empty square
/// exactly while that square is the en-passant target; once the target is
/// cleared the same move is refused.
pub proof fn lemma_en_passant_window(pos: Position, a: Square, b: Square)
    requires
        on_board(a),
        on_board(b),
        pos.occupant(a) matches Some(p) && p.typ == PieceType::Pawn,
        pos.occupant(a) matches Some(p) && b.1 == a.1 + forward(p.color),
        file_delta(a, b) == 1,
        pos.occupant(b) is None,
    ensures
        pos.valid_move(a, b) <==> pos.en_passant_target == Some(b),
        forall|mover: Color| pos.legal(a, b, mover) ==> pos.en_passant_target == Some(b),
        !(Position { en_passant_target: None, ..pos }).valid_move(a, b),
        forall|mover: Color| !(Position { en_passant_target: None, ..pos }).legal(a, b, mover),
{
}

/// The only king of its side may step to a neighbouring square exactly when
/// that square holds no piece of its side and no enemy could move to it once
/// the king stands there.
pub proof fn lemma_king_step_iff_destination_safe(pos: Position, a: Square, b: Square)
    requires
        on_board(a),
        on_board(b),
        a != b,
        king_rule(a, b),
        pos.occupant(a) matches Some(p) && p.typ == PieceType::King && forall|f: int, r: int|
            0 <= f < 8 && 0 <= r < 8 && #[trigger] pos.king_at(p.color, f, r) ==> f == a.0 && r
                == a.1,
    ensures
        pos.valid_move(a, b) <==> (pos.side_at(b) != pos.side_at(a)
            && !pos.apply_move(a, b).enemy_can_reach(pos.occupant(a).unwrap().color, b)),
{
    let color = pos.occupant(a).unwrap().color;
    let next = pos.apply_move(a, b);
    assert forall|f: int, r: int|
        0 <= f < 8 && 0 <= r < 8 && #[trigger] next.king_at(color, f, r) implies f == b.0 && r
        == b.1 by {
        if !(f == b.0 && r == b.1) {
            assert(pos.king_at(color, f, r));
        }
    }
    lemma_only_king_is_king_square(next, color, b);
}

// Legal moves

/// For the side that owns the piece, a move is legal exactly when it is
/// valid, unless it leaves the king of that side in check.
pub proof fn lemma_legal_iff_valid_when_king_safe(
    pos: Position,
    a: Square,
    b: Square,
    mover: Color,
)
    requires
        pos.side_at(a) == Some(mover),
        !(pos.apply_move(a, b).has_king(mover) && pos.apply_move(a, b).in_check(mover)),
    ensures
        pos.legal(a, b, mover) == pos.valid_move(a, b),
{
}

/// For a side without a king, a move of one of its pieces is legal exactly
/// when it is valid.
pub proof fn lemma_legal_iff_valid_without_king(
    pos: Position,
    a: Square,
    b: Square,
    mover: Color,
)
    requires
        pos.side_at(a) == Some(mover),
        !pos.has_king(mover),
    ensures
        pos.legal(a, b, mover) == pos.valid_move(a, b),
{
    let next = pos.apply_move(a, b);
    if pos.valid_move(a, b) && next.has_king(mover) {
        let (f, r) = choose|f: int, r: int|
            0 <= f < 8 && 0 <= r < 8 && #[trigger] next.king_at(mover, f, r);
        if f == b.0 && r == b.1 {
            assert(pos.king_at(mover, a.0 as int, a.1 as int));
        } else {
            assert(pos.king_at(mover, f, r));
        }
    }
}

/// A move of a king is legal for its side exactly when it is valid.
pub proof fn lemma_king_legal_iff_valid(pos: Position, a: Square, b: Square, mover: Color)
    requires
        pos.occupant(a) == Some(Piece { color: mover, typ: PieceType::King }),
    ensures
        pos.legal(a, b, mover) == pos.valid_move(a, b),
{
}

/// For its own side a rook, bishop or queen moves legally exactly when the
/// two squares are distinct squares of the board on a line of its kind, the
/// destination holds no piece of its side, and every square strictly between
/// the two is empty; unless the move leaves the king of that side in check.
pub proof fn lemma_slide_legal_iff_clear(pos: Position, a: Square, b: Square, mover: Color)
    requires
        pos.occupant(a) matches Some(p) && slides(p.typ) && p.color == mover,
        !(pos.apply_move(a, b).has_king(mover) && pos.apply_move(a, b).in_check(mover)),
    ensures
        pos.legal(a, b, mover) <==> (on_board(a) && on_board(b) && a != b && pos.side_at(b)
            != Some(mover) && lines_up(pos.occupant(a).unwrap().typ, a, b)
            && pos.clear_between(a, b)),
{
}

/// For its own side a knight moves legally exactly when both squares are on
/// the board, the destination holds no piece of its side, and the jump is
/// one file by two ranks or two files by one rank; unless the move leaves
/// the king of that side in check.
pub proof fn lemma_knight_legal_iff_jump(pos: Position, a: Square, b: Square, mover: Color)
    requires
        pos.occupant(a) == Some(Piece { color: mover, typ: PieceType::Knight }),
        !(pos.apply_move(a, b).has_king(mover) && pos.apply_move(a, b).in_check(mover)),
    ensures
        pos.legal(a, b, mover) <==> (on_board(a) && on_board(b) && pos.side_at(b) != Some(mover)
            && knight_rule(a, b)),
{
}

/// No side may move a piece of the other side, or from an empty square.
pub proof fn lemma_only_own_pieces_move(pos: Position, a: Square, b: Square, mover: Color)
    requires
        pos.side_at(a) != Some(mover),
    ensures
        !pos.legal(a, b, mover),
{
}

// The start of a game

/// After a pawn of side `color` has left its starting square for a square of
/// the four middle ranks of its file, at the start of a game, the king of
/// that side is not in check.
proof fn lemma_opening_advance_is_safe(color: Color, a: Square, b: Square)
    requires
        a.0 < 8,
        a.1 == start_rank(color),
        b.0 == a.0,
        2 <= b.1 <= 5,
    ensures
        Position::initial().apply_move(a, b).has_king(color),
        !Position::initial().apply_move(a, b).in_check(color),
{
    let next = Position::initial().apply_move(a, b);
    let king: Square = match color {
        Color::White => (4, 0),
        Color::Black => (4, 7),
    };
    lemma_only_king_is_king_square(next, color, king);
    assert forall|s: Square| !#[trigger] next.enemy_can_move(color, s, king) by {
        lemma_apply_move_squares(Position::initial(), a, b, s);
    }
}

/// At the start of a game every pawn may advance one rank or two: the white
/// pawns from rank 1 to ranks 2 and 3, the black pawns from rank 6 to ranks
/// 5 and 4.
pub proof fn lemma_initial_pawn_advances(file: usize)
    requires
        file < 8,
    ensures
        Position::initial().valid_move((file, 1), (file, 2)),
        Position::initial().valid_move((file, 1), (file, 3)),
        Position::initial().valid_move((file, 6), (file, 5)),
        Position::initial().valid_move((file, 6), (file, 4)),
        Position::initial().legal((file, 1), (file, 2), Color::White),
        Position::initial().legal((file, 1), (file, 3), Color::White),
        Position::initial().legal((file, 6), (file, 5), Color::Black),
        Position::initial().legal((file, 6), (file, 4), Color::Black),
{
    lemma_opening_advance_is_safe(Color::White, (file, 1), (file, 2));
    lemma_opening_advance_is_safe(Color::White, (file, 1), (file, 3));
    lemma_opening_advance_is_safe(Color::Black, (file, 6), (file, 5));
    lemma_opening_advance_is_safe(Color::Black, (file, 6), (file, 4));
}

} // verus!
