//! Which shapes of move each kind of piece may make, regardless of what else
//! stands on the board.

use vstd::prelude::*;
use crate::piece::{Direction, Kind, Piece, Player, Position, MAX_ROW};

verus! {

/// The row on which a side's pawns start.
pub open spec fn pawn_start_row(turn: Player) -> u8 {
    match turn {
        Player::White => 1,
        Player::Black => (MAX_ROW - 2) as u8,
    }
}

/// How many rows `end` lies ahead of `start` for the side to move; negative
/// when it lies behind.
pub open spec fn rows_ahead(start: Position, end: Position, turn: Player) -> int {
    match turn {
        Player::White => end.row - start.row,
        Player::Black => start.row - end.row,
    }
}

/// A king steps one square along any ray.
pub open spec fn king_shape(start: Position, end: Position) -> bool {
    start.direction_to(end) matches Some(d) && d.is_ray() && d.distance() == Some(1u8)
}

/// A queen moves any distance along any ray.
pub open spec fn queen_shape(start: Position, end: Position) -> bool {
    start.direction_to(end) matches Some(d) && d.is_ray()
}

/// A rook moves any distance along a row or a column.
pub open spec fn rook_shape(start: Position, end: Position) -> bool {
    start.direction_to(end) matches Some(d) && d.is_straight()
}

/// A bishop moves any distance along a diagonal.
pub open spec fn bishop_shape(start: Position, end: Position) -> bool {
    start.direction_to(end) matches Some(d) && d.is_diagonal()
}

/// A knight makes a knight's jump and nothing else.
pub open spec fn knight_shape(start: Position, end: Position) -> bool {
    start.direction_to(end) matches Some(d) && d is Knight
}

/// A pawn advances one row straight ahead, two from its starting row, or one
/// step diagonally ahead. White advances up the board and Black down.
pub open spec fn pawn_shape(start: Position, end: Position, turn: Player) -> bool {
    let at_start = start.row == pawn_start_row(turn);
    match (turn, start.direction_to(end)) {
        (Player::White, Some(Direction::Up(n))) => n == 1 || (at_start && n == 2),
        (Player::White, Some(Direction::UpLeft(n))) => n == 1,
        (Player::White, Some(Direction::UpRight(n))) => n == 1,
        (Player::Black, Some(Direction::Down(n))) => n == 1 || (at_start && n == 2),
        (Player::Black, Some(Direction::DownLeft(n))) => n == 1,
        (Player::Black, Some(Direction::DownRight(n))) => n == 1,
        _ => false,
    }
}

/// Whether the move from the piece's square to `end` has a shape that the
/// piece's kind allows.
pub open spec fn shape_allowed(piece: Piece, end: Position, turn: Player) -> bool {
    let start = piece.position();
    match piece.kind {
        Kind::King => king_shape(start, end),
        Kind::Queen => queen_shape(start, end),
        Kind::Knight => knight_shape(start, end),
        Kind::Bishop => bishop_shape(start, end),
        Kind::Rook => rook_shape(start, end),
        Kind::Pawn => pawn_shape(start, end, turn),
    }
}

/// No kind of piece may stay where it is.
pub proof fn lemma_staying_put_is_never_allowed(piece: Piece, turn: Player)
    ensures
        !shape_allowed(piece, piece.position(), turn),
{
}

/// A king's step and a knight's jump never coincide, and whatever a king, a
/// rook or a bishop may do, a queen may do as well.
pub proof fn lemma_shapes_compared(start: Position, end: Position)
    ensures
        !(king_shape(start, end) && knight_shape(start, end)),
        !(queen_shape(start, end) && knight_shape(start, end)),
        !(rook_shape(start, end) && bishop_shape(start, end)),
        queen_shape(start, end) <==> rook_shape(start, end) || bishop_shape(start, end),
        king_shape(start, end) ==> queen_shape(start, end),
{
}

/// Whether the piece stands on the row where the side's pawns start.
pub fn is_pawn_in_start_pos(piece: &Piece, turn: &Player) -> (r: bool)
    ensures
        r == (piece.row == pawn_start_row(*turn)),
{
    match turn {
        Player::Black => piece.row == MAX_ROW - 2,
        Player::White => piece.row == 1,
    }
}

/// Whether a pawn on the piece's square may move to `end`.
///
/// A diagonal step counts here whether or not anything stands on `end`.
pub fn is_valid_pawn_move(piece: &Piece, end: &Position, turn: &Player) -> (r: bool)
    ensures
        r == pawn_shape(piece.position(), *end, *turn),
        r <==> {
            let ahead = rows_ahead(piece.position(), *end, *turn);
            let aside = piece.position().column_gap(*end);
            ||| ahead == 1 && aside <= 1
            ||| ahead == 2 && aside == 0 && piece.row == pawn_start_row(*turn)
        },
{
    let start = Position::from_piece(piece);
    let direction = start.get_direction(end);
    let in_start_pos = is_pawn_in_start_pos(piece, turn);
    match direction {
        None => false,
        Some(direction) => match (turn, direction) {
            (Player::White, Direction::Up(up)) => (in_start_pos && up <= 2) || up == 1,
            (Player::White, Direction::UpLeft(dir)) => dir == 1,
            (Player::White, Direction::UpRight(dir)) => dir == 1,
            (Player::Black, Direction::Down(down)) => (in_start_pos && down <= 2) || down == 1,
            (Player::Black, Direction::DownLeft(dir)) => dir == 1,
            (Player::Black, Direction::DownRight(dir)) => dir == 1,
            _ => false,
        },
    }
}

/// Whether a bishop on the piece's square may move to `end`.
pub fn is_valid_bishop_move(piece: &Piece, end: &Position) -> (r: bool)
    ensures
        r == bishop_shape(piece.position(), *end),
        r <==> piece.position() != *end && piece.position().row_gap(*end)
            == piece.position().column_gap(*end),
{
    let start = Position::from_piece(piece);
    let direction = start.get_direction(end);
    match direction {
        Some(Direction::DownLeft(_)) => true,
        Some(Direction::DownRight(_)) => true,
        Some(Direction::UpLeft(_)) => true,
        Some(Direction::UpRight(_)) => true,
        _ => false,
    }
}

/// Whether a rook on the piece's square may move to `end`.
pub fn is_valid_rook_move(piece: &Piece, end: &Position) -> (r: bool)
    ensures
        r == rook_shape(piece.position(), *end),
        r <==> (piece.row == end.row) != (piece.column == end.column),
{
    let start = Position::from_piece(piece);
    let direction = start.get_direction(end);
    match direction {
        Some(Direction::Up(_)) => true,
        Some(Direction::Down(_)) => true,
        Some(Direction::Left(_)) => true,
        Some(Direction::Right(_)) => true,
        _ => false,
    }
}

/// Whether a king on the piece's square may move to `end`.
pub fn is_valid_king_move(piece: &Piece, end: &Position) -> (r: bool)
    ensures
        r == king_shape(piece.position(), *end),
        r <==> piece.position() != *end && piece.position().row_gap(*end) <= 1
            && piece.position().column_gap(*end) <= 1,
{
    let start = Position::from_piece(piece);
    let direction = start.get_direction(end);
    match direction {
        Some(Direction::Down(d)) => d == 1,
        Some(Direction::DownLeft(d)) => d == 1,
        Some(Direction::DownRight(d)) => d == 1,
        Some(Direction::Left(d)) => d == 1,
        Some(Direction::Right(d)) => d == 1,
        Some(Direction::Up(d)) => d == 1,
        Some(Direction::UpLeft(d)) => d == 1,
        Some(Direction::UpRight(d)) => d == 1,
        _ => false,
    }
}

/// Whether a queen on the piece's square may move to `end`.
pub fn is_valid_queen_move(piece: &Piece, end: &Position) -> (r: bool)
    ensures
        r == queen_shape(piece.position(), *end),
        r <==> piece.position().on_common_ray(*end),
{
    let start = Position::from_piece(piece);
    let direction = start.get_direction(end);
    match direction {
        Some(Direction::Knight(_)) => false,
        Some(_) => true,
        None => false,
    }
}

/// Whether a knight on the piece's square may move to `end`.
pub fn is_valid_knight_move(piece: &Piece, end: &Position) -> (r: bool)
    ensures
        r == knight_shape(piece.position(), *end),
        r <==> piece.position().knight_offset(*end),
{
    let start = Position::from_piece(piece);
    let direction = start.get_direction(end);
    if let Some(Direction::Knight(_)) = direction {
        return true;
    }
    false
}

/// Whether the move from the piece's square to `end` has a shape that the
/// piece's kind allows, for the side `turn`. Occupancy and obstruction are
/// not looked at.
pub fn is_valid_move(piece: &Piece, end: &Position, turn: &Player) -> (r: bool)
    ensures
        r == shape_allowed(*piece, *end, *turn),
        piece.position() == *end ==> !r,
{
    match piece.kind {
        Kind::King => is_valid_king_move(piece, end),
        Kind::Queen => is_valid_queen_move(piece, end),
        Kind::Knight => is_valid_knight_move(piece, end),
        Kind::Bishop => is_valid_bishop_move(piece, end),
        Kind::Rook => is_valid_rook_move(piece, end),
        Kind::Pawn => is_valid_pawn_move(piece, end, turn),
    }
}

} // verus!
