//! The board: two collections of pieces and the side to move, with
//! single-move validation, the obstruction check, relocation of a piece and
//! the enumeration of a piece's legal destinations.

use vstd::prelude::*;
use crate::move_validators::{bishop_shape, is_valid_move, shape_allowed};
use crate::piece::{
    lemma_opponent_is_involution, stepped, Kind, Piece, Player, Position, MAX_COLUMN, MAX_ROW,
};

verus! {

/// Why a move is refused.
#[derive(Clone, Copy, Debug, PartialEq, Eq, Structural)]
pub enum MoveErr {
    /// Origin and destination are the same square.
    SamePosition,
    /// A piece of the side to move stands on the destination.
    FriendlyFire,
    /// The piece's kind does not allow a move of this shape.
    InvalidMove,
    /// Another piece stands on the way to the destination.
    PieceBlocking,
}

/// The pieces of both sides and the side to move.
#[derive(Debug)]
pub struct GameManager {
    pub whites: Vec<Piece>,
    pub blacks: Vec<Piece>,
    pub turn: Player,
}

// ---------------------------------------------------------------------
// Model
// ---------------------------------------------------------------------

/// Some piece of `pieces` stands on `square`.
pub open spec fn occupies(pieces: Seq<Piece>, square: Position) -> bool {
    exists|i: int| 0 <= i < pieces.len() && (#[trigger] pieces[i]).position() == square
}

/// Something standing on `square` would obstruct the piece's move to `end`:
/// the piece could move to `square` as far as shape goes, and `square` lies
/// on the ray from the piece to `end`, strictly nearer than `end`.
///
/// The piece's own square is never in its way, so the moving piece need not
/// be told apart from the others.
pub open spec fn in_the_way(piece: Piece, square: Position, end: Position, turn: Player) -> bool {
    &&& shape_allowed(piece, square, turn)
    &&& piece.position().direction_to(square) matches Some(near)
    &&& piece.position().direction_to(end) matches Some(far)
    &&& near.nearer_than(far)
}

/// Some piece of `pieces` obstructs the piece's move to `end`.
pub open spec fn any_in_the_way(
    pieces: Seq<Piece>,
    piece: Piece,
    end: Position,
    turn: Player,
) -> bool {
    exists|i: int|
        0 <= i < pieces.len() && in_the_way(piece, (#[trigger] pieces[i]).position(), end, turn)
}

/// The place of a square in the order in which the board is scanned: column
/// by column, and within a column row by row.
pub open spec fn scan_order(square: Position) -> int {
    square.column * MAX_ROW + square.row
}

/// `i` is the least index at which `piece` occurs in `pieces`.
pub open spec fn is_first_index_of(pieces: Seq<Piece>, piece: Piece, i: int) -> bool {
    &&& 0 <= i < pieces.len()
    &&& pieces[i] == piece
    &&& forall|j: int| 0 <= j < i ==> pieces[j] != piece
}

/// Every piece of `pieces` stands on the board and no two of them share a square.
pub open spec fn well_placed(pieces: Seq<Piece>) -> bool {
    &&& forall|i: int| 0 <= i < pieces.len() ==> (#[trigger] pieces[i]).position().on_board()
    &&& forall|i: int, j: int|
        0 <= i < j < pieces.len() ==> (#[trigger] pieces[i]).position() != (
        #[trigger] pieces[j]).position()
}

/// The kind that starts on the given column of a side's back row.
pub open spec fn back_row_kind(column: int) -> Kind {
    if column == 0 || column == 7 {
        Kind::Rook
    } else if column == 1 || column == 6 {
        Kind::Knight
    } else if column == 2 || column == 5 {
        Kind::Bishop
    } else if column == 3 {
        Kind::Queen
    } else {
        Kind::King
    }
}

/// White's sixteen pieces at the start of a game: the back row on row 0,
/// column by column, then the pawns on row 1, column by column.
pub open spec fn initial_whites() -> Seq<Piece> {
    Seq::new(
        16,
        |i: int|
            if i < 8 {
                Piece { kind: back_row_kind(i), row: 0, column: i as u8 }
            } else {
                Piece { kind: Kind::Pawn, row: 1, column: (i - 8) as u8 }
            },
    )
}

/// The same pieces, in the same order, reflected to the far side of the board.
pub open spec fn mirrored(pieces: Seq<Piece>) -> Seq<Piece> {
    Seq::new(
        pieces.len(),
        |i: int|
            Piece {
                kind: pieces[i].kind,
                row: (MAX_ROW - 1 - pieces[i].row) as u8,
                column: pieces[i].column,
            },
    )
}

impl GameManager {
    /// The pieces of the side to move.
    pub open spec fn movers(self) -> Seq<Piece> {
        match self.turn {
            Player::White => self.whites@,
            Player::Black => self.blacks@,
        }
    }

    /// The pieces of the side that is not to move.
    pub open spec fn opponents(self) -> Seq<Piece> {
        match self.turn {
            Player::White => self.blacks@,
            Player::Black => self.whites@,
        }
    }

    /// A piece of the side to move stands on `end`.
    pub open spec fn friendly_fire(self, end: Position) -> bool {
        occupies(self.movers(), end)
    }

    /// A piece of either side obstructs the piece's move to `end`.
    pub open spec fn piece_blocking(self, piece: Piece, end: Position) -> bool {
        any_in_the_way(self.whites@, piece, end, self.turn) || any_in_the_way(
            self.blacks@,
            piece,
            end,
            self.turn,
        )
    }

    /// The verdict on moving the piece to `end`: the first reason, in a
    /// fixed order, for which the move is refused, or `None` for a legal move.
    pub open spec fn verdict(self, piece: Piece, end: Position) -> Option<MoveErr> {
        if piece.position() == end {
            Some(MoveErr::SamePosition)
        } else if self.friendly_fire(end) {
            Some(MoveErr::FriendlyFire)
        } else if !shape_allowed(piece, end, self.turn) {
            Some(MoveErr::InvalidMove)
        } else if self.piece_blocking(piece, end) {
            Some(MoveErr::PieceBlocking)
        } else {
            None
        }
    }

    /// What moving the piece to `pos` comes to: the verdict's refusal if there
    /// is one; else success if the piece is one of the side to move; else
    /// `InvalidMove`, there being nothing to relocate.
    pub open spec fn move_outcome(self, piece: Piece, pos: Position) -> Result<(), MoveErr> {
        match self.verdict(piece, pos) {
            Some(refusal) => Err(refusal),
            None => if self.movers().contains(piece) {
                Ok(())
            } else {
                Err(MoveErr::InvalidMove)
            },
        }
    }

    /// The piece may move to `square` and the square is offered as a
    /// destination: a pawn's diagonal step is offered only onto a square
    /// where a piece of the other side stands.
    pub open spec fn suggests(self, piece: Piece, square: Position) -> bool {
        &&& self.verdict(piece, square) is None
        &&& piece.kind == Kind::Pawn && bishop_shape(piece.position(), square) ==> occupies(
            self.opponents(),
            square,
        )
    }

    /// The board with the other side to move and every piece left where it is.
    pub open spec fn with_turn_swapped(self) -> GameManager {
        GameManager { whites: self.whites, blacks: self.blacks, turn: self.turn.opponent() }
    }

    /// Every piece stands on the board and no two pieces share a square.
    ///
    /// Nothing in this module requires this of a board; it is what
    /// [`new`](Self::new) sets up and what a move that captures nothing keeps.
    pub open spec fn well_formed(self) -> bool {
        well_placed(self.whites@ + self.blacks@)
    }

    /// `positions` lists, in scan order and once each, the squares of the
    /// board that come before `bound` in scan order and are suggested.
    spec fn suggested_before(self, piece: Piece, positions: Seq<Position>, bound: int) -> bool {
        &&& forall|square: Position|
            #![trigger positions.contains(square)]
            positions.contains(square) <==> square.on_board() && self.suggests(piece, square)
                && scan_order(square) < bound
        &&& forall|i: int, j: int|
            0 <= i < j < positions.len() ==> scan_order(positions[i]) < scan_order(positions[j])
    }

    /// The board at the start of a game, with White to move.
    pub fn new() -> (r: Self)
        ensures
            r.turn == Player::White,
            r.whites@ == initial_whites(),
            r.blacks@ == mirrored(initial_whites()),
            r.well_formed(),
    {
        let whites = create_whites();
        let blacks = create_blacks_from_whites(&whites);
        let r = Self { whites, blacks, turn: Player::White };
        proof {
            lemma_initial_board_is_well_formed();
        }
        r
    }

    /// Hands the move to the other side. No piece is touched.
    pub fn swap_turn(&mut self)
        ensures
            *final(self) == old(self).with_turn_swapped(),
            final(self).well_formed() == old(self).well_formed(),
    {
        self.turn = match self.turn {
            Player::Black => Player::White,
            Player::White => Player::Black,
        };
    }

    /// Validates the move of the piece to `end`; `None` means the move is legal.
    ///
    /// The checks run in a fixed order: same square, friendly fire, shape,
    /// obstruction.
    pub fn is_valid_move(&self, piece: &Piece, end: &Position) -> (r: Option<MoveErr>)
        ensures
            r == self.verdict(*piece, *end),
            r == Some(MoveErr::SamePosition) <==> piece.position() == *end,
    {
        if piece.row == end.row && piece.column == end.column {
            return Some(MoveErr::SamePosition);
        } else if is_friendly_fire(self, end) {
            return Some(MoveErr::FriendlyFire);
        }
        if !is_valid_move(piece, end, &self.turn) {
            return Some(MoveErr::InvalidMove);
        } else if self.is_piece_blocking(piece, end) {
            return Some(MoveErr::PieceBlocking);
        }
        None
    }
    /// Whether a piece of either side obstructs the piece's move to `end`.
    ///
    /// A move that no classification describes has no way to be obstructed.
    pub fn is_piece_blocking(&self, piece: &Piece, end: &Position) -> (r: bool)
        ensures
            r == self.piece_blocking(*piece, *end),
            piece.kind == Kind::Knight ==> !r,
    {
        any_piece_blocking(&self.whites, piece, end, &self.turn) || any_piece_blocking(
            &self.blacks,
            piece,
            end,
            &self.turn,
        )
    }

    /// Moves the piece to `pos` if the move is legal.
    ///
    /// On success exactly one piece changes: the first piece of the side to
    /// move that equals `piece` now stands on `pos`. On any refusal the board
    /// is left as it was. The turn is never changed, and nothing is captured.
    pub fn move_piece(&mut self, piece: &Piece, pos: Position) -> (r: Result<(), MoveErr>)
        ensures
            r == old(self).move_outcome(*piece, pos),
            r is Err ==> *final(self) == *old(self),
            r is Ok ==> {
                &&& final(self).turn == old(self).turn
                &&& final(self).opponents() == old(self).opponents()
                &&& exists|i: int|
                    {
                        &&& is_first_index_of(old(self).movers(), *piece, i)
                        &&& final(self).movers() == old(self).movers().update(
                            i,
                            piece.moved_to(pos),
                        )
                    }
            },
            r is Ok && old(self).well_formed() && pos.on_board() && !occupies(
                old(self).opponents(),
                pos,
            ) ==> final(self).well_formed(),
    {
        if let Some(err) = self.is_valid_move(piece, &pos) {
            return Err(err);
        }
        let relocated = match self.turn {
            Player::Black => relocate(&mut self.blacks, piece, &pos),
            Player::White => relocate(&mut self.whites, piece, &pos),
        };
        if relocated {
            proof {
                if old(self).well_formed() && pos.on_board() && !occupies(
                    old(self).opponents(),
                    pos,
                ) {
                    let before = old(self).whites@ + old(self).blacks@;
                    let i = choose|i: int|
                        {
                            &&& is_first_index_of(old(self).movers(), *piece, i)
                            &&& self.movers() == old(self).movers().update(i, piece.moved_to(pos))
                        };
                    let at = if self.turn == Player::White {
                        i
                    } else {
                        old(self).whites@.len() + i
                    };
                    assert forall|j: int| 0 <= j < before.len() implies (
                    #[trigger] before[j]).position() != pos by {
                        if j < old(self).whites@.len() {
                            assert(old(self).whites@[j].position() != pos);
                        } else {
                            assert(old(self).blacks@[j - old(self).whites@.len()].position() != pos);
                        }
                    }
                    lemma_move_keeps_well_placed(before, at, pos);
                    assert(self.whites@ + self.blacks@ == before.update(
                        at,
                        before[at].moved_to(pos),
                    ));
                }
            }
            Ok(())
        } else {
            Err(MoveErr::InvalidMove)
        }
    }

    /// The legal destinations of the piece, in scan order: column by column,
    /// and within a column row by row.
    ///
    /// A square is listed exactly if it lies on the board and
    /// [`suggests`](Self::suggests) holds of it; no square is listed twice.
    pub fn move_suggestion(&self, piece: &Piece) -> (positions: Vec<Position>)
        ensures
            forall|square: Position|
                #![trigger positions@.contains(square)]
                positions@.contains(square) <==> square.on_board() && self.suggests(
                    *piece,
                    square,
                ),
            forall|i: int, j: int|
                0 <= i < j < positions.len() ==> scan_order(positions[i]) < scan_order(
                    positions[j],
                ),
            positions.len() <= MAX_ROW * MAX_COLUMN,
    {
        let mut positions: Vec<Position> = Vec::new();
        let mut ci: u8 = 0;
        while ci < MAX_COLUMN
            invariant
                ci <= MAX_COLUMN,
                positions.len() <= ci * MAX_ROW,
                self.suggested_before(*piece, positions@, ci * MAX_ROW),
            decreases MAX_COLUMN - ci,
        {
            let mut ri: u8 = 0;
            while ri < MAX_ROW
                invariant
                    ci < MAX_COLUMN,
                    ri <= MAX_ROW,
                    positions.len() <= ci * MAX_ROW + ri,
                    self.suggested_before(*piece, positions@, ci * MAX_ROW + ri),
                decreases MAX_ROW - ri,
            {
                let pos = Position::new(ri, ci);
                let ghost before = positions@;
                let ghost bound = ci * MAX_ROW + ri;
                let mut offered = false;
                if self.is_valid_move(piece, &pos).is_none() {
                    offered = match piece.kind {
                        Kind::Pawn => pos.column == piece.column || is_occupied(
                            self.opponent_pieces(),
                            &pos,
                        ),
                        _ => true,
                    };
                }
                assert(offered == self.suggests(*piece, pos));
                if offered {
                    positions.push(pos);
                }
                proof {
                    assert(scan_order(pos) == bound);
                    assert forall|i: int| 0 <= i < before.len() implies scan_order(
                        #[trigger] before[i],
                    ) < bound by {
                        assert(before.contains(before[i]));
                    }
                    assert forall|square: Position|
                        positions@.contains(square) <==> square.on_board() && self.suggests(
                            *piece,
                            square,
                        ) && scan_order(square) < bound + 1 by {
                        assert(before.contains(square) <==> square.on_board() && self.suggests(
                            *piece,
                            square,
                        ) && scan_order(square) < bound);
                        if square.on_board() && scan_order(square) == bound {
                            assert(square.row == pos.row && square.column == pos.column);
                        }
                        if offered {
                            assert(positions@ == before.push(pos));
                            assert(positions@[before.len() as int] == pos);
                            if before.contains(square) {
                                let k = before.index_of(square);
                                assert(positions@[k] == square);
                            }
                            if positions@.contains(square) {
                                let k = positions@.index_of(square);
                                if k < before.len() {
                                    assert(before[k] == square);
                                }
                            }
                        }
                    }
                }
                ri += 1;
            }
            ci += 1;
        }
        positions
    }

    /// The pieces of the side that is not to move.
    fn opponent_pieces(&self) -> (pieces: &Vec<Piece>)
        ensures
            pieces@ == self.opponents(),
    {
        match self.turn {
            Player::Black => &self.whites,
            Player::White => &self.blacks,
        }
    }
}

/// Whether a piece of the side to move stands on `end`.
pub fn is_friendly_fire(gm: &GameManager, end: &Position) -> (r: bool)
    ensures
        r == gm.friendly_fire(*end),
{
    let pieces = match gm.turn {
        Player::Black => &gm.blacks,
        Player::White => &gm.whites,
    };
    is_occupied(pieces, end)
}

/// Whether some piece of `pieces` stands on `square`.
fn is_occupied(pieces: &Vec<Piece>, square: &Position) -> (r: bool)
    ensures
        r == occupies(pieces@, *square),
{
    let mut i: usize = 0;
    while i < pieces.len()
        invariant
            i <= pieces.len(),
            forall|j: int| 0 <= j < i ==> (#[trigger] pieces[j]).position() != *square,
        decreases pieces.len() - i,
    {
        if pieces[i].row == square.row && pieces[i].column == square.column {
            return true;
        }
        i += 1;
    }
    false
}

/// Whether some piece of `pieces` obstructs the piece's move to `end`.
fn any_piece_blocking(
    pieces: &Vec<Piece>,
    piece: &Piece,
    end: &Position,
    turn: &Player,
) -> (r: bool)
    ensures
        r == any_in_the_way(pieces@, *piece, *end, *turn),
        piece.kind == Kind::Knight ==> !r,
{
    let start = Position::from_piece(piece);
    let direction = match start.get_direction(end) {
        Some(direction) => direction,
        None => {
            return false;
        },
    };
    let mut i: usize = 0;
    while i < pieces.len()
        invariant
            i <= pieces.len(),
            start == piece.position(),
            start.direction_to(*end) == Some(direction),
            forall|j: int|
                0 <= j < i ==> !in_the_way(*piece, (#[trigger] pieces[j]).position(), *end, *turn),
        decreases pieces.len() - i,
    {
        let pos = Position::from_piece(&pieces[i]);
        if is_valid_move(piece, &pos, turn) {
            if let Some(dir) = start.get_direction(&pos) {
                if dir.is_nearer_than(&direction) {
                    return true;
                }
            }
        }
        i += 1;
    }
    false
}

/// Puts the first piece of `pieces` that equals `piece` on `pos` and says
/// whether there was one.
fn relocate(pieces: &mut Vec<Piece>, piece: &Piece, pos: &Position) -> (found: bool)
    ensures
        found == old(pieces)@.contains(*piece),
        !found ==> *final(pieces) == *old(pieces),
        found ==> exists|i: int|
            {
                &&& is_first_index_of(old(pieces)@, *piece, i)
                &&& final(pieces)@ == old(pieces)@.update(i, piece.moved_to(*pos))
            },
{
    let mut i: usize = 0;
    while i < pieces.len()
        invariant
            i <= pieces.len(),
            *pieces == *old(pieces),
            forall|j: int| 0 <= j < i ==> pieces[j] != *piece,
        decreases pieces.len() - i,
    {
        if pieces[i] == *piece {
            pieces[i].move_to(pos.row, pos.column);
            assert(is_first_index_of(old(pieces)@, *piece, i as int));
            return true;
        }
        i += 1;
    }
    false
}

/// Black's pieces at the start of a game, given White's: each of White's
/// pieces reflected to the far side of the board.
pub fn create_blacks_from_whites(whites: &Vec<Piece>) -> (blacks: Vec<Piece>)
    requires
        forall|i: int| 0 <= i < whites.len() ==> (#[trigger] whites[i]).row < MAX_ROW,
    ensures
        blacks@ == mirrored(whites@),
{
    let mut blacks: Vec<Piece> = Vec::with_capacity(16);
    let mut i: usize = 0;
    while i < whites.len()
        invariant
            i <= whites.len(),
            blacks.len() == i,
            forall|j: int| 0 <= j < whites.len() ==> (#[trigger] whites[j]).row < MAX_ROW,
            forall|j: int| 0 <= j < i ==> blacks[j] == mirrored(whites@)[j],
        decreases whites.len() - i,
    {
        let white = &whites[i];
        blacks.push(Piece::new(white.kind, 7 - white.row, white.column));
        i += 1;
    }
    blacks
}

/// White's pieces at the start of a game.
pub fn create_whites() -> (whites: Vec<Piece>)
    ensures
        whites@ == initial_whites(),
{
    let mut whites: Vec<Piece> = Vec::with_capacity(16);
    whites.push(Piece::new(Kind::Rook, 0, 0));
    whites.push(Piece::new(Kind::Knight, 0, 1));
    whites.push(Piece::new(Kind::Bishop, 0, 2));
    whites.push(Piece::new(Kind::Queen, 0, 3));
    whites.push(Piece::new(Kind::King, 0, 4));
    whites.push(Piece::new(Kind::Bishop, 0, 5));
    whites.push(Piece::new(Kind::Knight, 0, 6));
    whites.push(Piece::new(Kind::Rook, 0, 7));
    let mut i: u8 = 0;
    while i < 8
        invariant
            i <= 8,
            whites.len() == 8 + i,
            forall|j: int| 0 <= j < 8 + i ==> whites[j] == initial_whites()[j],
        decreases 8 - i,
    {
        whites.push(Piece::new(Kind::Pawn, 1, i));
        i += 1;
    }
    whites
}

// ---------------------------------------------------------------------
// Lemmas
// ---------------------------------------------------------------------

/// Handing the move over twice gives back the board one started from.
pub proof fn lemma_swapping_turn_twice_restores(gm: GameManager)
    ensures
        gm.with_turn_swapped().with_turn_swapped() == gm,
        gm.with_turn_swapped().turn != gm.turn,
{
    lemma_opponent_is_involution(gm.turn);
}

/// Nothing that stands on the moving piece's own square obstructs it, the
/// piece itself included; and nothing obstructs a knight.
pub proof fn lemma_never_in_the_way(piece: Piece, square: Position, end: Position, turn: Player)
    ensures
        !in_the_way(piece, piece.position(), end, turn),
        piece.kind == Kind::Knight ==> !in_the_way(piece, square, end, turn),
{
}

/// A square that is offered as a destination can be moved to: for a piece of
/// the side to move, the move succeeds.
pub proof fn lemma_suggested_move_succeeds(gm: GameManager, piece: Piece, square: Position)
    requires
        gm.suggests(piece, square),
        gm.movers().contains(piece),
    ensures
        gm.move_outcome(piece, square) is Ok,
        square != piece.position(),
        !gm.friendly_fire(square),
{
}

/// For a move whose shape is allowed, the squares on which something would
/// obstruct it are the squares strictly between origin and destination.
pub proof fn lemma_in_the_way_is_between(piece: Piece, square: Position, end: Position, turn: Player)
    requires
        shape_allowed(piece, end, turn),
    ensures
        in_the_way(piece, square, end, turn) <==> square.strictly_between(piece.position(), end),
{
    let start = piece.position();
    if in_the_way(piece, square, end, turn) {
        let k = start.steps_to(square);
        assert(stepped(start.row, end.row, k) == square.row);
        assert(stepped(start.column, end.column, k) == square.column);
    }
    if square.strictly_between(start, end) {
        let k = choose|k: int|
            0 < k < start.steps_to(end) && #[trigger] stepped(start.row, end.row, k) == square.row
                && stepped(start.column, end.column, k) == square.column;
        assert(start.steps_to(square) == k);
    }
}

/// For a move whose shape is allowed, to be obstructed is to have a piece
/// standing strictly between origin and destination.
pub proof fn lemma_blocking_is_standing_between(gm: GameManager, piece: Piece, end: Position)
    requires
        shape_allowed(piece, end, gm.turn),
    ensures
        gm.piece_blocking(piece, end) <==> exists|square: Position|
            (occupies(gm.whites@, square) || occupies(gm.blacks@, square))
                && #[trigger] square.strictly_between(piece.position(), end),
{
    let start = piece.position();
    assert forall|square: Position|
        in_the_way(piece, square, end, gm.turn) <==> #[trigger] square.strictly_between(
            start,
            end,
        ) by {
        lemma_in_the_way_is_between(piece, square, end, gm.turn);
    }
    if gm.piece_blocking(piece, end) {
        let pieces = if any_in_the_way(gm.whites@, piece, end, gm.turn) {
            gm.whites@
        } else {
            gm.blacks@
        };
        let i = choose|i: int|
            0 <= i < pieces.len() && in_the_way(
                piece,
                (#[trigger] pieces[i]).position(),
                end,
                gm.turn,
            );
        let square = pieces[i].position();
        assert(occupies(pieces, square));
        assert(square.strictly_between(start, end));
    }
    if exists|square: Position|
        (occupies(gm.whites@, square) || occupies(gm.blacks@, square))
            && #[trigger] square.strictly_between(start, end) {
        let square = choose|square: Position|
            (occupies(gm.whites@, square) || occupies(gm.blacks@, square))
                && #[trigger] square.strictly_between(start, end);
        assert(in_the_way(piece, square, end, gm.turn));
        let pieces = if occupies(gm.whites@, square) {
            gm.whites@
        } else {
            gm.blacks@
        };
        let i = choose|i: int| 0 <= i < pieces.len() && (#[trigger] pieces[i]).position() == square;
        assert(in_the_way(piece, pieces[i].position(), end, gm.turn));
        assert(any_in_the_way(pieces, piece, end, gm.turn));
    }
}

/// Moving one piece onto a free square of the board keeps every piece on
/// the board and no two on one square.
pub proof fn lemma_move_keeps_well_placed(pieces: Seq<Piece>, i: int, target: Position)
    requires
        well_placed(pieces),
        0 <= i < pieces.len(),
        target.on_board(),
        !occupies(pieces, target),
    ensures
        well_placed(pieces.update(i, pieces[i].moved_to(target))),
{
    let after = pieces.update(i, pieces[i].moved_to(target));
    assert forall|a: int, b: int| 0 <= a < b < after.len() implies (#[trigger] after[a]).position()
        != (#[trigger] after[b]).position() by {
        assert(pieces[a].position() != pieces[b].position());
    }
}

/// The starting position puts every piece on the board, no two on one square.
pub proof fn lemma_initial_board_is_well_formed()
    ensures
        well_placed(initial_whites() + mirrored(initial_whites())),
{
    let all = initial_whites() + mirrored(initial_whites());
    assert forall|i: int| 0 <= i < all.len() implies {
        &&& (#[trigger] all[i]).column == i % 8
        &&& all[i].row == (if i < 8 {
            0int
        } else if i < 16 {
            1int
        } else if i < 24 {
            7int
        } else {
            6int
        })
    } by {
        if i >= 16 {
            assert(all[i] == mirrored(initial_whites())[i - 16]);
        } else {
            assert(all[i] == initial_whites()[i]);
        }
    }
}

} // verus!
