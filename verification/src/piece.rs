//! Sides, piece kinds, squares, and the geometry between two squares.

use vstd::prelude::*;

verus! {

/// Number of rows on the board; valid rows are `0..MAX_ROW`.
pub const MAX_ROW: u8 = 8;

/// Number of columns on the board; valid columns are `0..MAX_COLUMN`.
pub const MAX_COLUMN: u8 = MAX_ROW;

/// One of the two sides. White moves towards higher rows, Black towards lower rows.
#[derive(Clone, Copy, Debug, PartialEq, Eq, Structural)]
pub enum Player {
    White,
    Black,
}

impl Player {
    /// The other side.
    pub open spec fn opponent(self) -> Player {
        match self {
            Player::White => Player::Black,
            Player::Black => Player::White,
        }
    }
}

/// Toggling the side twice gives back the side one started from.
pub proof fn lemma_opponent_is_involution(player: Player)
    ensures
        player.opponent().opponent() == player,
        player.opponent() != player,
{
}

/// The movement class of a piece.
#[derive(Clone, Copy, Debug, PartialEq, Eq, Structural)]
pub enum Kind {
    Queen,
    King,
    Pawn,
    Bishop,
    Knight,
    Rook,
}

/// The eight knight jumps, named by the long leg first and the short leg second.
#[derive(Clone, Copy, Debug, PartialEq, Eq, Structural)]
pub enum KnightDirection {
    UpLeft,
    UpRight,
    RightUp,
    RightDown,
    DownLeft,
    DownRight,
    LeftUp,
    LeftDown,
}

/// How a target square lies relative to an origin: along one of eight rays,
/// with the number of steps, or at a knight's jump.
#[derive(Clone, Copy, Debug, PartialEq, Eq, Structural)]
pub enum Direction {
    Up(u8),
    Left(u8),
    Down(u8),
    Right(u8),
    UpLeft(u8),
    UpRight(u8),
    DownLeft(u8),
    DownRight(u8),
    Knight(KnightDirection),
}

impl Direction {
    /// The number of steps along the ray; a knight's jump has none.
    pub open spec fn distance(self) -> Option<u8> {
        match self {
            Direction::Up(d) => Some(d),
            Direction::Left(d) => Some(d),
            Direction::Down(d) => Some(d),
            Direction::Right(d) => Some(d),
            Direction::UpLeft(d) => Some(d),
            Direction::UpRight(d) => Some(d),
            Direction::DownLeft(d) => Some(d),
            Direction::DownRight(d) => Some(d),
            Direction::Knight(_) => None,
        }
    }

    /// Along a row or a column.
    pub open spec fn is_straight(self) -> bool {
        self is Up || self is Down || self is Left || self is Right
    }

    /// Along a 45° diagonal.
    pub open spec fn is_diagonal(self) -> bool {
        self is UpLeft || self is UpRight || self is DownLeft || self is DownRight
    }

    /// Along any of the eight rays.
    pub open spec fn is_ray(self) -> bool {
        self.is_straight() || self.is_diagonal()
    }

    /// Both values lie along the same one of the eight rays.
    pub open spec fn same_ray(self, other: Direction) -> bool {
        ||| self is Up && other is Up
        ||| self is Left && other is Left
        ||| self is Down && other is Down
        ||| self is Right && other is Right
        ||| self is UpLeft && other is UpLeft
        ||| self is UpRight && other is UpRight
        ||| self is DownLeft && other is DownLeft
        ||| self is DownRight && other is DownRight
    }

    /// `self` lies on the same ray as `other` and strictly nearer to the origin.
    pub open spec fn nearer_than(self, other: Direction) -> bool {
        self.same_ray(other) && self.distance()->0 < other.distance()->0
    }

    /// Whether `self` lies on the same ray as `target`, strictly nearer to the origin.
    pub fn is_nearer_than(&self, target: &Direction) -> (r: bool)
        ensures
            r == self.nearer_than(*target),
    {
        match (*self, *target) {
            (Direction::Up(a), Direction::Up(b)) => a < b,
            (Direction::Left(a), Direction::Left(b)) => a < b,
            (Direction::Down(a), Direction::Down(b)) => a < b,
            (Direction::Right(a), Direction::Right(b)) => a < b,
            (Direction::UpLeft(a), Direction::UpLeft(b)) => a < b,
            (Direction::UpRight(a), Direction::UpRight(b)) => a < b,
            (Direction::DownLeft(a), Direction::DownLeft(b)) => a < b,
            (Direction::DownRight(a), Direction::DownRight(b)) => a < b,
            _ => false,
        }
    }
}

/// The coordinate reached from `from` after `k` steps towards `to`; a
/// coordinate that is already there stays.
pub open spec fn stepped(from: u8, to: u8, k: int) -> int {
    if from < to {
        from + k
    } else if from > to {
        from - k
    } else {
        from as int
    }
}

/// A square of the board, by row and column.
#[derive(Clone, Copy, Debug, PartialEq, Eq, Structural)]
pub struct Position {
    pub row: u8,
    pub column: u8,
}

/// A piece: its movement class and the square it stands on.
#[derive(Clone, Copy, Debug, PartialEq, Eq, Structural)]
pub struct Piece {
    pub kind: Kind,
    pub row: u8,
    pub column: u8,
}

impl Position {
    /// The square lies on the 8×8 board.
    pub open spec fn on_board(self) -> bool {
        self.row < MAX_ROW && self.column < MAX_COLUMN
    }

    /// Number of rows between the two squares, as a magnitude.
    pub open spec fn row_gap(self, other: Position) -> int {
        if self.row <= other.row {
            other.row - self.row
        } else {
            self.row - other.row
        }
    }

    /// Number of columns between the two squares, as a magnitude.
    pub open spec fn column_gap(self, other: Position) -> int {
        if self.column <= other.column {
            other.column - self.column
        } else {
            self.column - other.column
        }
    }

    /// The two squares are a knight's jump apart: two steps along one axis
    /// and one along the other.
    pub open spec fn knight_offset(self, other: Position) -> bool {
        let rows = self.row_gap(other);
        let columns = self.column_gap(other);
        (rows == 2 && columns == 1) || (rows == 1 && columns == 2)
    }

    /// The two squares are distinct and share a row, a column or a 45° diagonal.
    pub open spec fn on_common_ray(self, other: Position) -> bool {
        let rows = self.row_gap(other);
        let columns = self.column_gap(other);
        self != other && (rows == 0 || columns == 0 || rows == columns)
    }

    /// Number of steps of a king from one square to the other: the larger of
    /// the two gaps.
    pub open spec fn steps_to(self, other: Position) -> int {
        if self.row_gap(other) >= self.column_gap(other) {
            self.row_gap(other)
        } else {
            self.column_gap(other)
        }
    }

    /// `self` lies on the straight line from `start` to `end`, strictly
    /// between the two: it is reached from `start` by some but not all of the
    /// steps that lead to `end`.
    pub open spec fn strictly_between(self, start: Position, end: Position) -> bool {
        &&& start.on_common_ray(end)
        &&& exists|k: int|
            0 < k < start.steps_to(end) && #[trigger] stepped(start.row, end.row, k) == self.row
                && stepped(start.column, end.column, k) == self.column
    }

    /// The classification of `other` as seen from `self`.
    ///
    /// Rows grow upwards and columns grow to the right. A square is not
    /// classified relative to itself, nor relative to a square that is neither
    /// on a common ray nor a knight's jump away.
    pub open spec fn direction_to(self, other: Position) -> Option<Direction> {
        let rows = self.row_gap(other) as u8;
        let columns = self.column_gap(other) as u8;
        let down = other.row < self.row;
        let left = other.column < self.column;
        if self == other {
            None
        } else if rows == 0 {
            Some(if left { Direction::Left(columns) } else { Direction::Right(columns) })
        } else if columns == 0 {
            Some(if down { Direction::Down(rows) } else { Direction::Up(rows) })
        } else if rows == columns {
            Some(
                match (down, left) {
                    (true, true) => Direction::DownLeft(rows),
                    (true, false) => Direction::DownRight(rows),
                    (false, true) => Direction::UpLeft(rows),
                    (false, false) => Direction::UpRight(rows),
                },
            )
        } else if rows == 2 && columns == 1 {
            Some(
                Direction::Knight(
                    match (down, left) {
                        (true, true) => KnightDirection::DownLeft,
                        (true, false) => KnightDirection::DownRight,
                        (false, true) => KnightDirection::UpLeft,
                        (false, false) => KnightDirection::UpRight,
                    },
                ),
            )
        } else if rows == 1 && columns == 2 {
            Some(
                Direction::Knight(
                    match (left, down) {
                        (true, true) => KnightDirection::LeftDown,
                        (true, false) => KnightDirection::LeftUp,
                        (false, true) => KnightDirection::RightDown,
                        (false, false) => KnightDirection::RightUp,
                    },
                ),
            )
        } else {
            None
        }
    }

    /// The square a piece stands on.
    pub fn from_piece(piece: &Piece) -> (r: Self)
        ensures
            r == piece.position(),
    {
        Self { row: piece.row, column: piece.column }
    }

    /// The square on the given row and column.
    pub fn new(row: u8, column: u8) -> (r: Self)
        ensures
            r == (Position { row, column }),
    {
        Self { row, column }
    }

    /// Classifies `other` as seen from `self`.
    ///
    /// Total over all pairs of squares: coordinate differences are taken as
    /// magnitudes, so nothing underflows.
    pub fn get_direction(&self, other: &Self) -> (r: Option<Direction>)
        ensures
            r == self.direction_to(*other),
            *self == *other ==> r is None,
            r is None <==> !self.on_common_ray(*other) && !self.knight_offset(*other),
            (r matches Some(d) && d.is_ray()) <==> self.on_common_ray(*other),
            (r matches Some(d) && d is Knight) <==> self.knight_offset(*other),
            r matches Some(d) ==> (d.is_ray() ==> d.distance()->0 > 0),
    {
        let rmax = if self.row > other.row { self.row } else { other.row };
        let rmin = if self.row > other.row { other.row } else { self.row };
        let cmax = if self.column > other.column { self.column } else { other.column };
        let cmin = if self.column > other.column { other.column } else { self.column };
        let x: u8 = rmax - rmin;
        let y: u8 = cmax - cmin;
        if self.row == other.row {
            if self.column == other.column {
                return None;
            }
            if self.column > other.column {
                return Some(Direction::Left(y));
            }
            return Some(Direction::Right(y));
        } else if self.column == other.column {
            if self.row > other.row {
                return Some(Direction::Down(x));
            }
            return Some(Direction::Up(x));
        } else if x == y {
            let direction = match (self.row > other.row, self.column > other.column) {
                (true, true) => Direction::DownLeft(x),
                (true, false) => Direction::DownRight(x),
                (false, true) => Direction::UpLeft(x),
                (false, false) => Direction::UpRight(x),
            };
            return Some(direction);
        } else if x == 2 && y == 1 {
            let direction = match (self.row > other.row, self.column > other.column) {
                (true, true) => KnightDirection::DownLeft,
                (true, false) => KnightDirection::DownRight,
                (false, true) => KnightDirection::UpLeft,
                (false, false) => KnightDirection::UpRight,
            };
            return Some(Direction::Knight(direction));
        } else if x == 1 && y == 2 {
            let direction = match (self.column > other.column, self.row > other.row) {
                (true, true) => KnightDirection::LeftDown,
                (true, false) => KnightDirection::LeftUp,
                (false, true) => KnightDirection::RightDown,
                (false, false) => KnightDirection::RightUp,
            };
            return Some(Direction::Knight(direction));
        }
        None
    }
}

impl Piece {
    /// The square the piece stands on.
    pub open spec fn position(self) -> Position {
        Position { row: self.row, column: self.column }
    }

    /// The same piece standing on `target`.
    pub open spec fn moved_to(self, target: Position) -> Piece {
        Piece { kind: self.kind, row: target.row, column: target.column }
    }

    /// Puts the piece on the given square; its kind stays.
    pub fn move_to(&mut self, row: u8, column: u8)
        ensures
            *final(self) == old(self).moved_to(Position { row, column }),
    {
        self.column = column;
        self.row = row;
    }

    /// A piece of the given kind on the given row and column.
    pub fn new(kind: Kind, row: u8, column: u8) -> (r: Self)
        ensures
            r == (Piece { kind, row, column }),
    {
        Self { kind, row, column }
    }
}

} // verus!
