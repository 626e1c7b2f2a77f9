use chess_rules::piece::KnightDirection::{
    DownLeft, DownRight, LeftDown, LeftUp, RightDown, RightUp, UpLeft, UpRight,
};
use chess_rules::piece::{
    Direction, Kind, KnightDirection, Piece, Player, Position, MAX_COLUMN, MAX_ROW,
};

#[test]
fn test_direction_up() {
    let start = Position::new(3, 2);
    let end = Position::new(start.row + 1, start.column);
    let direction = start.get_direction(&end);
    if let Some(Direction::Up(_)) = direction {
        return;
    }
    panic!(
        "Going from {:?} to {:?} should be downward but got {:?}",
        start, end, direction
    );
}

#[test]
fn test_direction_down() {
    let start = Position::new(3, 2);
    let end = Position::new(start.row - 1, start.column);
    let direction = start.get_direction(&end);
    if let Some(Direction::Down(_)) = direction {
        return;
    }
    panic!(
        "Going from {:?} to {:?} should be upward but got {:?}",
        start, end, direction
    );
}

#[test]
fn test_direction_left() {
    let start = Position::new(3, 2);
    let end = Position::new(start.row, start.column - 1);
    let direction = start.get_direction(&end);
    if let Some(Direction::Left(_)) = direction {
        return;
    }
    panic!(
        "Going from {:?} to {:?} should be left sided but got {:?}",
        start, end, direction
    );
}

#[test]
fn test_direction_right() {
    let start = Position::new(3, 2);
    let end = Position::new(start.row, start.column + 1);
    let direction = start.get_direction(&end);
    if let Some(Direction::Right(_)) = direction {
        return;
    }
    panic!(
        "Going from {:?} to {:?} should be right sided but got {:?}",
        start, end, direction
    );
}

#[test]
fn test_direction_upleft() {
    let start = Position::new(3, 2);
    let end = Position::new(start.row + 1, start.column - 1);
    let direction = start.get_direction(&end);
    if let Some(Direction::UpLeft(_)) = direction {
        return;
    }
    panic!(
        "Going from {:?} to {:?} should be upleft but got {:?}",
        start, end, direction
    );
}

#[test]
fn test_direction_upright() {
    let start = Position::new(3, 2);
    let end = Position::new(start.row + 1, start.column + 1);
    let direction = start.get_direction(&end);
    if let Some(Direction::UpRight(_)) = direction {
        return;
    }
    panic!(
        "Going from {:?} to {:?} should be upright but got {:?}",
        start, end, direction
    );
}

#[test]
fn test_direction_downleft() {
    let start = Position::new(3, 2);
    let end = Position::new(start.row - 1, start.column - 1);
    let direction = start.get_direction(&end);
    if let Some(Direction::DownLeft(_)) = direction {
        return;
    }
    panic!(
        "Going from {:?} to {:?} should be downleft but got {:?}",
        start, end, direction
    );
}

#[test]
fn test_direction_downright() {
    let start = Position::new(3, 2);
    let end = Position::new(start.row - 1, start.column + 1);
    let direction = start.get_direction(&end);
    if let Some(Direction::DownRight(_)) = direction {
        return;
    }
    panic!(
        "Going from {:?} to {:?} should be downleft but got {:?}",
        start, end, direction
    );
}

#[test]
fn test_direction_knight() {
    let start = Position::new(4, 4);
    let modifiers: [(i8, i8, KnightDirection); 8] = [
        (2, 1, UpRight),
        (2, -1, UpLeft),
        (-2, 1, DownRight),
        (-2, -1, DownLeft),
        (1, 2, RightUp),
        (-1, 2, RightDown),
        (1, -2, LeftUp),
        (-1, -2, LeftDown),
    ];
    for (row, col, dir) in modifiers {
        let r: u8 = (i8::try_from(start.row).unwrap() + row).try_into().unwrap();
        let c: u8 = (i8::try_from(start.column).unwrap() + col)
            .try_into()
            .unwrap();
        let end = Position::new(r, c);
        let direction = start.get_direction(&end);
        let valid = match &direction {
            Some(Direction::Knight(kdir)) => kdir == &dir,
            _ => false,
        };
        if !valid {
            panic!(
                "Going from {:?} to {:?} {:?} was expected but got {:?}",
                start, end, dir, direction
            )
        }
    }
}

#[test]
fn board_is_eight_by_eight() {
    assert_eq!(MAX_ROW, 8);
    assert_eq!(MAX_COLUMN, 8);
}

#[test]
fn position_new_keeps_coordinates() {
    let p = Position::new(5, 2);
    assert_eq!(p.row, 5);
    assert_eq!(p.column, 2);
    assert_eq!(p, Position { row: 5, column: 2 });
    assert_ne!(p, Position::new(2, 5));
}

#[test]
fn position_from_piece_takes_the_square() {
    let piece = Piece::new(Kind::Bishop, 6, 1);
    assert_eq!(Position::from_piece(&piece), Position::new(6, 1));
}

#[test]
fn piece_new_keeps_fields() {
    let piece = Piece::new(Kind::Knight, 7, 3);
    assert_eq!(piece.kind, Kind::Knight);
    assert_eq!(piece.row, 7);
    assert_eq!(piece.column, 3);
}

#[test]
fn piece_move_to_changes_square_only() {
    let mut piece = Piece::new(Kind::Queen, 0, 3);
    piece.move_to(4, 7);
    assert_eq!(piece, Piece::new(Kind::Queen, 4, 7));
}

#[test]
fn direction_carries_exact_distance() {
    let start = Position::new(3, 2);
    assert_eq!(start.get_direction(&Position::new(7, 2)), Some(Direction::Up(4)));
    assert_eq!(start.get_direction(&Position::new(0, 2)), Some(Direction::Down(3)));
    assert_eq!(start.get_direction(&Position::new(3, 0)), Some(Direction::Left(2)));
    assert_eq!(start.get_direction(&Position::new(3, 7)), Some(Direction::Right(5)));
    assert_eq!(start.get_direction(&Position::new(5, 0)), Some(Direction::UpLeft(2)));
    assert_eq!(start.get_direction(&Position::new(7, 6)), Some(Direction::UpRight(4)));
    assert_eq!(start.get_direction(&Position::new(1, 0)), Some(Direction::DownLeft(2)));
    assert_eq!(start.get_direction(&Position::new(0, 5)), Some(Direction::DownRight(3)));
}

#[test]
fn direction_of_a_square_to_itself_is_none() {
    for row in 0..MAX_ROW {
        for column in 0..MAX_COLUMN {
            let square = Position::new(row, column);
            assert_eq!(square.get_direction(&square), None);
        }
    }
}

#[test]
fn direction_is_none_off_rays_and_knight_jumps() {
    let start = Position::new(4, 4);
    assert_eq!(start.get_direction(&Position::new(7, 5)), None);
    assert_eq!(start.get_direction(&Position::new(1, 5)), None);
    assert_eq!(start.get_direction(&Position::new(5, 7)), None);
    assert_eq!(start.get_direction(&Position::new(3, 1)), None);
    assert_eq!(start.get_direction(&Position::new(0, 5)), None);
    assert_eq!(start.get_direction(&Position::new(7, 6)), None);
    assert_eq!(Position::new(0, 0).get_direction(&Position::new(7, 5)), None);
}

fn gap(a: u8, b: u8) -> u8 {
    if a > b {
        a - b
    } else {
        b - a
    }
}

#[test]
fn knight_classification_is_exactly_the_one_two_offset() {
    for r0 in 0..MAX_ROW {
        for c0 in 0..MAX_COLUMN {
            for r1 in 0..MAX_ROW {
                for c1 in 0..MAX_COLUMN {
                    let rows = gap(r0, r1);
                    let columns = gap(c0, c1);
                    let expected = (rows == 1 && columns == 2) || (rows == 2 && columns == 1);
                    let got = matches!(
                        Position::new(r0, c0).get_direction(&Position::new(r1, c1)),
                        Some(Direction::Knight(_))
                    );
                    assert_eq!(got, expected);
                }
            }
        }
    }
}

#[test]
fn classification_exists_exactly_on_rays_and_knight_jumps() {
    for r0 in 0..MAX_ROW {
        for c0 in 0..MAX_COLUMN {
            for r1 in 0..MAX_ROW {
                for c1 in 0..MAX_COLUMN {
                    let rows = gap(r0, r1);
                    let columns = gap(c0, c1);
                    let same = rows == 0 && columns == 0;
                    let ray = !same && (rows == 0 || columns == 0 || rows == columns);
                    let knight = (rows == 1 && columns == 2) || (rows == 2 && columns == 1);
                    let got = Position::new(r0, c0).get_direction(&Position::new(r1, c1));
                    assert_eq!(got.is_some(), ray || knight);
                    match got {
                        Some(Direction::Up(d)) => {
                            assert!(r1 > r0 && c1 == c0 && d == rows && d > 0)
                        }
                        Some(Direction::Down(d)) => {
                            assert!(r1 < r0 && c1 == c0 && d == rows && d > 0)
                        }
                        Some(Direction::Left(d)) => {
                            assert!(r1 == r0 && c1 < c0 && d == columns && d > 0)
                        }
                        Some(Direction::Right(d)) => {
                            assert!(r1 == r0 && c1 > c0 && d == columns && d > 0)
                        }
                        Some(Direction::UpLeft(d)) => {
                            assert!(r1 > r0 && c1 < c0 && d == rows && d == columns)
                        }
                        Some(Direction::UpRight(d)) => {
                            assert!(r1 > r0 && c1 > c0 && d == rows && d == columns)
                        }
                        Some(Direction::DownLeft(d)) => {
                            assert!(r1 < r0 && c1 < c0 && d == rows && d == columns)
                        }
                        Some(Direction::DownRight(d)) => {
                            assert!(r1 < r0 && c1 > c0 && d == rows && d == columns)
                        }
                        Some(Direction::Knight(_)) => assert!(knight),
                        None => assert!(!ray && !knight),
                    }
                }
            }
        }
    }
}

#[test]
fn direction_does_not_overflow_at_the_limits_of_a_coordinate() {
    let low = Position::new(0, 0);
    let high = Position::new(255, 255);
    assert_eq!(low.get_direction(&high), Some(Direction::UpRight(255)));
    assert_eq!(high.get_direction(&low), Some(Direction::DownLeft(255)));
    assert_eq!(
        Position::new(0, 255).get_direction(&Position::new(255, 255)),
        Some(Direction::Up(255))
    );
    assert_eq!(Position::new(0, 255).get_direction(&Position::new(255, 1)), None);
}

#[test]
fn nearer_than_needs_same_ray_and_smaller_distance() {
    assert!(Direction::Up(1).is_nearer_than(&Direction::Up(2)));
    assert!(!Direction::Up(2).is_nearer_than(&Direction::Up(2)));
    assert!(!Direction::Up(3).is_nearer_than(&Direction::Up(2)));
    assert!(!Direction::Up(1).is_nearer_than(&Direction::Down(2)));
    assert!(!Direction::Left(1).is_nearer_than(&Direction::UpLeft(2)));
    assert!(Direction::DownRight(2).is_nearer_than(&Direction::DownRight(5)));
    assert!(!Direction::Knight(KnightDirection::UpLeft)
        .is_nearer_than(&Direction::Knight(KnightDirection::UpLeft)));
    assert!(!Direction::Up(1).is_nearer_than(&Direction::Knight(KnightDirection::UpLeft)));
}

#[test]
fn players_and_kinds_compare_by_variant() {
    assert_eq!(Player::White, Player::White);
    assert_ne!(Player::White, Player::Black);
    assert_eq!(Kind::Pawn, Kind::Pawn);
    assert_ne!(Kind::King, Kind::Queen);
}
