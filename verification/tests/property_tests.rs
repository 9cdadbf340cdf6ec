use gomoku_board::Board;
use gomoku_board::BoardError;
use gomoku_board::Line;
use gomoku_board::LineIterator;
use gomoku_board::Piece;
use gomoku_board::BOARD_SIZE;

#[test]
fn test_set_get_round_trip() {
    for &p in &[Piece::Empty, Piece::PlayerA, Piece::PlayerB] {
        let mut b = Board::empty();
        b.set(4, 7, p).unwrap();
        assert_eq!(b.get(4, 7), Ok(p));
        // every other cell is unchanged
        for r in 0..BOARD_SIZE {
            for c in 0..BOARD_SIZE {
                if !(r == 4 && c == 7) {
                    assert_eq!(b.get(r, c), Ok(Piece::Empty));
                }
            }
        }
    }
}

#[test]
fn test_get_out_of_bounds() {
    let b = Board::empty();
    for coord in BOARD_SIZE..2 * BOARD_SIZE {
        assert_eq!(b.get(coord, 0), Err(BoardError::OutOfBounds));
        assert_eq!(b.get(0, coord), Err(BoardError::OutOfBounds));
        assert_eq!(b.get(coord, coord), Err(BoardError::OutOfBounds));
    }
}

#[test]
fn test_set_out_of_bounds() {
    let mut b = Board::empty();
    for coord in BOARD_SIZE..2 * BOARD_SIZE {
        assert_eq!(b.set(coord, 0, Piece::PlayerA), Err(BoardError::OutOfBounds));
        assert_eq!(b.set(0, coord, Piece::PlayerA), Err(BoardError::OutOfBounds));
        assert_eq!(b.set(coord, coord, Piece::PlayerB), Err(BoardError::OutOfBounds));
    }
    // the failed writes left the board untouched
    for r in 0..BOARD_SIZE {
        for c in 0..BOARD_SIZE {
            assert_eq!(b.get(r, c), Ok(Piece::Empty));
        }
    }
}

#[test]
fn test_row_and_col_contents() {
    let mut b = Board::empty();
    b.set(5, 2, Piece::PlayerA).unwrap();
    b.set(5, 17, Piece::PlayerB).unwrap();
    b.set(12, 2, Piece::PlayerB).unwrap();

    let row = b.get_row(5);
    assert_eq!(row.size(), BOARD_SIZE);
    for i in 0..BOARD_SIZE {
        let expected = if i == 2 {
            Piece::PlayerA
        } else if i == 17 {
            Piece::PlayerB
        } else {
            Piece::Empty
        };
        assert_eq!(row.get(i), expected);
    }

    let col = b.get_col(2);
    assert_eq!(col.size(), BOARD_SIZE);
    for i in 0..BOARD_SIZE {
        let expected = if i == 5 {
            Piece::PlayerA
        } else if i == 12 {
            Piece::PlayerB
        } else {
            Piece::Empty
        };
        assert_eq!(col.get(i), expected);
    }
}

#[test]
fn test_down_diagonal_contents() {
    let mut b = Board::empty();
    b.set(2, 2, Piece::PlayerA).unwrap();
    b.set(3, 3, Piece::PlayerB).unwrap();
    let d = b.get_down_diagonal(0, 0);
    assert_eq!(d.size(), BOARD_SIZE);
    for i in 0..BOARD_SIZE {
        let expected = if i == 2 {
            Piece::PlayerA
        } else if i == 3 {
            Piece::PlayerB
        } else {
            Piece::Empty
        };
        assert_eq!(d.get(i), expected);
    }

    let shifted = b.get_down_diagonal(0, 1);
    assert_eq!(shifted.size(), BOARD_SIZE - 1);
    for i in 0..BOARD_SIZE - 1 {
        // cells (i, 1 + i): never on the main diagonal
        assert_eq!(shifted.get(i), Piece::Empty);
    }
}

#[test]
fn test_up_diagonal_contents() {
    let mut b = Board::empty();
    // the up-diagonal from (BOARD_SIZE - 1, 0) passes (18 - i, i)
    b.set(17, 1, Piece::PlayerB).unwrap();
    b.set(16, 2, Piece::PlayerA).unwrap();
    let u = b.get_up_diagonal(BOARD_SIZE - 1, 0);
    assert_eq!(u.size(), BOARD_SIZE);
    for i in 0..BOARD_SIZE {
        let expected = if i == 1 {
            Piece::PlayerB
        } else if i == 2 {
            Piece::PlayerA
        } else {
            Piece::Empty
        };
        assert_eq!(u.get(i), expected);
    }
}

#[test]
fn test_line_is_a_snapshot() {
    let mut b = Board::empty();
    b.set(0, 3, Piece::PlayerA).unwrap();
    let row = b.get_row(0);
    b.set(0, 3, Piece::PlayerB).unwrap();
    b.set(0, 4, Piece::PlayerB).unwrap();
    // the line still shows the board as it was when it was sampled
    assert_eq!(row.get(3), Piece::PlayerA);
    assert_eq!(row.get(4), Piece::Empty);
}

#[test]
fn test_line_iterator_full_traversal() {
    let b = Board::empty();
    let mut it = LineIterator::on(&b);
    let mut count: usize = 0;
    let mut total_cells: usize = 0;
    while let Some(line) = it.next() {
        count += 1;
        total_cells += line.size();
    }
    // one line per row, column, up-diagonal and down-diagonal
    assert_eq!(count, 6 * BOARD_SIZE - 2);
    // rows and columns have BOARD_SIZE cells each; each diagonal family
    // covers every cell of the board exactly once
    assert_eq!(total_cells, 4 * BOARD_SIZE * BOARD_SIZE);
    // the traversal is not restartable: it keeps yielding nothing
    assert!(it.next().is_none());
}

#[test]
fn test_line_iterator_first_lines() {
    let mut b = Board::empty();
    b.set(0, 0, Piece::PlayerA).unwrap();
    b.set(1, 1, Piece::PlayerB).unwrap();
    let mut it = LineIterator::on(&b);
    let first = it.next().unwrap();
    assert_eq!(first.to_text(), "[X------------------]");
    let second = it.next().unwrap();
    assert_eq!(second.to_text(), "[-O-----------------]");
}

#[test]
fn test_invalid_notation() {
    assert!(matches!(Line::of("--Z"), Err(BoardError::InvalidNotation)));
    assert!(matches!(Line::of("x"), Err(BoardError::InvalidNotation)));
    assert!(matches!(Line::of("OX "), Err(BoardError::InvalidNotation)));
}

#[test]
fn test_of_values() {
    let l = Line::of("X-O").unwrap();
    assert_eq!(l.size(), 3);
    assert_eq!(l.get(0), Piece::PlayerA);
    assert_eq!(l.get(1), Piece::Empty);
    assert_eq!(l.get(2), Piece::PlayerB);
}

#[test]
fn test_line_equality() {
    assert_eq!(Line::of("X-O").unwrap(), Line::of("X-O").unwrap());
    assert_ne!(Line::of("X-O").unwrap(), Line::of("X--").unwrap());
    assert_ne!(Line::of("X-O").unwrap(), Line::of("X-OO").unwrap());
}

#[test]
fn test_neighborhood_scenario() {
    let mut b = Board::empty();
    b.set(9, 9, Piece::PlayerA).unwrap();
    b.set(10, 10, Piece::PlayerA).unwrap();
    b.set(9, 8, Piece::PlayerB).unwrap();

    for r in 0..BOARD_SIZE {
        for c in 0..BOARD_SIZE {
            let expected = if r == 9 && c == 9 {
                Piece::PlayerA
            } else if r == 10 && c == 10 {
                Piece::PlayerA
            } else if r == 9 && c == 8 {
                Piece::PlayerB
            } else {
                Piece::Empty
            };
            assert_eq!(b.get(r, c), Ok(expected));
        }
    }
}
