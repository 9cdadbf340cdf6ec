use gomoku_board::Board;
use gomoku_board::Line;
use gomoku_board::Piece;
use gomoku_board::State;
use gomoku_board::BOARD_SIZE;
use gomoku_board::CENTER;

#[test]
fn board_test_get() {
    let b = Board::empty();
    assert_eq!(b.get(0, 0), Ok(Piece::Empty));
    for r in 0..BOARD_SIZE {
        for c in 0..BOARD_SIZE {
            assert_eq!(b.get(r, c), Ok(Piece::Empty));
        }
    }
}

#[test]
fn test_set() {
    let mut b = Board::empty();
    b.set(CENTER, CENTER, Piece::PlayerA).unwrap();
    b.set(CENTER + 1, CENTER + 1, Piece::PlayerB).unwrap();
    b.set(CENTER, CENTER - 1, Piece::PlayerB).unwrap();
    let b = b;

    // check the nine center pieces
    assert_eq!(b.get(CENTER + 1, CENTER - 1), Ok(Piece::Empty));
    assert_eq!(b.get(CENTER + 1, CENTER), Ok(Piece::Empty));
    assert_eq!(b.get(CENTER + 1, CENTER + 1), Ok(Piece::PlayerB));
    assert_eq!(b.get(CENTER, CENTER - 1), Ok(Piece::PlayerB));
    assert_eq!(b.get(CENTER, CENTER), Ok(Piece::PlayerA));
    assert_eq!(b.get(CENTER, CENTER + 1), Ok(Piece::Empty));
    assert_eq!(b.get(CENTER - 1, CENTER - 1), Ok(Piece::Empty));
    assert_eq!(b.get(CENTER - 1, CENTER), Ok(Piece::Empty));
    assert_eq!(b.get(CENTER - 1, CENTER + 1), Ok(Piece::Empty));
    // check the rest of the board
    for r in 0..BOARD_SIZE {
        for c in 0..BOARD_SIZE {
            if (r > CENTER + 1 || r < CENTER - 1) && (c > CENTER + 1 || c < CENTER - 1) {
                assert_eq!(b.get(r, c), Ok(Piece::Empty));
            }
        }
    }
}

#[test]
fn test_get_down_diagonal() {
    let b = Board::empty();

    assert_eq!(b.get_down_diagonal(0, 0).size(), BOARD_SIZE);
    assert_eq!(b.get_down_diagonal(1, 0).size(), BOARD_SIZE - 1);
    assert_eq!(b.get_down_diagonal(0, 1).size(), BOARD_SIZE - 1);
    assert_eq!(b.get_down_diagonal(BOARD_SIZE - 1, 0).size(), 1);
}

#[test]
fn test_get_up_diagonal() {
    let b = Board::empty();

    assert_eq!(b.get_up_diagonal(0, 0).size(), 1);
    assert_eq!(b.get_up_diagonal(1, 0).size(), 2);
    assert_eq!(b.get_up_diagonal(BOARD_SIZE - 1, 0).size(), BOARD_SIZE);
    assert_eq!(b.get_up_diagonal(BOARD_SIZE - 1, BOARD_SIZE - 1).size(), 1);
}

#[test]
fn test_state_transition() {
    let mut s = State::Row(0);
    let mut rows: usize = 0;
    let mut cols: usize = 0;
    let mut d1: usize = 0;
    let mut d2: usize = 0;

    loop {
        match s {
            State::Row(_) => rows += 1,
            State::Col(_) => cols += 1,
            State::UpDiag(_, _) => d1 += 1,
            State::DownDiag(_, _) => d2 += 1,
            State::Finished => break,
        }
        s = s.next();
    }

    assert_eq!(rows, BOARD_SIZE);
    assert_eq!(cols, BOARD_SIZE);
    assert_eq!(d1, BOARD_SIZE * 2 - 1);
    assert_eq!(d2, BOARD_SIZE * 2 - 1);
}

#[test]
fn test_line_to_string() {
    assert_eq!(Line::of("---").unwrap().to_text(), "[---]");
    assert_eq!(Line::of("---XX-----").unwrap().to_text(), "[---XX-----]");
    assert_eq!(Line::of("---XXO--OOOO--").unwrap().to_text(), "[---XXO--OOOO--]");
}
