//! The square grid of cells, with bounds-checked read and write access.

use vstd::prelude::*;

use crate::line::Line;
use crate::piece::BoardError;
use crate::piece::Piece;

verus! {

/// The fixed dimension of the board: every board is `BOARD_SIZE` rows of
/// `BOARD_SIZE` cells.
pub const BOARD_SIZE: usize = 19;

/// The coordinate of the central cell of the board.
pub const CENTER: usize = BOARD_SIZE / 2;

/// One row of the board: `BOARD_SIZE` cells.
struct Row {
    cells: Vec<Piece>,
}

/// A `BOARD_SIZE` by `BOARD_SIZE` grid of [`Piece`] values with
/// bounds-checked access. Coordinates are zero-indexed `(row, col)` pairs
/// counted from one corner.
///
/// The view of a board is the sequence of its rows, each row the sequence of
/// its cells.
pub struct Board {
    rows: Vec<Row>,
}

impl View for Row {
    type V = Seq<Piece>;

    closed spec fn view(&self) -> Seq<Piece> {
        self.cells@
    }
}

impl Row {
    spec fn wf(&self) -> bool {
        self@.len() == BOARD_SIZE
    }

    fn get(&self, col: usize) -> (p: Piece)
        requires
            col < self@.len(),
        ensures
            p == self@[col as int],
    {
        self.cells[col]
    }

    fn set(&mut self, col: usize, val: Piece)
        requires
            col < old(self)@.len(),
        ensures
            final(self)@ == old(self)@.update(col as int, val),
    {
        self.cells[col] = val;
    }

    fn empty() -> (r: Row)
        ensures
            r.wf(),
            forall|c: int| 0 <= c < BOARD_SIZE ==> r@[c] == Piece::Empty,
    {
        let mut cells: Vec<Piece> = Vec::new();
        let mut i: usize = 0;
        while i < BOARD_SIZE
            invariant
                i <= BOARD_SIZE,
                cells@.len() == i,
                forall|c: int| 0 <= c < i ==> cells@[c] == Piece::Empty,
            decreases BOARD_SIZE - i,
        {
            cells.push(Piece::Empty);
            i += 1;
        }
        Row { cells }
    }
}

impl View for Board {
    type V = Seq<Seq<Piece>>;

    closed spec fn view(&self) -> Seq<Seq<Piece>> {
        Seq::new(self.rows@.len(), |r: int| self.rows@[r]@)
    }
}

impl Board {
    /// A board is well formed when it holds exactly `BOARD_SIZE` rows of
    /// `BOARD_SIZE` cells each. Every constructor establishes this and every
    /// mutator preserves it.
    pub open spec fn wf(&self) -> bool {
        &&& self@.len() == BOARD_SIZE
        &&& forall|r: int| 0 <= r < BOARD_SIZE ==> self@[r].len() == BOARD_SIZE
    }

    /// The piece held by the cell at `(row, col)`.
    pub open spec fn cell(&self, row: int, col: int) -> Piece {
        self@[row][col]
    }

    /// The board with every cell empty.
    pub fn empty() -> (b: Board)
        ensures
            b.wf(),
            forall|r: int, c: int|
                0 <= r < BOARD_SIZE && 0 <= c < BOARD_SIZE ==> b.cell(r, c) == Piece::Empty,
    {
        let mut rows: Vec<Row> = Vec::new();
        let mut i: usize = 0;
        while i < BOARD_SIZE
            invariant
                i <= BOARD_SIZE,
                rows@.len() == i,
                forall|r: int| 0 <= r < i ==> rows@[r].wf(),
                forall|r: int, c: int|
                    0 <= r < i && 0 <= c < BOARD_SIZE ==> rows@[r]@[c] == Piece::Empty,
            decreases BOARD_SIZE - i,
        {
            rows.push(Row::empty());
            i += 1;
        }
        Board { rows }
    }

    /// The piece at `(row, col)`, for coordinates already known to be in
    /// range. Callers that cannot establish the bounds use [`Board::get`].
    pub fn at(&self, row: usize, col: usize) -> (p: Piece)
        requires
            self.wf(),
            row < BOARD_SIZE,
            col < BOARD_SIZE,
        ensures
            p == self.cell(row as int, col as int),
    {
        self.rows[row].get(col)
    }

    /// The piece at `(row, col)`, or `OutOfBounds` exactly when one of the
    /// coordinates is at or beyond `BOARD_SIZE`.
    pub fn get(&self, row: usize, col: usize) -> (r: Result<Piece, BoardError>)
        requires
            self.wf(),
        ensures
            row < BOARD_SIZE && col < BOARD_SIZE ==> r == Ok::<Piece, BoardError>(
                self.cell(row as int, col as int),
            ),
            !(row < BOARD_SIZE && col < BOARD_SIZE) <==> r == Err::<Piece, BoardError>(
                BoardError::OutOfBounds,
            ),
    {
        if row >= BOARD_SIZE || col >= BOARD_SIZE {
            return Err(BoardError::OutOfBounds);
        }
        Ok(self.at(row, col))
    }

    /// Overwrite the cell at `(row, col)` with `val`, or return `OutOfBounds`
    /// exactly when one of the coordinates is at or beyond `BOARD_SIZE` and
    /// leave the board unchanged. On success the named cell holds `val` and
    /// every other cell is unchanged.
    pub fn set(&mut self, row: usize, col: usize, val: Piece) -> (r: Result<(), BoardError>)
        requires
            old(self).wf(),
        ensures
            final(self).wf(),
            row < BOARD_SIZE && col < BOARD_SIZE ==> {
                &&& r == Ok::<(), BoardError>(())
                &&& final(self)@ == old(self)@.update(
                    row as int,
                    old(self)@[row as int].update(col as int, val),
                )
                &&& final(self).cell(row as int, col as int) == val
            },
            !(row < BOARD_SIZE && col < BOARD_SIZE) <==> r == Err::<(), BoardError>(
                BoardError::OutOfBounds,
            ),
            !(row < BOARD_SIZE && col < BOARD_SIZE) ==> final(self)@ == old(self)@,
            forall|rr: int, cc: int|
                0 <= rr < BOARD_SIZE && 0 <= cc < BOARD_SIZE && !(rr == row && cc == col)
                    ==> final(self).cell(rr, cc) == old(self).cell(rr, cc),
    {
        if row >= BOARD_SIZE || col >= BOARD_SIZE {
            return Err(BoardError::OutOfBounds);
        }
        proof {
            assert(self.rows@[row as int]@ == self@[row as int]);
        }
        self.rows[row].set(col, val);
        proof {
            assert(self@ =~= old(self)@.update(
                row as int,
                old(self)@[row as int].update(col as int, val),
            ));
        }
        Ok(())
    }

    /// A snapshot of row `row`, left to right: `BOARD_SIZE` cells.
    pub fn get_row(&self, row: usize) -> (l: Line)
        requires
            self.wf(),
            row < BOARD_SIZE,
        ensures
            l@.len() == BOARD_SIZE,
            forall|i: int| 0 <= i < BOARD_SIZE ==> l@[i] == self.cell(row as int, i),
            l@ == self@[row as int],
    {
        let l = Line::on(self, row, 0, 0, 1, BOARD_SIZE);
        proof {
            assert(l@ =~= self@[row as int]);
        }
        l
    }

    /// A snapshot of column `col`, top to bottom: `BOARD_SIZE` cells.
    pub fn get_col(&self, col: usize) -> (l: Line)
        requires
            self.wf(),
            col < BOARD_SIZE,
        ensures
            l@.len() == BOARD_SIZE,
            forall|i: int| 0 <= i < BOARD_SIZE ==> l@[i] == self.cell(i, col as int),
    {
        Line::on(self, 0, col, 1, 0, BOARD_SIZE)
    }

    /// A snapshot of the diagonal that starts at `(row, col)` and moves
    /// toward increasing row and increasing column. The start must lie on
    /// the top or left edge (`row == 0` or `col == 0`); the diagonal then
    /// holds exactly `BOARD_SIZE - row - col` cells.
    pub fn get_down_diagonal(&self, row: usize, col: usize) -> (l: Line)
        requires
            self.wf(),
            row == 0 || col == 0,
            row < BOARD_SIZE,
            col < BOARD_SIZE,
        ensures
            l@.len() == BOARD_SIZE - row - col,
            forall|i: int| 0 <= i < l@.len() ==> l@[i] == self.cell(row + i, col + i),
    {
        let len = BOARD_SIZE - row - col;
        Line::on(self, row, col, 1, 1, len)
    }

    /// A snapshot of the diagonal that starts at `(row, col)` and moves
    /// toward decreasing row and increasing column. The start must lie on
    /// the bottom or left edge (`row == BOARD_SIZE - 1` or `col == 0`); the
    /// diagonal then holds exactly `row - col + 1` cells.
    pub fn get_up_diagonal(&self, row: usize, col: usize) -> (l: Line)
        requires
            self.wf(),
            row == BOARD_SIZE - 1 || col == 0,
            row < BOARD_SIZE,
            col < BOARD_SIZE,
        ensures
            l@.len() == row - col + 1,
            forall|i: int| 0 <= i < l@.len() ==> l@[i] == self.cell(row - i, col + i),
    {
        let len = row - col + 1;
        Line::on(self, row, col, -1, 1, len)
    }
}

} // verus!
