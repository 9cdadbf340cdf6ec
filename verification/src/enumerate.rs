//! The state machine that visits every maximal straight line of a board
//! exactly once, in a fixed deterministic order.

use vstd::prelude::*;

use crate::board::Board;
use crate::board::BOARD_SIZE;
use crate::line::Line;
use crate::piece::Piece;

verus! {

/// Where in the traversal of a board's lines the enumerator stands: the next
/// line to produce is the row `i`, the column `i`, the up-diagonal starting
/// at `(row, col)`, the down-diagonal starting at `(row, col)`, or nothing
/// (`Finished`).
///
/// The traversal visits all `BOARD_SIZE` rows top to bottom, then all
/// `BOARD_SIZE` columns, then the `2 * BOARD_SIZE - 1` up-diagonals (down the
/// left edge, then across the bottom edge), then the `2 * BOARD_SIZE - 1`
/// down-diagonals (across the top edge right to left, then down the left
/// edge).
#[derive(Clone, Copy, Debug, PartialEq, Eq, Structural)]
pub enum State {
    Row(usize),
    Col(usize),
    UpDiag(usize, usize),
    DownDiag(usize, usize),
    Finished,
}

impl State {
    /// The states the traversal can actually reach: indices on the board,
    /// and diagonal starting points on the edges they are enumerated along.
    pub open spec fn wf(&self) -> bool {
        match *self {
            State::Row(i) => i < BOARD_SIZE,
            State::Col(i) => i < BOARD_SIZE,
            State::UpDiag(r, c) => r < BOARD_SIZE && c < BOARD_SIZE && (c == 0 || r == BOARD_SIZE
                - 1),
            State::DownDiag(r, c) => r < BOARD_SIZE && c < BOARD_SIZE && (r == 0 || c == 0),
            State::Finished => true,
        }
    }

    /// The state that follows `self` in the traversal.
    pub open spec fn spec_next(&self) -> State {
        match *self {
            State::Row(i) => if i == BOARD_SIZE - 1 {
                State::Col(0)
            } else {
                State::Row((i + 1) as usize)
            },
            State::Col(i) => if i == BOARD_SIZE - 1 {
                State::UpDiag(0, 0)
            } else {
                State::Col((i + 1) as usize)
            },
            State::UpDiag(r, c) => if r == BOARD_SIZE - 1 && c == BOARD_SIZE - 1 {
                State::DownDiag(0, (BOARD_SIZE - 1) as usize)
            } else if r == BOARD_SIZE - 1 {
                State::UpDiag((BOARD_SIZE - 1) as usize, (c + 1) as usize)
            } else {
                State::UpDiag((r + 1) as usize, 0)
            },
            State::DownDiag(r, c) => if r == 0 && c == 0 {
                State::DownDiag(1, 0)
            } else if r == 0 {
                State::DownDiag(0, (c - 1) as usize)
            } else if r == BOARD_SIZE - 1 {
                State::Finished
            } else {
                State::DownDiag((r + 1) as usize, 0)
            },
            State::Finished => State::Finished,
        }
    }

    /// The step number at which the traversal stands in `self`: rows take
    /// steps `0..BOARD_SIZE`, columns the next `BOARD_SIZE` steps,
    /// up-diagonals the next `2 * BOARD_SIZE - 1`, down-diagonals the next
    /// `2 * BOARD_SIZE - 1`, and `Finished` is step `6 * BOARD_SIZE - 2`.
    pub open spec fn position(&self) -> int {
        let n = BOARD_SIZE as int;
        match *self {
            State::Row(i) => i as int,
            State::Col(i) => n + i,
            State::UpDiag(r, c) => if c == 0 {
                2 * n + r
            } else {
                3 * n - 1 + c
            },
            State::DownDiag(r, c) => if r == 0 {
                5 * n - 2 - c
            } else {
                5 * n - 2 + r
            },
            State::Finished => 6 * n - 2,
        }
    }

    /// The state that follows `self` in the traversal.
    pub fn next(&self) -> (s: State)
        requires
            self.wf(),
        ensures
            s == self.spec_next(),
            s.wf(),
    {
        let max: usize = BOARD_SIZE - 1;
        match *self {
            State::Row(i) => if i == max {
                State::Col(0)
            } else {
                State::Row(i + 1)
            },
            State::Col(i) => if i == max {
                State::UpDiag(0, 0)
            } else {
                State::Col(i + 1)
            },
            State::UpDiag(r, c) => if r == max && c == max {
                State::DownDiag(0, max)
            } else if r == max {
                State::UpDiag(max, c + 1)
            } else {
                State::UpDiag(r + 1, 0)
            },
            State::DownDiag(r, c) => if r == 0 && c == 0 {
                State::DownDiag(1, 0)
            } else if r == 0 {
                State::DownDiag(0, c - 1)
            } else if r == max {
                State::Finished
            } else {
                State::DownDiag(r + 1, 0)
            },
            State::Finished => State::Finished,
        }
    }
}

/// Each step of the traversal moves one position forward, staying within
/// the reachable states, until `Finished` is reached.
pub proof fn lemma_next_advances(s: State)
    requires
        s.wf(),
        !(s is Finished),
    ensures
        0 <= s.position() < 6 * BOARD_SIZE - 2,
        s.spec_next().wf(),
        s.spec_next().position() == s.position() + 1,
{
}

/// The position of a reachable state tells which kind of line it produces:
/// the traversal yields the `BOARD_SIZE` rows first, then the `BOARD_SIZE`
/// columns, then the `2 * BOARD_SIZE - 1` up-diagonals, then the
/// `2 * BOARD_SIZE - 1` down-diagonals, and ends at `Finished`.
pub proof fn lemma_position_category(s: State)
    requires
        s.wf(),
    ensures
        s is Row <==> 0 <= s.position() < BOARD_SIZE,
        s is Col <==> BOARD_SIZE <= s.position() < 2 * BOARD_SIZE,
        s is UpDiag <==> 2 * BOARD_SIZE <= s.position() < 4 * BOARD_SIZE - 1,
        s is DownDiag <==> 4 * BOARD_SIZE - 1 <= s.position() < 6 * BOARD_SIZE - 2,
        s is Finished <==> s.position() == 6 * BOARD_SIZE - 2,
{
}

/// The state the traversal stands in after `k` steps from its start,
/// `Row(0)`.
pub open spec fn traversal(k: nat) -> State
    decreases k,
{
    if k == 0 {
        State::Row(0)
    } else {
        traversal((k - 1) as nat).spec_next()
    }
}

/// The full traversal: starting at `Row(0)`, the enumerator walks through
/// exactly `6 * BOARD_SIZE - 2` producing states — one per step — and then
/// stays at `Finished` forever.
pub proof fn lemma_traversal(k: nat)
    ensures
        traversal(k).wf(),
        k <= 6 * BOARD_SIZE - 2 ==> traversal(k).position() == k,
        k >= 6 * BOARD_SIZE - 2 ==> traversal(k) == State::Finished,
    decreases k,
{
    if k > 0 {
        let prev = traversal((k - 1) as nat);
        lemma_traversal((k - 1) as nat);
        lemma_position_category(prev);
        if !(prev is Finished) {
            lemma_next_advances(prev);
        }
        lemma_position_category(traversal(k));
    }
}

/// Exactly which kind of state the traversal stands in after `k` steps: the
/// first `BOARD_SIZE` steps produce the rows, the next `BOARD_SIZE` the
/// columns, the next `2 * BOARD_SIZE - 1` the up-diagonals, the next
/// `2 * BOARD_SIZE - 1` the down-diagonals, and from step
/// `6 * BOARD_SIZE - 2` on the traversal is `Finished`. In particular the
/// traversal produces `6 * BOARD_SIZE - 2` lines in all, each kind the
/// stated number of times.
pub proof fn lemma_traversal_counts(k: nat)
    ensures
        traversal(k) is Row <==> k < BOARD_SIZE,
        traversal(k) is Col <==> BOARD_SIZE <= k < 2 * BOARD_SIZE,
        traversal(k) is UpDiag <==> 2 * BOARD_SIZE <= k < 4 * BOARD_SIZE - 1,
        traversal(k) is DownDiag <==> 4 * BOARD_SIZE - 1 <= k < 6 * BOARD_SIZE - 2,
        traversal(k) is Finished <==> k >= 6 * BOARD_SIZE - 2,
{
    lemma_traversal(k);
    lemma_position_category(traversal(k));
}

/// The cells of the line that a reachable, producing state stands for, as a
/// sequence sampled from the board value `b`.
pub open spec fn state_line(b: Board, s: State) -> Seq<Piece> {
    match s {
        State::Row(i) => Seq::new(BOARD_SIZE as nat, |j: int| b.cell(i as int, j)),
        State::Col(i) => Seq::new(BOARD_SIZE as nat, |j: int| b.cell(j, i as int)),
        State::UpDiag(r, c) => Seq::new((r - c + 1) as nat, |j: int| b.cell(r - j, c + j)),
        State::DownDiag(r, c) => Seq::new(
            (BOARD_SIZE - r - c) as nat,
            |j: int| b.cell(r + j, c + j),
        ),
        State::Finished => Seq::empty(),
    }
}

/// A lazy, finite, non-restartable walk over every maximal line of one
/// board: all rows, all columns, all up-diagonals, all down-diagonals, one
/// [`Line`] per call of [`LineIterator::next`], in the fixed order that
/// [`State::spec_next`] describes. It holds only a reference to the board
/// and the current state, and never mutates the board.
pub struct LineIterator<'a> {
    board: &'a Board,
    state: State,
}

impl<'a> LineIterator<'a> {
    /// The board the iterator walks over.
    pub closed spec fn src(&self) -> Board {
        *self.board
    }

    /// The state the iterator currently stands in.
    pub closed spec fn cur(&self) -> State {
        self.state
    }

    pub open spec fn wf(&self) -> bool {
        self.src().wf() && self.cur().wf()
    }

    /// A fresh iterator over `board`, standing at the start of the
    /// traversal.
    pub fn on(board: &'a Board) -> (it: LineIterator<'a>)
        requires
            board.wf(),
        ensures
            it.wf(),
            it.src() == *board,
            it.cur() == State::Row(0),
    {
        LineIterator { board, state: State::Row(0) }
    }

    /// Produce the line of the current state and advance: `None` exactly
    /// once the traversal is finished, otherwise the snapshot of the row,
    /// column or diagonal the current state names.
    pub fn next(&mut self) -> (r: Option<Line>)
        requires
            old(self).wf(),
        ensures
            final(self).wf(),
            final(self).src() == old(self).src(),
            final(self).cur() == old(self).cur().spec_next(),
            old(self).cur() is Finished <==> r is None,
            r matches Some(l) ==> l@ == state_line(old(self).src(), old(self).cur()),
    {
        let r = match self.state {
            State::Row(i) => {
                let l = self.board.get_row(i);
                proof {
                    assert(l@ =~= state_line(*self.board, self.state));
                }
                Some(l)
            },
            State::Col(i) => {
                let l = self.board.get_col(i);
                proof {
                    assert(l@ =~= state_line(*self.board, self.state));
                }
                Some(l)
            },
            State::UpDiag(row, col) => {
                let l = self.board.get_up_diagonal(row, col);
                proof {
                    assert(l@ =~= state_line(*self.board, self.state));
                }
                Some(l)
            },
            State::DownDiag(row, col) => {
                let l = self.board.get_down_diagonal(row, col);
                proof {
                    assert(l@ =~= state_line(*self.board, self.state));
                }
                Some(l)
            },
            State::Finished => None,
        };
        let next_state = self.state.next();
        self.state = next_state;
        r
    }
}

} // verus!
