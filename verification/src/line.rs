//! Immutable snapshots of the cells along one straight line of the board,
//! and their compact textual notation.

use vstd::prelude::*;

use crate::board::Board;
use crate::board::BOARD_SIZE;
use crate::piece::BoardError;
use crate::piece::Piece;

verus! {

/// An immutable, fixed-length ordered snapshot of [`Piece`] values sampled
/// from a [`Board`] along one direction. Once constructed, a line never
/// observes later board mutation.
///
/// The view of a line is the sequence of its `size` valid cells. Two lines
/// are equal exactly when their views are: identical size and identical cell
/// sequence.
#[derive(Debug)]
pub struct Line {
    size: usize,
    cells: Vec<Piece>,
}

/// The character standing for `p` in the textual notation: `-` for an empty
/// cell, `X` for player A, `O` for player B.
pub open spec fn piece_char(p: Piece) -> char {
    match p {
        Piece::Empty => '-',
        Piece::PlayerA => 'X',
        Piece::PlayerB => 'O',
    }
}

/// Whether `c` is one of the three characters of the textual notation.
pub open spec fn is_notation_char(c: char) -> bool {
    c == '-' || c == 'O' || c == 'X'
}

/// The piece a notation character stands for. Meaningful only on characters
/// that satisfy [`is_notation_char`].
pub open spec fn char_piece(c: char) -> Piece {
    if c == 'O' {
        Piece::PlayerB
    } else if c == 'X' {
        Piece::PlayerA
    } else {
        Piece::Empty
    }
}

/// Whether every character of `s` belongs to the textual notation.
pub open spec fn valid_notation(s: Seq<char>) -> bool {
    forall|i: int| 0 <= i < s.len() ==> is_notation_char(s[i])
}

/// The cell sequence a notation string stands for.
pub open spec fn decode_notation(s: Seq<char>) -> Seq<Piece> {
    Seq::new(s.len(), |i: int| char_piece(s[i]))
}

/// The notation string standing for a cell sequence.
pub open spec fn encode_notation(ps: Seq<Piece>) -> Seq<char> {
    Seq::new(ps.len(), |i: int| piece_char(ps[i]))
}

/// The canonical rendering of a cell sequence: its notation wrapped in
/// square brackets.
pub open spec fn rendered(ps: Seq<Piece>) -> Seq<char> {
    seq!['['] + encode_notation(ps) + seq![']']
}

/// Decoding a valid notation string and rendering the resulting cells
/// reproduces the string, wrapped in square brackets.
pub proof fn lemma_notation_round_trip(s: Seq<char>)
    requires
        valid_notation(s),
    ensures
        rendered(decode_notation(s)) == seq!['['] + s + seq![']'],
{
    assert forall|i: int| 0 <= i < s.len() implies piece_char(char_piece(s[i])) == s[i] by {
        assert(is_notation_char(s[i]));
    }
    assert(encode_notation(decode_notation(s)) =~= s);
    assert(rendered(decode_notation(s)) =~= seq!['['] + s + seq![']']);
}

impl Line {
    /// Every line ever constructed carries a full-capacity cell buffer and a
    /// valid-prefix length between 1 and the board dimension.
    #[verifier::type_invariant]
    spec fn inv(&self) -> bool {
        &&& self.cells@.len() == BOARD_SIZE
        &&& 1 <= self.size <= BOARD_SIZE
    }

    pub closed spec fn view(&self) -> Seq<Piece> {
        self.cells@.take(self.size as int)
    }

    /// A line of `size` cells, all empty.
    fn empty(size: usize) -> (l: Line)
        requires
            1 <= size <= BOARD_SIZE,
        ensures
            l@.len() == size,
            forall|i: int| 0 <= i < size ==> l@[i] == Piece::Empty,
    {
        let mut cells: Vec<Piece> = Vec::new();
        let mut i: usize = 0;
        while i < BOARD_SIZE
            invariant
                i <= BOARD_SIZE,
                cells@.len() == i,
                forall|c: int| 0 <= c < i ==> cells@[c] == Piece::Empty,
            decreases BOARD_SIZE - i,
        {
            cells.push(Piece::Empty);
            i += 1;
        }
        Line { size, cells }
    }

    /// Overwrite the cell at `index` within the valid prefix.
    fn set(&mut self, index: usize, val: Piece)
        requires
            index < old(self)@.len(),
        ensures
            final(self)@ == old(self)@.update(index as int, val),
    {
        proof {
            use_type_invariant(&*self);
        }
        self.cells[index] = val;
        proof {
            assert(self@ =~= old(self)@.update(index as int, val));
        }
    }

    /// The piece at `index` within the valid prefix.
    pub fn get(&self, index: usize) -> (p: Piece)
        requires
            index < self@.len(),
        ensures
            p == self@[index as int],
    {
        proof {
            use_type_invariant(&*self);
        }
        self.cells[index]
    }

    /// The number of valid cells of the line, between 1 and `BOARD_SIZE`.
    pub fn size(&self) -> (n: usize)
        ensures
            n == self@.len(),
            1 <= n <= BOARD_SIZE,
    {
        proof {
            use_type_invariant(&*self);
        }
        self.size
    }

    /// Sample `size` cells of `board`, starting at `(row, col)` and stepping
    /// by `(rstride, cstride)` per cell, into a fresh line of exactly that
    /// length. Every sampled coordinate must stay on the board.
    pub fn on(board: &Board, row: usize, col: usize, rstride: i32, cstride: i32, size: usize) -> (l:
        Line)
        requires
            board.wf(),
            1 <= size <= BOARD_SIZE,
            rstride == -1 || rstride == 0 || rstride == 1,
            cstride == -1 || cstride == 0 || cstride == 1,
            forall|i: int|
                #![trigger i * rstride]
                #![trigger i * cstride]
                0 <= i < size ==> 0 <= row + i * rstride < BOARD_SIZE && 0 <= col + i * cstride
                    < BOARD_SIZE,
        ensures
            l@.len() == size,
            forall|i: int|
                0 <= i < size ==> l@[i] == board.cell(row + i * rstride, col + i * cstride),
    {
        let mut line = Line::empty(size);
        let mut i: usize = 0;
        while i < size
            invariant
                i <= size,
                line@.len() == size,
                board.wf(),
                1 <= size <= BOARD_SIZE,
                rstride == -1 || rstride == 0 || rstride == 1,
                cstride == -1 || cstride == 0 || cstride == 1,
                forall|k: int|
                    #![trigger k * rstride]
                    #![trigger k * cstride]
                    0 <= k < size ==> 0 <= row + k * rstride < BOARD_SIZE && 0 <= col + k
                        * cstride < BOARD_SIZE,
                forall|k: int|
                    0 <= k < i ==> line@[k] == board.cell(row + k * rstride, col + k * cstride),
            decreases size - i,
        {
            proof {
                assert(0 <= row + (i as int) * rstride < BOARD_SIZE);
                assert(0 <= col + (i as int) * cstride < BOARD_SIZE);
            }
            let rr: usize = ((row as i64) + (i as i64) * (rstride as i64)) as usize;
            let cc: usize = ((col as i64) + (i as i64) * (cstride as i64)) as usize;
            let val = board.at(rr, cc);
            line.set(i, val);
            i += 1;
        }
        line
    }

    /// Build a line from its textual notation: `-` for an empty cell, `O`
    /// for player B, `X` for player A. The notation must hold between 1 and
    /// `BOARD_SIZE` characters. Returns `InvalidNotation` exactly when some
    /// character of `s` is none of the three.
    pub fn of(s: &str) -> (r: Result<Line, BoardError>)
        requires
            1 <= s@.len() <= BOARD_SIZE,
        ensures
            valid_notation(s@) ==> (r matches Ok(l) && l@ == decode_notation(s@)),
            !valid_notation(s@) <==> r == Err::<Line, BoardError>(BoardError::InvalidNotation),
    {
        let n = s.unicode_len();
        let mut line = Line::empty(n);
        let mut i: usize = 0;
        while i < n
            invariant
                i <= n,
                n == s@.len(),
                1 <= n <= BOARD_SIZE,
                line@.len() == n,
                forall|k: int| 0 <= k < i ==> is_notation_char(s@[k]),
                forall|k: int| 0 <= k < i ==> line@[k] == char_piece(s@[k]),
            decreases n - i,
        {
            let c = s.get_char(i);
            let p = if c == '-' {
                Piece::Empty
            } else if c == 'O' {
                Piece::PlayerB
            } else if c == 'X' {
                Piece::PlayerA
            } else {
                return Err(BoardError::InvalidNotation);
            };
            line.set(i, p);
            i += 1;
        }
        proof {
            assert(line@ =~= decode_notation(s@));
        }
        Ok(line)
    }

    /// The canonical textual rendering of the line: its cells' notation
    /// characters between square brackets.
    pub fn to_text(&self) -> (out: String)
        ensures
            out@ == rendered(self@),
    {
        proof {
            use_type_invariant(&*self);
            reveal_strlit("[");
            reveal_strlit("]");
            reveal_strlit("-");
            reveal_strlit("O");
            reveal_strlit("X");
        }
        let mut out = String::from_str("[");
        proof {
            assert(out@ =~= seq!['['] + encode_notation(self@.take(0)));
        }
        let mut i: usize = 0;
        while i < self.size
            invariant
                i <= self@.len(),
                out@ == seq!['['] + encode_notation(self@.take(i as int)),
            decreases self@.len() - i,
        {
            proof {
                use_type_invariant(&*self);
                reveal_strlit("-");
                reveal_strlit("O");
                reveal_strlit("X");
            }
            match self.get(i) {
                Piece::Empty => out.append("-"),
                Piece::PlayerB => out.append("O"),
                Piece::PlayerA => out.append("X"),
            }
            proof {
                assert(out@ =~= seq!['['] + encode_notation(self@.take(i as int + 1)));
            }
            i += 1;
        }
        proof {
            use_type_invariant(&*self);
            reveal_strlit("]");
            assert(self@.take(self.size as int) =~= self@);
        }
        out.append("]");
        proof {
            assert(out@ =~= rendered(self@));
        }
        out
    }
}

impl PartialEq for Line {
    /// Two lines are equal exactly when they have the same size and the same
    /// cells over their valid prefixes.
    fn eq(&self, other: &Line) -> (r: bool) {
        proof {
            use_type_invariant(&*self);
            use_type_invariant(&*other);
        }
        if self.size != other.size {
            proof {
                assert(self@.len() != other@.len());
            }
            return false;
        }
        let mut i: usize = 0;
        while i < self.size
            invariant
                i <= self.size,
                self.size == other.size,
                self.inv(),
                other.inv(),
                forall|k: int| 0 <= k < i ==> self@[k] == other@[k],
            decreases self.size - i,
        {
            if self.get(i) != other.get(i) {
                return false;
            }
            i += 1;
        }
        proof {
            assert(self@ =~= other@);
        }
        true
    }
}

impl vstd::std_specs::cmp::PartialEqSpecImpl for Line {
    open spec fn obeys_eq_spec() -> bool {
        true
    }

    open spec fn eq_spec(&self, other: &Line) -> bool {
        self@ == other@
    }
}

} // verus!
