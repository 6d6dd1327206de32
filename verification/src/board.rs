//! The 3x3 grid of cells, with occupancy-guarded placement, row-major
//! iteration, win detection, and a byte codec for its contents.

use vstd::prelude::*;

use crate::cell::{lemma_cell_tag_round_trip, spec_cell_from_tag, spec_cell_tag, Cell, CellIndex};
use crate::Winner;

verus! {

/// The mark a winning player leaves on the board.
pub open spec fn mark_of(w: Winner) -> Cell {
    match w {
        Winner::X => Cell::X,
        Winner::O => Cell::O,
    }
}

/// Three cells all carry one player's mark.
pub open spec fn triple_winner(a: Cell, b: Cell, c: Cell) -> Option<Winner> {
    if a == Cell::X && b == Cell::X && c == Cell::X {
        Some(Winner::X)
    } else if a == Cell::O && b == Cell::O && c == Cell::O {
        Some(Winner::O)
    } else {
        None
    }
}

/// Who, if anyone, owns the line through the three given row-major positions.
pub open spec fn line_winner(cells: Seq<Cell>, a: int, b: int, c: int) -> Option<Winner> {
    triple_winner(cells[a], cells[b], cells[c])
}

/// The first fully marked column, scanning left to right.
pub open spec fn columns_winner(cells: Seq<Cell>) -> Option<Winner> {
    if line_winner(cells, 0, 3, 6) is Some {
        line_winner(cells, 0, 3, 6)
    } else if line_winner(cells, 1, 4, 7) is Some {
        line_winner(cells, 1, 4, 7)
    } else {
        line_winner(cells, 2, 5, 8)
    }
}

/// The first fully marked row, scanning top to bottom.
pub open spec fn rows_winner(cells: Seq<Cell>) -> Option<Winner> {
    if line_winner(cells, 0, 1, 2) is Some {
        line_winner(cells, 0, 1, 2)
    } else if line_winner(cells, 3, 4, 5) is Some {
        line_winner(cells, 3, 4, 5)
    } else {
        line_winner(cells, 6, 7, 8)
    }
}

/// The main diagonal before the anti-diagonal.
pub open spec fn diagonals_winner(cells: Seq<Cell>) -> Option<Winner> {
    if line_winner(cells, 0, 4, 8) is Some {
        line_winner(cells, 0, 4, 8)
    } else {
        line_winner(cells, 2, 4, 6)
    }
}

/// The winner a board reports: all three columns, then all three rows, then
/// the two diagonals, the first fully marked line deciding.
pub open spec fn spec_winner(cells: Seq<Cell>) -> Option<Winner> {
    if columns_winner(cells) is Some {
        columns_winner(cells)
    } else if rows_winner(cells) is Some {
        rows_winner(cells)
    } else {
        diagonals_winner(cells)
    }
}

/// The player holds three in a row: one of the eight lines is filled with
/// their mark.
pub open spec fn wins(cells: Seq<Cell>, w: Winner) -> bool {
    ||| line_winner(cells, 0, 3, 6) == Some(w)
    ||| line_winner(cells, 1, 4, 7) == Some(w)
    ||| line_winner(cells, 2, 5, 8) == Some(w)
    ||| line_winner(cells, 0, 1, 2) == Some(w)
    ||| line_winner(cells, 3, 4, 5) == Some(w)
    ||| line_winner(cells, 6, 7, 8) == Some(w)
    ||| line_winner(cells, 0, 4, 8) == Some(w)
    ||| line_winner(cells, 2, 4, 6) == Some(w)
}

/// Law: a board with no marks on it has no winner.
pub proof fn lemma_empty_board_no_winner(cells: Seq<Cell>)
    requires
        cells.len() == 9,
        forall|i: int| 0 <= i < 9 ==> cells[i] == Cell::Empty,
    ensures
        spec_winner(cells) is None,
{
}

/// Wire form of a full grid: one tag per cell, in row-major order.
pub open spec fn spec_board_encode(cells: Seq<Cell>) -> Seq<u8> {
    cells.map(|i: int, c: Cell| spec_cell_tag(c))
}

/// The cells a wire form stands for, when it is nine valid tags.
pub open spec fn spec_board_decode(bytes: Seq<u8>) -> Option<Seq<Cell>> {
    if bytes.len() == 9 && (forall|i: int|
        0 <= i < 9 ==> spec_cell_from_tag(#[trigger] bytes[i]) is Some) {
        Some(Seq::new(9, |i: int| spec_cell_from_tag(bytes[i]).unwrap()))
    } else {
        None
    }
}

/// Law: decoding an encoded grid gives the grid back, for every full grid.
pub proof fn lemma_board_codec_round_trip(cells: Seq<Cell>)
    requires
        cells.len() == 9,
    ensures
        spec_board_decode(spec_board_encode(cells)) == Some(cells),
{
    let bytes = spec_board_encode(cells);
    assert forall|i: int| 0 <= i < 9 implies spec_cell_from_tag(#[trigger] bytes[i]) is Some by {
        lemma_cell_tag_round_trip(cells[i]);
    }
    assert(spec_board_decode(bytes).unwrap() =~= cells);
}

/// Law: traversing a board's view directly yields the same nine cells, in the
/// same order, as looking each coordinate of the canonical enumeration up in
/// that view — so `iter` agrees with `get_cell` over `all_indices_in_order`.
pub proof fn lemma_iter_matches_indexed_lookup(b: Board, indices: Seq<CellIndex>)
    requires
        indices.len() == 9,
        forall|i: int|
            0 <= i < 9 ==> (#[trigger] indices[i]).spec_row() == i / 3
                && indices[i].spec_column() == i % 3,
    ensures
        forall|i: int| 0 <= i < 9 ==> b@[i] == b@[(#[trigger] indices[i]).linear()],
{
    assert forall|i: int| 0 <= i < 9 implies b@[i] == b@[(#[trigger] indices[i]).linear()] by {
        assert(indices[i].linear() == 3 * (i / 3) + i % 3);
        assert(3 * (i / 3) + i % 3 == i);
    }
}

/// Law: once a player's mark is written into an empty cell, that cell is
/// occupied, so `set_cell` refuses a second write at the same position and
/// leaves the board unchanged.
pub proof fn lemma_set_cell_occupies(cells: Seq<Cell>, at: int, value: Cell)
    requires
        0 <= at < cells.len(),
        value !is Empty,
    ensures
        !(cells.update(at, value)[at] is Empty),
{
}

/// The three-by-three grid. Field `cRC` is the cell at row R, column C; the
/// view lists the nine cells in row-major order.
#[derive(Clone, Copy, Debug, PartialEq, Eq, Structural)]
pub struct Board {
    c00: Cell,
    c01: Cell,
    c02: Cell,
    c10: Cell,
    c11: Cell,
    c12: Cell,
    c20: Cell,
    c21: Cell,
    c22: Cell,
}

impl View for Board {
    type V = Seq<Cell>;

    closed spec fn view(&self) -> Seq<Cell> {
        seq![
            self.c00, self.c01, self.c02,
            self.c10, self.c11, self.c12,
            self.c20, self.c21, self.c22,
        ]
    }
}

/// A board always views as exactly its nine cells.
pub proof fn lemma_board_view_len(b: Board)
    ensures
        b@.len() == 9,
{
}

impl Default for Board {
    /// A fresh board has all nine cells empty.
    fn default() -> (b: Board)
        ensures
            b@.len() == 9,
            forall|i: int| 0 <= i < 9 ==> b@[i] == Cell::Empty,
    {
        Board {
            c00: Cell::Empty,
            c01: Cell::Empty,
            c02: Cell::Empty,
            c10: Cell::Empty,
            c11: Cell::Empty,
            c12: Cell::Empty,
            c20: Cell::Empty,
            c21: Cell::Empty,
            c22: Cell::Empty,
        }
    }
}

impl Board {
    /// Pure lookup of the cell a validated coordinate addresses.
    pub fn get_cell(&self, index: CellIndex) -> (c: Cell)
        ensures
            c == self@[index.linear()],
    {
        proof {
            use_type_invariant(index);
        }
        let row = index.row();
        let column = index.column();
        if row == 0 {
            if column == 0 {
                self.c00
            } else if column == 1 {
                self.c01
            } else {
                self.c02
            }
        } else if row == 1 {
            if column == 0 {
                self.c10
            } else if column == 1 {
                self.c11
            } else {
                self.c12
            }
        } else {
            if column == 0 {
                self.c20
            } else if column == 1 {
                self.c21
            } else {
                self.c22
            }
        }
    }

    /// Unconditional write, private to the module: `set_cell` adds the
    /// occupancy guard in front of it.
    fn put_cell(&mut self, index: CellIndex, value: Cell)
        ensures
            final(self)@ == old(self)@.update(index.linear(), value),
    {
        proof {
            use_type_invariant(index);
        }
        let row = index.row();
        let column = index.column();
        if row == 0 {
            if column == 0 {
                self.c00 = value;
            } else if column == 1 {
                self.c01 = value;
            } else {
                self.c02 = value;
            }
        } else if row == 1 {
            if column == 0 {
                self.c10 = value;
            } else if column == 1 {
                self.c11 = value;
            } else {
                self.c12 = value;
            }
        } else {
            if column == 0 {
                self.c20 = value;
            } else if column == 1 {
                self.c21 = value;
            } else {
                self.c22 = value;
            }
        }
        proof {
            assert(self@ =~= old(self)@.update(index.linear(), value));
        }
    }

    /// Writes `value` only when the addressed cell is still empty, and reports
    /// whether the write happened; an occupied cell is left unchanged. A
    /// `false` return is the rejection of an illegal move.
    pub fn set_cell(&mut self, index: CellIndex, value: Cell) -> (wrote: bool)
        ensures
            wrote == (old(self)@[index.linear()] is Empty),
            wrote ==> final(self)@ == old(self)@.update(index.linear(), value),
            !wrote ==> final(self)@ == old(self)@,
    {
        match self.get_cell(index) {
            Cell::Empty => {
                self.put_cell(index, value);
                true
            },
            _ => false,
        }
    }

    /// The shared shape of every line check: all three cells of one player,
    /// X looked for before O.
    fn check_line(a: Cell, b: Cell, c: Cell) -> (w: Option<Winner>)
        ensures
            w == triple_winner(a, b, c),
    {
        match (a, b, c) {
            (Cell::X, Cell::X, Cell::X) => Some(Winner::X),
            (Cell::O, Cell::O, Cell::O) => Some(Winner::O),
            _ => None,
        }
    }

    /// The three columns, left to right.
    fn check_columns(&self) -> (w: Option<Winner>)
        ensures
            w == columns_winner(self@),
    {
        if let Some(winner) = Self::check_line(self.c00, self.c10, self.c20) {
            return Some(winner);
        }
        if let Some(winner) = Self::check_line(self.c01, self.c11, self.c21) {
            return Some(winner);
        }
        Self::check_line(self.c02, self.c12, self.c22)
    }

    /// The three rows, top to bottom.
    fn check_rows(&self) -> (w: Option<Winner>)
        ensures
            w == rows_winner(self@),
    {
        if let Some(winner) = Self::check_line(self.c00, self.c01, self.c02) {
            return Some(winner);
        }
        if let Some(winner) = Self::check_line(self.c10, self.c11, self.c12) {
            return Some(winner);
        }
        Self::check_line(self.c20, self.c21, self.c22)
    }

    /// The main diagonal, then the anti-diagonal.
    fn check_diagonals(&self) -> (w: Option<Winner>)
        ensures
            w == diagonals_winner(self@),
    {
        if let Some(winner) = Self::check_line(self.c00, self.c11, self.c22) {
            return Some(winner);
        }
        Self::check_line(self.c02, self.c11, self.c20)
    }

    /// Evaluates the eight lines in the fixed priority order — columns, then
    /// rows, then diagonals — and reports the owner of the first fully marked
    /// one; `None` means no line is fully marked by either player.
    pub fn get_winner(&self) -> (w: Option<Winner>)
        ensures
            w == spec_winner(self@),
            w matches Some(p) ==> wins(self@, p),
            w is None <==> !wins(self@, Winner::X) && !wins(self@, Winner::O),
    {
        if let Some(winner) = self.check_columns() {
            Some(winner)
        } else if let Some(winner) = self.check_rows() {
            Some(winner)
        } else if let Some(winner) = self.check_diagonals() {
            Some(winner)
        } else {
            None
        }
    }

    /// All nine cells, copied out in the canonical row-major order.
    pub fn iter(&self) -> (cells: Vec<Cell>)
        ensures
            cells@ == self@,
    {
        let mut cells: Vec<Cell> = Vec::new();
        cells.push(self.c00);
        cells.push(self.c01);
        cells.push(self.c02);
        cells.push(self.c10);
        cells.push(self.c11);
        cells.push(self.c12);
        cells.push(self.c20);
        cells.push(self.c21);
        cells.push(self.c22);
        proof {
            assert(cells@ =~= self@);
        }
        cells
    }

    /// Rebuilds a board from nine row-major cells: the inverse of `iter`, and
    /// the verified way to edit cells in place (read them out, change them,
    /// write them back).
    pub fn from_cells(cells: &Vec<Cell>) -> (b: Board)
        requires
            cells@.len() == 9,
        ensures
            b@ == cells@,
    {
        let b = Board {
            c00: cells[0],
            c01: cells[1],
            c02: cells[2],
            c10: cells[3],
            c11: cells[4],
            c12: cells[5],
            c20: cells[6],
            c21: cells[7],
            c22: cells[8],
        };
        proof {
            assert(b@ =~= cells@);
        }
        b
    }

    /// Each cell paired with the coordinate that addresses it, in the same
    /// row-major order as `iter`.
    pub fn iter_enumerated(&self) -> (pairs: Vec<(CellIndex, Cell)>)
        ensures
            pairs@.len() == 9,
            forall|i: int|
                0 <= i < 9 ==> (#[trigger] pairs@[i]).0.spec_row() == i / 3
                    && pairs@[i].0.spec_column() == i % 3
                    && pairs@[i].1 == self@[i],
    {
        let indices = CellIndex::all_indices_in_order();
        let cells = self.iter();
        let mut pairs: Vec<(CellIndex, Cell)> = Vec::new();
        let mut i: usize = 0;
        while i < 9
            invariant
                i <= 9,
                indices@.len() == 9,
                cells@ == self@,
                self@.len() == 9,
                pairs@.len() == i,
                forall|j: int|
                    0 <= j < 9 ==> (#[trigger] indices@[j]).spec_row() == j / 3
                        && indices@[j].spec_column() == j % 3,
                forall|j: int|
                    0 <= j < i ==> (#[trigger] pairs@[j]).0 == indices@[j]
                        && pairs@[j].1 == self@[j],
            decreases 9 - i,
        {
            pairs.push((indices[i], cells[i]));
            i = i + 1;
        }
        pairs
    }

    /// Encodes the grid as nine tags in row-major order.
    pub fn encode(&self) -> (bytes: Vec<u8>)
        ensures
            bytes@ == spec_board_encode(self@),
    {
        let cells = self.iter();
        let mut bytes: Vec<u8> = Vec::new();
        let mut i: usize = 0;
        while i < 9
            invariant
                i <= 9,
                cells@ == self@,
                self@.len() == 9,
                bytes@.len() == i,
                forall|j: int| 0 <= j < i ==> #[trigger] bytes@[j] == spec_cell_tag(self@[j]),
            decreases 9 - i,
        {
            bytes.push(cells[i].to_tag());
            i = i + 1;
        }
        proof {
            assert(bytes@ =~= spec_board_encode(self@));
        }
        bytes
    }

    /// Decodes nine tags back into a grid; fails exactly on a wrong length or
    /// an unknown tag.
    pub fn decode(bytes: &Vec<u8>) -> (r: Option<Board>)
        ensures
            r is Some <==> spec_board_decode(bytes@) is Some,
            r matches Some(b) ==> Some(b@) == spec_board_decode(bytes@),
    {
        if bytes.len() != 9 {
            return None;
        }
        let mut cells: Vec<Cell> = Vec::new();
        let mut i: usize = 0;
        while i < 9
            invariant
                i <= 9,
                bytes@.len() == 9,
                cells@.len() == i,
                forall|j: int| 0 <= j < i ==> spec_cell_from_tag(#[trigger] bytes@[j]) == Some(cells@[j]),
            decreases 9 - i,
        {
            match Cell::from_tag(bytes[i]) {
                Some(c) => cells.push(c),
                None => {
                    return None;
                },
            }
            i = i + 1;
        }
        let b = Board::from_cells(&cells);
        proof {
            assert(b@ =~= spec_board_decode(bytes@).unwrap());
        }
        Some(b)
    }
}

} // verus!
