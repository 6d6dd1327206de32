//! Cells and validated coordinates for the 3x3 grid.

use vstd::prelude::*;

verus! {

/// What one grid position holds: nothing yet, or one player's mark.
#[derive(Clone, Copy, Debug, PartialEq, Eq, Structural)]
pub enum Cell {
    Empty,
    X,
    O,
}

impl Default for Cell {
    /// A cell starts out empty.
    fn default() -> (c: Cell)
        ensures
            c == Cell::Empty,
    {
        Cell::Empty
    }
}

/// Wire tag of one cell: empty is 0, X is 1, O is 2.
pub open spec fn spec_cell_tag(c: Cell) -> u8 {
    match c {
        Cell::Empty => 0,
        Cell::X => 1,
        Cell::O => 2,
    }
}

/// The cell a wire tag stands for, when the tag is one of the three in use.
pub open spec fn spec_cell_from_tag(t: u8) -> Option<Cell> {
    if t == 0 {
        Some(Cell::Empty)
    } else if t == 1 {
        Some(Cell::X)
    } else if t == 2 {
        Some(Cell::O)
    } else {
        None
    }
}

/// Law: decoding a cell's tag gives the cell back.
pub proof fn lemma_cell_tag_round_trip(c: Cell)
    ensures
        spec_cell_from_tag(spec_cell_tag(c)) == Some(c),
{
}

impl Cell {
    /// This cell's wire tag.
    pub fn to_tag(self) -> (t: u8)
        ensures
            t == spec_cell_tag(self),
    {
        match self {
            Cell::Empty => 0,
            Cell::X => 1,
            Cell::O => 2,
        }
    }

    /// The cell a wire tag stands for; `None` for an unknown tag.
    pub fn from_tag(t: u8) -> (r: Option<Cell>)
        ensures
            r == spec_cell_from_tag(t),
    {
        if t == 0 {
            Some(Cell::Empty)
        } else if t == 1 {
            Some(Cell::X)
        } else if t == 2 {
            Some(Cell::O)
        } else {
            None
        }
    }
}

/// Why a coordinate pair or a linear index was rejected: the offending values
/// are carried along, and the valid domain is the nine cells of the grid.
#[derive(Clone, Copy, Debug, PartialEq, Eq, Structural)]
pub enum InvalidIndexError {
    /// The row or the column lies outside the three-by-three grid.
    RowColumnOutOfRange { row: usize, column: usize },
    /// The linear index is not one of the grid's nine positions.
    LinearOutOfRange { index: usize },
}

/// A validated coordinate into the grid: row and column are always in [0, 2].
#[derive(Clone, Copy, Debug, PartialEq, Eq, Structural)]
pub struct CellIndex {
    row_index: usize,
    column_index: usize,
}

impl CellIndex {
    /// Both coordinates lie inside the three-by-three grid; established at
    /// construction and never changed afterwards.
    #[verifier::type_invariant]
    pub closed spec fn wf(self) -> bool {
        self.row_index < 3 && self.column_index < 3
    }

    pub closed spec fn spec_row(self) -> int {
        self.row_index as int
    }

    pub closed spec fn spec_column(self) -> int {
        self.column_index as int
    }

    /// Position of this coordinate in the canonical row-major enumeration.
    pub open spec fn linear(self) -> int {
        3 * self.spec_row() + self.spec_column()
    }

    /// Model of `new`: the validated pair, or the error naming the rejected one.
    pub closed spec fn spec_new(row: int, column: int) -> Result<CellIndex, InvalidIndexError> {
        if 0 <= row < 3 && 0 <= column < 3 {
            Ok(CellIndex { row_index: row as usize, column_index: column as usize })
        } else {
            Err(InvalidIndexError::RowColumnOutOfRange {
                row: row as usize,
                column: column as usize,
            })
        }
    }

    /// Model of `from_linear`: row-major coordinates of a linear index.
    pub closed spec fn spec_from_linear(n: int) -> Result<CellIndex, InvalidIndexError> {
        if 0 <= n < 9 {
            Ok(CellIndex { row_index: (n / 3) as usize, column_index: (n % 3) as usize })
        } else {
            Err(InvalidIndexError::LinearOutOfRange { index: n as usize })
        }
    }

    /// Validates a coordinate pair: succeeds exactly when both components are
    /// at most 2, and otherwise reports the rejected pair.
    pub fn new(row_index: usize, column_index: usize) -> (r: Result<CellIndex, InvalidIndexError>)
        ensures
            r == CellIndex::spec_new(row_index as int, column_index as int),
            r is Ok <==> row_index < 3 && column_index < 3,
            r matches Ok(index) ==> index.spec_row() == row_index
                && index.spec_column() == column_index,
            r matches Err(e) ==> e == (InvalidIndexError::RowColumnOutOfRange {
                row: row_index,
                column: column_index,
            }),
    {
        if row_index < 3 && column_index < 3 {
            Ok(CellIndex { row_index, column_index })
        } else {
            Err(InvalidIndexError::RowColumnOutOfRange { row: row_index, column: column_index })
        }
    }

    /// Maps a linear index to its row-major coordinates (row `n / 3`, column
    /// `n % 3`): succeeds exactly for the nine positions `0..9`, and otherwise
    /// reports the rejected index.
    pub fn from_linear(n: usize) -> (r: Result<CellIndex, InvalidIndexError>)
        ensures
            r == CellIndex::spec_from_linear(n as int),
            r is Ok <==> n < 9,
            r matches Ok(index) ==> index.spec_row() == n as int / 3
                && index.spec_column() == n as int % 3,
            r matches Err(e) ==> e == (InvalidIndexError::LinearOutOfRange { index: n }),
    {
        if n < 9 {
            Ok(CellIndex { row_index: n / 3, column_index: n % 3 })
        } else {
            Err(InvalidIndexError::LinearOutOfRange { index: n })
        }
    }

    /// Law: for every linear index inside the grid, the row-major conversion
    /// agrees with validating its quotient and remainder as a pair.
    pub proof fn lemma_from_linear_matches_new(n: int)
        requires
            0 <= n < 9,
        ensures
            CellIndex::spec_from_linear(n) == CellIndex::spec_new(n / 3, n % 3),
    {
    }

    /// The validated row, always in [0, 2].
    pub fn row(&self) -> (r: usize)
        ensures
            r == self.spec_row(),
            r < 3,
    {
        proof {
            use_type_invariant(&*self);
        }
        self.row_index
    }

    /// The validated column, always in [0, 2].
    pub fn column(&self) -> (c: usize)
        ensures
            c == self.spec_column(),
            c < 3,
    {
        proof {
            use_type_invariant(&*self);
        }
        self.column_index
    }

    /// The top-left position (0, 0), identical to what `new(0, 0)` validates.
    pub fn top_left() -> (r: CellIndex)
        ensures
            r.spec_row() == 0 && r.spec_column() == 0,
    {
        CellIndex { row_index: 0, column_index: 0 }
    }

    /// The top-middle position (0, 1).
    pub fn top_middle() -> (r: CellIndex)
        ensures
            r.spec_row() == 0 && r.spec_column() == 1,
    {
        CellIndex { row_index: 0, column_index: 1 }
    }

    /// The top-right position (0, 2).
    pub fn top_right() -> (r: CellIndex)
        ensures
            r.spec_row() == 0 && r.spec_column() == 2,
    {
        CellIndex { row_index: 0, column_index: 2 }
    }

    /// The middle-left position (1, 0).
    pub fn middle_left() -> (r: CellIndex)
        ensures
            r.spec_row() == 1 && r.spec_column() == 0,
    {
        CellIndex { row_index: 1, column_index: 0 }
    }

    /// The center position (1, 1).
    pub fn center() -> (r: CellIndex)
        ensures
            r.spec_row() == 1 && r.spec_column() == 1,
    {
        CellIndex { row_index: 1, column_index: 1 }
    }

    /// The middle-right position (1, 2).
    pub fn middle_right() -> (r: CellIndex)
        ensures
            r.spec_row() == 1 && r.spec_column() == 2,
    {
        CellIndex { row_index: 1, column_index: 2 }
    }

    /// The bottom-left position (2, 0).
    pub fn bottom_left() -> (r: CellIndex)
        ensures
            r.spec_row() == 2 && r.spec_column() == 0,
    {
        CellIndex { row_index: 2, column_index: 0 }
    }

    /// The bottom-middle position (2, 1).
    pub fn bottom_middle() -> (r: CellIndex)
        ensures
            r.spec_row() == 2 && r.spec_column() == 1,
    {
        CellIndex { row_index: 2, column_index: 1 }
    }

    /// The bottom-right position (2, 2).
    pub fn bottom_right() -> (r: CellIndex)
        ensures
            r.spec_row() == 2 && r.spec_column() == 2,
    {
        CellIndex { row_index: 2, column_index: 2 }
    }

    /// The canonical enumeration of the whole grid: the nine coordinates in
    /// row-major order (top-left through bottom-right), each exactly once.
    pub fn all_indices_in_order() -> (indices: Vec<CellIndex>)
        ensures
            indices@.len() == 9,
            forall|i: int|
                0 <= i < 9 ==> (#[trigger] indices@[i]).spec_row() == i / 3
                    && indices@[i].spec_column() == i % 3,
            forall|i: int, j: int| 0 <= i < j < 9 ==> indices@[i] != indices@[j],
    {
        let mut indices: Vec<CellIndex> = Vec::new();
        let mut n: usize = 0;
        while n < 9
            invariant
                n <= 9,
                indices@.len() == n,
                forall|i: int|
                    0 <= i < n ==> (#[trigger] indices@[i]).spec_row() == i / 3
                        && indices@[i].spec_column() == i % 3,
            decreases 9 - n,
        {
            indices.push(CellIndex { row_index: n / 3, column_index: n % 3 });
            n = n + 1;
        }
        proof {
            assert forall|i: int, j: int| 0 <= i < j < 9 implies indices@[i] != indices@[j] by {
                assert(indices@[i].linear() == i);
                assert(indices@[j].linear() == j);
            }
        }
        indices
    }
}

} // verus!
