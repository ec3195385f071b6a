use vstd::prelude::*;

verus! {

/// The place of one entry of a matrix: its row and its column, counted from zero.
#[derive(Debug, Clone, Copy, PartialEq, Eq, Structural)]
pub struct Coordinate {
    pub row_index: usize,
    pub column_index: usize,
}

impl Coordinate {
    /// The coordinate as a pair of mathematical integers, row first.
    pub open spec fn position(self) -> (int, int) {
        (self.row_index as int, self.column_index as int)
    }

    pub fn new(row_index: usize, column_index: usize) -> (coordinate: Self)
        ensures
            coordinate.row_index == row_index,
            coordinate.column_index == column_index,
    {
        Coordinate { row_index, column_index }
    }

    pub fn row_index(&self) -> (row_index: usize)
        ensures
            row_index == self.row_index,
    {
        self.row_index
    }

    pub fn column_index(&self) -> (column_index: usize)
        ensures
            column_index == self.column_index,
    {
        self.column_index
    }
}

impl From<(usize, usize)> for Coordinate {
    fn from(pair: (usize, usize)) -> (coordinate: Self) {
        Coordinate { row_index: pair.0, column_index: pair.1 }
    }
}

impl vstd::std_specs::convert::FromSpecImpl<(usize, usize)> for Coordinate {
    open spec fn obeys_from_spec() -> bool {
        true
    }

    open spec fn from_spec(pair: (usize, usize)) -> Self {
        Coordinate { row_index: pair.0, column_index: pair.1 }
    }
}

} // verus!
