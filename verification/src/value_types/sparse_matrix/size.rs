use vstd::prelude::*;

verus! {

/// The shape of a matrix: how many rows and how many columns it has.
#[derive(Debug, Clone, Copy, PartialEq, Eq, Structural)]
pub struct Size {
    pub row_height: usize,
    pub column_width: usize,
}

impl Size {
    pub fn new(row_height: usize, column_width: usize) -> (size: Self)
        ensures
            size.row_height == row_height,
            size.column_width == column_width,
    {
        Size { row_height, column_width }
    }

    pub fn row_height(&self) -> (row_height: usize)
        ensures
            row_height == self.row_height,
    {
        self.row_height
    }

    pub fn column_width(&self) -> (column_width: usize)
        ensures
            column_width == self.column_width,
    {
        self.column_width
    }

    /// Whether a position lies inside a matrix of this shape.
    pub open spec fn holds(self, position: (int, int)) -> bool {
        0 <= position.0 < self.row_height && 0 <= position.1 < self.column_width
    }

    /// The shape with rows and columns exchanged.
    pub open spec fn transposed(self) -> Size {
        Size { row_height: self.column_width, column_width: self.row_height }
    }
}

impl From<(usize, usize)> for Size {
    fn from(pair: (usize, usize)) -> (size: Self) {
        Size { row_height: pair.0, column_width: pair.1 }
    }
}

impl vstd::std_specs::convert::FromSpecImpl<(usize, usize)> for Size {
    open spec fn obeys_from_spec() -> bool {
        true
    }

    open spec fn from_spec(pair: (usize, usize)) -> Self {
        Size { row_height: pair.0, column_width: pair.1 }
    }
}

} // verus!
