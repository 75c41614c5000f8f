//! The bounding box of a sheet.

use vstd::prelude::*;

verus! {

/// The rectangle that holds the populated cells of a sheet.
///
/// Both corners are (row, column), counted from zero, and both are inside the
/// rectangle. A sheet without cells has no dimensions at all, which is written
/// as an absent value and never as a box of size zero.
#[derive(Clone, Copy, Debug, PartialEq, Eq)]
pub struct Dimensions {
    /// start: (row, col)
    pub start: (u32, u32),
    /// end: (row, col)
    pub end: (u32, u32),
}

impl Dimensions {
    /// A box from its two corners.
    pub fn new(start: (u32, u32), end: (u32, u32)) -> (res: Self)
        ensures
            res.start == start,
            res.end == end,
    {
        Dimensions { start, end }
    }

    /// Whether the top-left corner lies above and left of the bottom-right one.
    pub open spec fn well_formed(&self) -> bool {
        self.start.0 <= self.end.0 && self.start.1 <= self.end.1
    }

    /// The number of rows of a well-formed box.
    pub open spec fn spec_height(&self) -> int {
        self.end.0 - self.start.0 + 1
    }

    /// The number of columns of a well-formed box.
    pub open spec fn spec_width(&self) -> int {
        self.end.1 - self.start.1 + 1
    }

    /// Whether a position lies inside the box.
    pub open spec fn spec_contains(&self, row: u32, col: u32) -> bool {
        self.start.0 <= row <= self.end.0 && self.start.1 <= col <= self.end.1
    }

    /// Tests `well_formed`.
    pub fn is_well_formed(&self) -> (res: bool)
        ensures
            res == self.well_formed(),
    {
        self.start.0 <= self.end.0 && self.start.1 <= self.end.1
    }

    /// The number of rows: `end.row - start.row + 1`.
    pub fn height(&self) -> (res: u64)
        requires
            self.well_formed(),
        ensures
            res == self.spec_height(),
            res >= 1,
    {
        (self.end.0 - self.start.0) as u64 + 1
    }

    /// The number of columns: `end.col - start.col + 1`.
    pub fn width(&self) -> (res: u64)
        requires
            self.well_formed(),
        ensures
            res == self.spec_width(),
            res >= 1,
    {
        (self.end.1 - self.start.1) as u64 + 1
    }

    /// Whether a position lies inside the box.
    pub fn contains(&self, row: u32, col: u32) -> (res: bool)
        ensures
            res == self.spec_contains(row, col),
    {
        row >= self.start.0 && row <= self.end.0 && col >= self.start.1 && col <= self.end.1
    }
}

/// The number of rows of a box that may be absent: zero without one.
pub open spec fn spec_height_of(dimensions: Option<Dimensions>) -> int {
    match dimensions {
        Some(d) => d.spec_height(),
        None => 0,
    }
}

/// The number of columns of a box that may be absent: zero without one.
pub open spec fn spec_width_of(dimensions: Option<Dimensions>) -> int {
    match dimensions {
        Some(d) => d.spec_width(),
        None => 0,
    }
}

/// The number of rows of a box that may be absent.
pub fn height_of(dimensions: Option<Dimensions>) -> (res: u64)
    requires
        dimensions matches Some(d) ==> d.well_formed(),
    ensures
        res == spec_height_of(dimensions),
{
    match dimensions {
        Some(d) => d.height(),
        None => 0,
    }
}

/// The number of columns of a box that may be absent.
pub fn width_of(dimensions: Option<Dimensions>) -> (res: u64)
    requires
        dimensions matches Some(d) ==> d.well_formed(),
    ensures
        res == spec_width_of(dimensions),
{
    match dimensions {
        Some(d) => d.width(),
        None => 0,
    }
}

} // verus!
