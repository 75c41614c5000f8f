//! What the library takes on trust from calamine's `Range`.
//!
//! A range is a rectangle of cells that calamine owns. Nothing in this file is
//! proved: each contract restates what calamine's code does. A range is seen
//! as calamine addresses it: `height` rows of `width` cells each, found by
//! `Range::get`, at the sheet position where the range starts.

use crate::cell::RawCell;
use vstd::prelude::*;

verus! {

#[verifier::external_type_specification]
#[verifier::external_body]
#[verifier::reject_recursive_types(T)]
pub struct ExRange<T>(calamine::Range<T>);

#[verifier::external_type_specification]
#[verifier::external_body]
pub struct ExData(calamine::Data);

/// The rows of a range from top to bottom: as many as its height, each of as
/// many cells as its width, each cell as `Range::get` finds it at that row and
/// column of the range, read as a raw cell.
pub uninterp spec fn range_rows(r: calamine::Range<calamine::Data>) -> Seq<Seq<RawCell>>;

/// The position (row, column) that the range's first cell has in the sheet.
pub uninterp spec fn range_origin(r: calamine::Range<calamine::Data>) -> (u32, u32);

/// The number of rows.
pub open spec fn grid_height(r: calamine::Range<calamine::Data>) -> nat {
    range_rows(r).len()
}

/// The number of columns: the length of the first row, zero without rows.
pub open spec fn grid_width(r: calamine::Range<calamine::Data>) -> nat {
    if range_rows(r).len() == 0 {
        0
    } else {
        range_rows(r)[0].len()
    }
}

/// The sheet row of the last row.
pub open spec fn grid_end_row(r: calamine::Range<calamine::Data>) -> int {
    range_origin(r).0 + grid_height(r) - 1
}

/// The sheet column of the last column.
pub open spec fn grid_end_col(r: calamine::Range<calamine::Data>) -> int {
    range_origin(r).1 + grid_width(r) - 1
}

/// Whether a sheet position lies inside the range.
pub open spec fn grid_covers(r: calamine::Range<calamine::Data>, row: int, col: int) -> bool {
    range_origin(r).0 <= row <= grid_end_row(r) && range_origin(r).1 <= col <= grid_end_col(r)
}

/// The cell at a sheet position: the range's own cell inside the range, an
/// empty cell outside it.
pub open spec fn grid_cell(r: calamine::Range<calamine::Data>, row: int, col: int) -> RawCell {
    if grid_covers(r, row, col) {
        range_rows(r)[row - range_origin(r).0][col - range_origin(r).1]
    } else {
        RawCell::Empty
    }
}

/// The rows of the window from `(top, left)` to `(bottom, right)`, both
/// inclusive, laid over the range.
pub open spec fn window_rows(
    r: calamine::Range<calamine::Data>,
    top: int,
    left: int,
    bottom: int,
    right: int,
) -> Seq<Seq<RawCell>> {
    Seq::new(
        (bottom - top + 1) as nat,
        |i: int| Seq::new((right - left + 1) as nat, |j: int| grid_cell(r, top + i, left + j)),
    )
}

/// `Range::start`: absent for a range without cells, else the position of the
/// first cell.
#[verifier::external_body]
pub(crate) fn range_start(r: &calamine::Range<calamine::Data>) -> (res: Option<(u32, u32)>)
    ensures
        res == (if grid_height(*r) == 0 {
            None
        } else {
            Some(range_origin(*r))
        }),
{
    r.start()
}

/// `Range::end`: absent for a range without cells, else the position of the
/// last cell, which lies one less than the height below the first row and one
/// less than the width right of the first column.
#[verifier::external_body]
pub(crate) fn range_end(r: &calamine::Range<calamine::Data>) -> (res: Option<(u32, u32)>)
    ensures
        res is None <==> grid_height(*r) == 0,
        res is Some ==> res.unwrap().0 == grid_end_row(*r),
        res is Some ==> res.unwrap().1 == grid_end_col(*r),
{
    r.end()
}

/// `Range::height`: the number of rows.
#[verifier::external_body]
pub(crate) fn range_height(r: &calamine::Range<calamine::Data>) -> (res: usize)
    ensures
        res == grid_height(*r),
{
    r.height()
}

/// `Range::width`: the number of columns, which every row has.
#[verifier::external_body]
pub(crate) fn range_width(r: &calamine::Range<calamine::Data>) -> (res: usize)
    ensures
        res == grid_width(*r),
        forall|i: int| 0 <= i < grid_height(*r) ==> (#[trigger] range_rows(*r)[i]).len() == res,
{
    r.width()
}

/// `Range::get`: the cell at a position counted from the range's first cell,
/// absent outside the range. The cell comes back as a raw cell: variant for
/// variant, floats as their bits, an error as the text of its code.
#[verifier::external_body]
pub(crate) fn range_cell(r: &calamine::Range<calamine::Data>, row: usize, col: usize) -> (res:
    Option<RawCell>)
    ensures
        res == (if row < grid_height(*r) && col < grid_width(*r) {
            Some(range_rows(*r)[row as int][col as int])
        } else {
            None
        }),
{
    Some(match r.get((row, col))? {
        calamine::Data::Int(v) => RawCell::Int(*v),
        calamine::Data::Float(v) => RawCell::Float(v.to_bits()),
        calamine::Data::String(v) => RawCell::Text(v.clone()),
        calamine::Data::Bool(v) => RawCell::Bool(*v),
        calamine::Data::DateTime(v) => RawCell::DateTime(v.as_f64().to_bits(), v.is_duration()),
        calamine::Data::DateTimeIso(v) => RawCell::DateTimeIso(v.clone()),
        calamine::Data::DurationIso(v) => RawCell::DurationIso(v.clone()),
        calamine::Data::Error(e) => RawCell::Error(e.to_string()),
        calamine::Data::Empty => RawCell::Empty,
    })
}

/// `Range::range`: a new range from `start` to `end`, both inclusive, whose
/// cells are copies of this range's cells where the two overlap and empty
/// elsewhere.
///
/// calamine allocates `rows * columns` cells, counted in `u32`, adds one to
/// the last row and column that the two share, and walks this range in chunks
/// of its width. So the window holds no more than `u32::MAX` cells, ends
/// before row and column `u32::MAX`, and this range has cells.
#[verifier::external_body]
pub(crate) fn range_window(
    r: &calamine::Range<calamine::Data>,
    start: (u32, u32),
    end: (u32, u32),
) -> (res: calamine::Range<calamine::Data>)
    requires
        grid_height(*r) > 0,
        start.0 <= end.0,
        start.1 <= end.1,
        end.0 < u32::MAX,
        end.1 < u32::MAX,
        (end.0 - start.0 + 1) * (end.1 - start.1 + 1) <= u32::MAX,
    ensures
        range_origin(res) == start,
        range_rows(res) == window_rows(*r, start.0 as int, start.1 as int, end.0 as int, end.1 as int),
{
    r.range(start, end)
}

} // verus!
