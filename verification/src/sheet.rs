//! A sheet that was read whole: shape queries and export of its rows.

use crate::cell::{cell_value_of, CellValue, RawCell};
use crate::range::{
    grid_covers, grid_end_col, grid_end_row, grid_height, grid_width, range_cell, range_end, range_height,
    range_origin, range_rows, range_start, range_width, range_window, window_rows,
};
use std::sync::Arc;
use vstd::prelude::*;
use vstd::string::StringExecFns;

verus! {

/// The rows that a caller receives, as sequences.
pub open spec fn rows_view(rows: Vec<Vec<CellValue>>) -> Seq<Seq<CellValue>> {
    Seq::new(rows.len() as nat, |i: int| rows[i]@)
}

/// The first `count` rows, or all of them where there are fewer, each cell
/// decoded.
pub open spec fn decoded_rows(rows: Seq<Seq<RawCell>>, count: nat) -> Seq<Seq<CellValue>> {
    Seq::new(
        if count <= rows.len() {
            count
        } else {
            rows.len()
        },
        |i: int| Seq::new(rows[i].len(), |j: int| cell_value_of(rows[i][j])),
    )
}

/// Decodes the first `count` rows of a range.
fn decode_rows(r: &calamine::Range<calamine::Data>, count: u64) -> (res: Vec<Vec<CellValue>>)
    ensures
        rows_view(res) == decoded_rows(range_rows(*r), count as nat),
        res.len() == decoded_rows(range_rows(*r), count as nat).len(),
{
    let height = range_height(r);
    let width = range_width(r);
    let wanted: usize = if height as u64 <= count {
        height
    } else {
        count as usize
    };
    let mut out: Vec<Vec<CellValue>> = Vec::new();
    let mut i: usize = 0;
    while i < wanted
        invariant
            i <= wanted <= height,
            height == grid_height(*r),
            width == grid_width(*r),
            forall|k: int| 0 <= k < grid_height(*r) ==> (#[trigger] range_rows(*r)[k]).len() == width,
            out.len() == i,
            forall|k: int|
                0 <= k < i ==> (#[trigger] out[k])@ == Seq::new(
                    range_rows(*r)[k].len(),
                    |j: int| cell_value_of(range_rows(*r)[k][j]),
                ),
        decreases wanted - i,
    {
        let mut row: Vec<CellValue> = Vec::new();
        let mut j: usize = 0;
        while j < width
            invariant
                i < height,
                j <= width,
                height == grid_height(*r),
                width == grid_width(*r),
                range_rows(*r)[i as int].len() == width,
                row.len() == j,
                forall|c: int| 0 <= c < j ==> #[trigger] row[c] == cell_value_of(range_rows(*r)[i as int][c]),
            decreases width - j,
        {
            let raw = range_cell(r, i, j).unwrap();
            row.push(CellValue::from_raw(&raw));
            j += 1;
        }
        out.push(row);
        i += 1;
    }
    out
}

/// A sheet whose cells were all read into a grid.
///
/// The grid is fixed once the sheet is made: it is held behind a shared
/// pointer and no method changes it.
pub struct CalamineSheet {
    name: String,
    range: Arc<calamine::Range<calamine::Data>>,
}

impl CalamineSheet {
    /// The sheet's name, as characters.
    pub closed spec fn spec_name(&self) -> Seq<char> {
        self.name@
    }

    /// The grid that backs the sheet.
    pub closed spec fn grid(&self) -> calamine::Range<calamine::Data> {
        *self.range
    }

    /// The number of rows of the grid.
    pub open spec fn spec_height(&self) -> nat {
        grid_height(self.grid())
    }

    /// The number of columns of the grid.
    pub open spec fn spec_width(&self) -> nat {
        grid_width(self.grid())
    }

    /// Whether the sheet has no cell.
    pub open spec fn spec_is_empty(&self) -> bool {
        grid_height(self.grid()) == 0
    }

    /// One more than the row of the last cell, zero for a sheet without cells.
    pub open spec fn spec_total_height(&self) -> nat {
        if self.spec_is_empty() {
            0
        } else {
            (grid_end_row(self.grid()) + 1) as nat
        }
    }

    /// One more than the column of the last cell, zero for a sheet without
    /// cells.
    pub open spec fn spec_total_width(&self) -> nat {
        if self.spec_is_empty() {
            0
        } else {
            (grid_end_col(self.grid()) + 1) as nat
        }
    }

    /// The position of the first cell, absent for a sheet without cells.
    pub open spec fn spec_start(&self) -> Option<(u32, u32)> {
        if self.spec_is_empty() {
            None
        } else {
            Some(range_origin(self.grid()))
        }
    }

    /// The number of rows asked for: the limit where one is given, else the
    /// total height.
    pub open spec fn rows_wanted(&self, row_limit: Option<u32>) -> nat {
        match row_limit {
            Some(n) => n as nat,
            None => self.spec_total_height(),
        }
    }

    /// Whether an export lays a window over the grid: the caller keeps the
    /// empty margins, the grid does not begin at the sheet's first cell, and at
    /// least one row is asked for.
    pub open spec fn reslices(&self, skip_empty_area: bool, row_limit: Option<u32>) -> bool {
        &&& !skip_empty_area
        &&& !self.spec_is_empty()
        &&& range_origin(self.grid()) != (0u32, 0u32)
        &&& self.rows_wanted(row_limit) > 0
    }

    /// The last row of that window: the grid's last row where more rows are
    /// asked for than lie above and in the grid, else one less than the number
    /// asked for.
    pub open spec fn window_bottom(&self, row_limit: Option<u32>) -> int {
        if self.rows_wanted(row_limit) > grid_end_row(self.grid()) {
            grid_end_row(self.grid())
        } else {
            self.rows_wanted(row_limit) - 1
        }
    }

    /// The rows that an export reads: the window from the sheet's first cell to
    /// the window's last row and the grid's last column where it reslices, else
    /// the grid's own rows.
    pub open spec fn source_rows(&self, skip_empty_area: bool, row_limit: Option<u32>) -> Seq<
        Seq<RawCell>,
    > {
        if self.reslices(skip_empty_area, row_limit) {
            window_rows(self.grid(), 0, 0, self.window_bottom(row_limit), grid_end_col(self.grid()))
        } else {
            range_rows(self.grid())
        }
    }

    /// What an export yields: the first `rows_wanted` rows of `source_rows`,
    /// decoded.
    pub open spec fn exported(&self, skip_empty_area: bool, row_limit: Option<u32>) -> Seq<
        Seq<CellValue>,
    > {
        decoded_rows(self.source_rows(skip_empty_area, row_limit), self.rows_wanted(row_limit))
    }

    /// Whether the window of an export can be built: it holds no more than
    /// `u32::MAX` cells. An export that lays no window can always be made.
    pub open spec fn exportable(&self, skip_empty_area: bool, row_limit: Option<u32>) -> bool {
        self.reslices(skip_empty_area, row_limit) ==> (self.window_bottom(row_limit) + 1) * (
        grid_end_col(self.grid()) + 1) <= u32::MAX
    }

    /// A sheet over a grid.
    pub fn new(name: String, range: calamine::Range<calamine::Data>) -> (res: Self)
        ensures
            res.spec_name() == name@,
            res.grid() == range,
    {
        CalamineSheet { name, range: Arc::new(range) }
    }

    /// The sheet as it is shown.
    pub open spec fn spec_repr(&self) -> Seq<char> {
        "CalamineSheet(name='"@ + self.spec_name() + "')"@
    }

    /// The sheet as it is shown: its name between quotes.
    pub fn repr(&self) -> (res: String)
        ensures
            res@ == self.spec_repr(),
    {
        let mut out = String::from_str("CalamineSheet(name='");
        out.append(self.name.as_str());
        out.append("')");
        out
    }

    /// The sheet's name.
    pub fn name(&self) -> (res: &String)
        ensures
            res@ == self.spec_name(),
    {
        &self.name
    }

    /// The number of rows of the grid.
    pub fn height(&self) -> (res: usize)
        ensures
            res == self.spec_height(),
            res <= self.spec_total_height(),
    {
        range_height(&self.range)
    }

    /// The number of columns of the grid.
    pub fn width(&self) -> (res: usize)
        ensures
            res == self.spec_width(),
            res <= self.spec_total_width(),
    {
        range_width(&self.range)
    }

    /// One more than the row of the last cell, zero for a sheet without cells.
    pub fn total_height(&self) -> (res: u64)
        ensures
            res == self.spec_total_height(),
    {
        match range_end(&self.range) {
            Some(end) => end.0 as u64 + 1,
            None => 0,
        }
    }

    /// One more than the column of the last cell, zero for a sheet without
    /// cells.
    pub fn total_width(&self) -> (res: u64)
        ensures
            res == self.spec_total_width(),
    {
        match range_end(&self.range) {
            Some(end) => end.1 as u64 + 1,
            None => 0,
        }
    }

    /// The position of the first cell, absent for a sheet without cells.
    pub fn start(&self) -> (res: Option<(u32, u32)>)
        ensures
            res == self.spec_start(),
    {
        range_start(&self.range)
    }

    /// The position of the last cell, absent for a sheet without cells.
    pub fn end(&self) -> (res: Option<(u32, u32)>)
        ensures
            res is None <==> self.spec_is_empty(),
            res matches Some(e) ==> e.0 == grid_end_row(self.grid()) && e.1 == grid_end_col(
                self.grid(),
            ),
    {
        range_end(&self.range)
    }

    /// The rows of the sheet from top to bottom, each from left to right, each
    /// cell decoded as it is read.
    ///
    /// With `skip_empty_area`, or on a grid that begins at the sheet's first
    /// cell, the rows are the grid's own. Else they begin at the sheet's first
    /// row and column, with empty cells before the grid. At most `row_limit`
    /// rows come back; without a limit, as many as the total height.
    pub fn export(&self, skip_empty_area: bool, row_limit: Option<u32>) -> (res: Vec<
        Vec<CellValue>,
    >)
        requires
            self.exportable(skip_empty_area, row_limit),
        ensures
            rows_view(res) == self.exported(skip_empty_area, row_limit),
            res.len() == self.exported(skip_empty_area, row_limit).len(),
    {
        let end = range_end(&self.range);
        let wanted: u64 = match row_limit {
            Some(n) => n as u64,
            None => match end {
                Some(e) => e.0 as u64 + 1,
                None => 0,
            },
        };
        let start = range_start(&self.range);
        if skip_empty_area || wanted == 0 {
            return decode_rows(&self.range, wanted);
        }
        match (start, end) {
            (Some(s), Some(e)) => {
                if s.0 == 0 && s.1 == 0 {
                    decode_rows(&self.range, wanted)
                } else {
                    let bottom: u32 = if wanted > e.0 as u64 {
                        e.0
                    } else {
                        (wanted - 1) as u32
                    };
                    proof {
                        let rows = bottom + 1;
                        let cols = e.1 + 1;
                        assert(rows <= u32::MAX && cols <= u32::MAX) by (nonlinear_arith)
                            requires
                                rows >= 1,
                                cols >= 1,
                                rows * cols <= u32::MAX,
                        ;
                    }
                    let window = range_window(&self.range, (0, 0), (bottom, e.1));
                    decode_rows(&window, wanted)
                }
            },
            _ => decode_rows(&self.range, wanted),
        }
    }

    /// Tests `exportable` and exports where it holds.
    pub fn try_export(&self, skip_empty_area: bool, row_limit: Option<u32>) -> (res: Option<
        Vec<Vec<CellValue>>,
    >)
        ensures
            res is Some <==> self.exportable(skip_empty_area, row_limit),
            res matches Some(rows) ==> rows_view(rows) == self.exported(skip_empty_area, row_limit),
            res matches Some(rows) ==> rows.len() == self.exported(
                skip_empty_area,
                row_limit,
            ).len(),
    {
        let end = range_end(&self.range);
        let start = range_start(&self.range);
        let fits = match (start, end, row_limit) {
            (Some(s), Some(e), Some(n)) => {
                if skip_empty_area || (s.0 == 0 && s.1 == 0) || n == 0 {
                    true
                } else {
                    let bottom: u32 = if n > e.0 {
                        e.0
                    } else {
                        (n - 1) as u32
                    };
                    window_fits(bottom, e.1)
                }
            },
            (Some(s), Some(e), None) => {
                skip_empty_area || (s.0 == 0 && s.1 == 0) || window_fits(e.0, e.1)
            },
            _ => true,
        };
        if fits {
            Some(self.export(skip_empty_area, row_limit))
        } else {
            None
        }
    }
}

/// Whether a window from the sheet's first cell to `(bottom, right)` holds no
/// more than `u32::MAX` cells.
pub fn window_fits(bottom: u32, right: u32) -> (res: bool)
    ensures
        res == ((bottom + 1) * (right + 1) <= u32::MAX),
{
    let rows: u64 = bottom as u64 + 1;
    let cols: u64 = right as u64 + 1;
    let limit: u64 = u32::MAX as u64;
    let most: u64 = limit / cols;
    proof {
        assert(rows * cols <= limit <==> rows <= limit / cols) by (nonlinear_arith)
            requires
                cols > 0,
        ;
    }
    rows <= most
}

/// The grid is never larger than the sheet that it lies in: the height does
/// not exceed the total height, nor the width the total width.
pub proof fn shape_within_total(sheet: CalamineSheet)
    ensures
        sheet.spec_height() <= sheet.spec_total_height(),
        sheet.spec_width() <= sheet.spec_total_width(),
{
}

/// On a grid that begins at the sheet's first cell, an export yields the same
/// rows whether or not the empty margins are skipped, and can always be made.
pub proof fn export_at_origin_ignores_skip(sheet: CalamineSheet, row_limit: Option<u32>)
    requires
        sheet.spec_start() == Some((0u32, 0u32)),
    ensures
        sheet.exported(true, row_limit) == sheet.exported(false, row_limit),
        sheet.exportable(true, row_limit),
        sheet.exportable(false, row_limit),
{
}

/// An export that skips the empty margins can always be made, and yields the
/// grid's own rows, as many as are asked for and no more than the height.
pub proof fn export_skipping_margins_reads_the_grid(sheet: CalamineSheet, row_limit: Option<u32>)
    ensures
        sheet.exportable(true, row_limit),
        sheet.exported(true, row_limit) == decoded_rows(
            range_rows(sheet.grid()),
            sheet.rows_wanted(row_limit),
        ),
        sheet.exported(true, row_limit).len() <= sheet.spec_height(),
        sheet.exported(true, row_limit).len() <= sheet.rows_wanted(row_limit),
{
}

/// On a grid that begins elsewhere, an export that keeps the empty margins
/// yields as many rows as are asked for, but no more than the total height;
/// each row is as wide as the sheet; every cell above the grid's first row or
/// left of its first column is empty; and every cell of the grid stands at its
/// own position in the sheet.
pub proof fn export_keeps_margins(sheet: CalamineSheet, row_limit: Option<u32>)
    requires
        sheet.spec_start() is Some,
        sheet.spec_start() != Some((0u32, 0u32)),
    ensures
        sheet.exported(false, row_limit).len() == (if sheet.rows_wanted(row_limit)
            <= sheet.spec_total_height() {
            sheet.rows_wanted(row_limit)
        } else {
            sheet.spec_total_height()
        }),
        forall|i: int|
            0 <= i < sheet.exported(false, row_limit).len() ==> (#[trigger] sheet.exported(
                false,
                row_limit,
            )[i]).len() == sheet.spec_total_width(),
        forall|i: int, j: int|
            0 <= i < sheet.exported(false, row_limit).len() && 0 <= j < sheet.spec_total_width()
                && (i < range_origin(sheet.grid()).0 || j < range_origin(sheet.grid()).1)
                ==> (#[trigger] sheet.exported(false, row_limit)[i][j]) == CellValue::Empty,
        forall|i: int, j: int|
            0 <= i < sheet.exported(false, row_limit).len() && grid_covers(sheet.grid(), i, j)
                ==> (#[trigger] sheet.exported(false, row_limit)[i][j]) == cell_value_of(
                range_rows(sheet.grid())[i - range_origin(sheet.grid()).0][j - range_origin(
                    sheet.grid(),
                ).1],
            ),
{
}

/// A sheet without cells has height, width, total height and total width
/// zero, and every export of it is empty.
pub proof fn empty_sheet_exports_nothing(
    sheet: CalamineSheet,
    skip_empty_area: bool,
    row_limit: Option<u32>,
)
    requires
        sheet.spec_is_empty(),
    ensures
        sheet.spec_height() == 0,
        sheet.spec_width() == 0,
        sheet.spec_total_height() == 0,
        sheet.spec_total_width() == 0,
        sheet.exportable(skip_empty_area, row_limit),
        sheet.exported(skip_empty_area, row_limit) == Seq::<Seq<CellValue>>::empty(),
{
}

} // verus!
