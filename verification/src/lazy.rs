//! A sheet that is read cell by cell, once, from first to last.
//!
//! The cursor that decodes the document lives with the caller. The sheet here
//! holds what must be remembered between two reads and decides what each
//! report of the cursor means for the consumer.

use crate::cell::{cell_value_of, CellValue, RawCell};
use crate::dimensions::Dimensions;
use vstd::prelude::*;

verus! {

/// A cell with its position in the sheet.
#[derive(Clone, Debug, PartialEq, Eq)]
pub struct LazyCell {
    /// The row, counted from zero.
    pub row: u32,
    /// The column, counted from zero.
    pub col: u32,
    /// The content.
    pub value: CellValue,
}

/// What the underlying cursor reported when it was asked for a cell.
#[derive(Clone, Debug, PartialEq, Eq)]
pub enum ReadEvent {
    /// A cell at (row, column).
    Cell(u32, u32, RawCell),
    /// No cell is left.
    End,
    /// The document could not be read further.
    Failed,
}

/// The one error of a lazy sheet: the underlying cursor failed.
#[derive(Clone, Copy, Debug, PartialEq, Eq, Structural)]
pub struct ReadError;

/// What the consumer receives for a report of the cursor, on a sheet that is
/// or is not exhausted: nothing more once exhausted; else the cell decoded,
/// the end, or the error.
pub open spec fn delivered(exhausted: bool, event: ReadEvent) -> Result<Option<LazyCell>, ReadError> {
    if exhausted {
        Ok(None)
    } else {
        match event {
            ReadEvent::Cell(row, col, raw) => Ok(Some(LazyCell { row, col, value: cell_value_of(raw) })),
            ReadEvent::End => Ok(None),
            ReadEvent::Failed => Err(ReadError),
        }
    }
}

/// Whether a sheet is exhausted after a report of the cursor: it stays so, and
/// becomes so with the end and with a failure.
pub open spec fn exhausted_after(exhausted: bool, event: ReadEvent) -> bool {
    exhausted || !(event is Cell)
}

/// The smallest box that holds a box, where there is one, and a position.
pub open spec fn grown(seen: Option<Dimensions>, row: u32, col: u32) -> Dimensions {
    match seen {
        None => Dimensions { start: (row, col), end: (row, col) },
        Some(d) => Dimensions {
            start: (
                if row < d.start.0 {
                    row
                } else {
                    d.start.0
                },
                if col < d.start.1 {
                    col
                } else {
                    d.start.1
                },
            ),
            end: (
                if row > d.end.0 {
                    row
                } else {
                    d.end.0
                },
                if col > d.end.1 {
                    col
                } else {
                    d.end.1
                },
            ),
        },
    }
}

/// The box of the cells delivered so far, after a report of the cursor: it
/// grows with a cell that is delivered and is else unchanged.
pub open spec fn seen_after(exhausted: bool, seen: Option<Dimensions>, event: ReadEvent) -> Option<
    Dimensions,
> {
    if exhausted {
        seen
    } else {
        match event {
            ReadEvent::Cell(row, col, _) => Some(grown(seen, row, col)),
            _ => seen,
        }
    }
}

/// The smallest box that holds a box, where there is one, and a position.
pub fn grow(seen: Option<Dimensions>, row: u32, col: u32) -> (res: Dimensions)
    ensures
        res == grown(seen, row, col),
{
    match seen {
        None => Dimensions { start: (row, col), end: (row, col) },
        Some(d) => {
            let top = if row < d.start.0 {
                row
            } else {
                d.start.0
            };
            let left = if col < d.start.1 {
                col
            } else {
                d.start.1
            };
            let bottom = if row > d.end.0 {
                row
            } else {
                d.end.0
            };
            let right = if col > d.end.1 {
                col
            } else {
                d.end.1
            };
            Dimensions { start: (top, left), end: (bottom, right) }
        },
    }
}

/// A box grown by a position is well formed, holds the position, and holds
/// every position that the box held before.
pub proof fn grown_holds_what_was_seen(seen: Option<Dimensions>, row: u32, col: u32)
    requires
        seen matches Some(d) ==> d.well_formed(),
    ensures
        grown(seen, row, col).well_formed(),
        grown(seen, row, col).spec_contains(row, col),
        seen matches Some(d) ==> forall|r: u32, c: u32| #[trigger]
            d.spec_contains(r, c) ==> grown(seen, row, col).spec_contains(r, c),
{
}

/// A sheet whose cells are produced one at a time.
pub struct CalamineLazySheet {
    name: String,
    dimensions: Dimensions,
    seen: Option<Dimensions>,
    exhausted: bool,
}

impl CalamineLazySheet {
    /// The sheet's name, as characters.
    pub closed spec fn spec_name(&self) -> Seq<char> {
        self.name@
    }

    /// The bounding box last reported.
    pub closed spec fn spec_dimensions(&self) -> Dimensions {
        self.dimensions
    }

    /// Whether the end or a failure was seen.
    pub closed spec fn spec_exhausted(&self) -> bool {
        self.exhausted
    }

    /// The smallest box that holds the cells delivered so far, absent before
    /// the first.
    pub closed spec fn spec_seen(&self) -> Option<Dimensions> {
        self.seen
    }

    #[verifier::type_invariant]
    spec fn seen_is_well_formed(self) -> bool {
        self.seen matches Some(d) ==> d.well_formed()
    }

    /// A sheet at its start, with the bounding box that the cursor reports
    /// before any cell is read.
    pub fn new(name: String, dimensions: Dimensions) -> (res: Self)
        ensures
            res.spec_name() == name@,
            res.spec_dimensions() == dimensions,
            res.spec_seen() is None,
            !res.spec_exhausted(),
    {
        CalamineLazySheet { name, dimensions, seen: None, exhausted: false }
    }

    /// The smallest box that holds the cells delivered so far, absent before
    /// the first. It is well formed, and may fall short of the document's box
    /// until the sheet is exhausted.
    pub fn seen(&self) -> (res: Option<Dimensions>)
        ensures
            res == self.spec_seen(),
            res matches Some(d) ==> d.well_formed(),
    {
        proof {
            use_type_invariant(self);
        }
        self.seen
    }

    /// The sheet's name.
    pub fn name(&self) -> (res: &String)
        ensures
            res@ == self.spec_name(),
    {
        &self.name
    }

    /// The bounding box last reported. It may fall short of the document's
    /// until the sheet is exhausted.
    pub fn dimensions(&self) -> (res: Dimensions)
        ensures
            res == self.spec_dimensions(),
    {
        self.dimensions
    }

    /// Takes note of the bounding box that the cursor reports now.
    pub fn record_dimensions(&mut self, dimensions: Dimensions)
        ensures
            final(self).spec_dimensions() == dimensions,
            final(self).spec_name() == old(self).spec_name(),
            final(self).spec_seen() == old(self).spec_seen(),
            final(self).spec_exhausted() == old(self).spec_exhausted(),
    {
        proof {
            use_type_invariant(&*self);
        }
        self.dimensions = dimensions;
    }

    /// Whether the end or a failure was seen.
    pub fn is_exhausted(&self) -> (res: bool)
        ensures
            res == self.spec_exhausted(),
    {
        self.exhausted
    }

    /// Whether the cursor is to be asked for a cell before `next` is called:
    /// only while the sheet is not exhausted.
    pub fn wants_read(&self) -> (res: bool)
        ensures
            res == !self.spec_exhausted(),
    {
        !self.exhausted
    }

    /// Hands the consumer what the cursor's report means, and remembers the
    /// end, a failure, and the box of the cells delivered. On an exhausted
    /// sheet the report is ignored.
    pub fn next(&mut self, event: ReadEvent) -> (res: Result<Option<LazyCell>, ReadError>)
        ensures
            res == delivered(old(self).spec_exhausted(), event),
            final(self).spec_exhausted() == exhausted_after(old(self).spec_exhausted(), event),
            final(self).spec_seen() == seen_after(
                old(self).spec_exhausted(),
                old(self).spec_seen(),
                event,
            ),
            final(self).spec_name() == old(self).spec_name(),
            final(self).spec_dimensions() == old(self).spec_dimensions(),
    {
        proof {
            use_type_invariant(&*self);
        }
        if self.exhausted {
            return Ok(None);
        }
        match event {
            ReadEvent::Cell(row, col, raw) => {
                proof {
                    grown_holds_what_was_seen(self.seen, row, col);
                }
                self.seen = Some(grow(self.seen, row, col));
                Ok(Some(LazyCell { row, col, value: CellValue::from_raw(&raw) }))
            },
            ReadEvent::End => {
                self.exhausted = true;
                Ok(None)
            },
            ReadEvent::Failed => {
                self.exhausted = true;
                Err(ReadError)
            },
        }
    }
}

/// The sheet's state after a run of reports, from first to last.
pub open spec fn exhausted_after_all(exhausted: bool, events: Seq<ReadEvent>) -> bool
    decreases events.len(),
{
    if events.len() == 0 {
        exhausted
    } else {
        exhausted_after_all(exhausted_after(exhausted, events[0]), events.skip(1))
    }
}

/// Exhaustion is final: once a sheet is exhausted, it stays so whatever the
/// cursor reports afterwards, and every later call yields the end and no
/// cell.
pub proof fn exhaustion_is_final(events: Seq<ReadEvent>, event: ReadEvent)
    ensures
        exhausted_after_all(true, events),
        delivered(exhausted_after_all(true, events), event) == Ok::<Option<LazyCell>, ReadError>(None),
    decreases events.len(),
{
    if events.len() > 0 {
        exhaustion_is_final(events.skip(1), event);
    }
}

/// A failure ends the sheet at the point where it occurs: the consumer
/// receives the error there, and the sheet is exhausted.
pub proof fn failure_is_terminal(exhausted: bool)
    ensures
        !exhausted ==> delivered(exhausted, ReadEvent::Failed) == Err::<Option<LazyCell>, ReadError>(
            ReadError,
        ),
        exhausted_after(exhausted, ReadEvent::Failed),
        exhausted_after(exhausted, ReadEvent::End),
{
}

/// What the consumer receives for a run of reports, one result for each.
pub open spec fn delivered_all(exhausted: bool, events: Seq<ReadEvent>) -> Seq<
    Result<Option<LazyCell>, ReadError>,
>
    decreases events.len(),
{
    if events.len() == 0 {
        Seq::empty()
    } else {
        seq![delivered(exhausted, events[0])] + delivered_all(
            exhausted_after(exhausted, events[0]),
            events.skip(1),
        )
    }
}

/// Whether every report before place `k` is a cell.
pub open spec fn cells_before(events: Seq<ReadEvent>, k: int) -> bool {
    forall|j: int| 0 <= j < k ==> (#[trigger] events[j]) is Cell
}

proof fn delivered_all_len(exhausted: bool, events: Seq<ReadEvent>)
    ensures
        delivered_all(exhausted, events).len() == events.len(),
    decreases events.len(),
{
    if events.len() > 0 {
        delivered_all_len(exhausted_after(exhausted, events[0]), events.skip(1));
    }
}

proof fn delivered_all_at(exhausted: bool, events: Seq<ReadEvent>, k: int)
    requires
        0 <= k < events.len(),
    ensures
        delivered_all(exhausted, events).len() == events.len(),
        delivered_all(exhausted, events)[k] == delivered(
            exhausted_after_all(exhausted, events.take(k)),
            events[k],
        ),
    decreases events.len(),
{
    let next = exhausted_after(exhausted, events[0]);
    delivered_all_len(exhausted, events);
    delivered_all_len(next, events.skip(1));
    if k > 0 {
        delivered_all_at(next, events.skip(1), k - 1);
        assert(events.skip(1).take(k - 1) =~= events.take(k).skip(1));
    }
}

proof fn active_while_cells(events: Seq<ReadEvent>)
    ensures
        exhausted_after_all(false, events) == !cells_before(events, events.len() as int),
    decreases events.len(),
{
    if events.len() > 0 {
        let rest = events.skip(1);
        if events[0] is Cell {
            active_while_cells(rest);
            if cells_before(rest, rest.len() as int) {
                assert forall|j: int| 0 <= j < events.len() implies (#[trigger] events[j]) is Cell by {
                    if j > 0 {
                        assert(rest[j - 1] is Cell);
                    }
                }
            } else {
                let j = choose|j: int| 0 <= j < rest.len() && !((#[trigger] rest[j]) is Cell);
                assert(!(events[j + 1] is Cell));
            }
        } else {
            exhaustion_is_final(rest, ReadEvent::End);
        }
    }
}

/// A run of reports reaches the consumer in the cursor's order, one result
/// for each report. As long as every report so far was a cell, the consumer
/// receives what the report at that place means: the cell at its own row and
/// column, the end, or the error. After the first report that was no cell, the
/// consumer receives the end and nothing else.
pub proof fn delivery_follows_the_cursor(events: Seq<ReadEvent>, k: int)
    requires
        0 <= k < events.len(),
    ensures
        delivered_all(false, events).len() == events.len(),
        cells_before(events, k) ==> delivered_all(false, events)[k] == delivered(false, events[k]),
        !cells_before(events, k) ==> delivered_all(false, events)[k] == Ok::<
            Option<LazyCell>,
            ReadError,
        >(None),
{
    delivered_all_at(false, events, k);
    active_while_cells(events.take(k));
    assert(cells_before(events.take(k), k) == cells_before(events, k)) by {
        if cells_before(events, k) {
            assert forall|j: int| 0 <= j < k implies (#[trigger] events.take(k)[j]) is Cell by {
                assert(events[j] is Cell);
            }
        }
        if cells_before(events.take(k), k) {
            assert forall|j: int| 0 <= j < k implies (#[trigger] events[j]) is Cell by {
                assert(events.take(k)[j] is Cell);
            }
        }
    }
}

/// Where the cursor reports its cells by rows that never decrease, the
/// consumer receives them by rows that never decrease.
pub proof fn rows_keep_the_cursor_order(events: Seq<ReadEvent>, i: int, k: int)
    requires
        0 <= i <= k < events.len(),
        forall|a: int, b: int|
            0 <= a <= b < events.len() && (#[trigger] events[a]) is Cell && (
            #[trigger] events[b]) is Cell ==> events[a]->Cell_0 <= events[b]->Cell_0,
        delivered_all(false, events)[i] matches Ok(Some(_)),
        delivered_all(false, events)[k] matches Ok(Some(_)),
    ensures
        delivered_all(false, events)[i]->Ok_0->Some_0.row <= delivered_all(
            false,
            events,
        )[k]->Ok_0->Some_0.row,
{
    delivery_follows_the_cursor(events, i);
    delivery_follows_the_cursor(events, k);
}

} // verus!
