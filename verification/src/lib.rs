//! A uniform sheet and cell model over spreadsheet documents read with calamine.
//!
//! A sheet is either read whole into a grid (`sheet`) or produced cell by cell
//! (`lazy`). Both hand out the same cell values (`cell`).

pub mod cell;
pub mod dimensions;
pub mod lazy;
pub mod metadata;
pub mod range;
pub mod sheet;
