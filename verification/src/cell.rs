//! Cell values and the raw cells they are decoded from.

use vstd::prelude::*;

verus! {

/// A cell as the document stores it, before any interpretation.
///
/// Floating-point payloads are carried as their IEEE-754 bit patterns, so that
/// no precision is lost and values can be compared exactly.
#[derive(Clone, Debug, PartialEq, Eq)]
pub enum RawCell {
    /// A number stored as a signed integer.
    Int(i64),
    /// A number stored as a double, given by its bits.
    Float(u64),
    /// Text.
    Text(String),
    /// A boolean.
    Bool(bool),
    /// A number with a date or time format: its bits, and whether the format
    /// is that of a duration.
    DateTime(u64, bool),
    /// A date, time or datetime written in ISO 8601.
    DateTimeIso(String),
    /// A duration written in ISO 8601.
    DurationIso(String),
    /// A formula error, by its code (such as `#DIV/0!`).
    Error(String),
    /// No content.
    Empty,
}

/// The content of one cell.
#[derive(Clone, Debug, PartialEq, Eq)]
pub enum CellValue {
    /// No content.
    Empty,
    /// Text, exactly as stored.
    Text(String),
    /// A signed integer.
    Integer(i64),
    /// A double, given by its IEEE-754 bits.
    Float(u64),
    /// A boolean.
    Boolean(bool),
    /// A point in time: the serial number stored in the document, as bits.
    DateTime(u64),
    /// A span of time: the serial number stored in the document, as bits.
    Duration(u64),
    /// A formula error, by its code.
    Error(String),
}

/// The cell value that a raw cell stands for.
///
/// Every raw cell has one. Numbers keep their storage class, a number with a
/// temporal format becomes a `DateTime` or a `Duration` according to the
/// format, and ISO 8601 text is kept verbatim as text. Nothing but a blank
/// cell becomes `Empty`.
pub open spec fn cell_value_of(raw: RawCell) -> CellValue {
    match raw {
        RawCell::Int(v) => CellValue::Integer(v),
        RawCell::Float(bits) => CellValue::Float(bits),
        RawCell::Text(s) => CellValue::Text(s),
        RawCell::Bool(b) => CellValue::Boolean(b),
        RawCell::DateTime(bits, is_duration) => if is_duration {
            CellValue::Duration(bits)
        } else {
            CellValue::DateTime(bits)
        },
        RawCell::DateTimeIso(s) => CellValue::Text(s),
        RawCell::DurationIso(s) => CellValue::Text(s),
        RawCell::Error(code) => CellValue::Error(code),
        RawCell::Empty => CellValue::Empty,
    }
}

impl CellValue {
    /// Decodes a raw cell. There is no failure path.
    pub fn from_raw(raw: &RawCell) -> (res: CellValue)
        ensures
            res == cell_value_of(*raw),
    {
        match raw {
            RawCell::Int(v) => CellValue::Integer(*v),
            RawCell::Float(bits) => CellValue::Float(*bits),
            RawCell::Text(s) => CellValue::Text(s.clone()),
            RawCell::Bool(b) => CellValue::Boolean(*b),
            RawCell::DateTime(bits, is_duration) => {
                if *is_duration {
                    CellValue::Duration(*bits)
                } else {
                    CellValue::DateTime(*bits)
                }
            },
            RawCell::DateTimeIso(s) => CellValue::Text(s.clone()),
            RawCell::DurationIso(s) => CellValue::Text(s.clone()),
            RawCell::Error(code) => CellValue::Error(code.clone()),
            RawCell::Empty => CellValue::Empty,
        }
    }

    /// Whether the cell holds nothing.
    pub fn is_empty(&self) -> (res: bool)
        ensures
            res == (*self == CellValue::Empty),
    {
        match self {
            CellValue::Empty => true,
            _ => false,
        }
    }
}

} // verus!
