use calamine_sheet::cell::{CellValue, RawCell};
use calamine_sheet::dimensions::Dimensions;
use calamine_sheet::lazy::{grow, CalamineLazySheet, LazyCell, ReadError, ReadEvent};

fn fresh() -> CalamineLazySheet {
    CalamineLazySheet::new(String::from("Data"), Dimensions::new((0, 0), (9, 4)))
}

#[test]
fn new_lazy_sheet_is_active() {
    let sheet = fresh();
    assert_eq!(sheet.name(), "Data");
    assert!(!sheet.is_exhausted());
    assert!(sheet.wants_read());
    assert_eq!(sheet.dimensions(), Dimensions::new((0, 0), (9, 4)));
}

#[test]
fn cells_are_delivered_decoded_and_in_place() {
    let mut sheet = fresh();
    let got = sheet.next(ReadEvent::Cell(2, 3, RawCell::Int(42)));
    assert_eq!(got, Ok(Some(LazyCell { row: 2, col: 3, value: CellValue::Integer(42) })));
    let got = sheet.next(ReadEvent::Cell(2, 4, RawCell::DateTime(7, true)));
    assert_eq!(got, Ok(Some(LazyCell { row: 2, col: 4, value: CellValue::Duration(7) })));
    assert!(!sheet.is_exhausted());
}

#[test]
fn end_of_data_exhausts_the_sheet() {
    let mut sheet = fresh();
    assert_eq!(sheet.next(ReadEvent::End), Ok(None));
    assert!(sheet.is_exhausted());
    assert!(!sheet.wants_read());
}

#[test]
fn next_after_exhaustion_never_resurrects_data() {
    let mut sheet = fresh();
    assert_eq!(sheet.next(ReadEvent::End), Ok(None));
    for _ in 0..5 {
        assert_eq!(sheet.next(ReadEvent::Cell(0, 0, RawCell::Int(1))), Ok(None));
        assert_eq!(sheet.next(ReadEvent::Failed), Ok(None));
        assert_eq!(sheet.next(ReadEvent::End), Ok(None));
        assert!(sheet.is_exhausted());
    }
}

#[test]
fn truncated_stream_ends_in_an_error_not_in_silence() {
    let mut sheet = fresh();
    let mut rows_seen = Vec::new();
    for row in 0..6u32 {
        for col in 0..5u32 {
            match sheet.next(ReadEvent::Cell(row, col, RawCell::Int(i64::from(row * 5 + col)))) {
                Ok(Some(cell)) => {
                    assert_eq!(cell.row, row);
                    assert_eq!(cell.col, col);
                    assert_eq!(cell.value, CellValue::Integer(i64::from(row * 5 + col)));
                    rows_seen.push(cell.row);
                }
                other => panic!("no cell came: {:?}", other),
            }
        }
    }
    assert_eq!(rows_seen.len(), 30);
    assert_eq!(rows_seen.first(), Some(&0));
    assert_eq!(rows_seen.last(), Some(&5));
    assert_eq!(sheet.next(ReadEvent::Failed), Err(ReadError));
    assert!(sheet.is_exhausted());
    assert_eq!(sheet.next(ReadEvent::Cell(6, 0, RawCell::Int(0))), Ok(None));
    assert_eq!(sheet.dimensions(), Dimensions::new((0, 0), (9, 4)));
}

#[test]
fn recorded_dimensions_replace_the_earlier_ones() {
    let mut sheet = fresh();
    sheet.record_dimensions(Dimensions::new((0, 0), (11, 6)));
    assert_eq!(sheet.dimensions(), Dimensions::new((0, 0), (11, 6)));
    assert!(!sheet.is_exhausted());
    assert_eq!(sheet.name(), "Data");
}

#[test]
fn box_of_delivered_cells_grows_with_each_cell() {
    let mut sheet = fresh();
    assert_eq!(sheet.seen(), None);
    assert!(sheet.next(ReadEvent::Cell(2, 3, RawCell::Int(1))).is_ok());
    assert_eq!(sheet.seen(), Some(Dimensions::new((2, 3), (2, 3))));
    assert!(sheet.next(ReadEvent::Cell(2, 1, RawCell::Empty)).is_ok());
    assert_eq!(sheet.seen(), Some(Dimensions::new((2, 1), (2, 3))));
    assert!(sheet.next(ReadEvent::Cell(5, 2, RawCell::Bool(true))).is_ok());
    assert_eq!(sheet.seen(), Some(Dimensions::new((2, 1), (5, 3))));
    assert_eq!(sheet.next(ReadEvent::End), Ok(None));
    assert_eq!(sheet.seen(), Some(Dimensions::new((2, 1), (5, 3))));
    assert_eq!(sheet.next(ReadEvent::Cell(9, 9, RawCell::Int(1))), Ok(None));
    assert_eq!(sheet.seen(), Some(Dimensions::new((2, 1), (5, 3))));
}

#[test]
fn grow_takes_the_smallest_box() {
    assert_eq!(grow(None, 4, 7), Dimensions::new((4, 7), (4, 7)));
    let d = Dimensions::new((2, 2), (4, 4));
    assert_eq!(grow(Some(d), 3, 3), d);
    assert_eq!(grow(Some(d), 0, 3), Dimensions::new((0, 2), (4, 4)));
    assert_eq!(grow(Some(d), 3, 9), Dimensions::new((2, 2), (4, 9)));
    assert_eq!(grow(Some(d), 9, 0), Dimensions::new((2, 0), (9, 4)));
    assert_eq!(grow(Some(d), u32::MAX, u32::MAX), Dimensions::new((2, 2), (u32::MAX, u32::MAX)));
}

#[test]
fn cells_reach_the_consumer_in_the_order_of_the_cursor() {
    let mut sheet = fresh();
    let events = vec![
        ReadEvent::Cell(0, 1, RawCell::Int(1)),
        ReadEvent::Cell(0, 0, RawCell::Int(2)),
        ReadEvent::Cell(3, 0, RawCell::Int(3)),
        ReadEvent::End,
        ReadEvent::Cell(4, 0, RawCell::Int(4)),
        ReadEvent::Failed,
    ];
    let mut got = Vec::new();
    for event in events {
        got.push(sheet.next(event));
    }
    assert_eq!(
        got,
        vec![
            Ok(Some(LazyCell { row: 0, col: 1, value: CellValue::Integer(1) })),
            Ok(Some(LazyCell { row: 0, col: 0, value: CellValue::Integer(2) })),
            Ok(Some(LazyCell { row: 3, col: 0, value: CellValue::Integer(3) })),
            Ok(None),
            Ok(None),
            Ok(None),
        ]
    );
}
