use calamine_sheet::cell::{CellValue, RawCell};

#[test]
fn integer_cell_keeps_its_value() {
    assert_eq!(CellValue::from_raw(&RawCell::Int(-7)), CellValue::Integer(-7));
    assert_eq!(CellValue::from_raw(&RawCell::Int(i64::MAX)), CellValue::Integer(i64::MAX));
}

#[test]
fn float_cell_keeps_its_bits() {
    let bits = 1.5f64.to_bits();
    assert_eq!(CellValue::from_raw(&RawCell::Float(bits)), CellValue::Float(bits));
    let nan = f64::NAN.to_bits();
    assert_eq!(CellValue::from_raw(&RawCell::Float(nan)), CellValue::Float(nan));
}

#[test]
fn float_cell_is_not_truncated_to_integer() {
    let bits = 2.0f64.to_bits();
    assert_ne!(CellValue::from_raw(&RawCell::Float(bits)), CellValue::Integer(2));
}

#[test]
fn text_cell_is_verbatim() {
    let raw = RawCell::Text(String::from("  padded\ttext \n"));
    assert_eq!(CellValue::from_raw(&raw), CellValue::Text(String::from("  padded\ttext \n")));
    assert_eq!(
        CellValue::from_raw(&RawCell::Text(String::new())),
        CellValue::Text(String::new())
    );
}

#[test]
fn boolean_cell_is_verbatim() {
    assert_eq!(CellValue::from_raw(&RawCell::Bool(true)), CellValue::Boolean(true));
    assert_eq!(CellValue::from_raw(&RawCell::Bool(false)), CellValue::Boolean(false));
}

#[test]
fn temporal_cell_follows_the_format_hint() {
    let bits = 45000.25f64.to_bits();
    assert_eq!(CellValue::from_raw(&RawCell::DateTime(bits, false)), CellValue::DateTime(bits));
    assert_eq!(CellValue::from_raw(&RawCell::DateTime(bits, true)), CellValue::Duration(bits));
}

#[test]
fn iso_cells_are_kept_as_text() {
    assert_eq!(
        CellValue::from_raw(&RawCell::DateTimeIso(String::from("2024-02-29T12:00:00"))),
        CellValue::Text(String::from("2024-02-29T12:00:00"))
    );
    assert_eq!(
        CellValue::from_raw(&RawCell::DurationIso(String::from("PT1H30M"))),
        CellValue::Text(String::from("PT1H30M"))
    );
}

#[test]
fn error_cell_keeps_its_code() {
    assert_eq!(
        CellValue::from_raw(&RawCell::Error(String::from("#DIV/0!"))),
        CellValue::Error(String::from("#DIV/0!"))
    );
}

#[test]
fn blank_cell_is_empty() {
    assert_eq!(CellValue::from_raw(&RawCell::Empty), CellValue::Empty);
    assert!(CellValue::from_raw(&RawCell::Empty).is_empty());
    assert!(!CellValue::from_raw(&RawCell::Int(0)).is_empty());
    assert!(!CellValue::from_raw(&RawCell::Text(String::new())).is_empty());
}

#[test]
fn every_raw_variant_converts() {
    let raws = vec![
        RawCell::Int(1),
        RawCell::Float(0),
        RawCell::Text(String::from("a")),
        RawCell::Bool(true),
        RawCell::DateTime(0, false),
        RawCell::DateTime(0, true),
        RawCell::DateTimeIso(String::from("2024-01-01")),
        RawCell::DurationIso(String::from("PT1S")),
        RawCell::Error(String::from("#N/A")),
        RawCell::Empty,
    ];
    let mut empties = 0;
    for raw in raws.iter() {
        if CellValue::from_raw(raw).is_empty() {
            empties += 1;
        }
    }
    assert_eq!(empties, 1);
}
