use calamine::{SheetType, SheetVisible};
use calamine_sheet::metadata::{CompareOp, SheetMetadata, SheetTypeEnum, SheetVisibleEnum};

#[test]
fn every_sheet_type_maps_to_its_own_kind() {
    assert_eq!(SheetTypeEnum::from(SheetType::WorkSheet), SheetTypeEnum::WorkSheet);
    assert_eq!(SheetTypeEnum::from(SheetType::DialogSheet), SheetTypeEnum::DialogSheet);
    assert_eq!(SheetTypeEnum::from(SheetType::MacroSheet), SheetTypeEnum::MacroSheet);
    assert_eq!(SheetTypeEnum::from(SheetType::ChartSheet), SheetTypeEnum::ChartSheet);
    assert_eq!(SheetTypeEnum::from(SheetType::Vba), SheetTypeEnum::Vba);
}

#[test]
fn every_visibility_maps_to_its_own() {
    assert_eq!(SheetVisibleEnum::from(SheetVisible::Visible), SheetVisibleEnum::Visible);
    assert_eq!(SheetVisibleEnum::from(SheetVisible::Hidden), SheetVisibleEnum::Hidden);
    assert_eq!(SheetVisibleEnum::from(SheetVisible::VeryHidden), SheetVisibleEnum::VeryHidden);
}

#[test]
fn metadata_holds_what_it_was_made_of() {
    let m = SheetMetadata::new(String::from("Budget"), SheetType::ChartSheet, SheetVisible::VeryHidden);
    assert_eq!(m.name(), "Budget");
    assert_eq!(m.typ(), SheetTypeEnum::ChartSheet);
    assert_eq!(m.visible(), SheetVisibleEnum::VeryHidden);
}

#[test]
fn metadata_from_parts_equals_metadata_from_calamine() {
    let a = SheetMetadata::new(String::from("S"), SheetType::MacroSheet, SheetVisible::Hidden);
    let b = SheetMetadata::from_parts(String::from("S"), SheetTypeEnum::MacroSheet, SheetVisibleEnum::Hidden);
    assert!(a == b);
}

#[test]
fn metadata_equality_is_structural() {
    let a = SheetMetadata::from_parts(String::from("S"), SheetTypeEnum::WorkSheet, SheetVisibleEnum::Visible);
    let same = SheetMetadata::from_parts(String::from("S"), SheetTypeEnum::WorkSheet, SheetVisibleEnum::Visible);
    let other_name = SheetMetadata::from_parts(String::from("T"), SheetTypeEnum::WorkSheet, SheetVisibleEnum::Visible);
    let other_typ = SheetMetadata::from_parts(String::from("S"), SheetTypeEnum::Vba, SheetVisibleEnum::Visible);
    let other_visible = SheetMetadata::from_parts(String::from("S"), SheetTypeEnum::WorkSheet, SheetVisibleEnum::Hidden);
    assert!(a == same);
    assert!(a != other_name);
    assert!(a != other_typ);
    assert!(a != other_visible);
}

#[test]
fn rich_compare_answers_equality_only() {
    let a = SheetMetadata::from_parts(String::from("S"), SheetTypeEnum::WorkSheet, SheetVisibleEnum::Visible);
    let b = SheetMetadata::from_parts(String::from("S"), SheetTypeEnum::WorkSheet, SheetVisibleEnum::Hidden);
    assert_eq!(a.rich_compare(&a, CompareOp::Eq), Some(true));
    assert_eq!(a.rich_compare(&a, CompareOp::Ne), Some(false));
    assert_eq!(a.rich_compare(&b, CompareOp::Eq), Some(false));
    assert_eq!(a.rich_compare(&b, CompareOp::Ne), Some(true));
    assert_eq!(a.rich_compare(&b, CompareOp::Lt), None);
    assert_eq!(a.rich_compare(&b, CompareOp::Le), None);
    assert_eq!(a.rich_compare(&b, CompareOp::Gt), None);
    assert_eq!(a.rich_compare(&b, CompareOp::Ge), None);
}

#[test]
fn kinds_are_shown_with_their_type_name() {
    assert_eq!(SheetTypeEnum::WorkSheet.to_string(), "SheetTypeEnum.WorkSheet");
    assert_eq!(SheetTypeEnum::DialogSheet.to_string(), "SheetTypeEnum.DialogSheet");
    assert_eq!(SheetTypeEnum::MacroSheet.to_string(), "SheetTypeEnum.MacroSheet");
    assert_eq!(SheetTypeEnum::ChartSheet.to_string(), "SheetTypeEnum.ChartSheet");
    assert_eq!(SheetTypeEnum::Vba.to_string(), "SheetTypeEnum.Vba");
    assert_eq!(SheetVisibleEnum::Visible.to_string(), "SheetVisibleEnum.Visible");
    assert_eq!(SheetVisibleEnum::Hidden.to_string(), "SheetVisibleEnum.Hidden");
    assert_eq!(SheetVisibleEnum::VeryHidden.to_string(), "SheetVisibleEnum.VeryHidden");
}

#[test]
fn metadata_is_shown_with_name_kind_and_visibility() {
    let m = SheetMetadata::new(String::from("Sheet1"), SheetType::WorkSheet, SheetVisible::Visible);
    assert_eq!(
        m.repr(),
        "SheetMetadata(name='Sheet1', typ=SheetTypeEnum.WorkSheet, visible=SheetVisibleEnum.Visible)"
    );
}
