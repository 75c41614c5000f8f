//! What is known of a sheet without reading its cells.

use vstd::prelude::*;
use vstd::string::StringExecFns;

verus! {

#[verifier::external_type_specification]
pub struct ExSheetType(calamine::SheetType);

#[verifier::external_type_specification]
pub struct ExSheetVisible(calamine::SheetVisible);

/// The kind of a sheet.
#[derive(Clone, Copy, Debug, PartialEq, Eq, Structural)]
pub enum SheetTypeEnum {
    /// WorkSheet
    WorkSheet,
    /// DialogSheet
    DialogSheet,
    /// MacroSheet
    MacroSheet,
    /// ChartSheet
    ChartSheet,
    /// VBA module
    Vba,
}

/// Whether a sheet is shown.
#[derive(Clone, Copy, Debug, PartialEq, Eq, Structural)]
pub enum SheetVisibleEnum {
    /// Visible
    Visible,
    /// Hidden
    Hidden,
    /// Hidden, and not to be shown through the user interface. Only Excel
    /// formats know this state; it is kept as it is.
    VeryHidden,
}

impl SheetTypeEnum {
    /// The kind as it is shown: the type's name, a dot and the variant's.
    pub open spec fn spec_display(&self) -> Seq<char> {
        match self {
            SheetTypeEnum::WorkSheet => "SheetTypeEnum.WorkSheet"@,
            SheetTypeEnum::DialogSheet => "SheetTypeEnum.DialogSheet"@,
            SheetTypeEnum::MacroSheet => "SheetTypeEnum.MacroSheet"@,
            SheetTypeEnum::ChartSheet => "SheetTypeEnum.ChartSheet"@,
            SheetTypeEnum::Vba => "SheetTypeEnum.Vba"@,
        }
    }

    /// The kind as it is shown.
    pub fn to_string(&self) -> (res: String)
        ensures
            res@ == self.spec_display(),
    {
        match self {
            SheetTypeEnum::WorkSheet => String::from_str("SheetTypeEnum.WorkSheet"),
            SheetTypeEnum::DialogSheet => String::from_str("SheetTypeEnum.DialogSheet"),
            SheetTypeEnum::MacroSheet => String::from_str("SheetTypeEnum.MacroSheet"),
            SheetTypeEnum::ChartSheet => String::from_str("SheetTypeEnum.ChartSheet"),
            SheetTypeEnum::Vba => String::from_str("SheetTypeEnum.Vba"),
        }
    }
}

impl SheetVisibleEnum {
    /// The visibility as it is shown: the type's name, a dot and the
    /// variant's.
    pub open spec fn spec_display(&self) -> Seq<char> {
        match self {
            SheetVisibleEnum::Visible => "SheetVisibleEnum.Visible"@,
            SheetVisibleEnum::Hidden => "SheetVisibleEnum.Hidden"@,
            SheetVisibleEnum::VeryHidden => "SheetVisibleEnum.VeryHidden"@,
        }
    }

    /// The visibility as it is shown.
    pub fn to_string(&self) -> (res: String)
        ensures
            res@ == self.spec_display(),
    {
        match self {
            SheetVisibleEnum::Visible => String::from_str("SheetVisibleEnum.Visible"),
            SheetVisibleEnum::Hidden => String::from_str("SheetVisibleEnum.Hidden"),
            SheetVisibleEnum::VeryHidden => String::from_str("SheetVisibleEnum.VeryHidden"),
        }
    }
}

/// The kind that stands for each kind calamine reports, one for one.
pub open spec fn sheet_type_of(value: calamine::SheetType) -> SheetTypeEnum {
    match value {
        calamine::SheetType::WorkSheet => SheetTypeEnum::WorkSheet,
        calamine::SheetType::DialogSheet => SheetTypeEnum::DialogSheet,
        calamine::SheetType::MacroSheet => SheetTypeEnum::MacroSheet,
        calamine::SheetType::ChartSheet => SheetTypeEnum::ChartSheet,
        calamine::SheetType::Vba => SheetTypeEnum::Vba,
    }
}

/// The visibility that stands for each one calamine reports, one for one.
pub open spec fn sheet_visible_of(value: calamine::SheetVisible) -> SheetVisibleEnum {
    match value {
        calamine::SheetVisible::Visible => SheetVisibleEnum::Visible,
        calamine::SheetVisible::Hidden => SheetVisibleEnum::Hidden,
        calamine::SheetVisible::VeryHidden => SheetVisibleEnum::VeryHidden,
    }
}

impl From<calamine::SheetType> for SheetTypeEnum {
    fn from(value: calamine::SheetType) -> (res: SheetTypeEnum) {
        match value {
            calamine::SheetType::WorkSheet => SheetTypeEnum::WorkSheet,
            calamine::SheetType::DialogSheet => SheetTypeEnum::DialogSheet,
            calamine::SheetType::MacroSheet => SheetTypeEnum::MacroSheet,
            calamine::SheetType::ChartSheet => SheetTypeEnum::ChartSheet,
            calamine::SheetType::Vba => SheetTypeEnum::Vba,
        }
    }
}

impl vstd::std_specs::convert::FromSpecImpl<calamine::SheetType> for SheetTypeEnum {
    open spec fn obeys_from_spec() -> bool {
        true
    }

    open spec fn from_spec(value: calamine::SheetType) -> SheetTypeEnum {
        sheet_type_of(value)
    }
}

impl From<calamine::SheetVisible> for SheetVisibleEnum {
    fn from(value: calamine::SheetVisible) -> (res: SheetVisibleEnum) {
        match value {
            calamine::SheetVisible::Visible => SheetVisibleEnum::Visible,
            calamine::SheetVisible::Hidden => SheetVisibleEnum::Hidden,
            calamine::SheetVisible::VeryHidden => SheetVisibleEnum::VeryHidden,
        }
    }
}

impl vstd::std_specs::convert::FromSpecImpl<calamine::SheetVisible> for SheetVisibleEnum {
    open spec fn obeys_from_spec() -> bool {
        true
    }

    open spec fn from_spec(value: calamine::SheetVisible) -> SheetVisibleEnum {
        sheet_visible_of(value)
    }
}

/// A comparison that a host may ask for.
#[derive(Clone, Copy, Debug, PartialEq, Eq, Structural)]
pub enum CompareOp {
    /// Less than.
    Lt,
    /// Less than or equal.
    Le,
    /// Equal.
    Eq,
    /// Not equal.
    Ne,
    /// Greater than.
    Gt,
    /// Greater than or equal.
    Ge,
}

/// A sheet's name, kind and visibility. Made once and never changed.
#[derive(Clone, Debug)]
pub struct SheetMetadata {
    name: String,
    typ: SheetTypeEnum,
    visible: SheetVisibleEnum,
}

impl SheetMetadata {
    /// The name, as characters.
    pub closed spec fn spec_name(&self) -> Seq<char> {
        self.name@
    }

    /// The kind.
    pub closed spec fn spec_typ(&self) -> SheetTypeEnum {
        self.typ
    }

    /// The visibility.
    pub closed spec fn spec_visible(&self) -> SheetVisibleEnum {
        self.visible
    }

    /// Describes a sheet by what the workbook reports of it.
    pub fn new(name: String, typ: calamine::SheetType, visible: calamine::SheetVisible) -> (res: Self)
        ensures
            res.spec_name() == name@,
            res.spec_typ() == sheet_type_of(typ),
            res.spec_visible() == sheet_visible_of(visible),
    {
        let typ = SheetTypeEnum::from(typ);
        let visible = SheetVisibleEnum::from(visible);
        SheetMetadata { name, typ, visible }
    }

    /// Describes a sheet by a kind and a visibility already classified.
    pub fn from_parts(name: String, typ: SheetTypeEnum, visible: SheetVisibleEnum) -> (res: Self)
        ensures
            res.spec_name() == name@,
            res.spec_typ() == typ,
            res.spec_visible() == visible,
    {
        SheetMetadata { name, typ, visible }
    }

    /// The metadata as it is shown.
    pub open spec fn spec_repr(&self) -> Seq<char> {
        "SheetMetadata(name='"@ + self.spec_name() + "', typ="@ + self.spec_typ().spec_display()
            + ", visible="@ + self.spec_visible().spec_display() + ")"@
    }

    /// The metadata as it is shown: the name between quotes, then the kind and
    /// the visibility.
    pub fn repr(&self) -> (res: String)
        ensures
            res@ == self.spec_repr(),
    {
        let typ = self.typ.to_string();
        let visible = self.visible.to_string();
        let mut out = String::from_str("SheetMetadata(name='");
        out.append(self.name.as_str());
        out.append("', typ=");
        out.append(typ.as_str());
        out.append(", visible=");
        out.append(visible.as_str());
        out.append(")");
        out
    }

    /// Whether two descriptions name the same sheet, kind and visibility.
    pub open spec fn same_as(&self, other: &Self) -> bool {
        self.spec_name() == other.spec_name() && self.spec_typ() == other.spec_typ()
            && self.spec_visible() == other.spec_visible()
    }

    /// Answers a comparison: metadata can be told equal or unequal, and has no
    /// order, so every other comparison has no answer.
    pub fn rich_compare(&self, other: &Self, op: CompareOp) -> (res: Option<bool>)
        ensures
            op == CompareOp::Eq ==> res == Some(self.same_as(other)),
            op == CompareOp::Ne ==> res == Some(!self.same_as(other)),
            op != CompareOp::Eq && op != CompareOp::Ne ==> res is None,
    {
        let same = self.name == other.name && self.typ == other.typ && self.visible
            == other.visible;
        match op {
            CompareOp::Eq => Some(same),
            CompareOp::Ne => Some(!same),
            _ => None,
        }
    }

    /// The name.
    pub fn name(&self) -> (res: &String)
        ensures
            res@ == self.spec_name(),
    {
        &self.name
    }

    /// The kind.
    pub fn typ(&self) -> (res: SheetTypeEnum)
        ensures
            res == self.spec_typ(),
    {
        self.typ
    }

    /// The visibility.
    pub fn visible(&self) -> (res: SheetVisibleEnum)
        ensures
            res == self.spec_visible(),
    {
        self.visible
    }
}

impl PartialEq for SheetMetadata {
    fn eq(&self, other: &Self) -> (res: bool) {
        self.name == other.name && self.typ == other.typ && self.visible == other.visible
    }
}

impl vstd::std_specs::cmp::PartialEqSpecImpl for SheetMetadata {
    open spec fn obeys_eq_spec() -> bool {
        true
    }

    open spec fn eq_spec(&self, other: &Self) -> bool {
        self.same_as(other)
    }
}

} // verus!
