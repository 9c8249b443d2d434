//! The labels that a record carries for its unit and its data type.
use vstd::prelude::*;
use crate::text::{lowercased, text_eq, to_lowercase};

verus! {

/// The mathematical content of a [`DataType`].
pub ghost enum TypeLabel {
    per_aver,
    per_cum,
    inst_val,
    inst_cum,
    undefined(Seq<char>),
}

/// How the values of a series relate to time: one of four known types, or
/// a label that is none of them.
#[derive(Debug, PartialEq, Eq)]
pub enum DataType {
    per_aver,
    per_cum,
    inst_val,
    inst_cum,
    undefined(String),
}

impl View for DataType {
    type V = TypeLabel;

    open spec fn view(&self) -> TypeLabel {
        match self {
            DataType::per_aver => TypeLabel::per_aver,
            DataType::per_cum => TypeLabel::per_cum,
            DataType::inst_val => TypeLabel::inst_val,
            DataType::inst_cum => TypeLabel::inst_cum,
            DataType::undefined(text) => TypeLabel::undefined(text@),
        }
    }
}

impl TypeLabel {
    /// The data type that a label stands for, given its lower-case form and the
    /// label as it was written: one of the known ones where the lower-case
    /// form is its token, else the fallback, which keeps the label as it was
    /// written.
    pub open spec fn of_label(lowered: Seq<char>, written: Seq<char>) -> TypeLabel {
        if lowered == "per-aver"@ {
            TypeLabel::per_aver
        } else if lowered == "per-cum"@ {
            TypeLabel::per_cum
        } else if lowered == "inst-val"@ {
            TypeLabel::inst_val
        } else if lowered == "inst-cum"@ {
            TypeLabel::inst_cum
        } else {
            TypeLabel::undefined(written)
        }
    }

    /// The text of the data type.
    pub open spec fn text(self) -> Seq<char> {
        match self {
            TypeLabel::per_aver => "PER-AVER"@,
            TypeLabel::per_cum => "PER-CUM"@,
            TypeLabel::inst_val => "INST_VAL"@,
            TypeLabel::inst_cum => "INST_CUM"@,
            TypeLabel::undefined(label) => "undefined("@ + label + ")"@,
        }
    }
}

impl Clone for DataType {
    fn clone(&self) -> (copy: Self)
        ensures
            copy@ == self@,
    {
        match self {
            DataType::per_aver => DataType::per_aver,
            DataType::per_cum => DataType::per_cum,
            DataType::inst_val => DataType::inst_val,
            DataType::inst_cum => DataType::inst_cum,
            DataType::undefined(text) => DataType::undefined(text.clone()),
        }
    }
}

impl DataType {
    /// Writes the data type as text; the fallback shows the label it keeps.
    pub fn to_string(&self) -> (text: String)
        ensures
            text@ == self@.text(),
    {
        match self {
            DataType::per_aver => String::from_str("PER-AVER"),
            DataType::per_cum => String::from_str("PER-CUM"),
            DataType::inst_val => String::from_str("INST_VAL"),
            DataType::inst_cum => String::from_str("INST_CUM"),
            DataType::undefined(label) => String::from_str("undefined(").concat(
                label.as_str(),
            ).concat(")"),
        }
    }

    /// The data type that a label stands for, from its lower-case form and the
    /// label as it was written.
    pub fn from_lowered(lowered: &str, written: &str) -> (value: Self)
        ensures
            value@ == TypeLabel::of_label(lowered@, written@),
    {
        if text_eq(lowered, "per-aver") {
            DataType::per_aver
        } else if text_eq(lowered, "per-cum") {
            DataType::per_cum
        } else if text_eq(lowered, "inst-val") {
            DataType::inst_val
        } else if text_eq(lowered, "inst-cum") {
            DataType::inst_cum
        } else {
            DataType::undefined(String::from_str(written))
        }
    }

    /// The data type that a label stands for, whatever the case of its letters.
    /// A label that is none of the known ones is kept as it is.
    pub fn from_string(label: &str) -> (value: Self)
        ensures
            value@ == TypeLabel::of_label(lowercased(label@), label@),
    {
        let lowered = to_lowercase(label);
        DataType::from_lowered(lowered.as_str(), label)
    }
}

/// The mathematical content of a [`DataUnit`].
pub ghost enum UnitLabel {
    inch,
    feet,
    mm,
    meter,
    cfs,
    cms,
    undefined(Seq<char>),
}

/// The unit of a value: one of six known units, or a label that is none of them.
#[derive(Debug, PartialEq, Eq)]
pub enum DataUnit {
    inch,
    feet,
    mm,
    meter,
    cfs,
    cms,
    undefined(String),
}

impl View for DataUnit {
    type V = UnitLabel;

    open spec fn view(&self) -> UnitLabel {
        match self {
            DataUnit::inch => UnitLabel::inch,
            DataUnit::feet => UnitLabel::feet,
            DataUnit::mm => UnitLabel::mm,
            DataUnit::meter => UnitLabel::meter,
            DataUnit::cfs => UnitLabel::cfs,
            DataUnit::cms => UnitLabel::cms,
            DataUnit::undefined(text) => UnitLabel::undefined(text@),
        }
    }
}

impl UnitLabel {
    /// The unit that a label stands for, given its lower-case form and the
    /// label as it was written: one of the known ones where the lower-case
    /// form is its token, else the fallback, which keeps the label as it was
    /// written.
    pub open spec fn of_label(lowered: Seq<char>, written: Seq<char>) -> UnitLabel {
        if lowered == "inch"@ {
            UnitLabel::inch
        } else if lowered == "feet"@ {
            UnitLabel::feet
        } else if lowered == "mm"@ {
            UnitLabel::mm
        } else if lowered == "meter"@ {
            UnitLabel::meter
        } else if lowered == "cfs"@ {
            UnitLabel::cfs
        } else if lowered == "cms"@ {
            UnitLabel::cms
        } else {
            UnitLabel::undefined(written)
        }
    }

    /// The text of the unit.
    pub open spec fn text(self) -> Seq<char> {
        match self {
            UnitLabel::inch => "inch"@,
            UnitLabel::feet => "feet"@,
            UnitLabel::mm => "mm"@,
            UnitLabel::meter => "meter"@,
            UnitLabel::cfs => "cfs"@,
            UnitLabel::cms => "cms"@,
            UnitLabel::undefined(label) => "undefined("@ + label + ")"@,
        }
    }
}

impl Clone for DataUnit {
    fn clone(&self) -> (copy: Self)
        ensures
            copy@ == self@,
    {
        match self {
            DataUnit::inch => DataUnit::inch,
            DataUnit::feet => DataUnit::feet,
            DataUnit::mm => DataUnit::mm,
            DataUnit::meter => DataUnit::meter,
            DataUnit::cfs => DataUnit::cfs,
            DataUnit::cms => DataUnit::cms,
            DataUnit::undefined(text) => DataUnit::undefined(text.clone()),
        }
    }
}

impl DataUnit {
    /// Writes the unit as text; the fallback shows the label it keeps.
    pub fn to_string(&self) -> (text: String)
        ensures
            text@ == self@.text(),
    {
        match self {
            DataUnit::inch => String::from_str("inch"),
            DataUnit::feet => String::from_str("feet"),
            DataUnit::mm => String::from_str("mm"),
            DataUnit::meter => String::from_str("meter"),
            DataUnit::cfs => String::from_str("cfs"),
            DataUnit::cms => String::from_str("cms"),
            DataUnit::undefined(label) => String::from_str("undefined(").concat(
                label.as_str(),
            ).concat(")"),
        }
    }

    /// The unit that a label stands for, from its lower-case form and the
    /// label as it was written.
    pub fn from_lowered(lowered: &str, written: &str) -> (value: Self)
        ensures
            value@ == UnitLabel::of_label(lowered@, written@),
    {
        if text_eq(lowered, "inch") {
            DataUnit::inch
        } else if text_eq(lowered, "feet") {
            DataUnit::feet
        } else if text_eq(lowered, "mm") {
            DataUnit::mm
        } else if text_eq(lowered, "meter") {
            DataUnit::meter
        } else if text_eq(lowered, "cfs") {
            DataUnit::cfs
        } else if text_eq(lowered, "cms") {
            DataUnit::cms
        } else {
            DataUnit::undefined(String::from_str(written))
        }
    }

    /// The unit that a label stands for, whatever the case of its letters.
    /// A label that is none of the known ones is kept as it is.
    pub fn from_string(label: &str) -> (value: Self)
        ensures
            value@ == UnitLabel::of_label(lowercased(label@), label@),
    {
        let lowered = to_lowercase(label);
        DataUnit::from_lowered(lowered.as_str(), label)
    }
}

} // verus!
