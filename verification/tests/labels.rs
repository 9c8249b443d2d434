use hecdss::{DataType, DataUnit};

#[test]
fn known_units_from_their_labels() {
    assert_eq!(DataUnit::from_string("inch"), DataUnit::inch);
    assert_eq!(DataUnit::from_string("feet"), DataUnit::feet);
    assert_eq!(DataUnit::from_string("mm"), DataUnit::mm);
    assert_eq!(DataUnit::from_string("meter"), DataUnit::meter);
    assert_eq!(DataUnit::from_string("cfs"), DataUnit::cfs);
    assert_eq!(DataUnit::from_string("cms"), DataUnit::cms);
}

#[test]
fn units_are_read_without_regard_to_case() {
    assert_eq!(DataUnit::from_string("FEET"), DataUnit::feet);
    assert_eq!(DataUnit::from_string("Feet"), DataUnit::feet);
    assert_eq!(DataUnit::from_string("CFS"), DataUnit::cfs);
    assert_eq!(DataUnit::from_string("MM"), DataUnit::mm);
}

#[test]
fn unknown_unit_keeps_its_label() {
    assert_eq!(DataUnit::from_string("acre-ft"), DataUnit::undefined("acre-ft".to_string()));
    assert_eq!(DataUnit::from_string("Acre-Ft"), DataUnit::undefined("Acre-Ft".to_string()));
    assert_eq!(DataUnit::from_string(""), DataUnit::undefined(String::new()));
    assert_eq!(DataUnit::from_string(" feet"), DataUnit::undefined(" feet".to_string()));
    assert_eq!(
        DataUnit::from_string("M\u{00B3}/S"),
        DataUnit::undefined("M\u{00B3}/S".to_string())
    );
}

#[test]
fn units_as_text() {
    assert_eq!(DataUnit::inch.to_string(), "inch");
    assert_eq!(DataUnit::feet.to_string(), "feet");
    assert_eq!(DataUnit::mm.to_string(), "mm");
    assert_eq!(DataUnit::meter.to_string(), "meter");
    assert_eq!(DataUnit::cfs.to_string(), "cfs");
    assert_eq!(DataUnit::cms.to_string(), "cms");
    assert_eq!(DataUnit::undefined("acre-ft".to_string()).to_string(), "undefined(acre-ft)");
    assert_eq!(DataUnit::undefined(String::new()).to_string(), "undefined()");
}

#[test]
fn unit_from_lower_case_form_and_label() {
    assert_eq!(DataUnit::from_lowered("feet", "FEET"), DataUnit::feet);
    assert_eq!(
        DataUnit::from_lowered("furlong", "Furlong"),
        DataUnit::undefined("Furlong".to_string())
    );
    assert_eq!(DataUnit::from_lowered("FEET", "FEET"), DataUnit::undefined("FEET".to_string()));
}

#[test]
fn known_types_from_their_labels() {
    assert_eq!(DataType::from_string("per-aver"), DataType::per_aver);
    assert_eq!(DataType::from_string("PER-AVER"), DataType::per_aver);
    assert_eq!(DataType::from_string("Per-Cum"), DataType::per_cum);
    assert_eq!(DataType::from_string("INST-VAL"), DataType::inst_val);
    assert_eq!(DataType::from_string("inst-cum"), DataType::inst_cum);
}

#[test]
fn unknown_type_keeps_its_label() {
    assert_eq!(DataType::from_string("INST"), DataType::undefined("INST".to_string()));
    assert_eq!(DataType::from_string("INST_VAL"), DataType::undefined("INST_VAL".to_string()));
    assert_eq!(DataType::from_string(""), DataType::undefined(String::new()));
}

#[test]
fn types_as_text() {
    assert_eq!(DataType::per_aver.to_string(), "PER-AVER");
    assert_eq!(DataType::per_cum.to_string(), "PER-CUM");
    assert_eq!(DataType::inst_val.to_string(), "INST_VAL");
    assert_eq!(DataType::inst_cum.to_string(), "INST_CUM");
    assert_eq!(DataType::undefined("INST".to_string()).to_string(), "undefined(INST)");
}

#[test]
fn type_from_lower_case_form_and_label() {
    assert_eq!(DataType::from_lowered("per-cum", "PER-CUM"), DataType::per_cum);
    assert_eq!(DataType::from_lowered("inst", "INST"), DataType::undefined("INST".to_string()));
}

#[test]
fn labels_clone() {
    let unit = DataUnit::undefined("acre-ft".to_string());
    assert_eq!(unit.clone(), unit);
    assert_eq!(DataUnit::cfs.clone(), DataUnit::cfs);
    let dtype = DataType::undefined("INST".to_string());
    assert_eq!(dtype.clone(), dtype);
    assert_eq!(DataType::inst_val.clone(), DataType::inst_val);
}
