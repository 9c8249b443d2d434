use hecdss::paired::split_labels;
use hecdss::{
    DataType, DataUnit, DssErrorGroup, DssErrorKind, DssPathname, PairedDataOptions,
    PairedDataRange, PairedDataSlice, PairedDataTable, RawPairedData,
};

fn bits(values: &[f32]) -> Vec<u32> {
    values.iter().map(|v| v.to_bits()).collect()
}

fn floats(values: &[u32]) -> Vec<f32> {
    values.iter().map(|v| f32::from_bits(*v)).collect()
}

fn columns(table: &PairedDataTable) -> Vec<Vec<f32>> {
    table.columns().iter().map(|c| floats(c)).collect()
}

fn raw_table() -> RawPairedData {
    RawPairedData {
        number_ordinates: 3,
        number_curves: 2,
        ordinates: bits(&[1.0, 2.0, 3.0]),
        values: bits(&[10.0, 20.0, 30.0, 100.0, 200.0, 300.0]),
        labels: "low\0high\0".to_string(),
    }
}

fn address() -> DssPathname {
    DssPathname::from_string("/PAIREDDATA/PTABLE/FREQ-FLOW///Ex2/").unwrap()
}

#[test]
fn a_new_table_is_zeroed() {
    let table = PairedDataTable::new(3, 2);
    assert_eq!(table.shape(), (3, 2));
    assert_eq!(floats(table.index()), vec![0.0, 0.0, 0.0]);
    assert_eq!(columns(&table), vec![vec![0.0, 0.0, 0.0], vec![0.0, 0.0, 0.0]]);
    assert!(table.headers().is_none());
    assert!(table.pathname().is_none());
    assert_eq!(table.index_unit(), DataUnit::undefined(String::new()));
    assert_eq!(table.index_type(), DataType::undefined(String::new()));
    assert_eq!(table.column_unit(), DataUnit::undefined(String::new()));
    assert_eq!(table.column_type(), DataType::undefined(String::new()));
}

#[test]
fn a_table_without_rows_or_columns() {
    let none = PairedDataTable::new(0, 0);
    assert_eq!(none.shape(), (0, 0));
    assert!(none.index().is_empty());
    assert!(none.columns().is_empty());
    let no_rows = PairedDataTable::new(0, 2);
    assert_eq!(columns(&no_rows), vec![Vec::<f32>::new(), Vec::<f32>::new()]);
    let no_cols = PairedDataTable::new(2, 0);
    assert_eq!(no_cols.index().len(), 2);
    assert!(no_cols.columns().is_empty());
}

#[test]
fn set_index_of_the_right_length() {
    let mut table = PairedDataTable::new(3, 2);
    assert!(table.set_index(&bits(&[1.0, 2.0, 3.0])).is_ok());
    assert_eq!(floats(table.index()), vec![1.0, 2.0, 3.0]);
}

#[test]
fn set_index_fails_on_another_length() {
    let mut table = PairedDataTable::new(3, 2);
    table.set_index(&bits(&[1.0, 2.0, 3.0])).unwrap();
    for wrong in [vec![], vec![1.0f32, 2.0], vec![1.0; 4], vec![1.0; 6]] {
        let err = table.set_index(&bits(&wrong)).unwrap_err();
        assert_eq!(err.group(), DssErrorGroup::UNKNOWN);
        assert_eq!(err.kind(), DssErrorKind::UNDEFINED_ERROR);
        assert_eq!(
            err.message(),
            "The length of the value is not equal to PairedDataTable index capacity"
        );
        assert_eq!(floats(table.index()), vec![1.0, 2.0, 3.0]);
    }
}

#[test]
fn set_columns_takes_one_column_after_the_other() {
    let mut table = PairedDataTable::new(3, 2);
    assert!(table.set_columns(&bits(&[10.0, 20.0, 30.0, 100.0, 200.0, 300.0])).is_ok());
    assert_eq!(columns(&table), vec![vec![10.0, 20.0, 30.0], vec![100.0, 200.0, 300.0]]);
    let mut wide = PairedDataTable::new(2, 3);
    assert!(wide.set_columns(&bits(&[1.0, 2.0, 3.0, 4.0, 5.0, 6.0])).is_ok());
    assert_eq!(columns(&wide), vec![vec![1.0, 2.0], vec![3.0, 4.0], vec![5.0, 6.0]]);
}

#[test]
fn set_columns_fails_on_another_length() {
    let mut table = PairedDataTable::new(3, 2);
    table.set_columns(&bits(&[10.0, 20.0, 30.0, 100.0, 200.0, 300.0])).unwrap();
    for wrong in [vec![], vec![1.0f32; 3], vec![1.0; 5], vec![1.0; 7]] {
        let err = table.set_columns(&bits(&wrong)).unwrap_err();
        assert_eq!(err.group(), DssErrorGroup::UNKNOWN);
        assert_eq!(err.kind(), DssErrorKind::UNDEFINED_ERROR);
        assert_eq!(
            err.message(),
            "The length of the value is not equal to PairedDataTable column capacity"
        );
        assert_eq!(columns(&table), vec![vec![10.0, 20.0, 30.0], vec![100.0, 200.0, 300.0]]);
    }
}

#[test]
fn set_columns_of_an_empty_table() {
    let mut table = PairedDataTable::new(0, 4);
    assert!(table.set_columns(&[]).is_ok());
    assert!(table.set_columns(&[1]).is_err());
    assert_eq!(table.columns().len(), 4);
}

#[test]
fn set_headers_one_for_each_column() {
    let mut table = PairedDataTable::new(3, 2);
    assert!(table.set_headers(Some(vec!["low".to_string(), "high".to_string()])).is_ok());
    assert_eq!(table.headers(), Some(&vec!["low".to_string(), "high".to_string()]));
    assert!(table.set_headers(None).is_ok());
    assert!(table.headers().is_none());
}

#[test]
fn set_headers_fails_on_another_count() {
    let mut table = PairedDataTable::new(3, 2);
    table.set_headers(Some(vec!["low".to_string(), "high".to_string()])).unwrap();
    let err = table.set_headers(Some(vec!["one".to_string()])).unwrap_err();
    assert_eq!(err.message(), "Invalid number (1) of column header provided");
    assert_eq!(err.group(), DssErrorGroup::UNKNOWN);
    assert_eq!(err.kind(), DssErrorKind::UNDEFINED_ERROR);
    let err = table.set_headers(Some(vec![])).unwrap_err();
    assert_eq!(err.message(), "Invalid number (0) of column header provided");
    let err = table.set_headers(Some(vec![String::new(); 12])).unwrap_err();
    assert_eq!(err.message(), "Invalid number (12) of column header provided");
    assert_eq!(table.headers(), Some(&vec!["low".to_string(), "high".to_string()]));
}

#[test]
fn units_and_types_of_a_table() {
    let mut table = PairedDataTable::new(1, 1);
    table.set_index_unit("FEET");
    table.set_index_type("unt");
    table.set_column_unit("cfs");
    table.set_column_type("Per-Aver");
    assert_eq!(table.index_unit(), DataUnit::feet);
    assert_eq!(table.index_type(), DataType::undefined("unt".to_string()));
    assert_eq!(table.column_unit(), DataUnit::cfs);
    assert_eq!(table.column_type(), DataType::per_aver);
    table.set_column_type("inst-val");
    assert_eq!(table.index_type(), DataType::undefined("unt".to_string()));
    assert_eq!(table.column_type(), DataType::inst_val);
}

#[test]
fn a_new_slice_has_no_range() {
    let slice = PairedDataSlice::new();
    let err = slice.resolve(10, 3).unwrap_err();
    assert_eq!(err.message(), "Paired Data row start index 0 not in the range 1 - 10");
    assert_eq!(PairedDataOptions::new().slice(), slice);
}

#[test]
fn a_slice_within_the_record() {
    let mut slice = PairedDataSlice::new();
    slice.set_row_range(2, 5);
    slice.set_col_range(1, 3);
    let range = slice.resolve(10, 3).unwrap();
    assert_eq!(range, PairedDataRange { row_start: 2, row_end: 5, col_start: 1, col_end: 3 });
    slice.set_row_range(1, 10);
    let range = slice.resolve(10, 3).unwrap();
    assert_eq!(range, PairedDataRange { row_start: 1, row_end: 10, col_start: 1, col_end: 3 });
    slice.set_row_range(10, 1);
    let range = slice.resolve(10, 3).unwrap();
    assert_eq!(range, PairedDataRange { row_start: 10, row_end: 1, col_start: 1, col_end: 3 });
}

#[test]
fn row_start_of_zero_is_a_range_error() {
    let mut slice = PairedDataSlice::new();
    slice.set_row_range(0, 5);
    slice.set_col_range(1, 3);
    let err = slice.resolve(10, 3).unwrap_err();
    assert_eq!(err.message(), "Paired Data row start index 0 not in the range 1 - 10");
    assert_eq!(err.group(), DssErrorGroup::UNKNOWN);
    assert_eq!(err.kind(), DssErrorKind::UNDEFINED_ERROR);
}

#[test]
fn row_end_beyond_the_extent_is_a_range_error() {
    let mut slice = PairedDataSlice::new();
    slice.set_row_range(1, 11);
    slice.set_col_range(1, 3);
    let err = slice.resolve(10, 3).unwrap_err();
    assert_eq!(err.message(), "Paired Data row end index 11 not in the range 1 - 10");
}

#[test]
fn every_bound_is_held_against_the_extent() {
    let mut slice = PairedDataSlice::new();
    slice.set_row_range(11, 5);
    slice.set_col_range(1, 3);
    assert_eq!(
        slice.resolve(10, 3).unwrap_err().message(),
        "Paired Data row start index 11 not in the range 1 - 10"
    );
    slice.set_row_range(-4, 5);
    assert_eq!(
        slice.resolve(10, 3).unwrap_err().message(),
        "Paired Data row start index -4 not in the range 1 - 10"
    );
    slice.set_row_range(1, 0);
    assert_eq!(
        slice.resolve(10, 3).unwrap_err().message(),
        "Paired Data row end index 0 not in the range 1 - 10"
    );
    slice.set_row_range(1, 10);
    slice.set_col_range(0, 3);
    assert_eq!(
        slice.resolve(10, 3).unwrap_err().message(),
        "Paired Data column start index 0 not in the range 1 - 3"
    );
    slice.set_col_range(4, 3);
    assert_eq!(
        slice.resolve(10, 3).unwrap_err().message(),
        "Paired Data column start index 4 not in the range 1 - 3"
    );
    slice.set_col_range(1, 4);
    assert_eq!(
        slice.resolve(10, 3).unwrap_err().message(),
        "Paired Data column end index 4 not in the range 1 - 3"
    );
    slice.set_col_range(1, -1);
    assert_eq!(
        slice.resolve(10, 3).unwrap_err().message(),
        "Paired Data column end index -1 not in the range 1 - 3"
    );
}

#[test]
fn the_first_bound_out_of_range_is_named() {
    let mut slice = PairedDataSlice::new();
    slice.set_row_range(1, 99);
    slice.set_col_range(0, 99);
    assert_eq!(
        slice.resolve(10, 3).unwrap_err().message(),
        "Paired Data row end index 99 not in the range 1 - 10"
    );
}

#[test]
fn an_end_that_is_not_set_is_the_extent() {
    let mut options = PairedDataOptions::new();
    let mut rows_only = PairedDataSlice::new();
    rows_only.set_row_range(2, 4);
    options.set_slice(rows_only);
    let err = options.slice().resolve(10, 3).unwrap_err();
    assert_eq!(err.message(), "Paired Data column start index 0 not in the range 1 - 3");
}

#[test]
fn a_record_without_extent_admits_no_slice() {
    let mut slice = PairedDataSlice::new();
    slice.set_row_range(1, 1);
    slice.set_col_range(1, 1);
    assert_eq!(
        slice.resolve(0, 0).unwrap_err().message(),
        "Paired Data row start index 1 not in the range 1 - 0"
    );
}

#[test]
fn labels_split_at_each_nul() {
    assert_eq!(split_labels("low\0high\0", 2), vec!["low", "high"]);
    assert_eq!(split_labels("low\0high", 2), vec!["low", "high"]);
    assert_eq!(split_labels("low\0high\0\0\0\0", 2), vec!["low", "high"]);
    assert_eq!(split_labels("low\0\0high\0", 3), vec!["low", "", "high"]);
    assert_eq!(split_labels("\0low\0", 2), vec!["", "low"]);
}

#[test]
fn labels_beyond_the_limit_are_dropped() {
    assert_eq!(split_labels("a\0b\0c\0d\0", 2), vec!["a", "b"]);
    assert_eq!(split_labels("a\0b\0c\0d\0", 4), vec!["a", "b", "c", "d"]);
    assert_eq!(split_labels("a\0b\0c\0d\0", 9), vec!["a", "b", "c", "d"]);
    assert_eq!(split_labels("a\0b\0", 0), Vec::<String>::new());
}

#[test]
fn an_empty_label_buffer_holds_one_empty_label() {
    assert_eq!(split_labels("", 3), vec![""]);
    assert_eq!(split_labels("\0\0\0", 3), vec![""]);
}

#[test]
fn read_paired_data() {
    let table = PairedDataTable::from_raw(address(), &raw_table()).unwrap();
    assert_eq!(table.shape(), (3, 2));
    assert_eq!(table.pathname().unwrap().to_string(), "/PAIREDDATA/PTABLE/FREQ-FLOW///Ex2/");
    assert_eq!(floats(table.index()), vec![1.0, 2.0, 3.0]);
    assert_eq!(columns(&table), vec![vec![10.0, 20.0, 30.0], vec![100.0, 200.0, 300.0]]);
    assert_eq!(table.headers(), Some(&vec!["low".to_string(), "high".to_string()]));
}

#[test]
fn read_paired_data_drops_labels_beyond_the_columns() {
    let mut raw = raw_table();
    raw.labels = "low\0high\0extra\0more\0".to_string();
    let table = PairedDataTable::from_raw(address(), &raw).unwrap();
    assert_eq!(table.headers(), Some(&vec!["low".to_string(), "high".to_string()]));
}

#[test]
fn read_paired_data_fails_on_buffers_that_describe_none() {
    let mut raw = raw_table();
    raw.number_ordinates = 0;
    let err = PairedDataTable::from_raw(address(), &raw).unwrap_err();
    assert_eq!(err.message(), "Paired Data has invalid number of rows 0 or columns 2");
    assert_eq!(err.group(), DssErrorGroup::UNKNOWN);
    assert_eq!(err.kind(), DssErrorKind::UNDEFINED_ERROR);

    let mut raw = raw_table();
    raw.number_curves = -1;
    let err = PairedDataTable::from_raw(address(), &raw).unwrap_err();
    assert_eq!(err.message(), "Paired Data has invalid number of rows 3 or columns -1");

    let mut raw = raw_table();
    raw.ordinates = bits(&[1.0, 2.0]);
    let err = PairedDataTable::from_raw(address(), &raw).unwrap_err();
    assert_eq!(
        err.message(),
        "The length of the value is not equal to PairedDataTable index capacity"
    );

    let mut raw = raw_table();
    raw.values = bits(&[1.0, 2.0, 3.0]);
    let err = PairedDataTable::from_raw(address(), &raw).unwrap_err();
    assert_eq!(
        err.message(),
        "The length of the value is not equal to PairedDataTable column capacity"
    );
}

#[test]
fn read_paired_data_with_too_few_labels_has_no_headers() {
    let mut raw = raw_table();
    raw.labels = "only\0".to_string();
    let table = PairedDataTable::from_raw(address(), &raw).unwrap();
    assert!(table.headers().is_none());
    assert_eq!(table.shape(), (3, 2));
    assert_eq!(floats(table.index()), vec![1.0, 2.0, 3.0]);
    assert_eq!(columns(&table), vec![vec![10.0, 20.0, 30.0], vec![100.0, 200.0, 300.0]]);

    raw.labels = String::new();
    let table = PairedDataTable::from_raw(address(), &raw).unwrap();
    assert!(table.headers().is_none());
}

#[test]
fn read_paired_data_of_one_column_without_labels() {
    let raw = RawPairedData {
        number_ordinates: 2,
        number_curves: 1,
        ordinates: bits(&[1.0, 2.0]),
        values: bits(&[5.0, 6.0]),
        labels: String::new(),
    };
    let table = PairedDataTable::from_raw(address(), &raw).unwrap();
    assert_eq!(table.headers(), Some(&vec![String::new()]));
}
