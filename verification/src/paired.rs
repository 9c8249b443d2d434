//! The paired-data record: an index column and a number of value columns
//! of the same length, with their labels.
use vstd::prelude::*;
use vstd::slice::slice_to_vec;
use crate::error::{raised, DssError, DssResult};
use crate::pathname::{DssPathname, PathParts};
use crate::text::{
    chars_of, decimal_i32, decimal_int, decimal_nat, decimal_u64, lowercased, split_chars,
    split_on, texts,
};
use crate::units::{DataType, DataUnit, TypeLabel, UnitLabel};

verus! {

/// The mathematical content of a [`PairedDataSlice`].
pub ghost struct SliceModel {
    pub row_start: int,
    pub row_end: Option<int>,
    pub col_start: int,
    pub col_end: Option<int>,
}

/// A part of a paired-data record to read: a range of rows and a range of
/// columns, both counted from 1. An end that is not set stands for the last
/// row or column of the record.
#[derive(Debug, Copy, Clone, PartialEq, Eq)]
pub struct PairedDataSlice {
    row_start: i32,
    row_end: Option<i32>,
    col_start: i32,
    col_end: Option<i32>,
}

impl View for PairedDataSlice {
    type V = SliceModel;

    closed spec fn view(&self) -> SliceModel {
        SliceModel {
            row_start: self.row_start as int,
            row_end: match self.row_end {
                Some(end) => Some(end as int),
                None => None,
            },
            col_start: self.col_start as int,
            col_end: match self.col_end {
                Some(end) => Some(end as int),
                None => None,
            },
        }
    }
}

/// A range of rows and columns that lies within a record.
#[derive(Debug, Copy, Clone, PartialEq, Eq)]
pub struct PairedDataRange {
    pub row_start: i32,
    pub row_end: i32,
    pub col_start: i32,
    pub col_end: i32,
}

/// The message of a bound that lies outside a record.
pub open spec fn out_of_range(what: Seq<char>, index: int, extent: int) -> Seq<char> {
    "Paired Data "@ + what + " index "@ + decimal_int(index) + " not in the range 1 - "@
        + decimal_int(extent)
}

impl SliceModel {
    /// The last row asked for, in a record of `rows` rows.
    pub open spec fn last_row(self, rows: int) -> int {
        match self.row_end {
            Some(end) => end,
            None => rows,
        }
    }

    /// The last column asked for, in a record of `cols` columns.
    pub open spec fn last_col(self, cols: int) -> int {
        match self.col_end {
            Some(end) => end,
            None => cols,
        }
    }

    /// Why the slice does not lie within a record of `rows` rows and `cols`
    /// columns, if it does not: the first of its four bounds, in the order
    /// first row, last row, first column, last column, that is not between 1
    /// and the extent of the record.
    pub open spec fn defect(self, rows: int, cols: int) -> Option<Seq<char>> {
        if self.row_start > rows || self.row_start < 1 {
            Some(out_of_range("row start"@, self.row_start, rows))
        } else if self.last_row(rows) > rows || self.last_row(rows) < 1 {
            Some(out_of_range("row end"@, self.last_row(rows), rows))
        } else if self.col_start > cols || self.col_start < 1 {
            Some(out_of_range("column start"@, self.col_start, cols))
        } else if self.last_col(cols) > cols || self.last_col(cols) < 1 {
            Some(out_of_range("column end"@, self.last_col(cols), cols))
        } else {
            None
        }
    }
}

/// A slice lies within a record exactly when each of its four bounds lies
/// between 1 and the extent of the record in its direction; every other
/// slice is refused.
pub proof fn lemma_slice_within_extent(slice: SliceModel, rows: int, cols: int)
    ensures
        slice.defect(rows, cols) is None <==> {
            &&& 1 <= slice.row_start <= rows
            &&& 1 <= slice.last_row(rows) <= rows
            &&& 1 <= slice.col_start <= cols
            &&& 1 <= slice.last_col(cols) <= cols
        },
        slice.row_start < 1 ==> slice.defect(rows, cols) == Some(
            out_of_range("row start"@, slice.row_start, rows),
        ),
        1 <= slice.row_start <= rows && slice.last_row(rows) > rows ==> slice.defect(rows, cols)
            == Some(out_of_range("row end"@, slice.last_row(rows), rows)),
{
}

fn range_error(what: &str, index: i32, extent: i32) -> (err: DssError)
    ensures
        err@ == raised(out_of_range(what@, index as int, extent as int)),
{
    let message = String::from_str("Paired Data ").concat(what).concat(" index ").concat(
        decimal_i32(index).as_str(),
    ).concat(" not in the range 1 - ").concat(decimal_i32(extent).as_str());
    DssError::raise(message)
}

impl PairedDataSlice {
    /// A slice with both ranges unset: its starts are 0, which lies in no
    /// record, so a range has to be given before it is used.
    pub fn new() -> (slice: Self)
        ensures
            slice@ == (SliceModel { row_start: 0, row_end: None, col_start: 0, col_end: None }),
    {
        PairedDataSlice { row_start: 0, row_end: None, col_start: 0, col_end: None }
    }

    /// Sets the rows to read, from `start` to `end`.
    pub fn set_row_range(&mut self, start: i32, end: i32)
        ensures
            final(self)@ == (SliceModel {
                row_start: start as int,
                row_end: Some(end as int),
                ..old(self)@
            }),
    {
        self.row_start = start;
        self.row_end = Some(end);
    }

    /// Sets the columns to read, from `start` to `end`.
    pub fn set_col_range(&mut self, start: i32, end: i32)
        ensures
            final(self)@ == (SliceModel {
                col_start: start as int,
                col_end: Some(end as int),
                ..old(self)@
            }),
    {
        self.col_start = start;
        self.col_end = Some(end);
    }

    /// Holds the slice against the extent of a record, `rows` rows and
    /// `cols` columns. Returns the range to read where every bound lies
    /// between 1 and the extent, and else the error that names the first bound
    /// that does not, with the range that is valid for it. Only a range that
    /// this returns is fit to be handed to the engine.
    pub fn resolve(&self, rows: i32, cols: i32) -> (res: DssResult<PairedDataRange>)
        ensures
            match self@.defect(rows as int, cols as int) {
                Some(message) => res is Err && res->Err_0@ == raised(message),
                None => res == Ok::<PairedDataRange, DssError>(
                    PairedDataRange {
                        row_start: self@.row_start as i32,
                        row_end: self@.last_row(rows as int) as i32,
                        col_start: self@.col_start as i32,
                        col_end: self@.last_col(cols as int) as i32,
                    },
                ),
            },
    {
        let row_start = self.row_start;
        let col_start = self.col_start;
        let row_end = match self.row_end {
            Some(end) => end,
            None => rows,
        };
        let col_end = match self.col_end {
            Some(end) => end,
            None => cols,
        };
        if row_start > rows || row_start < 1 {
            return Err(range_error("row start", row_start, rows));
        }
        if row_end > rows || row_end < 1 {
            return Err(range_error("row end", row_end, rows));
        }
        if col_start > cols || col_start < 1 {
            return Err(range_error("column start", col_start, cols));
        }
        if col_end > cols || col_end < 1 {
            return Err(range_error("column end", col_end, cols));
        }
        Ok(PairedDataRange { row_start, row_end, col_start, col_end })
    }
}

/// The choices of a read of paired data: the part of the record to read.
#[derive(Debug, Copy, Clone, PartialEq, Eq)]
pub struct PairedDataOptions {
    slice: PairedDataSlice,
}

impl View for PairedDataOptions {
    type V = SliceModel;

    closed spec fn view(&self) -> SliceModel {
        self.slice@
    }
}

impl PairedDataOptions {
    /// Options with a slice whose ranges are not set yet.
    pub fn new() -> (options: Self)
        ensures
            options@ == (SliceModel { row_start: 0, row_end: None, col_start: 0, col_end: None }),
    {
        PairedDataOptions { slice: PairedDataSlice::new() }
    }

    /// The slice to read.
    pub fn slice(&self) -> (slice: PairedDataSlice)
        ensures
            slice@ == self@,
    {
        self.slice
    }

    /// Sets the slice to read.
    pub fn set_slice(&mut self, slice: PairedDataSlice)
        ensures
            final(self)@ == slice@,
    {
        self.slice = slice;
    }
}

/// The mathematical content of a [`PairedDataTable`]. A value is the bit
/// pattern of a single-precision number, which the library stores and hands
/// on and never computes with.
pub ghost struct TableModel {
    pub address: Option<PathParts>,
    pub rows: int,
    pub cols: int,
    pub headers: Option<Seq<Seq<char>>>,
    pub index: Seq<u32>,
    pub columns: Seq<Seq<u32>>,
    pub index_unit: UnitLabel,
    pub index_type: TypeLabel,
    pub column_unit: UnitLabel,
    pub column_type: TypeLabel,
}

impl TableModel {
    /// The shape that every table keeps: the index has one value for each
    /// row, there are as many columns as the shape says, each with one value
    /// for each row, and the headers, where there are any, are one for each
    /// column.
    pub open spec fn wf(self) -> bool {
        &&& 0 <= self.rows <= i32::MAX
        &&& 0 <= self.cols <= i32::MAX
        &&& self.index.len() == self.rows
        &&& self.columns.len() == self.cols
        &&& forall|c: int| 0 <= c < self.cols ==> (#[trigger] self.columns[c]).len() == self.rows
        &&& self.headers is Some ==> self.headers->Some_0.len() == self.cols
    }
}

/// The columns that a buffer holds one after the other: value `r` of column
/// `c` is the value at place `c * rows + r`.
pub open spec fn columns_of(values: Seq<u32>, rows: int, cols: int) -> Seq<Seq<u32>> {
    Seq::new(cols as nat, |c: int| Seq::new(rows as nat, |r: int| values[c * rows + r]))
}

/// The content of a list of columns.
pub open spec fn column_views(columns: Seq<Vec<u32>>) -> Seq<Seq<u32>> {
    columns.map_values(|c: Vec<u32>| c@)
}

/// A table of paired data.
#[derive(Debug)]
pub struct PairedDataTable {
    pathname: Option<DssPathname>,
    shape: (i32, i32),
    headers: Option<Vec<String>>,
    index: Vec<u32>,
    columns: Vec<Vec<u32>>,
    index_unit: DataUnit,
    index_type: DataType,
    column_unit: DataUnit,
    column_type: DataType,
}

impl View for PairedDataTable {
    type V = TableModel;

    closed spec fn view(&self) -> TableModel {
        TableModel {
            address: match self.pathname {
                Some(path) => Some(path@),
                None => None,
            },
            rows: self.shape.0 as int,
            cols: self.shape.1 as int,
            headers: match self.headers {
                Some(headers) => Some(texts(headers@)),
                None => None,
            },
            index: self.index@,
            columns: column_views(self.columns@),
            index_unit: self.index_unit@,
            index_type: self.index_type@,
            column_unit: self.column_unit@,
            column_type: self.column_type@,
        }
    }
}

impl PairedDataTable {
    #[verifier::type_invariant]
    spec fn well_formed(self) -> bool {
        self@.wf()
    }

    /// A table of `row_count` rows and `col_count` columns, all values
    /// zero, with no address, no headers and empty labels.
    pub fn new(row_count: i32, col_count: i32) -> (table: Self)
        requires
            row_count >= 0,
            col_count >= 0,
        ensures
            table@.wf(),
            table@ == (TableModel {
                address: None,
                rows: row_count as int,
                cols: col_count as int,
                headers: None,
                index: Seq::new(row_count as nat, |r: int| 0u32),
                columns: Seq::new(
                    col_count as nat,
                    |c: int| Seq::new(row_count as nat, |r: int| 0u32),
                ),
                index_unit: UnitLabel::undefined(Seq::empty()),
                index_type: TypeLabel::undefined(Seq::empty()),
                column_unit: UnitLabel::undefined(Seq::empty()),
                column_type: TypeLabel::undefined(Seq::empty()),
            }),
    {
        let rows = row_count as usize;
        let cols = col_count as usize;
        let mut columns: Vec<Vec<u32>> = Vec::new();
        let mut c: usize = 0;
        while c < cols
            invariant
                0 <= c <= cols,
                rows == row_count,
                columns@.len() == c,
                forall|k: int|
                    0 <= k < c ==> (#[trigger] columns@[k])@ == Seq::new(
                        row_count as nat,
                        |r: int| 0u32,
                    ),
            decreases cols - c,
        {
            let column: Vec<u32> = vec![0u32; rows];
            assert(column@ =~= Seq::new(row_count as nat, |r: int| 0u32));
            columns.push(column);
            c = c + 1;
        }
        let index: Vec<u32> = vec![0u32; rows];
        proof {
            assert(index@ =~= Seq::new(row_count as nat, |r: int| 0u32));
            assert(column_views(columns@) =~= Seq::new(
                col_count as nat,
                |c: int| Seq::new(row_count as nat, |r: int| 0u32),
            ));
        }
        PairedDataTable {
            pathname: None,
            shape: (row_count, col_count),
            headers: None,
            index: index,
            columns: columns,
            index_unit: DataUnit::undefined(String::new()),
            index_type: DataType::undefined(String::new()),
            column_unit: DataUnit::undefined(String::new()),
            column_type: DataType::undefined(String::new()),
        }
    }

    /// Sets the address.
    pub fn set_pathname(&mut self, path: DssPathname)
        ensures
            final(self)@ == (TableModel { address: Some(path@), ..old(self)@ }),
            final(self)@.wf(),
    {
        proof {
            use_type_invariant(&*self);
        }
        self.pathname = Some(path);
    }

    /// Replaces the index by as many other values as the table has rows.
    /// With another number of values the call fails and leaves the table as
    /// it was.
    pub fn set_index(&mut self, values: &[u32]) -> (res: DssResult<()>)
        ensures
            final(self)@.wf(),
            values@.len() == old(self)@.rows ==> res is Ok && final(self)@ == (TableModel {
                index: values@,
                ..old(self)@
            }),
            values@.len() != old(self)@.rows ==> res is Err && res->Err_0@ == raised(
                "The length of the value is not equal to PairedDataTable index capacity"@,
            ) && final(self)@ == old(self)@,
    {
        proof {
            use_type_invariant(&*self);
        }
        if values.len() == self.index.len() {
            self.index = slice_to_vec(values);
            Ok(())
        } else {
            Err(
                DssError::raise(
                    String::from_str(
                        "The length of the value is not equal to PairedDataTable index capacity",
                    ),
                ),
            )
        }
    }

    /// Replaces the columns by the values of a buffer that holds them one
    /// column after the other, `rows * cols` values in all. With another
    /// number of values the call fails and leaves the table as it was.
    pub fn set_columns(&mut self, values: &[u32]) -> (res: DssResult<()>)
        ensures
            final(self)@.wf(),
            values@.len() == old(self)@.rows * old(self)@.cols ==> res is Ok && final(self)@
                == (TableModel {
                columns: columns_of(values@, old(self)@.rows, old(self)@.cols),
                ..old(self)@
            }),
            values@.len() != old(self)@.rows * old(self)@.cols ==> res is Err && res->Err_0@
                == raised(
                "The length of the value is not equal to PairedDataTable column capacity"@,
            ) && final(self)@ == old(self)@,
    {
        proof {
            use_type_invariant(&*self);
        }
        let rows = self.shape.0 as usize;
        let cols = self.shape.1 as usize;
        assert(self.shape.0 * self.shape.1 <= 0x7fff_ffff * 0x7fff_ffff) by (nonlinear_arith)
            requires
                0 <= self.shape.0 <= 0x7fff_ffff,
                0 <= self.shape.1 <= 0x7fff_ffff,
        ;
        let wanted: u64 = (self.shape.0 as u64) * (self.shape.1 as u64);
        if values.len() as u64 != wanted {
            return Err(
                DssError::raise(
                    String::from_str(
                        "The length of the value is not equal to PairedDataTable column capacity",
                    ),
                ),
            );
        }
        let mut columns: Vec<Vec<u32>> = Vec::new();
        let mut c: usize = 0;
        while c < cols
            invariant
                0 <= c <= cols,
                values@.len() == rows * cols,
                values@.len() <= usize::MAX,
                columns@.len() == c,
                forall|k: int|
                    0 <= k < c ==> (#[trigger] columns@[k])@ == Seq::new(
                        rows as nat,
                        |r: int| values@[k * rows + r],
                    ),
            decreases cols - c,
        {
            let mut column: Vec<u32> = Vec::new();
            let mut r: usize = 0;
            while r < rows
                invariant
                    0 <= r <= rows,
                    0 <= c < cols,
                    values@.len() == rows * cols,
                    values@.len() <= usize::MAX,
                    column@.len() == r,
                    forall|k: int| 0 <= k < r ==> #[trigger] column@[k] == values@[c * rows + k],
                decreases rows - r,
            {
                let ghost total = values@.len() as int;
                assert(0 <= c * rows && c * rows + r < total) by (nonlinear_arith)
                    requires
                        0 <= c < cols,
                        0 <= r < rows,
                        total == rows * cols,
                ;
                column.push(values[c * rows + r]);
                r = r + 1;
            }
            assert(column@ =~= Seq::new(rows as nat, |r: int| values@[c * rows + r]));
            columns.push(column);
            c = c + 1;
        }
        proof {
            assert(column_views(columns@) =~= columns_of(
                values@,
                old(self)@.rows,
                old(self)@.cols,
            ));
        }
        self.columns = columns;
        Ok(())
    }

    /// Sets or removes the headers. Headers that are not one for each column
    /// are refused, and the table is left as it was.
    pub fn set_headers(&mut self, headers: Option<Vec<String>>) -> (res: DssResult<()>)
        ensures
            final(self)@.wf(),
            headers is Some && headers->Some_0@.len() != old(self)@.cols ==> res is Err
                && res->Err_0@ == raised(
                "Invalid number ("@ + decimal_nat(headers->Some_0@.len())
                    + ") of column header provided"@,
            ) && final(self)@ == old(self)@,
            !(headers is Some && headers->Some_0@.len() != old(self)@.cols) ==> res is Ok
                && final(self)@ == (TableModel {
                headers: match headers {
                    Some(list) => Some(texts(list@)),
                    None => None,
                },
                ..old(self)@
            }),
    {
        proof {
            use_type_invariant(&*self);
        }
        match &headers {
            Some(list) => {
                if list.len() != self.shape.1 as usize {
                    let message = String::from_str("Invalid number (").concat(
                        decimal_u64(list.len() as u64).as_str(),
                    ).concat(") of column header provided");
                    return Err(DssError::raise(message));
                }
            },
            None => {},
        }
        self.headers = headers;
        Ok(())
    }

    /// Sets the unit of the index from its label.
    pub fn set_index_unit(&mut self, label: &str)
        ensures
            final(self)@ == (TableModel {
                index_unit: UnitLabel::of_label(lowercased(label@), label@),
                ..old(self)@
            }),
            final(self)@.wf(),
    {
        proof {
            use_type_invariant(&*self);
        }
        let value = DataUnit::from_string(label);
        self.index_unit = value;
    }

    /// The unit of the index, as a copy.
    pub fn index_unit(&self) -> (value: DataUnit)
        ensures
            value@ == self@.index_unit,
    {
        self.index_unit.clone()
    }

    /// Sets the data type of the index from its label.
    pub fn set_index_type(&mut self, label: &str)
        ensures
            final(self)@ == (TableModel {
                index_type: TypeLabel::of_label(lowercased(label@), label@),
                ..old(self)@
            }),
            final(self)@.wf(),
    {
        proof {
            use_type_invariant(&*self);
        }
        let value = DataType::from_string(label);
        self.index_type = value;
    }

    /// The data type of the index, as a copy.
    pub fn index_type(&self) -> (value: DataType)
        ensures
            value@ == self@.index_type,
    {
        self.index_type.clone()
    }

    /// Sets the unit of the columns from its label.
    pub fn set_column_unit(&mut self, label: &str)
        ensures
            final(self)@ == (TableModel {
                column_unit: UnitLabel::of_label(lowercased(label@), label@),
                ..old(self)@
            }),
            final(self)@.wf(),
    {
        proof {
            use_type_invariant(&*self);
        }
        let value = DataUnit::from_string(label);
        self.column_unit = value;
    }

    /// The unit of the columns, as a copy.
    pub fn column_unit(&self) -> (value: DataUnit)
        ensures
            value@ == self@.column_unit,
    {
        self.column_unit.clone()
    }

    /// Sets the data type of the columns from its label.
    pub fn set_column_type(&mut self, label: &str)
        ensures
            final(self)@ == (TableModel {
                column_type: TypeLabel::of_label(lowercased(label@), label@),
                ..old(self)@
            }),
            final(self)@.wf(),
    {
        proof {
            use_type_invariant(&*self);
        }
        let value = DataType::from_string(label);
        self.column_type = value;
    }

    /// The data type of the columns, as a copy.
    pub fn column_type(&self) -> (value: DataType)
        ensures
            value@ == self@.column_type,
    {
        self.column_type.clone()
    }

    /// The address, as a copy.
    pub fn pathname(&self) -> (path: Option<DssPathname>)
        ensures
            match path {
                Some(p) => Some(p@),
                None => None,
            } == self@.address,
    {
        match &self.pathname {
            Some(path) => Some(path.clone()),
            None => None,
        }
    }

    /// The numbers of rows and of columns.
    pub fn shape(&self) -> (shape: (i32, i32))
        ensures
            shape.0 == self@.rows,
            shape.1 == self@.cols,
            self@.wf(),
    {
        proof {
            use_type_invariant(self);
        }
        self.shape
    }

    /// The index column.
    pub fn index(&self) -> (index: &[u32])
        ensures
            index@ == self@.index,
    {
        self.index.as_slice()
    }

    /// The value columns.
    pub fn columns(&self) -> (columns: &Vec<Vec<u32>>)
        ensures
            column_views(columns@) == self@.columns,
    {
        &self.columns
    }

    /// The headers of the columns, where they are set.
    pub fn headers(&self) -> (list: Option<&Vec<String>>)
        ensures
            match list {
                Some(headers) => Some(texts(headers@)),
                None => None,
            } == self@.headers,
    {
        match &self.headers {
            Some(list) => Some(list),
            None => None,
        }
    }
}

/// A text without the characters `c` at its end.
pub open spec fn without_trailing(s: Seq<char>, c: char) -> Seq<char>
    decreases s.len(),
{
    if s.len() > 0 && s.last() == c {
        without_trailing(s.drop_last(), c)
    } else {
        s
    }
}

/// The labels that the engine's label buffer holds: the buffer without the
/// NUL characters at its end, split at each NUL that is left.
pub open spec fn labels_of(buffer: Seq<char>) -> Seq<Seq<char>> {
    split_on(without_trailing(buffer, '\0'), '\0')
}

/// The first `limit` of the labels of a buffer, or all of them where they
/// are fewer.
pub open spec fn headers_of(buffer: Seq<char>, limit: int) -> Seq<Seq<char>> {
    let labels = labels_of(buffer);
    if labels.len() > limit {
        labels.take(limit)
    } else {
        labels
    }
}

/// Splits the engine's label buffer into at most `limit` column headers.
pub fn split_labels(buffer: &str, limit: usize) -> (headers: Vec<String>)
    ensures
        texts(headers@) == headers_of(buffer@, limit as int),
{
    let chars = chars_of(buffer);
    let mut end: usize = chars.len();
    assert(chars@.take(end as int) =~= buffer@);
    while end > 0 && chars[end - 1] == '\0'
        invariant
            0 <= end <= chars.len(),
            chars@ == buffer@,
            without_trailing(chars@.take(end as int), '\0') == without_trailing(buffer@, '\0'),
        decreases end,
    {
        assert(chars@.take(end as int).drop_last() =~= chars@.take(end - 1));
        end = end - 1;
    }
    let mut headers = split_chars(&chars, end, '\0');
    proof {
        let kept = chars@.take(end as int);
        assert(without_trailing(kept, '\0') == kept);
    }
    let ghost all = texts(headers@);
    headers.truncate(limit);
    assert(texts(headers@) =~= headers_of(buffer@, limit as int));
    headers
}

/// What the engine hands back for a paired-data record: its buffers and
/// the numbers that describe them, as plain values.
#[derive(Debug)]
pub struct RawPairedData {
    /// The number of rows.
    pub number_ordinates: i32,
    /// The number of columns.
    pub number_curves: i32,
    /// The index column.
    pub ordinates: Vec<u32>,
    /// The value columns, one after the other.
    pub values: Vec<u32>,
    /// The labels of the columns, each ended by a NUL.
    pub labels: String,
}

impl RawPairedData {
    /// Why no table can be made of what the engine handed back, if none
    /// can: the first of these that holds. There is no row or no column; the
    /// index has not one value for each row; the value buffer has not one
    /// value for each row of each column. The labels are no reason: a buffer
    /// of labels that does not fit the columns costs the headers, not the
    /// table.
    pub open spec fn defect(self) -> Option<Seq<char>> {
        let rows = self.number_ordinates as int;
        let cols = self.number_curves as int;
        if rows < 1 || cols < 1 {
            Some(
                "Paired Data has invalid number of rows "@ + decimal_int(rows) + " or columns "@
                    + decimal_int(cols),
            )
        } else if self.ordinates@.len() != rows {
            Some("The length of the value is not equal to PairedDataTable index capacity"@)
        } else if self.values@.len() != rows * cols {
            Some("The length of the value is not equal to PairedDataTable column capacity"@)
        } else {
            None
        }
    }

    /// The table that the engine's buffers describe, under the address that
    /// was asked for. Its headers are the first labels of the buffer, one for
    /// each column; labels beyond the last column are dropped, and a buffer
    /// with fewer labels than columns leaves the table without headers.
    pub open spec fn table(self, address: PathParts) -> TableModel {
        let rows = self.number_ordinates as int;
        let cols = self.number_curves as int;
        TableModel {
            address: Some(address),
            rows: rows,
            cols: cols,
            headers: if headers_of(self.labels@, cols).len() == cols {
                Some(headers_of(self.labels@, cols))
            } else {
                None
            },
            index: self.ordinates@,
            columns: columns_of(self.values@, rows, cols),
            index_unit: UnitLabel::undefined(Seq::empty()),
            index_type: TypeLabel::undefined(Seq::empty()),
            column_unit: UnitLabel::undefined(Seq::empty()),
            column_type: TypeLabel::undefined(Seq::empty()),
        }
    }
}

impl PairedDataTable {
    /// Builds the table that the engine's buffers describe, under the
    /// address that was asked for, or fails with the reason why they describe
    /// none.
    pub fn from_raw(path: DssPathname, raw: &RawPairedData) -> (res: DssResult<Self>)
        ensures
            match raw.defect() {
                Some(message) => res is Err && res->Err_0@ == raised(message),
                None => res is Ok && res->Ok_0@ == raw.table(path@) && res->Ok_0@.wf(),
            },
    {
        let rows = raw.number_ordinates;
        let cols = raw.number_curves;
        if rows < 1 || cols < 1 {
            let message = String::from_str("Paired Data has invalid number of rows ").concat(
                decimal_i32(rows).as_str(),
            ).concat(" or columns ").concat(decimal_i32(cols).as_str());
            return Err(DssError::raise(message));
        }
        let mut table = PairedDataTable::new(rows, cols);
        table.set_pathname(path);
        match table.set_index(raw.ordinates.as_slice()) {
            Ok(_) => {},
            Err(e) => {
                return Err(e);
            },
        }
        match table.set_columns(raw.values.as_slice()) {
            Ok(_) => {},
            Err(e) => {
                return Err(e);
            },
        }
        let headers = split_labels(raw.labels.as_str(), cols as usize);
        if headers.len() == cols as usize {
            match table.set_headers(Some(headers)) {
                Ok(_) => {},
                Err(e) => {
                    return Err(e);
                },
            }
        }
        Ok(table)
    }
}

} // verus!
