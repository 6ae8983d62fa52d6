//! A small columnar table: named columns of equal length, each holding
//! values of one type.
use vstd::prelude::*;

verus! {

/// The values of one column.
#[derive(Clone, Debug)]
pub enum ColumnData {
    Text(Vec<String>),
    Int32(Vec<i32>),
}

/// A named column.
#[derive(Clone, Debug)]
pub struct Column {
    pub name: String,
    pub data: ColumnData,
}

/// Why a set of columns does not make a table.
#[derive(Clone, Copy, Debug, PartialEq, Eq, Structural)]
pub enum TableError {
    /// Two columns hold different numbers of values.
    LengthMismatch,
    /// Two columns have the same name.
    DuplicateName,
}

/// The number of values in `c`.
pub open spec fn column_len(c: Column) -> nat {
    match c.data {
        ColumnData::Text(v) => v@.len(),
        ColumnData::Int32(v) => v@.len(),
    }
}

/// Every column holds as many values as the first.
pub open spec fn lengths_agree(cols: Seq<Column>) -> bool {
    forall|i: int| 0 <= i < cols.len() ==> #[trigger] column_len(cols[i]) == column_len(cols[0])
}

/// No two columns share a name.
pub open spec fn names_unique(cols: Seq<Column>) -> bool {
    forall|i: int, j: int|
        0 <= i < j < cols.len() ==> (#[trigger] cols[i]).name@ != (#[trigger] cols[j]).name@
}

impl Column {
    /// A column of strings.
    pub fn text(name: String, values: Vec<String>) -> (r: Column)
        ensures
            r.name == name,
            r.data == ColumnData::Text(values),
    {
        Column { name, data: ColumnData::Text(values) }
    }

    /// A column of 32-bit integers.
    pub fn int32(name: String, values: Vec<i32>) -> (r: Column)
        ensures
            r.name == name,
            r.data == ColumnData::Int32(values),
    {
        Column { name, data: ColumnData::Int32(values) }
    }

    /// The number of values in the column.
    pub fn len(&self) -> (r: usize)
        ensures
            r == column_len(*self),
    {
        match &self.data {
            ColumnData::Text(v) => v.len(),
            ColumnData::Int32(v) => v.len(),
        }
    }
}

/// Named columns of equal length with distinct names.
#[derive(Clone, Debug)]
pub struct Table {
    columns: Vec<Column>,
}

impl View for Table {
    type V = Seq<Column>;

    closed spec fn view(&self) -> Seq<Column> {
        self.columns@
    }
}

impl Table {
    /// Tables hold columns of equal length with distinct names.
    pub open spec fn wf(&self) -> bool {
        lengths_agree(self@) && names_unique(self@)
    }

    /// Makes a table of `columns`, in their order. Fails with
    /// `LengthMismatch` where two columns differ in length, and otherwise
    /// with `DuplicateName` where two share a name.
    pub fn new(columns: Vec<Column>) -> (r: Result<Table, TableError>)
        ensures
            r is Ok <==> lengths_agree(columns@) && names_unique(columns@),
            r is Ok ==> r->Ok_0@ == columns@ && r->Ok_0.wf(),
            r == Err::<Table, TableError>(TableError::LengthMismatch) <==> !lengths_agree(columns@),
            r == Err::<Table, TableError>(TableError::DuplicateName) <==> lengths_agree(columns@)
                && !names_unique(columns@),
    {
        let n = columns.len();
        if n > 0 {
            let first = columns[0].len();
            let mut i: usize = 1;
            while i < n
                invariant
                    n == columns@.len(),
                    first == column_len(columns@[0]),
                    1 <= i <= n,
                    forall|k: int| 0 <= k < i ==> #[trigger] column_len(columns@[k]) == first,
                decreases n - i,
            {
                if columns[i].len() != first {
                    return Err(TableError::LengthMismatch);
                }
                i = i + 1;
            }
        }
        let mut j: usize = 0;
        while j < n
            invariant
                n == columns@.len(),
                lengths_agree(columns@),
                0 <= j <= n,
                forall|a: int, b: int|
                    0 <= a < b < n && a < j ==> (#[trigger] columns@[a]).name@
                        != (#[trigger] columns@[b]).name@,
            decreases n - j,
        {
            let mut k: usize = j + 1;
            while k < n
                invariant
                    n == columns@.len(),
                    lengths_agree(columns@),
                    j < n,
                    j + 1 <= k <= n,
                    forall|a: int, b: int|
                        0 <= a < b < n && a < j ==> (#[trigger] columns@[a]).name@
                            != (#[trigger] columns@[b]).name@,
                    forall|b: int| j < b < k ==> columns@[j as int].name@ != (#[trigger] columns@[b]).name@,
                decreases n - k,
            {
                if columns[j].name == columns[k].name {
                    return Err(TableError::DuplicateName);
                }
                k = k + 1;
            }
            j = j + 1;
        }
        Ok(Table { columns })
    }

    /// The number of columns.
    pub fn width(&self) -> (r: usize)
        ensures
            r == self@.len(),
    {
        self.columns.len()
    }

    /// The number of rows: the length of every column, 0 without columns.
    pub fn height(&self) -> (r: usize)
        requires
            self.wf(),
        ensures
            self@.len() == 0 ==> r == 0,
            forall|i: int| 0 <= i < self@.len() ==> #[trigger] column_len(self@[i]) == r,
    {
        if self.columns.len() == 0 {
            0
        } else {
            self.columns[0].len()
        }
    }

    /// The column at position `i`.
    pub fn column(&self, i: usize) -> (r: &Column)
        requires
            i < self@.len(),
        ensures
            *r == self@[i as int],
    {
        &self.columns[i]
    }

    /// The columns, in order, giving up the table.
    pub fn into_columns(self) -> (r: Vec<Column>)
        ensures
            r@ == self@,
    {
        self.columns
    }
}

} // verus!
