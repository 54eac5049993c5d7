use vstd::prelude::*;

verus! {

/// The logical type of one column, as the query engine will see it.
#[derive(Clone, Copy, PartialEq, Eq, Structural, Debug)]
pub enum ColumnType {
    /// UTF-8 text.
    Text,
    /// An instant with nanosecond resolution, counted from the Unix epoch.
    TimestampNanosecond,
}

/// One column's static description: name, logical type and nullability.
/// Declared per column, independent of any data, so the schema can be served
/// without touching the store.
pub struct FieldDescriptor {
    pub name: String,
    pub column_type: ColumnType,
    pub nullable: bool,
}

/// Holds when a descriptor carries exactly the given name, type and
/// nullability.
pub open spec fn descriptor_is(
    d: FieldDescriptor,
    name: Seq<char>,
    column_type: ColumnType,
    nullable: bool,
) -> bool {
    &&& d.name@ == name
    &&& d.column_type == column_type
    &&& d.nullable == nullable
}

/// One produced column: a typed, contiguous array of plain values, aligned
/// by position with the row snapshot it was extracted from.
pub enum ColumnData {
    Text(Vec<String>),
    TimestampNanosecond(Vec<i64>),
}

/// The mathematical contents of one column: the sequence of cell values,
/// with text as character sequences and instants as nanosecond counts.
#[verifier::ext_equal]
pub enum ColumnModel {
    Text(Seq<Seq<char>>),
    TimestampNanosecond(Seq<i64>),
}

impl ColumnModel {
    /// The number of cells in the column.
    pub open spec fn len(&self) -> nat {
        match self {
            ColumnModel::Text(cells) => cells.len(),
            ColumnModel::TimestampNanosecond(cells) => cells.len(),
        }
    }
}

impl ColumnData {
    /// The column's contents as a value sequence.
    pub open spec fn model(&self) -> ColumnModel {
        match self {
            ColumnData::Text(cells) => ColumnModel::Text(
                cells@.map(|i: int, s: String| s@),
            ),
            ColumnData::TimestampNanosecond(cells) => ColumnModel::TimestampNanosecond(cells@),
        }
    }

    /// The number of cells in the column.
    pub fn len(&self) -> (r: usize)
        ensures
            r == self.model().len(),
    {
        match self {
            ColumnData::Text(cells) => cells.len(),
            ColumnData::TimestampNanosecond(cells) => cells.len(),
        }
    }
}

} // verus!
