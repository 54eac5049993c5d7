use vstd::prelude::*;

use crate::error::CubeError;
use crate::rows::{IdRow, QueueItem};
use crate::schema::{ColumnData, ColumnModel, ColumnType, FieldDescriptor};
use crate::table::{
    active_columns, column_name, column_nullable, column_of_snapshot, column_type_of,
    InfoSchemaQueueDef, QueueBatch,
};

verus! {

#[verifier::external_type_specification]
#[verifier::external_body]
pub struct ExField(arrow::datatypes::Field);

/// An arrow UTF-8 array, held opaquely: Verus sees its contents only
/// through `text_array_cells`.
#[verifier::external_body]
pub struct TextArray {
    inner: arrow::array::StringArray,
}

/// An arrow nanosecond-timestamp array, held opaquely: Verus sees its
/// contents only through `timestamp_array_cells`.
#[verifier::external_body]
pub struct TimestampArray {
    inner: arrow::array::TimestampNanosecondArray,
}

/// The strings a `TextArray` holds, in positional order.
pub uninterp spec fn text_array_cells(a: TextArray) -> Seq<Seq<char>>;

/// The nanosecond instants a `TimestampArray` holds, in positional order.
pub uninterp spec fn timestamp_array_cells(a: TimestampArray) -> Seq<i64>;

/// The name an arrow field carries.
pub uninterp spec fn arrow_field_name(f: arrow::datatypes::Field) -> Seq<char>;

/// Whether an arrow field is declared nullable.
pub uninterp spec fn arrow_field_nullable(f: arrow::datatypes::Field) -> bool;

/// Whether an arrow field's data type is UTF-8 text.
pub uninterp spec fn arrow_field_is_utf8(f: arrow::datatypes::Field) -> bool;

/// The summed character count over a text column's cells.
pub open spec fn total_text_chars(cells: Seq<Seq<char>>) -> nat
    decreases cells.len(),
{
    if cells.len() == 0 {
        0
    } else {
        total_text_chars(cells.drop_last()) + cells.last().len()
    }
}

/// Whether a column's contents surely fit one arrow array. Arrow's text
/// arrays index their byte buffer with 32-bit offsets, so the cells' summed
/// UTF-8 length must stay within `i32::MAX`; a `char` encodes to at most
/// four bytes, so four per character is a safe bound. Timestamp cells are
/// fixed-width and always fit.
pub open spec fn column_model_fits_arrow(m: ColumnModel) -> bool {
    match m {
        ColumnModel::Text(cells) => 4 * total_text_chars(cells) <= i32::MAX,
        ColumnModel::TimestampNanosecond(_) => true,
    }
}

/// Whether every active column extracted from `rows` surely fits its arrow
/// array; only the id column is variable-width, so this bounds the summed
/// length of the identity keys.
pub open spec fn snapshot_fits_arrow(rows: Seq<IdRow<QueueItem>>) -> bool {
    forall|i: int|
        0 <= i < active_columns().len() ==> column_model_fits_arrow(
            #[trigger] column_of_snapshot(active_columns()[i], rows),
        )
}

impl TextArray {
    /// Relies on arrow's `StringArray: From<Vec<String>>`, which builds a
    /// non-null array holding exactly the given strings, in order. Arrow
    /// aborts with an offset overflow once the strings' summed byte length
    /// passes `i32::MAX`; the bound on the summed character count keeps
    /// every admitted input below that limit.
    #[verifier::external_body]
    fn from_cells(cells: Vec<String>) -> (r: TextArray)
        requires
            4 * total_text_chars(cells@.map(|i: int, s: String| s@)) <= i32::MAX,
        ensures
            text_array_cells(r) == cells@.map(|i: int, s: String| s@),
    {
        TextArray { inner: arrow::array::StringArray::from(cells) }
    }

    /// Relies on arrow's `Array::len`: the number of cells in the array.
    #[verifier::external_body]
    pub fn len(&self) -> (r: usize)
        ensures
            r == text_array_cells(*self).len(),
    {
        arrow::array::Array::len(&self.inner)
    }

    /// Relies on arrow's `StringArray::value`: the cell at index `i`,
    /// defined for every index below the length.
    #[verifier::external_body]
    pub fn get(&self, i: usize) -> (r: String)
        requires
            i < text_array_cells(*self).len(),
        ensures
            r@ == text_array_cells(*self)[i as int],
    {
        self.inner.value(i).to_owned()
    }
}

impl TimestampArray {
    /// Relies on arrow's `TimestampNanosecondArray: From<Vec<i64>>`, which
    /// builds a non-null array holding exactly the given instants, in order.
    #[verifier::external_body]
    fn from_cells(cells: Vec<i64>) -> (r: TimestampArray)
        ensures
            timestamp_array_cells(r) == cells@,
    {
        TimestampArray { inner: arrow::array::TimestampNanosecondArray::from(cells) }
    }

    /// Relies on arrow's `Array::len`: the number of cells in the array.
    #[verifier::external_body]
    pub fn len(&self) -> (r: usize)
        ensures
            r == timestamp_array_cells(*self).len(),
    {
        arrow::array::Array::len(&self.inner)
    }

    /// Relies on arrow's `PrimitiveArray::value`: the cell at index `i`,
    /// defined for every index below the length.
    #[verifier::external_body]
    pub fn get(&self, i: usize) -> (r: i64)
        requires
            i < timestamp_array_cells(*self).len(),
        ensures
            r == timestamp_array_cells(*self)[i as int],
    {
        self.inner.value(i)
    }
}

/// Relies on arrow's `Field::new`, a pure constructor that stores exactly
/// the given name, the UTF-8 data type and the given nullability.
#[verifier::external_body]
fn field_utf8(name: &String, nullable: bool) -> (r: arrow::datatypes::Field)
    ensures
        arrow_field_name(r) == name@,
        arrow_field_nullable(r) == nullable,
        arrow_field_is_utf8(r),
{
    arrow::datatypes::Field::new(name.clone(), arrow::datatypes::DataType::Utf8, nullable)
}

/// Relies on arrow's `Field::new`, a pure constructor that stores exactly
/// the given name, the nanosecond-timestamp data type (no time zone
/// attached) and the given nullability.
#[verifier::external_body]
fn field_timestamp_ns(name: &String, nullable: bool) -> (r: arrow::datatypes::Field)
    ensures
        arrow_field_name(r) == name@,
        arrow_field_nullable(r) == nullable,
        !arrow_field_is_utf8(r),
{
    arrow::datatypes::Field::new(
        name.clone(),
        arrow::datatypes::DataType::Timestamp(arrow::datatypes::TimeUnit::Nanosecond, None),
        nullable,
    )
}

/// One engine-facing column: the arrow array a produced column turns into.
pub enum ArrowColumn {
    Text(TextArray),
    TimestampNanosecond(TimestampArray),
}

impl ArrowColumn {
    /// The cells the arrow array holds, read through the same mathematical
    /// column contents the logical batch uses.
    pub open spec fn model(&self) -> ColumnModel {
        match self {
            ArrowColumn::Text(a) => ColumnModel::Text(text_array_cells(*a)),
            ArrowColumn::TimestampNanosecond(a) => ColumnModel::TimestampNanosecond(
                timestamp_array_cells(*a),
            ),
        }
    }
}

/// An engine-facing batch: one arrow field and one arrow array per active
/// column, in declaration order.
pub struct ArrowBatch {
    pub fields: Vec<arrow::datatypes::Field>,
    pub columns: Vec<ArrowColumn>,
}

/// Turns one produced column into its arrow array without changing a cell.
/// The column must fit arrow's 32-bit offsets, a machine limit of the
/// engine-facing form.
pub fn to_arrow_column(c: ColumnData) -> (r: ArrowColumn)
    requires
        column_model_fits_arrow(c.model()),
    ensures
        r.model() == c.model(),
{
    match c {
        ColumnData::Text(cells) => ArrowColumn::Text(TextArray::from_cells(cells)),
        ColumnData::TimestampNanosecond(cells) => ArrowColumn::TimestampNanosecond(
            TimestampArray::from_cells(cells),
        ),
    }
}

/// Turns one field descriptor into the arrow field the engine consumes,
/// keeping its name, data type and nullability.
pub fn to_arrow_field(d: &FieldDescriptor) -> (r: arrow::datatypes::Field)
    ensures
        arrow_field_name(r) == d.name@,
        arrow_field_nullable(r) == d.nullable,
        arrow_field_is_utf8(r) == (d.column_type == ColumnType::Text),
{
    match d.column_type {
        ColumnType::Text => field_utf8(&d.name, d.nullable),
        ColumnType::TimestampNanosecond => field_timestamp_ns(&d.name, d.nullable),
    }
}

/// Packages a logical batch as arrow fields and arrays: the same number of
/// fields and columns, every field keeping its descriptor's name, type and
/// nullability, and every array holding exactly the cells of the column it
/// came from. Every text column must fit arrow's 32-bit offsets.
pub fn materialize(b: QueueBatch) -> (r: ArrowBatch)
    requires
        forall|i: int|
            0 <= i < b.columns@.len() ==> column_model_fits_arrow(
                (#[trigger] b.columns@[i]).model(),
            ),
    ensures
        r.fields@.len() == b.fields@.len(),
        r.columns@.len() == b.columns@.len(),
        forall|i: int|
            0 <= i < b.fields@.len() ==> arrow_field_name(#[trigger] r.fields@[i])
                == b.fields@[i].name@ && arrow_field_nullable(r.fields@[i])
                == b.fields@[i].nullable && arrow_field_is_utf8(r.fields@[i])
                == (b.fields@[i].column_type == ColumnType::Text),
        forall|i: int|
            0 <= i < b.columns@.len() ==> (#[trigger] r.columns@[i]).model()
                == b.columns@[i].model(),
{
    let QueueBatch { fields, columns } = b;
    let ghost orig_cols = columns@;

    let mut out_fields: Vec<arrow::datatypes::Field> = Vec::new();
    let n = fields.len();
    let mut j: usize = 0;
    while j < n
        invariant
            j <= n,
            n == fields@.len(),
            out_fields@.len() == j,
            forall|k: int|
                0 <= k < j ==> arrow_field_name(#[trigger] out_fields@[k]) == fields@[k].name@
                    && arrow_field_nullable(out_fields@[k]) == fields@[k].nullable
                    && arrow_field_is_utf8(out_fields@[k]) == (fields@[k].column_type
                    == ColumnType::Text),
        decreases n - j,
    {
        out_fields.push(to_arrow_field(&fields[j]));
        j += 1;
    }

    let mut rest = columns;
    let mut out_columns: Vec<ArrowColumn> = Vec::new();
    while rest.len() > 0
        invariant
            out_columns@.len() + rest@.len() == orig_cols.len(),
            rest@ == orig_cols.subrange(out_columns@.len() as int, orig_cols.len() as int),
            forall|k: int|
                0 <= k < orig_cols.len() ==> column_model_fits_arrow(
                    (#[trigger] orig_cols[k]).model(),
                ),
            forall|k: int|
                0 <= k < out_columns@.len() ==> (#[trigger] out_columns@[k]).model()
                    == orig_cols[k].model(),
        decreases rest@.len(),
    {
        let c = rest.remove(0);
        proof {
            assert(c == orig_cols[out_columns@.len() as int]);
        }
        out_columns.push(to_arrow_column(c));
        proof {
            assert(rest@ =~= orig_cols.subrange(
                out_columns@.len() as int,
                orig_cols.len() as int,
            ));
        }
    }

    ArrowBatch { fields: out_fields, columns: out_columns }
}

/// Holds when an engine-facing batch carries exactly the columns scanning
/// the snapshot `rows` must produce: one arrow field and one arrow array
/// per active column, every field carrying its column's declared name,
/// type and nullability, every array aligned cell-for-cell with the
/// snapshot.
pub open spec fn arrow_batch_matches(b: ArrowBatch, rows: Seq<IdRow<QueueItem>>) -> bool {
    &&& b.fields@.len() == active_columns().len()
    &&& forall|i: int|
        0 <= i < active_columns().len() ==> arrow_field_name(#[trigger] b.fields@[i])
            == column_name(active_columns()[i]) && arrow_field_nullable(b.fields@[i])
            == column_nullable(active_columns()[i]) && arrow_field_is_utf8(b.fields@[i])
            == (column_type_of(active_columns()[i]) == ColumnType::Text)
    &&& b.columns@.len() == active_columns().len()
    &&& forall|i: int|
        0 <= i < active_columns().len() ==> (#[trigger] b.columns@[i]).model()
            == column_of_snapshot(active_columns()[i], rows)
}

impl InfoSchemaQueueDef {
    /// One whole scan down to engine form: the fetch outcome in, an arrow
    /// batch or the store's own failure out, nothing retried and nothing
    /// partially built. A fetched snapshot must fit arrow's 32-bit offsets
    /// (see `snapshot_fits_arrow`), the one machine limit of the
    /// engine-facing form.
    pub fn scan_to_arrow(&self, fetched: Result<Vec<IdRow<QueueItem>>, CubeError>) -> (r: Result<
        ArrowBatch,
        CubeError,
    >)
        requires
            fetched matches Ok(rows) ==> snapshot_fits_arrow(rows@),
        ensures
            fetched matches Ok(rows) ==> r matches Ok(b) && arrow_batch_matches(b, rows@),
            fetched matches Err(e) ==> r matches Err(e2) && e2 == e,
    {
        match self.scan(fetched) {
            Ok(b) => Ok(materialize(b)),
            Err(e) => Err(e),
        }
    }
}

} // verus!
