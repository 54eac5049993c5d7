use vstd::prelude::*;

use crate::error::CubeError;
use crate::rows::{IdRow, QueueItem};
use crate::schema::{descriptor_is, ColumnData, ColumnModel, ColumnType, FieldDescriptor};

verus! {

/// One column of the queue table, acting as its own projection function:
/// `extract` turns a row snapshot into that column's array. The full
/// registered set is modelled here; `Value` is registered but not yet wired
/// into the active extractor list, staging the schema for a later release.
#[derive(Clone, Copy, PartialEq, Eq, Structural, Debug)]
pub enum QueueColumn {
    Id,
    Created,
    Value,
}

/// Every column the queue entity can offer, in declaration order.
pub open spec fn registered_columns() -> Seq<QueueColumn> {
    seq![QueueColumn::Id, QueueColumn::Created, QueueColumn::Value]
}

/// The columns currently served to the engine, in declaration order. The
/// payload column is withheld until its consumers are ready.
pub open spec fn active_columns() -> Seq<QueueColumn> {
    seq![QueueColumn::Id, QueueColumn::Created]
}

/// The engine-visible name of a column.
pub open spec fn column_name(c: QueueColumn) -> Seq<char> {
    match c {
        QueueColumn::Id => "id"@,
        QueueColumn::Created => "created"@,
        QueueColumn::Value => "value"@,
    }
}

/// The logical type of a column.
pub open spec fn column_type_of(c: QueueColumn) -> ColumnType {
    match c {
        QueueColumn::Id => ColumnType::Text,
        QueueColumn::Created => ColumnType::TimestampNanosecond,
        QueueColumn::Value => ColumnType::Text,
    }
}

/// Whether a column may hold nulls. Every queue column is total over the
/// snapshot, so none is nullable.
pub open spec fn column_nullable(c: QueueColumn) -> bool {
    false
}

/// Holds when a descriptor is exactly the one declared for column `c`.
pub open spec fn descriptor_matches(d: FieldDescriptor, c: QueueColumn) -> bool {
    descriptor_is(d, column_name(c), column_type_of(c), column_nullable(c))
}

/// The contents column `c` must have when extracted from `rows`: cell `i`
/// is the projection of row `i`, so length and order always follow the
/// snapshot.
pub open spec fn column_of_snapshot(c: QueueColumn, rows: Seq<IdRow<QueueItem>>) -> ColumnModel {
    match c {
        QueueColumn::Id => ColumnModel::Text(
            rows.map(|i: int, r: IdRow<QueueItem>| r.row_spec().key_spec()),
        ),
        QueueColumn::Created => ColumnModel::TimestampNanosecond(
            rows.map(|i: int, r: IdRow<QueueItem>| r.row_spec().created_ns_spec()),
        ),
        QueueColumn::Value => ColumnModel::Text(
            rows.map(|i: int, r: IdRow<QueueItem>| r.row_spec().value_spec()),
        ),
    }
}

impl QueueColumn {
    /// The static field descriptor for this column; independent of any data.
    pub fn field(&self) -> (r: FieldDescriptor)
        ensures
            descriptor_matches(r, *self),
    {
        match self {
            QueueColumn::Id => FieldDescriptor {
                name: "id".to_owned(),
                column_type: ColumnType::Text,
                nullable: false,
            },
            QueueColumn::Created => FieldDescriptor {
                name: "created".to_owned(),
                column_type: ColumnType::TimestampNanosecond,
                nullable: false,
            },
            QueueColumn::Value => FieldDescriptor {
                name: "value".to_owned(),
                column_type: ColumnType::Text,
                nullable: false,
            },
        }
    }

    /// The projection function of this column: reads the shared snapshot and
    /// produces one typed array, cell `i` from row `i`, never inspecting any
    /// other column's output.
    pub fn extract(&self, rows: &Vec<IdRow<QueueItem>>) -> (r: ColumnData)
        ensures
            r.model() == column_of_snapshot(*self, rows@),
            r.model().len() == rows@.len(),
    {
        match self {
            QueueColumn::Id => {
                let mut cells: Vec<String> = Vec::new();
                let n = rows.len();
                let mut j: usize = 0;
                while j < n
                    invariant
                        j <= n,
                        n == rows@.len(),
                        cells@.len() == j,
                        forall|k: int|
                            0 <= k < j ==> (#[trigger] cells@[k])@ == rows@[k].row_spec().key_spec(),
                    decreases n - j,
                {
                    cells.push(rows[j].get_row().get_key().clone());
                    j += 1;
                }
                proof {
                    assert(cells@.map(|i: int, s: String| s@) =~= rows@.map(
                        |i: int, r: IdRow<QueueItem>| r.row_spec().key_spec(),
                    ));
                }
                ColumnData::Text(cells)
            },
            QueueColumn::Created => {
                let mut cells: Vec<i64> = Vec::new();
                let n = rows.len();
                let mut j: usize = 0;
                while j < n
                    invariant
                        j <= n,
                        n == rows@.len(),
                        cells@.len() == j,
                        forall|k: int|
                            0 <= k < j ==> #[trigger] cells@[k] == rows@[k].row_spec().created_ns_spec(),
                    decreases n - j,
                {
                    cells.push(rows[j].get_row().get_created_ns());
                    j += 1;
                }
                proof {
                    assert(cells@ =~= rows@.map(
                        |i: int, r: IdRow<QueueItem>| r.row_spec().created_ns_spec(),
                    ));
                }
                ColumnData::TimestampNanosecond(cells)
            },
            QueueColumn::Value => {
                let mut cells: Vec<String> = Vec::new();
                let n = rows.len();
                let mut j: usize = 0;
                while j < n
                    invariant
                        j <= n,
                        n == rows@.len(),
                        cells@.len() == j,
                        forall|k: int|
                            0 <= k < j ==> (#[trigger] cells@[k])@ == rows@[k].row_spec().value_spec(),
                    decreases n - j,
                {
                    cells.push(rows[j].get_row().get_value().clone());
                    j += 1;
                }
                proof {
                    assert(cells@.map(|i: int, s: String| s@) =~= rows@.map(
                        |i: int, r: IdRow<QueueItem>| r.row_spec().value_spec(),
                    ));
                }
                ColumnData::Text(cells)
            },
        }
    }
}

/// One materialized scan result: the served field descriptors paired with
/// the column arrays extracted from one row snapshot.
pub struct QueueBatch {
    pub fields: Vec<FieldDescriptor>,
    pub columns: Vec<ColumnData>,
}

/// Holds when a batch is exactly what scanning the snapshot `rows` must
/// produce: one array per active column, each descriptor and each array in
/// declaration order, every array aligned cell-for-cell with the snapshot.
pub open spec fn batch_matches(b: QueueBatch, rows: Seq<IdRow<QueueItem>>) -> bool {
    &&& b.fields@.len() == active_columns().len()
    &&& forall|i: int|
        0 <= i < active_columns().len() ==> descriptor_matches(
            #[trigger] b.fields@[i],
            active_columns()[i],
        )
    &&& b.columns@.len() == active_columns().len()
    &&& forall|i: int|
        0 <= i < active_columns().len() ==> (#[trigger] b.columns@[i]).model()
            == column_of_snapshot(active_columns()[i], rows)
}

/// The virtual table definition for the queue entity: composes the row
/// source (the engine fetches the snapshot through its store handle) with
/// the active column extractor set. Stateless between calls.
pub struct InfoSchemaQueueDef;

impl InfoSchemaQueueDef {
    /// The active columns in declaration order.
    pub fn active_list(&self) -> (r: Vec<QueueColumn>)
        ensures
            r@ == active_columns(),
    {
        let mut r: Vec<QueueColumn> = Vec::new();
        r.push(QueueColumn::Id);
        r.push(QueueColumn::Created);
        proof {
            assert(r@ =~= active_columns());
        }
        r
    }

    /// Every registered column, the staged payload column included.
    pub fn registered_list(&self) -> (r: Vec<QueueColumn>)
        ensures
            r@ == registered_columns(),
    {
        let mut r: Vec<QueueColumn> = Vec::new();
        r.push(QueueColumn::Id);
        r.push(QueueColumn::Created);
        r.push(QueueColumn::Value);
        proof {
            assert(r@ =~= registered_columns());
        }
        r
    }

    /// The extractor set: each active column's descriptor paired with the
    /// column itself, which carries the projection function.
    pub fn columns(&self) -> (r: Vec<(FieldDescriptor, QueueColumn)>)
        ensures
            r@.len() == active_columns().len(),
            forall|i: int|
                0 <= i < active_columns().len() ==> (#[trigger] r@[i]).1 == active_columns()[i]
                    && descriptor_matches(r@[i].0, active_columns()[i]),
    {
        let cols = self.active_list();
        let mut r: Vec<(FieldDescriptor, QueueColumn)> = Vec::new();
        let n = cols.len();
        let mut j: usize = 0;
        while j < n
            invariant
                j <= n,
                n == cols@.len(),
                cols@ == active_columns(),
                r@.len() == j,
                forall|k: int|
                    0 <= k < j ==> (#[trigger] r@[k]).1 == active_columns()[k]
                        && descriptor_matches(r@[k].0, active_columns()[k]),
            decreases n - j,
        {
            let c = cols[j];
            r.push((c.field(), c));
            j += 1;
        }
        r
    }

    /// The field descriptors of the active columns, in declaration order,
    /// derived from the extractor set alone: no data is touched, so the
    /// result is the same whatever the store holds.
    pub fn schema(&self) -> (r: Vec<FieldDescriptor>)
        ensures
            r@.len() == active_columns().len(),
            forall|i: int|
                0 <= i < active_columns().len() ==> descriptor_matches(
                    #[trigger] r@[i],
                    active_columns()[i],
                ),
    {
        let cols = self.active_list();
        let mut r: Vec<FieldDescriptor> = Vec::new();
        let n = cols.len();
        let mut j: usize = 0;
        while j < n
            invariant
                j <= n,
                n == cols@.len(),
                cols@ == active_columns(),
                r@.len() == j,
                forall|k: int|
                    0 <= k < j ==> descriptor_matches(#[trigger] r@[k], active_columns()[k]),
            decreases n - j,
        {
            r.push(cols[j].field());
            j += 1;
        }
        r
    }

    /// Applies every active extractor, in declaration order, to one shared
    /// row snapshot, and packages the arrays with their descriptors.
    pub fn scan_snapshot(&self, rows: &Vec<IdRow<QueueItem>>) -> (r: QueueBatch)
        ensures
            batch_matches(r, rows@),
    {
        let cols = self.active_list();
        let mut fields: Vec<FieldDescriptor> = Vec::new();
        let mut columns: Vec<ColumnData> = Vec::new();
        let n = cols.len();
        let mut j: usize = 0;
        while j < n
            invariant
                j <= n,
                n == cols@.len(),
                cols@ == active_columns(),
                fields@.len() == j,
                columns@.len() == j,
                forall|k: int|
                    0 <= k < j ==> descriptor_matches(#[trigger] fields@[k], active_columns()[k]),
                forall|k: int|
                    0 <= k < j ==> (#[trigger] columns@[k]).model() == column_of_snapshot(
                        active_columns()[k],
                        rows@,
                    ),
            decreases n - j,
        {
            let c = cols[j];
            fields.push(c.field());
            columns.push(c.extract(rows));
            j += 1;
        }
        QueueBatch { fields, columns }
    }

    /// One whole scan, given what the row source's fetch came back with.
    /// A fetched snapshot — the empty one included — always yields a batch;
    /// a fetch failure is passed through unchanged, with no partial arrays.
    pub fn scan(&self, fetched: Result<Vec<IdRow<QueueItem>>, CubeError>) -> (r: Result<
        QueueBatch,
        CubeError,
    >)
        ensures
            fetched matches Ok(rows) ==> r matches Ok(b) && batch_matches(b, rows@),
            fetched matches Err(e) ==> r matches Err(e2) && e2 == e,
    {
        match fetched {
            Ok(rows) => Ok(self.scan_snapshot(&rows)),
            Err(e) => Err(e),
        }
    }
}

/// Law: every column extracted from a snapshot has exactly the snapshot's
/// length, whichever registered column it is.
pub proof fn lemma_length_alignment(c: QueueColumn, rows: Seq<IdRow<QueueItem>>)
    ensures
        column_of_snapshot(c, rows).len() == rows.len(),
{
}

/// Law: in every batch a snapshot scans to, each column array has exactly
/// the snapshot's length.
pub proof fn lemma_batch_length_alignment(b: QueueBatch, rows: Seq<IdRow<QueueItem>>)
    requires
        batch_matches(b, rows),
    ensures
        forall|i: int|
            0 <= i < b.columns@.len() ==> (#[trigger] b.columns@[i]).model().len() == rows.len(),
{
}

/// Law: cell `i` of the id column is the identity key of row `i`, and cell
/// `i` of the created column is row `i`'s creation instant in nanoseconds —
/// so every column keeps the snapshot's own order, cell for cell.
pub proof fn lemma_positional_correspondence(rows: Seq<IdRow<QueueItem>>, i: int)
    requires
        0 <= i < rows.len(),
    ensures
        column_of_snapshot(QueueColumn::Id, rows) matches ColumnModel::Text(cells) && cells[i]
            == rows[i].row_spec().key_spec(),
        column_of_snapshot(QueueColumn::Created, rows) matches ColumnModel::TimestampNanosecond(
            cells,
        ) && cells[i] == rows[i].row_spec().created_ns_spec(),
{
}

/// Law: the field descriptors of any two batches agree column for column,
/// whatever snapshots they were scanned from: the served schema does not
/// depend on the store's contents.
pub proof fn lemma_schema_independent_of_data(
    b1: QueueBatch,
    rows1: Seq<IdRow<QueueItem>>,
    b2: QueueBatch,
    rows2: Seq<IdRow<QueueItem>>,
)
    requires
        batch_matches(b1, rows1),
        batch_matches(b2, rows2),
    ensures
        b1.fields@.len() == b2.fields@.len(),
        forall|i: int|
            0 <= i < b1.fields@.len() ==> (#[trigger] b1.fields@[i]).name@ == b2.fields@[i].name@
                && b1.fields@[i].column_type == b2.fields@[i].column_type && b1.fields@[i].nullable
                == b2.fields@[i].nullable,
{
}

} // verus!
