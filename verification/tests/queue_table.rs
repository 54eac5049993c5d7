use queue_info_schema::columnar::{ArrowColumn, TextArray, TimestampArray};
use queue_info_schema::error::CubeError;
use queue_info_schema::rows::{IdRow, QueueItem};
use queue_info_schema::schema::{ColumnData, ColumnType, FieldDescriptor};
use queue_info_schema::table::{InfoSchemaQueueDef, QueueColumn};

fn item(key: &str, created_ns: i64, value: &str) -> IdRow<QueueItem> {
    IdRow::new(0, QueueItem::new(key.to_string(), created_ns, value.to_string()))
}

fn two_job_snapshot() -> Vec<IdRow<QueueItem>> {
    let t0: i64 = 1_600_000_000_000_000_000;
    let t1: i64 = 1_600_000_000_000_000_001;
    vec![item("job-1", t0, "payload-1"), item("job-2", t1, "payload-2")]
}

fn text_cells(c: &ColumnData) -> Vec<String> {
    match c {
        ColumnData::Text(cells) => cells.clone(),
        ColumnData::TimestampNanosecond(_) => panic!("expected a text column"),
    }
}

fn timestamp_cells(c: &ColumnData) -> Vec<i64> {
    match c {
        ColumnData::TimestampNanosecond(cells) => cells.clone(),
        ColumnData::Text(_) => panic!("expected a timestamp column"),
    }
}

fn arrow_text(c: &ArrowColumn) -> &TextArray {
    match c {
        ArrowColumn::Text(a) => a,
        ArrowColumn::TimestampNanosecond(_) => panic!("expected a text array"),
    }
}

fn arrow_timestamps(c: &ArrowColumn) -> &TimestampArray {
    match c {
        ArrowColumn::TimestampNanosecond(a) => a,
        ArrowColumn::Text(_) => panic!("expected a timestamp array"),
    }
}

#[test]
fn schema_lists_id_and_created() {
    let def = InfoSchemaQueueDef;
    let schema = def.schema();
    assert_eq!(schema.len(), 2);
    assert_eq!(schema[0].name, "id");
    assert_eq!(schema[0].column_type, ColumnType::Text);
    assert!(!schema[0].nullable);
    assert_eq!(schema[1].name, "created");
    assert_eq!(schema[1].column_type, ColumnType::TimestampNanosecond);
    assert!(!schema[1].nullable);
}

#[test]
fn schema_is_independent_of_store_contents() {
    let def = InfoSchemaQueueDef;
    let before = def.schema();

    // Scan an empty store and a populated one; the served schema must not move.
    let empty = def.scan(Ok(Vec::new())).ok().expect("empty scan must succeed");
    let full = def.scan(Ok(two_job_snapshot())).ok().expect("scan must succeed");
    let after = def.schema();

    for schema in [&before, &after, &empty.fields, &full.fields] {
        assert_eq!(schema.len(), 2);
        assert_eq!(schema[0].name, "id");
        assert_eq!(schema[0].column_type, ColumnType::Text);
        assert!(!schema[0].nullable);
        assert_eq!(schema[1].name, "created");
        assert_eq!(schema[1].column_type, ColumnType::TimestampNanosecond);
        assert!(!schema[1].nullable);
    }
}

#[test]
fn columns_pair_each_descriptor_with_its_extractor() {
    let def = InfoSchemaQueueDef;
    let columns = def.columns();
    assert_eq!(columns.len(), 2);
    assert_eq!(columns[0].0.name, "id");
    assert_eq!(columns[0].1, QueueColumn::Id);
    assert_eq!(columns[1].0.name, "created");
    assert_eq!(columns[1].1, QueueColumn::Created);
}

#[test]
fn value_column_is_registered_but_not_active() {
    let def = InfoSchemaQueueDef;
    let registered = def.registered_list();
    assert_eq!(registered, vec![QueueColumn::Id, QueueColumn::Created, QueueColumn::Value]);
    let active = def.active_list();
    assert_eq!(active, vec![QueueColumn::Id, QueueColumn::Created]);
    assert!(!active.contains(&QueueColumn::Value));

    // The staged column still carries a usable descriptor and projection.
    let d = QueueColumn::Value.field();
    assert_eq!(d.name, "value");
    assert_eq!(d.column_type, ColumnType::Text);
    let col = QueueColumn::Value.extract(&two_job_snapshot());
    assert_eq!(text_cells(&col), vec!["payload-1".to_string(), "payload-2".to_string()]);
}

#[test]
fn two_jobs_scan_to_aligned_arrays() {
    let def = InfoSchemaQueueDef;
    let t0: i64 = 1_600_000_000_000_000_000;
    let t1: i64 = 1_600_000_000_000_000_001;
    let batch = def.scan(Ok(two_job_snapshot())).ok().expect("scan must succeed");

    assert_eq!(batch.fields.len(), 2);
    assert_eq!(batch.columns.len(), 2);
    assert_eq!(
        text_cells(&batch.columns[0]),
        vec!["job-1".to_string(), "job-2".to_string()]
    );
    assert_eq!(timestamp_cells(&batch.columns[1]), vec![t0, t1]);
    assert_eq!(batch.columns[0].len(), 2);
    assert_eq!(batch.columns[1].len(), 2);
}

#[test]
fn every_column_length_equals_snapshot_length() {
    let def = InfoSchemaQueueDef;
    for n in [0usize, 1, 2, 5] {
        let rows: Vec<IdRow<QueueItem>> =
            (0..n).map(|i| item(&format!("job-{i}"), i as i64, "p")).collect();
        let batch = def.scan_snapshot(&rows);
        for column in &batch.columns {
            assert_eq!(column.len(), n);
        }
    }
}

#[test]
fn empty_snapshot_yields_empty_arrays_not_a_failure() {
    let def = InfoSchemaQueueDef;
    let batch = match def.scan(Ok(Vec::new())) {
        Ok(b) => b,
        Err(e) => panic!("scan of an empty store failed: {}", e.get_message()),
    };
    assert_eq!(batch.fields.len(), 2);
    assert_eq!(batch.columns.len(), 2);
    assert_eq!(batch.columns[0].len(), 0);
    assert_eq!(batch.columns[1].len(), 0);
    assert_eq!(text_cells(&batch.columns[0]), Vec::<String>::new());
    assert_eq!(timestamp_cells(&batch.columns[1]), Vec::<i64>::new());
}

#[test]
fn order_of_the_row_source_is_preserved() {
    let def = InfoSchemaQueueDef;
    // Keys deliberately not in sorted order: the scan must keep the source order.
    let rows = vec![item("zeta", 30, "c"), item("alpha", 10, "a"), item("mu", 20, "b")];
    let batch = def.scan_snapshot(&rows);
    assert_eq!(
        text_cells(&batch.columns[0]),
        vec!["zeta".to_string(), "alpha".to_string(), "mu".to_string()]
    );
    assert_eq!(timestamp_cells(&batch.columns[1]), vec![30, 10, 20]);
}

#[test]
fn fetch_failure_propagates_unchanged() {
    let def = InfoSchemaQueueDef;
    let failed: Result<Vec<IdRow<QueueItem>>, CubeError> =
        Err(CubeError::new("store unavailable".to_string()));
    match def.scan(failed) {
        Ok(_) => panic!("a failed fetch must not scan to a batch"),
        Err(e) => assert_eq!(e.get_message(), "store unavailable"),
    }

    let failed_again: Result<Vec<IdRow<QueueItem>>, CubeError> =
        Err(CubeError::new("store unavailable".to_string()));
    match def.scan_to_arrow(failed_again) {
        Ok(_) => panic!("a failed fetch must not materialize arrow arrays"),
        Err(e) => assert_eq!(e.get_message(), "store unavailable"),
    }
}

#[test]
fn arrow_arrays_hold_the_extracted_cells() {
    let def = InfoSchemaQueueDef;
    let t0: i64 = 1_600_000_000_000_000_000;
    let t1: i64 = 1_600_000_000_000_000_001;
    let batch = def
        .scan_to_arrow(Ok(two_job_snapshot()))
        .ok()
        .expect("scan must succeed");

    assert_eq!(batch.fields.len(), 2);
    assert_eq!(batch.columns.len(), 2);

    let ids = arrow_text(&batch.columns[0]);
    assert_eq!(ids.len(), 2);
    assert_eq!(ids.get(0), "job-1");
    assert_eq!(ids.get(1), "job-2");

    let created = arrow_timestamps(&batch.columns[1]);
    assert_eq!(created.len(), 2);
    assert_eq!(created.get(0), t0);
    assert_eq!(created.get(1), t1);
}

#[test]
fn arrow_fields_carry_the_declared_schema() {
    let def = InfoSchemaQueueDef;
    let batch = def
        .scan_to_arrow(Ok(Vec::new()))
        .ok()
        .expect("scan of an empty store must succeed");
    assert_eq!(batch.fields.len(), 2);
    assert_eq!(batch.fields[0].name(), "id");
    assert_eq!(*batch.fields[0].data_type(), arrow::datatypes::DataType::Utf8);
    assert!(!batch.fields[0].is_nullable());
    assert_eq!(batch.fields[1].name(), "created");
    assert_eq!(
        *batch.fields[1].data_type(),
        arrow::datatypes::DataType::Timestamp(arrow::datatypes::TimeUnit::Nanosecond, None)
    );
    assert!(!batch.fields[1].is_nullable());

    // Empty scan still yields zero-length arrow arrays for every field.
    assert_eq!(arrow_text(&batch.columns[0]).len(), 0);
    assert_eq!(arrow_timestamps(&batch.columns[1]).len(), 0);
}

#[test]
fn row_wrappers_expose_their_parts() {
    let row = IdRow::new(42, QueueItem::new("job-9".to_string(), 7, "body".to_string()));
    assert_eq!(row.get_id(), 42);
    assert_eq!(row.get_row().get_key(), "job-9");
    assert_eq!(row.get_row().get_created_ns(), 7);
    assert_eq!(row.get_row().get_value(), "body");
}

#[test]
fn descriptor_fields_are_plain_values() {
    let d = FieldDescriptor {
        name: "id".to_string(),
        column_type: ColumnType::Text,
        nullable: false,
    };
    assert_eq!(d.name, "id");
    assert_eq!(d.column_type, ColumnType::Text);
    assert!(!d.nullable);
}
