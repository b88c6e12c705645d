use spice_components::batch::{
    project_schema, table_schema, to_record_batch, Column, DataType,
};
use spice_components::descriptor::{filename, ObjectDescriptor};
use spice_components::scan::{filename_in_scan, to_sendable_stream, ListingEvent, ScanCursor};
use spice_components::table::{
    ObjectStoreMetadataTable, TableError, TableProviderFilterPushDown, TableType,
};

fn object(location: &str, size: u64) -> ObjectDescriptor {
    ObjectDescriptor {
        location: location.to_string(),
        last_modified: 1_700_000_000_000 + size as i64,
        size,
        e_tag: Some(format!("tag-{size}")),
        version: None,
    }
}

fn listing(locations: &[&str]) -> Vec<ListingEvent> {
    locations
        .iter()
        .enumerate()
        .map(|(i, l)| Ok(object(l, i as u64)))
        .collect()
}

fn locations_of(items: &[Result<spice_components::batch::RecordBatch, spice_components::scan::ScanError>]) -> Vec<String> {
    items
        .iter()
        .map(|item| match item {
            Ok(batch) => match &batch.columns[0] {
                Column::Utf8(v) => v[0].clone().unwrap(),
                _ => panic!("location column is not text"),
            },
            Err(e) => format!("error: {}", e.message()),
        })
        .collect()
}

#[test]
fn filename_is_final_segment() {
    assert_eq!(filename("a/b/c.parquet"), Some("c.parquet".to_string()));
    assert_eq!(filename("c.parquet"), Some("c.parquet".to_string()));
    assert_eq!(filename("dir/é.csv"), Some("é.csv".to_string()));
    assert_eq!(filename(""), None);
    assert_eq!(filename("a/b/"), None);
    assert_eq!(filename("/"), None);
}

#[test]
fn invalid_pattern_fails_construction() {
    let r = ObjectStoreMetadataTable::try_new(None, Some("foo(bar".to_string()));
    match r {
        Err(TableError::InvalidPattern { pattern }) => assert_eq!(pattern, "foo(bar"),
        Ok(_) => panic!("an unclosed group is no pattern"),
    }
    assert!(ObjectStoreMetadataTable::try_new(Some("x/".to_string()), None).is_ok());
    let t = ObjectStoreMetadataTable::try_new(Some("x/".to_string()), Some(r"\.csv$".to_string()))
        .unwrap();
    assert_eq!(t.prefix.as_deref(), Some("x/"));
    assert_eq!(t.filename_regex.as_ref().unwrap().as_str(), r"\.csv$");
}

#[test]
fn filter_looks_at_final_segment_only() {
    let t = ObjectStoreMetadataTable::try_new(None, Some("^data".to_string())).unwrap();
    assert!(filename_in_scan("x/data.csv", &t.filename_regex));
    assert!(!filename_in_scan("data/x.csv", &t.filename_regex));
    assert!(!filename_in_scan("data/", &t.filename_regex));
    assert!(!filename_in_scan("", &t.filename_regex));
    assert!(filename_in_scan("", &None));
    assert!(filename_in_scan("data/", &None));
}

#[test]
fn schema_has_five_columns() {
    let schema = table_schema();
    let names: Vec<&str> = schema.iter().map(|f| f.name.as_str()).collect();
    assert_eq!(names, vec!["location", "last_modified", "size", "e_tag", "version"]);
    let types: Vec<DataType> = schema.iter().map(|f| f.data_type).collect();
    assert_eq!(
        types,
        vec![
            DataType::Utf8,
            DataType::TimestampMillisecond,
            DataType::UInt64,
            DataType::Utf8,
            DataType::Utf8
        ]
    );
    let nullable: Vec<bool> = schema.iter().map(|f| f.nullable).collect();
    assert_eq!(nullable, vec![false, false, false, true, true]);
}

#[test]
fn batch_matches_schema_and_rows() {
    let rows = vec![object("a/one", 1), object("a/two", 2)];
    let batch = to_record_batch(&rows);
    assert_eq!(batch.num_rows(), 2);
    assert_eq!(batch.columns.len(), 5);
    let declared = table_schema();
    for (i, f) in batch.schema.iter().enumerate() {
        assert_eq!(f.name, declared[i].name);
        assert_eq!(f.data_type, declared[i].data_type);
        assert_eq!(f.nullable, declared[i].nullable);
    }
    match &batch.columns[0] {
        Column::Utf8(v) => {
            assert_eq!(v, &vec![Some("a/one".to_string()), Some("a/two".to_string())])
        }
        _ => panic!("location"),
    }
    match &batch.columns[1] {
        Column::TimestampMillisecond(v) => {
            assert_eq!(v, &vec![Some(1_700_000_000_001), Some(1_700_000_000_002)])
        }
        _ => panic!("last_modified"),
    }
    match &batch.columns[2] {
        Column::UInt64(v) => assert_eq!(v, &vec![Some(1), Some(2)]),
        _ => panic!("size"),
    }
    match &batch.columns[3] {
        Column::Utf8(v) => {
            assert_eq!(v, &vec![Some("tag-1".to_string()), Some("tag-2".to_string())])
        }
        _ => panic!("e_tag"),
    }
    match &batch.columns[4] {
        Column::Utf8(v) => assert_eq!(v, &vec![None, None]),
        _ => panic!("version"),
    }
}

#[test]
fn empty_batch_has_all_columns() {
    let batch = to_record_batch(&Vec::new());
    assert_eq!(batch.num_rows(), 0);
    assert_eq!(batch.columns.len(), 5);
}

#[test]
fn projection_picks_columns_in_order() {
    let schema = table_schema();
    let p = vec![2usize, 0];
    let out = project_schema(&schema, Some(&p)).unwrap();
    let names: Vec<&str> = out.iter().map(|f| f.name.as_str()).collect();
    assert_eq!(names, vec!["size", "location"]);
    let all = project_schema(&schema, None).unwrap();
    assert_eq!(all.len(), 5);
    let bad = vec![1usize, 7, 9];
    let e = project_schema(&schema, Some(&bad)).unwrap_err();
    assert_eq!(e.index, 7);
    assert_eq!(e.columns, 5);
}

#[test]
fn scan_without_pattern_lists_everything_in_order() {
    let l = listing(&["b", "a/x", "c/"]);
    let out = to_sendable_stream(&l, None, &None);
    assert_eq!(locations_of(&out.items), vec!["b", "a/x", "c/"]);
    assert_eq!(out.polled, 3);
    for item in &out.items {
        assert_eq!(item.as_ref().unwrap().num_rows(), 1);
    }
}

#[test]
fn scan_with_pattern_keeps_matching_filenames() {
    let t = ObjectStoreMetadataTable::try_new(None, Some(r"\.csv$".to_string())).unwrap();
    let l = listing(&["a.csv", "x.csv/b.txt", "d/e.csv", "d/", "f.csvx"]);
    let out = to_sendable_stream(&l, None, &t.filename_regex);
    assert_eq!(locations_of(&out.items), vec!["a.csv", "d/e.csv"]);
    assert_eq!(out.polled, 5);
}

#[test]
fn scan_stops_at_limit() {
    let l = listing(&["a", "b", "c", "d"]);
    let out = to_sendable_stream(&l, Some(2), &None);
    assert_eq!(locations_of(&out.items), vec!["a", "b"]);
    assert_eq!(out.polled, 2);
    let all = to_sendable_stream(&l, Some(9), &None);
    assert_eq!(all.items.len(), 4);
    assert_eq!(all.polled, 4);
}

#[test]
fn skipped_entries_do_not_count_toward_limit() {
    let t = ObjectStoreMetadataTable::try_new(None, Some("^k".to_string())).unwrap();
    let l = listing(&["x", "k1", "y", "z/k2", "k3", "k4"]);
    let out = to_sendable_stream(&l, Some(2), &t.filename_regex);
    assert_eq!(locations_of(&out.items), vec!["k1", "z/k2"]);
    assert_eq!(out.polled, 4);
}

#[test]
fn limit_is_checked_behind_a_row() {
    let l = listing(&["a", "b"]);
    let out = to_sendable_stream(&l, Some(0), &None);
    assert_eq!(locations_of(&out.items), vec!["a"]);
    assert_eq!(out.polled, 1);
}

#[test]
fn rows_before_a_failure_stay() {
    let t = ObjectStoreMetadataTable::try_new(None, Some("^a".to_string())).unwrap();
    let mut l = listing(&["a1", "b", "a2"]);
    l.push(Err("broken pipe".to_string()));
    l.push(Ok(object("a3", 9)));
    let out = to_sendable_stream(&l, None, &t.filename_regex);
    assert_eq!(
        locations_of(&out.items),
        vec!["a1", "a2", "error: broken pipe"]
    );
    assert_eq!(out.polled, 4);
    let limited = to_sendable_stream(&l, Some(2), &t.filename_regex);
    assert_eq!(locations_of(&limited.items), vec!["a1", "a2"]);
    assert_eq!(limited.polled, 3);
}

#[test]
fn backend_failure_ends_the_scan() {
    let mut l = listing(&["a", "b"]);
    l.insert(1, Err("listing failed: timeout".to_string()));
    let out = to_sendable_stream(&l, None, &None);
    assert_eq!(
        locations_of(&out.items),
        vec!["a", "error: listing failed: timeout"]
    );
    assert_eq!(out.polled, 2);
}

#[test]
fn cursor_steps_through_a_listing() {
    let mut cursor = ScanCursor::new(Some(1));
    assert!(!cursor.finished);
    let t = ObjectStoreMetadataTable::try_new(None, Some("b".to_string())).unwrap();
    let skipped = cursor.step(&Ok(object("a", 0)), &t.filename_regex);
    assert!(skipped.is_none());
    assert!(!cursor.finished);
    assert_eq!(cursor.emitted, 0);
    let row = cursor.step(&Ok(object("b", 1)), &t.filename_regex);
    assert!(matches!(row, Some(Ok(_))));
    assert!(cursor.finished);
    assert_eq!(cursor.emitted, 1);

    let mut stopped = ScanCursor::new(Some(5));
    stopped.stop();
    assert!(stopped.finished);
    assert_eq!(stopped.emitted, 0);
    assert_eq!(stopped.limit, Some(5));

    let mut failing = ScanCursor::new(None);
    let item = failing.step(&Err("gone".to_string()), &None);
    assert_eq!(item.unwrap().unwrap_err().message(), "gone");
    assert!(failing.finished);
}

#[test]
fn table_plans_a_scan() {
    let t = ObjectStoreMetadataTable::try_new(Some("p/".to_string()), Some("x".to_string()))
        .unwrap();
    assert_eq!(t.table_type(), TableType::Base);
    assert_eq!(t.schema().len(), 5);
    assert_eq!(
        t.supports_filters_pushdown(3),
        vec![TableProviderFilterPushDown::Unsupported; 3]
    );
    assert!(t.supports_filters_pushdown(0).is_empty());
    match &t.constraints()[0] {
        spice_components::table::Constraint::PrimaryKey(c) => assert_eq!(c, &vec![0usize]),
    }
    let p = vec![0usize, 2];
    let plan = t.scan(Some(&p), Some(10)).unwrap();
    assert_eq!(plan.limit, Some(10));
    assert_eq!(plan.prefix.as_deref(), Some("p/"));
    assert_eq!(plan.filename_regex.as_ref().unwrap().as_str(), "x");
    assert_eq!(plan.schema().len(), 2);
    assert_eq!(plan.name(), "ObjectStoreMetadataExec");
    assert_eq!(plan.fmt_as(), "ObjectStoreMetadataExec prefix=p/");
    assert_eq!(plan.properties().partitions, 1);
    assert!(plan.properties().bounded);
    assert_eq!(plan.children(), 0);
    let out = plan.execute(&listing(&["p/x1", "p/y", "p/x2"]));
    assert_eq!(locations_of(&out.items), vec!["p/x1", "p/x2"]);
    let bad = vec![5usize];
    assert_eq!(t.scan(Some(&bad), None).unwrap_err().index, 5);
}
