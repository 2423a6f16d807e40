use traceway::api::requests::find_value;
use traceway::api::types::{
    ClaimRequest, CompleteSpanRequest, CreateDatapointRequest, CreateDatasetRequest,
    CreateSpanRequest, CreateTraceRequest, CreatedSpan, DatasetResponse, DeletedTrace,
    EnqueueRequest, EnqueueResponse, ExportData, ExportParams, ExportSpanRequest,
    FailSpanRequest, FileQueryParams, ImportResponse, QueueCounts, SpanList, SpanQueryParams,
    Stats, SubmitRequest, UpdateDatasetRequest,
};
use traceway::clock::{self, Timestamp};
use traceway::ids;
use traceway::json::{self, Json};
use traceway::storage::error::StorageError;
use traceway::storage::rows::{
    datapoint_to_row, dataset_to_row, deserialize_datapoint, deserialize_dataset,
    deserialize_file, deserialize_queue_item, deserialize_span, deserialize_trace, file_to_row,
    queue_item_to_row, span_to_row, trace_to_row,
};
use traceway::storage::sqlite;
use traceway::trace::analytics::{AnalyticsMetric, AnalyticsQuery, GroupByField};
use traceway::trace::entities::{
    Datapoint, DatapointKind, DatapointSource, Dataset, FileVersion, Message, QueueItem,
    QueueItemStatus, Trace,
};
use traceway::trace::kind::{SpanKind, SpanStatus};
use traceway::trace::span::{Span, SpanBuilder};

fn at(secs: i64, nanos: u32) -> Timestamp {
    Timestamp::from_parts(secs, nanos)
}

fn doc(text: &str) -> Json {
    json::parse(text.as_bytes()).unwrap()
}

fn sample_spans() -> Vec<Span> {
    let llm = SpanKind::LlmCall {
        model: "gpt-4o".to_string(),
        provider: Some("openai".to_string()),
        input_tokens: Some(10),
        output_tokens: None,
        cost: Some("0.25".to_string()),
        input_preview: Some("hi".to_string()),
        output_preview: None,
    };
    let read = SpanKind::FsRead { path: "/a".to_string(), file_version: Some("h".to_string()), bytes_read: 3 };
    let write = SpanKind::FsWrite { path: "/b".to_string(), file_version: "h2".to_string(), bytes_written: u64::MAX };
    let custom = SpanKind::Custom {
        kind: "tool".to_string(),
        attributes: vec![("a".to_string(), Json::Bool(true)), ("b".to_string(), Json::Null)],
    };
    vec![
        SpanBuilder::new(1, "call".to_string(), llm).build_with(2, at(1_700_000_000, 123_456_789)),
        SpanBuilder::new(1, "read".to_string(), read)
            .parent(2)
            .org(9)
            .input(doc(r#"{"k":[1,2.5,"x",null]}"#))
            .build_with(3, at(0, 0))
            .complete_at(Some(Json::Str("done".to_string())), at(5, 1_000_000)),
        SpanBuilder::new(u128::MAX, "write".to_string(), write)
            .build_with(4, at(-1, 999_999_999))
            .fail_at("disk \"full\"\n".to_string(), at(0, 0)),
        SpanBuilder::new(7, "".to_string(), custom).build_with(8, at(253_402_300_799, 999_999_999)),
    ]
}

#[test]
fn spans_come_back_from_the_wire() {
    for span in sample_spans() {
        let j = span.to_json();
        assert_eq!(Span::from_json(&j), Some(span.clone()));
        let text = json::to_text(&j);
        let read = json::parse(text.as_bytes()).unwrap();
        assert_eq!(Span::from_json(&read), Some(span.clone()));
        assert_eq!(span.kind().to_json().get("type").unwrap().as_str(), Some(match span.kind() {
            SpanKind::FsRead { .. } => "fs_read",
            SpanKind::FsWrite { .. } => "fs_write",
            SpanKind::LlmCall { .. } => "llm_call",
            SpanKind::Custom { .. } => "custom",
        }));
        assert_eq!(SpanKind::from_json(&span.kind().to_json()), Some(span.kind().clone()));
        assert_eq!(SpanStatus::from_json(&span.status().to_json()), Some(span.status().clone()));
    }
    let ended_while_running = doc(
        r#"{"id":"00000000-0000-0000-0000-000000000002","trace_id":"00000000-0000-0000-0000-000000000001",
            "parent_id":null,"name":"n","kind":{"type":"custom","kind":"k","attributes":{}},"status":"running",
            "started_at":"2024-01-01T00:00:00Z","ended_at":"2024-01-01T00:00:01Z"}"#,
    );
    assert_eq!(Span::from_json(&ended_while_running), None);
    let completed_without_end = doc(
        r#"{"id":"00000000-0000-0000-0000-000000000002","trace_id":"00000000-0000-0000-0000-000000000001",
            "parent_id":null,"name":"n","kind":{"type":"custom","kind":"k","attributes":{}},"status":"completed",
            "started_at":"2024-01-01T00:00:00Z","ended_at":null}"#,
    );
    assert_eq!(Span::from_json(&completed_without_end), None);
    assert_eq!(Span::from_json(&doc("{}")), None);
    assert_eq!(Span::from_json(&doc("[]")), None);
    assert_eq!(SpanStatus::Running.to_json(), Json::Str("running".to_string()));
    assert_eq!(SpanStatus::Completed.to_json(), Json::Str("completed".to_string()));
    assert_eq!(
        json::to_text(&SpanStatus::Failed { error: "e".to_string() }.to_json()),
        r#"{"failed":{"error":"e"}}"#
    );
    assert_eq!(SpanStatus::from_json(&Json::Str("nope".to_string())), None);
}

#[test]
fn a_span_on_the_wire_has_the_documented_fields() {
    let span = SpanBuilder::new(1, "n".to_string(), SpanKind::Custom { kind: "k".to_string(), attributes: vec![] })
        .build_with(2, at(10, 0));
    let j = span.to_json();
    assert_eq!(j.get("id").unwrap().as_str(), Some("00000000-0000-0000-0000-000000000002"));
    assert_eq!(j.get("trace_id").unwrap().as_str(), Some("00000000-0000-0000-0000-000000000001"));
    assert_eq!(j.get("parent_id"), Some(&Json::Null));
    assert_eq!(j.get("ended_at"), Some(&Json::Null));
    assert_eq!(j.get("status").unwrap().as_str(), Some("running"));
    assert_eq!(j.get("started_at").unwrap().as_str(), Some("1970-01-01T00:00:10+00:00"));
    assert_eq!(j.get("org_id"), None);
    assert_eq!(j.get("input"), None);
    assert_eq!(j.get("output"), None);
    let from_sdk = doc(
        r#"{"id":"00000000-0000-0000-0000-000000000002","trace_id":"00000000-0000-0000-0000-000000000001",
            "parent_id":null,"name":"n","kind":{"type":"llm_call","model":"m"},"status":"running",
            "started_at":"2024-01-01T00:00:00Z","ended_at":null,"extra":1}"#,
    );
    let read = Span::from_json(&from_sdk).unwrap();
    assert_eq!(read.kind().model(), Some("m"));
    assert_eq!(read.started_at(), at(1_704_067_200, 0));
}

#[test]
fn entities_come_back_from_the_wire() {
    let trace = Trace {
        id: 5,
        org_id: Some(6),
        name: Some("t".to_string()),
        tags: vec!["a".to_string(), "".to_string()],
        started_at: at(1, 2),
        ended_at: Some(at(3, 4)),
        machine_id: Some("m".to_string()),
    };
    assert_eq!(Trace::from_json(&trace.to_json()), Some(trace.clone()));
    let bare = Trace::new_with(None, 1, at(0, 0));
    assert_eq!(Trace::from_json(&doc(&json::to_text(&bare.to_json()))), Some(bare));

    let version = FileVersion {
        hash: "h".to_string(),
        path: "/p".to_string(),
        size: u64::MAX,
        created_at: at(9, 0),
        created_by_span: Some(3),
    };
    assert_eq!(FileVersion::from_json(&version.to_json()), Some(version));

    let dataset = Dataset::new_with("d".to_string(), Some("about".to_string()), 7, at(1, 0)).with_org(8);
    assert_eq!(Dataset::from_json(&dataset.to_json()), Some(dataset));

    let conversation = DatapointKind::LlmConversation {
        messages: vec![
            Message { role: "system".to_string(), content: "be kind".to_string() },
            Message { role: "user".to_string(), content: "hi".to_string() },
        ],
        expected: Some(Message { role: "assistant".to_string(), content: "hello".to_string() }),
        metadata: vec![("k".to_string(), Json::Number("1".to_string()))],
    };
    let generic = DatapointKind::Generic {
        input: doc(r#"{"q":1}"#),
        expected_output: Some(Json::Null),
        actual_output: None,
        score: Some("0.75".to_string()),
        metadata: vec![],
    };
    for kind in [conversation, generic] {
        assert_eq!(DatapointKind::from_json(&kind.to_json()), Some(kind.clone()));
        for source in [DatapointSource::Manual, DatapointSource::SpanExport, DatapointSource::FileUpload] {
            let dp = Datapoint::new_with(1, kind.clone(), source, 2, at(3, 0)).with_source_span(4);
            assert_eq!(Datapoint::from_json(&dp.to_json()), Some(dp.clone()));
            assert_eq!(Datapoint::from_json(&doc(&json::to_text(&dp.to_json()))), Some(dp));
            assert_eq!(DatapointSource::from_name(source.as_str()), Some(source));
        }
    }
    assert_eq!(DatapointSource::from_name("other"), None);

    let item = QueueItem::new_with(1, 2, Some(Json::Bool(false)), 3, at(4, 0));
    let claimed = item.clone().claim_at("ann".to_string(), at(5, 0));
    let done = claimed.clone().complete(Some(Json::Str("x".to_string())));
    for q in [item, claimed, done] {
        assert_eq!(QueueItem::from_json(&q.to_json()), Some(q.clone()));
        assert_eq!(QueueItemStatus::from_name(q.status.as_str()), Some(q.status));
    }
    assert_eq!(QueueItemStatus::from_name("done"), None);
    assert_eq!(Message::from_json(&Message { role: "r".to_string(), content: "c".to_string() }.to_json()).unwrap().role, "r");
}

#[test]
fn rows_of_the_database() {
    for span in sample_spans() {
        let row = span_to_row(&span);
        assert_eq!(row.id, ids::id_to_string(span.id()));
        assert_eq!(row.status, span.status().as_str());
        assert_eq!(row.org_id, span.org_id().map(ids::id_to_string));
        let back = deserialize_span(&row).unwrap();
        assert_eq!(back.org_id(), span.org_id());
        assert_eq!(back, span);
    }
    let mut row = span_to_row(&sample_spans()[1]);
    assert_eq!(row.org_id.as_deref(), Some("00000000-0000-0000-0000-000000000009"));
    row.org_id = Some("nobody".to_string());
    assert!(matches!(deserialize_span(&row), Err(StorageError::Database(_))));
    let mut row = span_to_row(&sample_spans()[0]);
    row.ended_at = Some("1970-01-01T00:00:10+00:00".to_string());
    assert!(matches!(deserialize_span(&row), Err(StorageError::Database(_))));
    let mut row = span_to_row(&sample_spans()[1]);
    row.ended_at = None;
    assert!(matches!(deserialize_span(&row), Err(StorageError::Database(_))));
    let mut row = span_to_row(&sample_spans()[0]);
    row.id = "nope".to_string();
    assert!(matches!(deserialize_span(&row), Err(StorageError::Database(_))));
    let mut row = span_to_row(&sample_spans()[0]);
    row.kind_json = "{".to_string();
    assert!(matches!(deserialize_span(&row), Err(StorageError::Serialization(_))));
    let mut row = span_to_row(&sample_spans()[0]);
    row.status = "paused".to_string();
    assert!(matches!(deserialize_span(&row), Err(StorageError::Database(_))));
    let mut row = span_to_row(&sample_spans()[0]);
    row.started_at = "yesterday".to_string();
    assert!(matches!(deserialize_span(&row), Err(StorageError::Database(_))));

    let trace = Trace {
        id: 5,
        org_id: None,
        name: Some("t".to_string()),
        tags: vec!["a".to_string(), "b".to_string()],
        started_at: at(1, 0),
        ended_at: None,
        machine_id: None,
    };
    let row = trace_to_row(&trace);
    assert_eq!(row.tags_json, r#"["a","b"]"#);
    assert_eq!(row.org_id, None);
    assert_eq!(deserialize_trace(&row), Ok(trace.clone()));
    let owned = trace.clone().with_org(6);
    assert_eq!(trace_to_row(&owned).org_id.as_deref(), Some("00000000-0000-0000-0000-000000000006"));
    assert_eq!(deserialize_trace(&trace_to_row(&owned)), Ok(owned.clone()));
    let mut bad = trace_to_row(&owned);
    bad.org_id = Some("x".to_string());
    assert!(matches!(deserialize_trace(&bad), Err(StorageError::Database(_))));
    let mut odd = trace_to_row(&trace);
    odd.tags_json = "oops".to_string();
    assert_eq!(deserialize_trace(&odd).unwrap().tags, Vec::<String>::new());

    let version = FileVersion {
        hash: "h".to_string(),
        path: "/p".to_string(),
        size: u64::MAX,
        created_at: at(9, 0),
        created_by_span: Some(3),
    };
    let row = file_to_row(&version);
    assert_eq!(row.size, -1);
    assert_eq!(deserialize_file(&row), Ok(version.clone()));
    let small = FileVersion { size: 42, created_by_span: None, ..version.clone() };
    assert_eq!(file_to_row(&small).size, 42);
    assert_eq!(deserialize_file(&file_to_row(&small)), Ok(small));
    let half = FileVersion { size: 1 << 63, ..version.clone() };
    assert_eq!(file_to_row(&half).size, i64::MIN);
    assert_eq!(deserialize_file(&file_to_row(&half)), Ok(half));
    let mut bad = file_to_row(&version);
    bad.created_by_span = Some("x".to_string());
    assert!(matches!(deserialize_file(&bad), Err(StorageError::Database(_))));

    let dataset = Dataset::new_with("d".to_string(), Some("about".to_string()), 7, at(1, 0));
    assert_eq!(deserialize_dataset(&dataset_to_row(&dataset)), Ok(dataset.clone()));
    let dataset = dataset.with_org(8);
    assert_eq!(dataset_to_row(&dataset).org_id.as_deref(), Some("00000000-0000-0000-0000-000000000008"));
    assert_eq!(deserialize_dataset(&dataset_to_row(&dataset)), Ok(dataset.clone()));
    let mut bad = dataset_to_row(&dataset);
    bad.updated_at = "".to_string();
    assert!(matches!(deserialize_dataset(&bad), Err(StorageError::Database(_))));

    let kind = DatapointKind::Generic {
        input: doc(r#"{"q":1}"#),
        expected_output: None,
        actual_output: None,
        score: None,
        metadata: vec![],
    };
    let dp = Datapoint::new_with(7, kind, DatapointSource::SpanExport, 2, at(3, 0)).with_source_span(4);
    let row = datapoint_to_row(&dp);
    assert_eq!(row.source, "span_export");
    assert_eq!(deserialize_datapoint(&row), Ok(dp.clone()));
    let mut bad = datapoint_to_row(&dp);
    bad.kind_json = "[]".to_string();
    bad.created_at = "x".to_string();
    assert!(matches!(deserialize_datapoint(&bad), Err(StorageError::Serialization(_))));
    let mut bad = datapoint_to_row(&dp);
    bad.source = "elsewhere".to_string();
    assert!(matches!(deserialize_datapoint(&bad), Err(StorageError::Serialization(_))));
    let mut bad = datapoint_to_row(&dp);
    bad.dataset_id = "x".to_string();
    bad.kind_json = "[]".to_string();
    assert!(matches!(deserialize_datapoint(&bad), Err(StorageError::Database(_))));

    let item = QueueItem::new_with(1, 2, Some(Json::Bool(false)), 3, at(4, 0))
        .claim_at("ann".to_string(), at(5, 0))
        .complete(Some(Json::Str("x".to_string())));
    let row = queue_item_to_row(&item);
    assert_eq!(row.status, "completed");
    assert_eq!(row.original_data_json.as_deref(), Some("false"));
    assert_eq!(deserialize_queue_item(&row), Ok(item.clone()));
    let mut bad = queue_item_to_row(&item);
    bad.status = "x".to_string();
    assert!(matches!(deserialize_queue_item(&bad), Err(StorageError::Serialization(_))));
    let mut bad = queue_item_to_row(&item);
    bad.claimed_at = Some("x".to_string());
    bad.edited_data_json = Some("{".to_string());
    assert!(matches!(deserialize_queue_item(&bad), Err(StorageError::Database(_))));
    let mut bad = queue_item_to_row(&item);
    bad.edited_data_json = Some("{".to_string());
    assert!(matches!(deserialize_queue_item(&bad), Err(StorageError::Serialization(_))));
}

#[test]
fn status_columns_and_migrations() {
    assert_eq!(sqlite::status_to_columns(&SpanStatus::Running), ("running".to_string(), None));
    assert_eq!(
        sqlite::status_to_columns(&SpanStatus::Failed { error: "e".to_string() }),
        ("failed".to_string(), Some("e".to_string()))
    );
    assert_eq!(sqlite::status_from_columns("completed", Some("ignored")), Ok(SpanStatus::Completed));
    assert_eq!(sqlite::status_from_columns("failed", None), Ok(SpanStatus::Failed { error: "".to_string() }));
    assert!(matches!(sqlite::status_from_columns("paused", None), Err(StorageError::Database(_))));
    assert_eq!(sqlite::pending_migrations(0), vec![1, 2, 3]);
    assert_eq!(sqlite::pending_migrations(2), vec![3]);
    assert_eq!(sqlite::pending_migrations(3), Vec::<i64>::new());
    assert_eq!(sqlite::pending_migrations(9), Vec::<i64>::new());
    assert_eq!(sqlite::pending_migrations(-4), vec![1, 2, 3]);
    assert_eq!(sqlite::migration(0), None);
    assert_eq!(sqlite::migration(4), None);
    assert_eq!(sqlite::SCHEMA_VERSION, 3);
}

#[test]
fn the_schema_applies_and_content_is_kept_once() {
    let conn = rusqlite::Connection::open_in_memory().unwrap();
    conn.execute_batch(sqlite::CREATE_MIGRATIONS_TABLE).unwrap();
    let current: i64 = conn.query_row(sqlite::SELECT_VERSION, [], |row| row.get(0)).unwrap();
    assert_eq!(current, 0);
    for version in sqlite::pending_migrations(current) {
        conn.execute_batch(sqlite::migration(version).unwrap()).unwrap();
        conn.execute(sqlite::INSERT_VERSION, (version, "2024-01-01T00:00:00Z")).unwrap();
    }
    let current: i64 = conn.query_row(sqlite::SELECT_VERSION, [], |row| row.get(0)).unwrap();
    assert_eq!(current, sqlite::SCHEMA_VERSION);
    assert!(sqlite::pending_migrations(current).is_empty());

    let first = conn.execute(sqlite::INSERT_FILE_CONTENT, ("h", b"one".to_vec())).unwrap();
    let second = conn.execute(sqlite::INSERT_FILE_CONTENT, ("h", b"two".to_vec())).unwrap();
    assert_eq!((first, second), (1, 0));
    let kept: Vec<u8> = conn.query_row(sqlite::SELECT_FILE_CONTENT, ["h"], |row| row.get(0)).unwrap();
    assert_eq!(kept, b"one".to_vec());
    let count: i64 = conn.query_row("SELECT COUNT(*) FROM file_contents", [], |row| row.get(0)).unwrap();
    assert_eq!(count, 1);

    let span = sample_spans().remove(1);
    let row = span_to_row(&span);
    for _ in 0..2 {
        conn.execute(
            sqlite::UPSERT_SPAN,
            (
                &row.id, &row.trace_id, &row.parent_id, &row.name, &row.kind_json, &row.status,
                &row.error, &row.started_at, &row.ended_at, &row.input_json, &row.output_json,
                &row.org_id,
            ),
        )
        .unwrap();
    }
    let n: i64 = conn.query_row("SELECT COUNT(*) FROM spans", [], |r| r.get(0)).unwrap();
    assert_eq!(n, 1);
    let loaded = conn
        .query_row(sqlite::SELECT_SPANS, [], |r| {
            Ok(traceway::storage::rows::SpanRow {
                id: r.get(0)?,
                trace_id: r.get(1)?,
                parent_id: r.get(2)?,
                name: r.get(3)?,
                kind_json: r.get(4)?,
                status: r.get(5)?,
                error: r.get(6)?,
                started_at: r.get(7)?,
                ended_at: r.get(8)?,
                input_json: r.get(9)?,
                output_json: r.get(10)?,
                org_id: r.get(11)?,
            })
        })
        .unwrap();
    assert_eq!(loaded, row);
    assert_eq!(deserialize_span(&loaded), Ok(span.clone()));
    assert_eq!(span.org_id(), Some(9));
    assert_eq!(span.parent_id(), Some(2));

    let trace = Trace {
        id: 5,
        org_id: Some(6),
        name: Some("t".to_string()),
        tags: vec!["a".to_string(), "b".to_string()],
        started_at: at(1, 0),
        ended_at: Some(at(2, 0)),
        machine_id: Some("m".to_string()),
    };
    let t = trace_to_row(&trace);
    conn.execute(
        sqlite::UPSERT_TRACE,
        (&t.id, &t.name, &t.tags_json, &t.started_at, &t.ended_at, &t.machine_id, &t.org_id),
    )
    .unwrap();
    let loaded = conn
        .query_row(sqlite::SELECT_TRACES, [], |r| {
            Ok(traceway::storage::rows::TraceRow {
                id: r.get(0)?,
                name: r.get(1)?,
                tags_json: r.get(2)?,
                started_at: r.get(3)?,
                ended_at: r.get(4)?,
                machine_id: r.get(5)?,
                org_id: r.get(6)?,
            })
        })
        .unwrap();
    assert_eq!(deserialize_trace(&loaded), Ok(trace));

    let dataset = Dataset::new_with("d".to_string(), Some("about".to_string()), 7, at(1, 0)).with_org(8);
    let d = dataset_to_row(&dataset);
    conn.execute(
        sqlite::UPSERT_DATASET,
        (&d.id, &d.name, &d.description, &d.created_at, &d.updated_at, &d.org_id),
    )
    .unwrap();
    let loaded = conn
        .query_row(sqlite::SELECT_DATASETS, [], |r| {
            Ok(traceway::storage::rows::DatasetRow {
                id: r.get(0)?,
                name: r.get(1)?,
                description: r.get(2)?,
                created_at: r.get(3)?,
                updated_at: r.get(4)?,
                org_id: r.get(5)?,
            })
        })
        .unwrap();
    assert_eq!(deserialize_dataset(&loaded), Ok(dataset));
    assert_eq!(conn.execute(sqlite::DELETE_TRACE_SPANS, [&row.trace_id]).unwrap(), 1);
}

#[test]
fn request_bodies_are_read() {
    let r = CreateSpanRequest::from_json(&doc(
        r#"{"trace_id":"00000000-0000-0000-0000-000000000abc","name":"n","kind":{"type":"custom","kind":"x","attributes":{}}}"#,
    ))
    .unwrap();
    assert_eq!(r.trace_id, 0xabc);
    assert_eq!(r.parent_id, None);
    assert_eq!(r.name, "n");
    assert_eq!(r.kind, SpanKind::Custom { kind: "x".to_string(), attributes: vec![] });
    assert_eq!(r.input, None);
    let r = CreateSpanRequest::from_json(&doc(
        r#"{"trace_id":"00000000-0000-0000-0000-000000000abc","parent_id":"00000000-0000-0000-0000-000000000001",
            "name":"n","kind":{"type":"fs_read","path":"/p","bytes_read":1},"input":{"a":1}}"#,
    ))
    .unwrap();
    assert_eq!(r.parent_id, Some(1));
    assert_eq!(r.input, Some(doc(r#"{"a":1}"#)));
    assert!(CreateSpanRequest::from_json(&doc(r#"{"name":"n","kind":{"type":"custom","kind":"x"}}"#)).is_none());
    assert!(CreateSpanRequest::from_json(&doc(r#"{"trace_id":"zz","name":"n","kind":{"type":"custom","kind":"x","attributes":{}}}"#)).is_none());
    assert!(CreateSpanRequest::from_json(&doc(r#"{"trace_id":"00000000-0000-0000-0000-000000000abc","name":"n","kind":{"type":"other"}}"#)).is_none());

    assert_eq!(CompleteSpanRequest::from_json(&doc("{}")), Some(CompleteSpanRequest { output: None }));
    assert_eq!(CompleteSpanRequest::from_json(&doc(r#"{"output":null}"#)), Some(CompleteSpanRequest { output: None }));
    assert_eq!(
        CompleteSpanRequest::from_json(&doc(r#"{"output":[1]}"#)),
        Some(CompleteSpanRequest { output: Some(doc("[1]")) })
    );
    assert_eq!(CompleteSpanRequest::from_json(&doc("[]")), None);
    assert_eq!(FailSpanRequest::from_json(&doc(r#"{"error":"e"}"#)), Some(FailSpanRequest { error: "e".to_string() }));
    assert_eq!(FailSpanRequest::from_json(&doc(r#"{"error":1}"#)), None);
    assert_eq!(FailSpanRequest::from_json(&doc("{}")), None);
    assert_eq!(
        CreateTraceRequest::from_json(&doc(r#"{"name":"t","tags":["a"]}"#)),
        Some(CreateTraceRequest { name: Some("t".to_string()), tags: vec!["a".to_string()] })
    );
    assert_eq!(CreateTraceRequest::from_json(&doc("{}")), Some(CreateTraceRequest { name: None, tags: vec![] }));
    assert_eq!(CreateTraceRequest::from_json(&doc(r#"{"tags":[1]}"#)), None);
    assert_eq!(CreateTraceRequest::from_json(&doc(r#"{"name":1}"#)), None);
    assert_eq!(
        CreateDatasetRequest::from_json(&doc(r#"{"name":"d"}"#)),
        Some(CreateDatasetRequest { name: "d".to_string(), description: None })
    );
    assert_eq!(CreateDatasetRequest::from_json(&doc(r#"{"description":"x"}"#)), None);
    assert_eq!(
        UpdateDatasetRequest::from_json(&doc(r#"{"description":"x"}"#)),
        Some(UpdateDatasetRequest { name: None, description: Some("x".to_string()) })
    );
    assert_eq!(UpdateDatasetRequest::from_json(&doc("3")), None);
    let kind = DatapointKind::Generic {
        input: Json::Null,
        expected_output: None,
        actual_output: None,
        score: None,
        metadata: vec![],
    };
    let mut w = traceway::wire::ObjectWriter::new();
    w.put("kind", kind.to_json());
    assert_eq!(CreateDatapointRequest::from_json(&w.finish()), Some(CreateDatapointRequest { kind }));
    assert_eq!(CreateDatapointRequest::from_json(&doc(r#"{"kind":{"input":1}}"#)), None);
    assert_eq!(
        ExportSpanRequest::from_json(&doc(r#"{"span_id":"00000000-0000-0000-0000-000000000002"}"#)),
        Some(ExportSpanRequest { span_id: 2 })
    );
    assert_eq!(ExportSpanRequest::from_json(&doc(r#"{"span_id":2}"#)), None);
    assert_eq!(
        EnqueueRequest::from_json(&doc(
            r#"{"datapoint_ids":["00000000-0000-0000-0000-000000000002","00000000-0000-0000-0000-000000000001"]}"#
        )),
        Some(EnqueueRequest { datapoint_ids: vec![2, 1] })
    );
    assert_eq!(EnqueueRequest::from_json(&doc(r#"{"datapoint_ids":[]}"#)), Some(EnqueueRequest { datapoint_ids: vec![] }));
    assert_eq!(EnqueueRequest::from_json(&doc(r#"{"datapoint_ids":["x"]}"#)), None);
    assert_eq!(EnqueueRequest::from_json(&doc(r#"{}"#)), None);
    assert_eq!(ClaimRequest::from_json(&doc(r#"{"claimed_by":"ann"}"#)), Some(ClaimRequest { claimed_by: "ann".to_string() }));
    assert_eq!(ClaimRequest::from_json(&doc(r#"{}"#)), None);
    assert_eq!(SubmitRequest::from_json(&doc(r#"{}"#)), Some(SubmitRequest { edited_data: None }));
    assert_eq!(
        SubmitRequest::from_json(&doc(r#"{"edited_data":{"input":1}}"#)),
        Some(SubmitRequest { edited_data: Some(doc(r#"{"input":1}"#)) })
    );
}

#[test]
fn analytics_queries_are_read() {
    let q = AnalyticsQuery::from_json(&doc(
        r#"{"metrics":["total_cost","span_count"],"group_by":["model","day"],
            "filter":{"kind":"llm_call","since":"2024-01-01T00:00:00Z","trace_id":"00000000-0000-0000-0000-000000000001"}}"#,
    ))
    .unwrap();
    assert_eq!(q.metrics, vec![AnalyticsMetric::TotalCost, AnalyticsMetric::SpanCount]);
    assert_eq!(q.group_by, vec![GroupByField::Model, GroupByField::Day]);
    assert_eq!(q.filter.kind, Some("llm_call".to_string()));
    assert_eq!(q.filter.since, Some(at(1_704_067_200, 0)));
    assert_eq!(q.filter.trace_id, Some(1));
    assert_eq!(q.filter.model, None);
    let bare = AnalyticsQuery::from_json(&doc(r#"{"metrics":[]}"#)).unwrap();
    assert!(bare.metrics.is_empty() && bare.group_by.is_empty());
    assert_eq!(bare.filter.kind, None);
    assert!(AnalyticsQuery::from_json(&doc(r#"{}"#)).is_none());
    assert!(AnalyticsQuery::from_json(&doc(r#"{"metrics":["speed"]}"#)).is_none());
    assert!(AnalyticsQuery::from_json(&doc(r#"{"metrics":[],"group_by":["colour"]}"#)).is_none());
    assert!(AnalyticsQuery::from_json(&doc(r#"{"metrics":[],"filter":{"since":"x"}}"#)).is_none());
    assert!(AnalyticsQuery::from_json(&doc(r#"{"metrics":[],"filter":[]}"#)).is_none());
    for m in [
        AnalyticsMetric::TotalCost,
        AnalyticsMetric::TotalInputTokens,
        AnalyticsMetric::TotalOutputTokens,
        AnalyticsMetric::TotalTokens,
        AnalyticsMetric::AvgLatencyMs,
        AnalyticsMetric::SpanCount,
        AnalyticsMetric::ErrorCount,
    ] {
        assert_eq!(AnalyticsMetric::from_name(m.name()), Some(m));
    }
    for g in [
        GroupByField::Model,
        GroupByField::Provider,
        GroupByField::Kind,
        GroupByField::Status,
        GroupByField::Trace,
        GroupByField::Day,
        GroupByField::Hour,
    ] {
        assert_eq!(GroupByField::from_name(g.name()), Some(g));
    }
}

fn pairs(items: &[(&str, &str)]) -> Vec<(String, String)> {
    items.iter().map(|(k, v)| (k.to_string(), v.to_string())).collect()
}

#[test]
fn query_parameters_are_read() {
    let p = pairs(&[
        ("kind", "llm_call"),
        ("since", "2024-01-01T00:00:00Z"),
        ("trace_id", "00000000-0000-0000-0000-000000000001"),
        ("kind", "second"),
        ("name_contains", ""),
    ]);
    assert_eq!(find_value(&p, "kind"), Some("llm_call"));
    assert_eq!(find_value(&p, "model"), None);
    let q = SpanQueryParams::from_pairs(&p).unwrap();
    assert_eq!(q.kind, Some("llm_call".to_string()));
    assert_eq!(q.since, Some(at(1_704_067_200, 0)));
    assert_eq!(q.until, None);
    assert_eq!(q.trace_id, Some(1));
    assert_eq!(q.name_contains, Some("".to_string()));
    assert_eq!(q.path, None);
    assert!(SpanQueryParams::from_pairs(&pairs(&[("since", "soon")])).is_none());
    assert!(SpanQueryParams::from_pairs(&pairs(&[("trace_id", "1")])).is_none());
    assert!(SpanQueryParams::from_pairs(&pairs(&[])).is_some());
    let f = FileQueryParams::from_pairs(&pairs(&[("path_prefix", "/a"), ("until", "1970-01-01T00:00:01+00:00")])).unwrap();
    assert_eq!(f.path_prefix, Some("/a".to_string()));
    assert_eq!(f.until, Some(at(1, 0)));
    assert!(FileQueryParams::from_pairs(&pairs(&[("until", "")])).is_none());
    assert_eq!(ExportParams::from_pairs(&pairs(&[])), Some(ExportParams { trace_id: None }));
    assert_eq!(
        ExportParams::from_pairs(&pairs(&[("trace_id", "00000000-0000-0000-0000-000000000009")])),
        Some(ExportParams { trace_id: Some(9) })
    );
    assert_eq!(ExportParams::from_pairs(&pairs(&[("trace_id", "x")])), None);
}

#[test]
fn answers_on_the_wire() {
    assert_eq!(
        json::to_text(&CreatedSpan { id: 2, trace_id: 1 }.to_json()),
        r#"{"id":"00000000-0000-0000-0000-000000000002","trace_id":"00000000-0000-0000-0000-000000000001"}"#
    );
    assert_eq!(json::to_text(&Stats { trace_count: 1, span_count: 2 }.to_json()), r#"{"span_count":2,"trace_count":1}"#);
    assert_eq!(
        json::to_text(&DeletedTrace { trace_id: 1, spans_deleted: 3 }.to_json()),
        r#"{"spans_deleted":3,"trace_id":"00000000-0000-0000-0000-000000000001"}"#
    );
    assert_eq!(json::to_text(&EnqueueResponse { enqueued: 0 }.to_json()), r#"{"enqueued":0}"#);
    assert_eq!(
        json::to_text(&ImportResponse { imported: 4, dataset_id: 1 }.to_json()),
        r#"{"dataset_id":"00000000-0000-0000-0000-000000000001","imported":4}"#
    );
    assert_eq!(
        json::to_text(&QueueCounts { pending: 1, claimed: 2, completed: 3 }.to_json()),
        r#"{"claimed":2,"completed":3,"pending":1}"#
    );
    let spans = sample_spans();
    let list = SpanList { count: spans.len(), spans: spans.clone() }.to_json();
    assert_eq!(list.get("count").unwrap().as_u64(), Some(4));
    let items = list.get("spans").unwrap().as_array().unwrap();
    assert_eq!(items.len(), 4);
    assert_eq!(Span::from_json(&items[1]), Some(spans[1].clone()));
    let export = ExportData { traces: vec![(1, vec![spans[0].clone()]), (2, vec![])] }.to_json();
    let traces = export.get("traces").unwrap();
    assert_eq!(traces.get("00000000-0000-0000-0000-000000000001").unwrap().as_array().unwrap().len(), 1);
    assert_eq!(traces.get("00000000-0000-0000-0000-000000000002").unwrap().as_array().unwrap().len(), 0);
    let dataset = Dataset::new_with("d".to_string(), None, 7, at(1, 0));
    let shown = DatasetResponse { dataset: dataset.clone(), datapoint_count: 5 }.to_json();
    assert_eq!(shown.get("datapoint_count").unwrap().as_u64(), Some(5));
    assert_eq!(shown.get("name").unwrap().as_str(), Some("d"));
    assert_eq!(Dataset::from_json(&shown), Some(dataset));
}

#[test]
fn documents_and_their_text() {
    let d = doc(r#" {"b":[1,-2,3.5,1e3,true,null,"x\n"],"a":{"k":"v"}} "#);
    assert_eq!(json::to_text(&d), r#"{"a":{"k":"v"},"b":[1,-2,3.5,1000.0,true,null,"x\n"]}"#);
    assert_eq!(d.get("a").unwrap().get("k").unwrap().as_str(), Some("v"));
    assert!(d.is_object());
    let items = d.get("b").unwrap().as_array().unwrap();
    assert_eq!(items[0].as_u64(), Some(1));
    assert_eq!(items[0].as_i64(), Some(1));
    assert_eq!(items[1].as_u64(), None);
    assert_eq!(items[1].as_i64(), Some(-2));
    assert_eq!(items[2].as_u64(), None);
    assert_eq!(items[4], Json::Bool(true));
    assert_eq!(items[5], Json::Null);
    assert_eq!(items[6].as_str(), Some("x\n"));
    assert_eq!(d.get("missing"), None);
    assert_eq!(items[0].get("a"), None);
    assert_eq!(json::parse(b""), None);
    assert_eq!(json::parse(b"{} {}"), None);
    assert_eq!(json::parse(b"18446744073709551615").unwrap().as_u64(), Some(u64::MAX));
    assert_eq!(json::parse(b"-9223372036854775808").unwrap().as_i64(), Some(i64::MIN));
    assert_eq!(d.clone(), d);
    assert_eq!(json::parse(json::to_text(&d).as_bytes()), Some(d));
}

#[test]
fn instants_and_identifiers() {
    let t = at(1_700_000_000, 5);
    assert_eq!(t.secs(), 1_700_000_000);
    assert_eq!(t.subsec_nanos(), 5);
    assert_eq!(clock::rfc3339(&t), "2023-11-14T22:13:20.000000005+00:00");
    assert_eq!(clock::parse_rfc3339("2023-11-14T22:13:20.000000005+00:00"), Some(t));
    assert_eq!(clock::parse_rfc3339("2023-11-15T00:13:20.000000005+02:00"), Some(t));
    assert_eq!(clock::parse_rfc3339("2023-11-14 22:13"), None);
    assert_eq!(clock::parse_rfc3339_exact(&clock::rfc3339(&t)), Some(t));
    assert!(at(1, 0).lt(&at(1, 1)));
    assert!(at(1, 1).le(&at(1, 1)));
    assert!(!at(2, 0).le(&at(1, 999_999_999)));
    assert_eq!(at(1, 0).millis_until(&at(2, 500_000_000)), 1500);
    assert_eq!(at(2, 500_000_000).millis_until(&at(1, 0)), -1500);
    assert_eq!(at(0, 999_999).millis_until(&at(0, 1_000_000)), 0);
    assert_eq!(at(1, 5).plus_seconds(10), at(11, 5));
    assert_eq!(at(1, 5).plus_seconds(-2), at(-1, 5));
    assert_eq!(at(i64::MAX, 0), at(253_402_300_799, 0));
    assert_eq!(at(i64::MIN, 0), at(-62_167_219_200, 0));
    assert_eq!(at(0, 2_000_000_000).subsec_nanos(), 999_999_999);
    for edge in [at(-62_167_219_200, 0), at(253_402_300_799, 999_999_999), at(0, 0), at(-1, 1)] {
        assert_eq!(clock::parse_rfc3339_exact(&clock::rfc3339(&edge)), Some(edge));
    }
    assert_eq!(clock::rfc3339(&at(-62_167_219_200, 0)), "0000-01-01T00:00:00+00:00");
    assert_eq!(clock::rfc3339(&at(253_402_300_799, 999_999_999)), "9999-12-31T23:59:59.999999999+00:00");
    let before = clock::now();
    let after = clock::now();
    assert!(before.le(&after));
    assert!(at(1_600_000_000, 0).lt(&before));

    assert_eq!(ids::id_to_string(0), "00000000-0000-0000-0000-000000000000");
    assert_eq!(ids::id_to_string(0x0123_4567_89ab_cdef_0123_4567_89ab_cdef), "01234567-89ab-cdef-0123-456789abcdef");
    assert_eq!(ids::parse_id("01234567-89AB-cdef-0123-456789abcdef"), Some(0x0123_4567_89ab_cdef_0123_4567_89ab_cdef));
    assert_eq!(ids::parse_id("nope"), None);
    for id in [0u128, 1, u128::MAX, 0x0123_4567_89ab_cdef_0123_4567_89ab_cdef, ids::fresh_id()] {
        let groups = format!(
            "{:08x}-{:04x}-{:04x}-{:04x}-{:012x}",
            id >> 96,
            (id >> 80) & 0xffff,
            (id >> 64) & 0xffff,
            (id >> 48) & 0xffff,
            id & 0xffff_ffff_ffff
        );
        assert_eq!(ids::id_to_string(id), groups);
    }
    let a = ids::fresh_id();
    let b = ids::fresh_id();
    assert_ne!(a, b);
    assert_eq!((a >> 76) & 0xf, 7);
    assert_eq!(ids::parse_id(&ids::id_to_string(a)), Some(a));
}
