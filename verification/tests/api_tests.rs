use traceway::api::datasets;
use traceway::api::events::SystemEvent;
use traceway::api::handlers;
use traceway::api::import::{parse_csv_import, parse_import, parse_json_import, parse_jsonl_import, ImportError};
use traceway::api::queue::{self, ImportRefusal};
use traceway::api::reports;
use traceway::api::types::{
    CreateDatapointRequest, CreateDatasetRequest, CreateSpanRequest, CreateTraceRequest,
    EnqueueRequest, ExportParams, ExportSpanRequest, FileQueryParams, SpanQueryParams,
    UpdateDatasetRequest,
};
use traceway::clock::Timestamp;
use traceway::json::{self, Json};
use traceway::storage::persistent::PersistentStore;
use traceway::trace::analytics::{AnalyticsFilter, AnalyticsMetric, AnalyticsQuery, GroupByField};
use traceway::trace::entities::{
    Datapoint, DatapointKind, DatapointSource, Dataset, FileVersion, Message, QueueItem,
    QueueItemStatus,
};
use traceway::trace::kind::{SpanKind, SpanStatus};
use traceway::trace::span::{Span, SpanBuilder};

fn empty_store() -> PersistentStore {
    PersistentStore::from_loaded(vec![], vec![], vec![], vec![], vec![], vec![])
}

fn at(secs: i64) -> Timestamp {
    Timestamp::from_parts(secs, 0)
}

fn custom(kind: &str) -> SpanKind {
    SpanKind::Custom { kind: kind.to_string(), attributes: Vec::new() }
}

fn doc(text: &str) -> Json {
    json::parse(text.as_bytes()).unwrap()
}

fn no_params() -> SpanQueryParams {
    SpanQueryParams {
        kind: None,
        model: None,
        provider: None,
        status: None,
        since: None,
        until: None,
        name_contains: None,
        path: None,
        trace_id: None,
    }
}

#[test]
fn create_and_complete_a_span() {
    let mut store = empty_store();
    let body = doc(
        r#"{"trace_id":"018f0000-0000-7000-8000-000000000001","name":"n","kind":{"type":"custom","kind":"tool","attributes":{}}}"#,
    );
    let request = CreateSpanRequest::from_json(&body).unwrap();
    let trace = request.trace_id;
    let created = handlers::create_span(&mut store, request);
    assert_eq!(created.status, 201);
    let answer = created.body.unwrap();
    assert_eq!(answer.trace_id, trace);
    let id = answer.id;
    match created.event {
        Some(SystemEvent::SpanCreated { span }) => assert_eq!(span.id(), id),
        other => panic!("{:?}", other),
    }
    assert_eq!(handlers::get_span(&store, id).body.unwrap().status(), &SpanStatus::Running);

    let output = doc(r#"{"output":{"ok":true}}"#);
    let output = traceway::api::types::CompleteSpanRequest::from_json(&output).unwrap().output;
    let done = handlers::complete_span(&mut store, id, output);
    assert_eq!(done.status, 200);
    let span = done.body.unwrap();
    assert_eq!(span.status(), &SpanStatus::Completed);
    assert!(span.ended_at().is_some());
    assert!(matches!(done.event, Some(SystemEvent::SpanCompleted { .. })));

    let shown = handlers::get_span(&store, id);
    assert_eq!(shown.status, 200);
    let shown = shown.body.unwrap();
    assert_eq!(shown.status().as_str(), "completed");
    assert_eq!(shown.output(), Some(&doc(r#"{"ok":true}"#)));
    assert!(shown.ended_at().is_some());
    assert!(shown.duration_ms().unwrap() >= 0);
    assert_eq!(shown.kind(), &custom("tool"));
    assert_eq!(shown, span);
    let wire = shown.to_json();
    assert_eq!(wire.get("status").unwrap().as_str(), Some("completed"));
    assert_eq!(wire.get("output"), Some(&doc(r#"{"ok":true}"#)));

    let of_trace = handlers::get_trace(&store, trace).body.unwrap();
    assert_eq!(of_trace.count, 1);
    assert_eq!(of_trace.spans[0].id(), id);

    let late = handlers::fail_span(&mut store, id, "x".to_string());
    assert_eq!(late.status, 409);
    assert_eq!(handlers::get_span(&store, id).body.unwrap(), span);
}

#[test]
fn ending_a_span_twice_is_a_conflict() {
    let mut store = empty_store();
    let span = SpanBuilder::new(1, "n".to_string(), custom("x")).build_with(2, at(10));
    store.insert(span);
    let first = handlers::complete_span(&mut store, 2, Some(Json::Bool(true)));
    assert_eq!(first.status, 200);
    let stored = store.get(2).unwrap().clone();
    store.take_pending();

    let again = handlers::complete_span(&mut store, 2, None);
    assert_eq!(again.status, 409);
    assert!(again.body.is_none());
    assert!(again.event.is_none());
    let failed = handlers::fail_span(&mut store, 2, "late".to_string());
    assert_eq!(failed.status, 409);
    assert!(failed.event.is_none());
    assert_eq!(store.get(2).unwrap(), &stored);
    assert!(store.take_pending().is_empty());

    assert_eq!(handlers::complete_span(&mut store, 404, None).status, 404);
    assert_eq!(handlers::fail_span(&mut store, 404, "e".to_string()).status, 404);
    assert_eq!(handlers::get_span(&store, 404).status, 404);
    assert_eq!(handlers::delete_span(&mut store, 404).status, 404);
}

#[test]
fn failing_a_span_keeps_the_error() {
    let mut store = empty_store();
    store.insert(SpanBuilder::new(1, "n".to_string(), custom("x")).build_with(2, at(10)));
    let r = handlers::fail_span(&mut store, 2, "boom".to_string());
    assert_eq!(r.status, 200);
    assert_eq!(r.body.unwrap().status(), &SpanStatus::Failed { error: "boom".to_string() });
    assert!(matches!(r.event, Some(SystemEvent::SpanFailed { .. })));
}

#[test]
fn span_events_on_the_wire() {
    let span = SpanBuilder::new(1, "n".to_string(), custom("x")).build_with(2, at(10));
    let event = SystemEvent::SpanCreated { span: span.clone() };
    assert_eq!(event.kind_name(), "span_created");
    let frame = event.sse_frame();
    assert!(frame.starts_with("data: "));
    assert!(frame.ends_with("\n\n"));
    let payload = doc(&frame["data: ".len()..frame.len() - 2]);
    assert_eq!(payload.get("type").unwrap().as_str(), Some("span_created"));
    assert_eq!(Span::from_json(payload.get("span").unwrap()), Some(span.clone()));
    let direct = event.to_json();
    assert_eq!(direct.get("type").unwrap().as_str(), Some("span_created"));
    assert_eq!(Span::from_json(direct.get("span").unwrap()), Some(span));

    let cleared = SystemEvent::Cleared;
    assert_eq!(cleared.sse_frame(), "data: {\"type\":\"cleared\"}\n\n");
    let deleted = SystemEvent::TraceDeleted { trace_id: 1 };
    assert_eq!(
        deleted.sse_frame(),
        "data: {\"trace_id\":\"00000000-0000-0000-0000-000000000001\",\"type\":\"trace_deleted\"}\n\n"
    );
    assert_eq!(SystemEvent::SpanDeleted { span_id: 3 }.kind_name(), "span_deleted");
    assert_eq!(SystemEvent::DatasetDeleted { dataset_id: 3 }.kind_name(), "dataset_deleted");
}

#[test]
fn listing_and_deleting() {
    let mut store = empty_store();
    for (id, trace, kind) in [(1u128, 10u128, "a"), (2, 10, "b"), (3, 11, "a")] {
        store.insert(SpanBuilder::new(trace, format!("s{}", id), custom(kind)).build_with(id, at(id as i64)));
    }
    let all = handlers::list_spans(&store, no_params());
    assert_eq!(all.count, 3);
    let mut params = no_params();
    params.kind = Some("a".to_string());
    params.trace_id = Some(10);
    let some = handlers::list_spans(&store, params);
    assert_eq!(some.count, 1);
    assert_eq!(some.spans[0].id(), 1);

    let stats = handlers::get_stats(&store);
    assert_eq!((stats.trace_count, stats.span_count), (2, 3));

    let trace = handlers::get_trace(&store, 10);
    assert_eq!(trace.status, 200);
    let ids: Vec<u128> = trace.body.unwrap().spans.iter().map(|s| s.id()).collect();
    assert_eq!(ids, vec![1, 2]);
    assert_eq!(handlers::get_trace(&store, 12).status, 404);

    let gone = handlers::delete_trace(&mut store, 10);
    assert_eq!(gone.status, 200);
    let body = gone.body.unwrap();
    assert_eq!((body.trace_id, body.spans_deleted), (10, 2));
    assert!(matches!(gone.event, Some(SystemEvent::TraceDeleted { trace_id: 10 })));
    assert_eq!(handlers::delete_trace(&mut store, 10).status, 404);

    let one = handlers::delete_span(&mut store, 3);
    assert_eq!(one.status, 200);
    assert!(matches!(one.event, Some(SystemEvent::SpanDeleted { span_id: 3 })));

    store.insert(SpanBuilder::new(1, "z".to_string(), custom("a")).build_with(9, at(1)));
    let cleared = handlers::clear_all_traces(&mut store);
    assert_eq!(cleared.status, 200);
    assert_eq!(cleared.body.unwrap().message, "All traces cleared");
    assert!(matches!(cleared.event, Some(SystemEvent::Cleared)));
    assert_eq!(store.span_count(), 0);
}

#[test]
fn traces_are_made_and_listed() {
    let mut store = empty_store();
    let made = handlers::create_trace(
        &mut store,
        CreateTraceRequest { name: Some("run".to_string()), tags: vec!["a".to_string()] },
    );
    assert_eq!(made.status, 201);
    let trace = made.body.unwrap();
    assert_eq!(trace.name, Some("run".to_string()));
    assert_eq!(trace.tags, vec!["a".to_string()]);
    assert!(trace.ended_at.is_none());
    assert!(matches!(made.event, Some(SystemEvent::TraceCreated { .. })));
    let listed = reports::list_traces(&store);
    assert_eq!(listed.count, 1);
    assert_eq!(listed.traces[0], trace);
    let shown = handlers::get_trace(&store, trace.id);
    assert_eq!(shown.status, 200);
    assert_eq!(shown.body.unwrap().count, 0);
}

fn generic(input: Json) -> DatapointKind {
    DatapointKind::Generic {
        input,
        expected_output: None,
        actual_output: None,
        score: None,
        metadata: vec![],
    }
}

#[test]
fn datasets_through_the_handlers() {
    let mut store = empty_store();
    let made = datasets::create_dataset(
        &mut store,
        CreateDatasetRequest { name: "evals".to_string(), description: None },
    );
    assert_eq!(made.status, 201);
    let ds = made.body.unwrap();
    assert_eq!(ds.name, "evals");
    assert_eq!(ds.created_at, ds.updated_at);
    assert!(matches!(made.event, Some(SystemEvent::DatasetCreated { .. })));

    let shown = datasets::get_dataset(&store, ds.id);
    assert_eq!(shown.status, 200);
    assert_eq!(shown.body.unwrap().datapoint_count, 0);
    assert_eq!(datasets::get_dataset(&store, 1).status, 404);

    let changed = datasets::update_dataset_at(
        &mut store,
        ds.id,
        UpdateDatasetRequest { name: None, description: Some("d".to_string()) },
        at(4_000_000_000),
    );
    assert_eq!(changed.status, 200);
    let changed = changed.body.unwrap();
    assert_eq!(changed.name, "evals");
    assert_eq!(changed.description, Some("d".to_string()));
    assert_eq!(changed.created_at, ds.created_at);
    assert_eq!(changed.updated_at, at(4_000_000_000));
    assert_eq!(store.get_dataset(ds.id), Some(&changed));
    let renamed = datasets::update_dataset(
        &mut store,
        ds.id,
        UpdateDatasetRequest { name: Some("new".to_string()), description: None },
    );
    assert_eq!(renamed.body.unwrap().name, "new");
    assert_eq!(store.get_dataset(ds.id).unwrap().description, Some("d".to_string()));
    assert_eq!(
        datasets::update_dataset(&mut store, 1, UpdateDatasetRequest { name: None, description: None }).status,
        404
    );

    let point = datasets::create_datapoint(
        &mut store,
        ds.id,
        CreateDatapointRequest { kind: generic(Json::Str("q".to_string())) },
    );
    assert_eq!(point.status, 201);
    let point = point.body.unwrap();
    assert_eq!(point.dataset_id, ds.id);
    assert_eq!(point.source, DatapointSource::Manual);
    assert_eq!(point.source_span_id, None);
    let missing = datasets::create_datapoint(
        &mut store,
        1,
        CreateDatapointRequest { kind: generic(Json::Null) },
    );
    assert_eq!(missing.status, 404);
    assert!(missing.event.is_none());

    let listed = datasets::list_datasets(&store);
    assert_eq!(listed.count, 1);
    assert_eq!(listed.datasets[0].datapoint_count, 1);
    let points = datasets::list_datapoints(&store, ds.id);
    assert_eq!(points.status, 200);
    assert_eq!(points.body.unwrap().datapoints, vec![point.clone()]);
    assert_eq!(datasets::list_datapoints(&store, 1).status, 404);

    assert_eq!(datasets::delete_datapoint(&mut store, 1, point.id).status, 404);
    assert!(store.get_datapoint(point.id).is_some());
    assert_eq!(datasets::delete_datapoint(&mut store, ds.id, 77).status, 404);
    assert_eq!(datasets::delete_datapoint(&mut store, ds.id, point.id).status, 200);
    assert!(store.get_datapoint(point.id).is_none());

    let gone = datasets::delete_dataset(&mut store, ds.id);
    assert_eq!(gone.status, 200);
    assert!(matches!(gone.event, Some(SystemEvent::DatasetDeleted { .. })));
    assert_eq!(datasets::delete_dataset(&mut store, ds.id).status, 404);
}

#[test]
fn a_span_becomes_a_datapoint() {
    let mut store = empty_store();
    store.save_dataset(Dataset::new_with("d".to_string(), None, 100, at(0)));
    let span = SpanBuilder::new(1, "n".to_string(), custom("x"))
        .input(Json::Str("in".to_string()))
        .build_with(2, at(10))
        .complete_at(Some(Json::Str("out".to_string())), at(11));
    store.insert(span);
    store.insert(SpanBuilder::new(1, "bare".to_string(), custom("x")).build_with(3, at(10)));

    let made = datasets::export_span_to_dataset(&mut store, 100, ExportSpanRequest { span_id: 2 });
    assert_eq!(made.status, 201);
    let dp = made.body.unwrap();
    assert_eq!(dp.source, DatapointSource::SpanExport);
    assert_eq!(dp.source_span_id, Some(2));
    assert_eq!(
        dp.kind,
        DatapointKind::Generic {
            input: Json::Str("in".to_string()),
            expected_output: Some(Json::Str("out".to_string())),
            actual_output: None,
            score: None,
            metadata: vec![],
        }
    );
    assert!(matches!(made.event, Some(SystemEvent::DatapointCreated { .. })));
    let bare = datasets::export_span_to_dataset(&mut store, 100, ExportSpanRequest { span_id: 3 });
    assert_eq!(bare.body.unwrap().kind, generic(Json::Null));
    assert_eq!(datasets::export_span_to_dataset(&mut store, 100, ExportSpanRequest { span_id: 9 }).status, 404);
    assert_eq!(datasets::export_span_to_dataset(&mut store, 101, ExportSpanRequest { span_id: 2 }).status, 404);
}

#[test]
fn the_labelling_queue() {
    let mut store = empty_store();
    store.save_dataset(Dataset::new_with("d".to_string(), None, 100, at(0)));
    store.save_dataset(Dataset::new_with("e".to_string(), None, 200, at(0)));
    store.save_datapoint(Datapoint::new_with(100, generic(Json::Str("a".to_string())), DatapointSource::Manual, 1, at(1)));
    store.save_datapoint(Datapoint::new_with(200, generic(Json::Null), DatapointSource::Manual, 2, at(1)));

    let r = queue::enqueue_datapoints(&mut store, 100, EnqueueRequest { datapoint_ids: vec![1, 2, 3, 1] });
    assert_eq!(r.status, 201);
    assert_eq!(r.body.unwrap().enqueued, 2);
    assert_eq!(r.events.len(), 2);
    let item = match &r.events[0] {
        SystemEvent::QueueItemUpdated { item } => item.clone(),
        other => panic!("{:?}", other),
    };
    assert_eq!(item.datapoint_id, 1);
    assert_eq!(item.dataset_id, 100);
    assert_eq!(item.status, QueueItemStatus::Pending);
    assert_eq!(item.original_data, Some(generic(Json::Str("a".to_string())).to_json()));
    assert_eq!(store.get_queue_item(item.id), Some(&item));
    let missing = queue::enqueue_datapoints(&mut store, 7, EnqueueRequest { datapoint_ids: vec![1] });
    assert_eq!(missing.status, 404);
    assert!(missing.events.is_empty());

    let listed = queue::list_queue(&store, 100).body.unwrap();
    assert_eq!(listed.items.len(), 2);
    assert_eq!((listed.counts.pending, listed.counts.claimed, listed.counts.completed), (2, 0, 0));
    assert_eq!(queue::list_queue(&store, 7).status, 404);

    assert_eq!(queue::submit_queue_item(&mut store, item.id, None).status, 409);
    assert_eq!(queue::submit_queue_item(&mut store, 404, None).status, 404);
    let claimed = handlers::claim_queue_item(&mut store, item.id, "ann".to_string());
    assert_eq!(claimed.status, 200);
    assert_eq!(claimed.body.unwrap().claimed_by, Some("ann".to_string()));
    assert_eq!(handlers::claim_queue_item(&mut store, item.id, "bob".to_string()).status, 409);
    assert_eq!(handlers::claim_queue_item(&mut store, 404, "bob".to_string()).status, 404);

    let edited = doc(r#"{"input":"better","expected_output":"yes"}"#);
    let done = queue::submit_queue_item(&mut store, item.id, Some(edited.clone()));
    assert_eq!(done.status, 200);
    let done = done.body.unwrap();
    assert_eq!(done.status, QueueItemStatus::Completed);
    assert_eq!(done.edited_data, Some(edited));
    assert_eq!(
        store.get_datapoint(1).unwrap().kind,
        DatapointKind::Generic {
            input: Json::Str("better".to_string()),
            expected_output: Some(Json::Str("yes".to_string())),
            actual_output: None,
            score: None,
            metadata: vec![],
        }
    );
    assert_eq!(store.get_datapoint(1).unwrap().created_at, at(1));
    assert_eq!(queue::submit_queue_item(&mut store, item.id, None).status, 409);
    let counts = queue::list_queue(&store, 100).body.unwrap().counts;
    assert_eq!((counts.pending, counts.claimed, counts.completed), (1, 0, 1));
}

#[test]
fn submitting_typed_data_replaces_the_content() {
    let mut store = empty_store();
    store.save_dataset(Dataset::new_with("d".to_string(), None, 100, at(0)));
    store.save_datapoint(Datapoint::new_with(100, generic(Json::Null), DatapointSource::Manual, 1, at(1)));
    store.save_queue_item(QueueItem::new_with(100, 1, None, 5, at(2)));
    handlers::claim_queue_item(&mut store, 5, "ann".to_string());
    let conversation = DatapointKind::LlmConversation {
        messages: vec![Message { role: "user".to_string(), content: "hi".to_string() }],
        expected: Some(Message { role: "assistant".to_string(), content: "ho".to_string() }),
        metadata: vec![],
    };
    let r = queue::submit_queue_item(&mut store, 5, Some(conversation.to_json()));
    assert_eq!(r.status, 200);
    assert_eq!(store.get_datapoint(1).unwrap().kind, conversation);
}

#[test]
fn importing_files() {
    let mut store = empty_store();
    store.save_dataset(Dataset::new_with("d".to_string(), None, 100, at(0)));
    let r = queue::import_file(&mut store, 100, "data.json", br#"[{"input":"a"},{"messages":[{"role":"user","content":"hi"}]}]"#)
        .unwrap();
    assert_eq!(r.status, 201);
    let body = r.body.unwrap();
    assert_eq!((body.imported, body.dataset_id), (2, 100));
    assert_eq!(r.events.len(), 2);
    assert_eq!(store.datapoint_count_for_dataset(100), 2);
    match &r.events[1] {
        SystemEvent::DatapointCreated { datapoint } => {
            assert_eq!(datapoint.source, DatapointSource::FileUpload);
            assert!(matches!(datapoint.kind, DatapointKind::LlmConversation { .. }));
        },
        other => panic!("{:?}", other),
    }
    let missing = queue::import_file(&mut store, 1, "data.json", b"[]").unwrap_err();
    assert_eq!(missing, ImportRefusal::NoDataset);
    assert_eq!(missing.status_code(), 404);
    assert_eq!(missing.message(), "dataset not found");
    let bad = queue::import_file(&mut store, 100, "data.json", b"{").unwrap_err();
    assert_eq!(bad, ImportRefusal::Unreadable(ImportError::InvalidJson));
    assert_eq!(bad.status_code(), 400);
    assert_eq!(bad.message(), "invalid JSON");
    assert_eq!(store.datapoint_count_for_dataset(100), 2);
    let lines = queue::import_file(&mut store, 100, "more.jsonl", b"{\"input\":1}\n\n{\"input\":2}\n").unwrap();
    assert_eq!(lines.body.unwrap().imported, 2);
    let table = queue::import_file(&mut store, 100, "t.csv", b"input,expected_output\nq,a\n").unwrap();
    assert_eq!(table.body.unwrap().imported, 1);
    assert_eq!(store.datapoint_count_for_dataset(100), 5);
    let kinds = vec![generic(Json::Bool(true))];
    let direct = queue::import_datapoints(&mut store, 100, kinds);
    assert_eq!(direct.body.unwrap().imported, 1);
}

#[test]
fn import_parsers() {
    assert_eq!(parse_json_import(b"{}"), Err(ImportError::InvalidJson));
    assert_eq!(parse_json_import(b"nope"), Err(ImportError::InvalidJson));
    assert_eq!(parse_json_import(b"[]"), Ok(vec![]));
    let typed = parse_json_import(br#"[{"type":"generic","input":{"a":1},"metadata":{}}]"#).unwrap();
    assert_eq!(typed, vec![generic(doc(r#"{"a":1}"#))]);
    let mapped = parse_json_import(br#"[{"input":"q","expected_output":"a","actual_output":"b","score":0.5,"extra":1}]"#)
        .unwrap();
    match &mapped[0] {
        DatapointKind::Generic { input, expected_output, actual_output, score, .. } => {
            assert_eq!(input, &Json::Str("q".to_string()));
            assert_eq!(expected_output, &Some(Json::Str("a".to_string())));
            assert_eq!(actual_output, &Some(Json::Str("b".to_string())));
            assert_eq!(score.as_deref(), Some("0.5"));
        },
        other => panic!("{:?}", other),
    }

    assert_eq!(parse_jsonl_import(&[0xff, 0xfe]), Err(ImportError::InvalidUtf8));
    assert_eq!(parse_jsonl_import(b"{\"input\":1}\n{oops\n"), Err(ImportError::InvalidLine(2)));
    assert_eq!(ImportError::InvalidLine(2).message(), "invalid JSON on line 2");
    assert_eq!(ImportError::InvalidUtf8.message(), "invalid UTF-8");
    assert_eq!(parse_jsonl_import(b"  \n\t\n").unwrap().len(), 0);
    assert_eq!(parse_jsonl_import(b"{\"input\":1}\r\n {\"input\":2} ").unwrap().len(), 2);

    let rows = parse_csv_import(b"input,expected_output\nhello,world\nfoo,bar\n").unwrap();
    assert_eq!(rows.len(), 2);
    match &rows[0] {
        DatapointKind::Generic { input, expected_output, .. } => {
            assert_eq!(input, &Json::Str("hello".to_string()));
            assert_eq!(expected_output, &Some(Json::Str("world".to_string())));
        },
        other => panic!("{:?}", other),
    }
    let ragged = parse_csv_import(b"a,b\n1,2,3\n");
    match ragged {
        Err(ImportError::InvalidCsv(m)) => {
            assert!(ImportError::InvalidCsv(m.clone()).message().starts_with("CSV parse error: "));
        },
        other => panic!("{:?}", other),
    }
    assert_eq!(parse_import("x.csv", b"input\nq\n").unwrap().len(), 1);
    assert_eq!(parse_import("x.jsonl", b"{\"input\":1}").unwrap().len(), 1);
    assert_eq!(parse_import("x.txt", b"[{\"input\":1}]").unwrap().len(), 1);
    assert_eq!(parse_import("x.jsonl", b"[{\"input\":1},\n{\"input\":2}]"), Err(ImportError::InvalidLine(1)));
}

fn version(path: &str, hash: &str, created: i64) -> FileVersion {
    FileVersion {
        hash: hash.to_string(),
        path: path.to_string(),
        size: 1,
        created_at: at(created),
        created_by_span: None,
    }
}

#[test]
fn files_and_exports() {
    let mut store = empty_store();
    store.save_file_version(version("/a/x.json", "h1", 1));
    store.save_file_version(version("/a/y.txt", "h2", 2));
    store.save_file_version(version("/b/z.png", "h1", 3));
    let listed = reports::list_files(
        &store,
        FileQueryParams { path_prefix: Some("/a/".to_string()), since: None, until: None },
    );
    assert_eq!(listed.count, 2);
    assert_eq!(listed.files[1].hash, "h2");
    let versions = reports::get_file_versions(&store, "/a/x.json".to_string());
    assert_eq!(versions.status, 200);
    let versions = versions.body.unwrap();
    assert_eq!((versions.path.as_str(), versions.count), ("/a/x.json", 1));
    assert_eq!(reports::get_file_versions(&store, "/nope".to_string()).status, 404);
    assert_eq!(reports::content_type(&store, "h1"), "application/json");
    assert_eq!(reports::content_type(&store, "h2"), "text/plain");
    assert_eq!(reports::content_type(&store, "h9"), "application/octet-stream");

    store.insert(SpanBuilder::new(10, "a".to_string(), custom("x")).build_with(1, at(1)));
    store.insert(SpanBuilder::new(10, "b".to_string(), custom("x")).build_with(2, at(2)));
    store.insert(SpanBuilder::new(11, "c".to_string(), custom("x")).build_with(3, at(3)));
    let one = reports::export_json(&store, ExportParams { trace_id: Some(10) });
    assert_eq!(one.traces.len(), 1);
    assert_eq!(one.traces[0].0, 10);
    assert_eq!(one.traces[0].1.iter().map(|s| s.id()).collect::<Vec<_>>(), vec![1, 2]);
    assert!(reports::export_json(&store, ExportParams { trace_id: Some(12) }).traces.is_empty());
    let mut all = reports::export_json(&store, ExportParams { trace_id: None }).traces;
    all.sort_by_key(|t| t.0);
    assert_eq!(all.iter().map(|t| (t.0, t.1.len())).collect::<Vec<_>>(), vec![(10, 2), (11, 1)]);

    let health = reports::health(&store, 7, "0.1.0", "sqlite", Some("iad".to_string()), None);
    assert_eq!(health.status, "ok");
    assert_eq!(health.uptime_secs, 7);
    assert_eq!(health.version, "0.1.0");
    assert_eq!((health.storage.trace_count, health.storage.span_count), (2, 3));
    assert_eq!(health.storage.backend, "sqlite");
    assert_eq!(health.region, Some("iad".to_string()));
    assert_eq!(health.instance, None);
}

#[test]
fn analytics_over_the_store() {
    let mut store = empty_store();
    let llm = |model: &str, tokens: u64| SpanKind::LlmCall {
        model: model.to_string(),
        provider: Some("openai".to_string()),
        input_tokens: Some(tokens),
        output_tokens: None,
        cost: Some("0.2".to_string()),
        input_preview: None,
        output_preview: None,
    };
    store.insert(SpanBuilder::new(10, "a".to_string(), llm("m1", 1)).build_with(1, at(1)));
    store.insert(SpanBuilder::new(10, "b".to_string(), llm("m2", 2)).build_with(2, at(2)));
    store.insert(SpanBuilder::new(11, "c".to_string(), custom("x")).build_with(3, at(3)));
    let mut filter = AnalyticsFilter::new();
    filter.kind = Some("llm_call".to_string());
    let query = AnalyticsQuery {
        metrics: vec![AnalyticsMetric::SpanCount, AnalyticsMetric::TotalInputTokens],
        group_by: vec![GroupByField::Model],
        filter,
    };
    let f = reports::analytics_filter(&query);
    assert_eq!(f.kind, Some("llm_call".to_string()));
    assert_eq!(f.name_contains, None);
    let r = reports::post_analytics(&store, &query);
    assert_eq!(r.totals.span_count, Some(2));
    assert_eq!(r.totals.total_input_tokens, Some(3));
    assert_eq!(r.groups.len(), 2);
    let s = reports::analytics_summary(&store);
    assert_eq!(s.total_spans, 3);
    assert_eq!(s.total_traces, 2);
    assert_eq!(s.total_llm_calls, 2);
    assert_eq!(s.total_tokens, 3);
    assert_eq!(s.providers_used, vec!["openai".to_string()]);
}
