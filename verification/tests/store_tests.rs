use traceway::clock::Timestamp;
use traceway::json::Json;
use traceway::storage::analytics::{compute_analytics, compute_summary, key_of};
use traceway::storage::error::StorageError;
use traceway::storage::filter::{FileFilter, SpanFilter};
use traceway::storage::persistent::{BackendOp, PersistentStore};
use traceway::storage::store::SpanStore;
use traceway::trace::analytics::{
    AnalyticsFilter, AnalyticsMetric, AnalyticsQuery, GroupByField, Latency,
};
use traceway::trace::entities::{
    content_hash, Datapoint, DatapointKind, DatapointSource, Dataset, FileVersion, QueueItem,
    QueueItemStatus, Trace,
};
use traceway::trace::kind::{SpanKind, SpanStatus};
use traceway::trace::span::{Span, SpanBuilder};

fn custom() -> SpanKind {
    SpanKind::Custom { kind: "tool".to_string(), attributes: Vec::new() }
}

fn llm(model: &str, provider: Option<&str>, tokens: (Option<u64>, Option<u64>), cost: Option<&str>) -> SpanKind {
    SpanKind::LlmCall {
        model: model.to_string(),
        provider: provider.map(|p| p.to_string()),
        input_tokens: tokens.0,
        output_tokens: tokens.1,
        cost: cost.map(|c| c.to_string()),
        input_preview: None,
        output_preview: None,
    }
}

fn at(secs: i64) -> Timestamp {
    Timestamp::from_parts(secs, 0)
}

fn span(id: u128, trace: u128, name: &str, kind: SpanKind, start: i64) -> Span {
    SpanBuilder::new(trace, name.to_string(), kind).build_with(id, at(start))
}

fn empty_store() -> PersistentStore {
    PersistentStore::from_loaded(vec![], vec![], vec![], vec![], vec![], vec![])
}

#[test]
fn complete_then_fail_is_refused() {
    let mut store = empty_store();
    assert_eq!(store.insert(span(42, 7, "n", custom(), 100)), 42);
    let done = store
        .complete_span_at(42, None, Timestamp::from_parts(101, 500_000_000))
        .unwrap();
    assert_eq!(done.status(), &SpanStatus::Completed);
    assert_eq!(done.duration_ms(), Some(1500));
    assert!(store.fail_span_at(42, "x".to_string(), at(102)).is_none());
    assert!(store.complete_span_at(42, Some(Json::Null), at(103)).is_none());
    assert!(store.complete_span_with_kind_at(42, llm("m", None, (None, None), None), None, at(104)).is_none());
    assert_eq!(store.get(42).unwrap(), &done);
    assert_eq!(store.get(42).unwrap().kind(), &custom());
    assert_eq!(store.spans_for_trace(7), vec![42]);
    assert_eq!(store.take_pending().len(), 2);
    assert!(store.take_pending().is_empty());
}

#[test]
fn span_lifecycle_values() {
    let s = span(1, 2, "work", custom(), 10);
    assert_eq!(s.id(), 1);
    assert_eq!(s.trace_id(), 2);
    assert_eq!(s.org_id(), None);
    assert_eq!(s.parent_id(), None);
    assert_eq!(s.name(), "work");
    assert_eq!(s.status(), &SpanStatus::Running);
    assert_eq!(s.status().as_str(), "running");
    assert!(!s.status().is_terminal());
    assert_eq!(s.started_at(), at(10));
    assert_eq!(s.ended_at(), None);
    assert_eq!(s.duration_ms(), None);
    assert_eq!(s.input(), None);
    assert_eq!(s.output(), None);

    let failed = s.clone().fail_at("boom".to_string(), Timestamp::from_parts(10, 999_999_999));
    assert_eq!(failed.status(), &SpanStatus::Failed { error: "boom".to_string() });
    assert_eq!(failed.status().as_str(), "failed");
    assert!(failed.status().is_terminal());
    assert_eq!(failed.duration_ms(), Some(999));
    assert_eq!(failed.clone().complete_at(None, at(20)), failed);
    assert_eq!(failed.clone().fail_at("again".to_string(), at(20)), failed);

    let done = s.clone().complete_at(Some(Json::Bool(true)), at(12));
    assert_eq!(done.status().as_str(), "completed");
    assert_eq!(done.ended_at(), Some(at(12)));
    assert_eq!(done.output(), Some(&Json::Bool(true)));
    assert_eq!(done.duration_ms(), Some(2000));

    let early = s.clone().complete_at(None, Timestamp::from_parts(9, 999_000_000));
    assert_eq!(early.duration_ms(), Some(-1));
    let earlier = s.clone().complete_at(None, Timestamp::from_parts(9, 500_000));
    assert_eq!(earlier.duration_ms(), Some(-999));

    let now_done = s.clone().complete(None);
    assert!(now_done.status().is_terminal());
    assert!(now_done.ended_at().is_some());
    let built = SpanBuilder::new(5, "b".to_string(), custom())
        .org(9)
        .parent(3)
        .input(Json::Str("in".to_string()))
        .build();
    assert_eq!(built.trace_id(), 5);
    assert_eq!(built.org_id(), Some(9));
    assert_eq!(built.parent_id(), Some(3));
    assert_eq!(built.input(), Some(&Json::Str("in".to_string())));
    assert_eq!(built.status(), &SpanStatus::Running);
}

#[test]
fn completing_with_kind_sets_tokens_once() {
    let mut store = empty_store();
    store.insert(span(1, 1, "call", llm("m", Some("openai"), (None, None), None), 0));
    let with_tokens = llm("m", Some("openai"), (Some(10), Some(20)), None);
    let done = store
        .complete_span_with_kind_at(1, with_tokens.clone(), Some(Json::Null), at(1))
        .unwrap();
    assert_eq!(done.kind(), &with_tokens);
    assert_eq!(done.kind().total_tokens(), Some(30));
    assert_eq!(done.output(), Some(&Json::Null));
    let other = llm("other", None, (Some(1), Some(1)), None);
    assert!(store.complete_span_with_kind_at(1, other, None, at(2)).is_none());
    assert_eq!(store.get(1).unwrap().kind(), &with_tokens);
}

#[test]
fn kind_accessors() {
    let read = SpanKind::FsRead { path: "/a".to_string(), file_version: None, bytes_read: 3 };
    let write = SpanKind::FsWrite {
        path: "/b".to_string(),
        file_version: "h".to_string(),
        bytes_written: 4,
    };
    let call = llm("gpt", Some("openai"), (Some(u64::MAX), Some(5)), Some("0.25"));
    assert_eq!(read.kind_name(), "fs_read");
    assert_eq!(write.kind_name(), "fs_write");
    assert_eq!(call.kind_name(), "llm_call");
    assert_eq!(custom().kind_name(), "tool");
    assert_eq!(read.path(), Some("/a"));
    assert_eq!(write.path(), Some("/b"));
    assert_eq!(call.path(), None);
    assert_eq!(call.model(), Some("gpt"));
    assert_eq!(read.model(), None);
    assert_eq!(call.provider(), Some("openai"));
    assert_eq!(call.input_tokens(), Some(u64::MAX));
    assert_eq!(call.output_tokens(), Some(5));
    assert_eq!(call.total_tokens(), Some(u64::MAX));
    assert_eq!(call.cost(), Some("0.25"));
    assert_eq!(llm("m", None, (Some(4), None), None).total_tokens(), Some(4));
    assert_eq!(llm("m", None, (None, Some(6)), None).total_tokens(), Some(6));
    assert_eq!(llm("m", None, (None, None), None).total_tokens(), None);
    assert_eq!(read.total_tokens(), None);
}

#[test]
fn span_store_indexes_agree() {
    let mut store = SpanStore::new();
    store.insert(span(1, 10, "a", custom(), 0));
    store.insert(span(2, 10, "b", custom(), 1));
    store.insert(span(3, 11, "c", custom(), 2));
    assert_eq!(store.span_count(), 3);
    assert_eq!(store.trace_count(), 2);
    assert_eq!(store.spans_for_trace(10), vec![1, 2]);
    assert_eq!(store.spans_for_trace(11), vec![3]);
    assert_eq!(store.spans_for_trace(12), Vec::<u128>::new());
    let mut traces = store.trace_ids();
    traces.sort();
    assert_eq!(traces, vec![10, 11]);

    store.replace(span(1, 10, "a2", custom(), 0));
    assert_eq!(store.spans_for_trace(10), vec![1, 2]);
    assert_eq!(store.get(1).unwrap().name(), "a2");

    store.insert(span(1, 11, "moved", custom(), 0));
    assert_eq!(store.spans_for_trace(10), vec![2]);
    assert_eq!(store.spans_for_trace(11), vec![3, 1]);

    assert!(store.delete_span(2));
    assert!(!store.delete_span(2));
    assert_eq!(store.spans_for_trace(10), Vec::<u128>::new());
    assert_eq!(store.trace_count(), 1);
    assert_eq!(store.remove(3).unwrap().name(), "c");
    assert!(store.remove(3).is_none());
    assert_eq!(store.delete_trace(11), 1);
    assert_eq!(store.delete_trace(11), 0);
    assert_eq!(store.span_count(), 0);
    store.insert(span(5, 1, "x", custom(), 0));
    store.clear();
    assert_eq!(store.span_count(), 0);
    assert_eq!(store.all_spans().len(), 0);
}

fn ids(spans: Vec<&Span>) -> Vec<u128> {
    let mut v: Vec<u128> = spans.iter().map(|s| s.id()).collect();
    v.sort();
    v
}

fn sample_store(order: &[usize]) -> SpanStore {
    let spans = vec![
        span(1, 10, "chat completion", llm("gpt-4o", Some("openai"), (Some(1), Some(2)), None), 100),
        span(2, 10, "read config", SpanKind::FsRead { path: "/etc/c".to_string(), file_version: None, bytes_read: 1 }, 200),
        span(3, 11, "chat again", llm("llama", Some("ollama"), (None, None), None), 300)
            .complete_at(None, at(301)),
        span(4, 11, "write out", SpanKind::FsWrite { path: "/o".to_string(), file_version: "h".to_string(), bytes_written: 2 }, 400)
            .fail_at("disk".to_string(), at(401)),
    ];
    let mut store = SpanStore::new();
    for i in order {
        store.insert(spans[*i].clone());
    }
    store
}

#[test]
fn filters_match_every_set_field() {
    let store = sample_store(&[0, 1, 2, 3]);
    let all = SpanFilter::new();
    assert_eq!(ids(store.filter_spans(&all)), vec![1, 2, 3, 4]);

    let mut f = SpanFilter::new();
    f.kind = Some("llm_call".to_string());
    assert_eq!(ids(store.filter_spans(&f)), vec![1, 3]);
    f.model = Some("llama".to_string());
    assert_eq!(ids(store.filter_spans(&f)), vec![3]);
    f.provider = Some("openai".to_string());
    assert_eq!(ids(store.filter_spans(&f)), Vec::<u128>::new());

    let mut f = SpanFilter::new();
    f.status = Some("failed".to_string());
    assert_eq!(ids(store.filter_spans(&f)), vec![4]);
    f.status = Some("running".to_string());
    assert_eq!(ids(store.filter_spans(&f)), vec![1, 2]);

    let mut f = SpanFilter::new();
    f.since = Some(at(200));
    f.until = Some(at(300));
    assert_eq!(ids(store.filter_spans(&f)), vec![2, 3]);
    f.since = Some(Timestamp::from_parts(200, 1));
    assert_eq!(ids(store.filter_spans(&f)), vec![3]);

    let mut f = SpanFilter::new();
    f.name_contains = Some("chat".to_string());
    assert_eq!(ids(store.filter_spans(&f)), vec![1, 3]);
    f.name_contains = Some("".to_string());
    assert_eq!(ids(store.filter_spans(&f)), vec![1, 2, 3, 4]);

    let mut f = SpanFilter::new();
    f.path = Some("/o".to_string());
    assert_eq!(ids(store.filter_spans(&f)), vec![4]);
    f.path = Some("/".to_string());
    assert_eq!(ids(store.filter_spans(&f)), Vec::<u128>::new());

    let mut f = SpanFilter::new();
    f.trace_id = Some(11);
    f.limit = Some(1);
    assert_eq!(ids(store.filter_spans(&f)), vec![3, 4]);
}

#[test]
fn filter_result_ignores_insertion_order() {
    let a = sample_store(&[0, 1, 2, 3]);
    let b = sample_store(&[3, 1, 0, 2]);
    let mut f = SpanFilter::new();
    f.kind = Some("llm_call".to_string());
    assert_eq!(ids(a.filter_spans(&f)), ids(b.filter_spans(&f)));
    assert_eq!(ids(a.all_spans()), ids(b.all_spans()));
}

#[test]
fn store_opens_on_what_the_backend_loaded() {
    let spans = vec![span(1, 10, "a", custom(), 0), span(2, 10, "b", custom(), 1)];
    let traces = vec![Trace::new_with(Some("t".to_string()), 10, at(0))];
    let store = PersistentStore::open(
        Ok(spans.clone()),
        Ok(traces.clone()),
        Err(StorageError::Database("files".to_string())),
        Err(StorageError::NotFound),
        Ok(vec![]),
        Ok(vec![]),
    )
    .unwrap();
    assert_eq!(store.span_count(), 2);
    assert_eq!(store.trace_count(), 1);
    assert_eq!(store.spans_for_trace(10), vec![1, 2]);
    assert_eq!(store.get_trace(10), Some(&traces[0]));
    assert_eq!(store.dataset_count(), 0);
    assert!(store.list_files(&FileFilter::new()).is_empty());

    let no_spans = PersistentStore::open(
        Err(StorageError::Network("down".to_string())),
        Err(StorageError::NotFound),
        Ok(vec![]),
        Ok(vec![]),
        Ok(vec![]),
        Ok(vec![]),
    );
    assert_eq!(no_spans.err(), Some(StorageError::Network("down".to_string())));
    let no_traces = PersistentStore::open(
        Ok(vec![]),
        Err(StorageError::NotFound),
        Ok(vec![]),
        Ok(vec![]),
        Ok(vec![]),
        Ok(vec![]),
    );
    assert_eq!(no_traces.err(), Some(StorageError::NotFound));
    let empty = PersistentStore::open(Ok(vec![]), Ok(vec![]), Ok(vec![]), Ok(vec![]), Ok(vec![]), Ok(vec![]))
        .unwrap();
    assert_eq!(empty.span_count(), 0);
    assert_eq!(empty.trace_count(), 0);
}

#[test]
fn writes_are_noted_in_order() {
    let mut store = empty_store();
    let s = span(1, 10, "a", custom(), 0);
    store.insert(s.clone());
    let trace = Trace::new_with(None, 10, at(0));
    store.save_trace(trace.clone());
    store.save_file_content("abc", &[1, 2, 3]);
    assert!(store.delete_span(1));
    assert!(!store.delete_span(1));
    store.insert(s.clone());
    assert_eq!(store.delete_trace(10), 1);
    assert_eq!(store.delete_trace(10), 0);
    store.clear();
    assert_eq!(
        store.take_pending(),
        vec![
            BackendOp::SaveSpan(s.clone()),
            BackendOp::SaveTrace(trace),
            BackendOp::SaveFileContent { hash: "abc".to_string(), content: vec![1, 2, 3] },
            BackendOp::DeleteSpan(1),
            BackendOp::SaveSpan(s),
            BackendOp::DeleteTraceSpans(10),
            BackendOp::DeleteTrace(10),
            BackendOp::DeleteTrace(10),
            BackendOp::ClearSpans,
        ]
    );
}

#[test]
fn trace_count_prefers_known_traces() {
    let mut store = empty_store();
    store.insert(span(1, 10, "a", custom(), 0));
    store.insert(span(2, 11, "b", custom(), 0));
    assert_eq!(store.trace_count(), 2);
    store.save_trace(Trace::new_with(None, 10, at(0)));
    assert_eq!(store.trace_count(), 1);
    assert_eq!(store.all_traces().len(), 1);
    let mut traces = store.span_trace_ids();
    traces.sort();
    assert_eq!(traces, vec![10, 11]);
}

fn version(path: &str, hash: &str, created: i64) -> FileVersion {
    FileVersion {
        hash: hash.to_string(),
        path: path.to_string(),
        size: 1,
        created_at: at(created),
        created_by_span: None,
    }
}

#[test]
fn file_versions_are_listed_in_order() {
    let mut store = empty_store();
    store.save_file_version(version("/src/a.rs", "h1", 10));
    store.save_file_version(version("/src/b.rs", "h2", 20));
    store.save_file_version(version("/src/a.rs", "h3", 30));
    store.save_file_version(version("/doc/a.md", "h4", 40));
    let hashes = |v: Vec<&FileVersion>| v.iter().map(|f| f.hash.clone()).collect::<Vec<_>>();
    assert_eq!(hashes(store.list_files(&FileFilter::new())), vec!["h1", "h2", "h3", "h4"]);
    let mut f = FileFilter::new();
    f.path_prefix = Some("/src/".to_string());
    assert_eq!(hashes(store.list_files(&f)), vec!["h1", "h2", "h3"]);
    f.since = Some(at(20));
    f.until = Some(at(30));
    assert_eq!(hashes(store.list_files(&f)), vec!["h2", "h3"]);
    assert_eq!(hashes(store.get_file_versions("/src/a.rs")), vec!["h1", "h3"]);
    assert!(store.get_file_versions("/src").is_empty());
}

#[test]
fn content_hash_is_sha256_hex() {
    assert_eq!(
        content_hash(b""),
        "e3b0c44298fc1c149afbf4c8996fb92427ae41e4649b934ca495991b7852b855"
    );
    assert_eq!(
        content_hash(b"abc"),
        "ba7816bf8f01cfea414140de5dae2223b00361a396177a9cb410ff61f20015ad"
    );
}

fn generic(input: Json) -> DatapointKind {
    DatapointKind::Generic {
        input,
        expected_output: None,
        actual_output: None,
        score: None,
        metadata: vec![],
    }
}

#[test]
fn dataset_deletion_cascades() {
    let mut store = empty_store();
    let ds1 = Dataset::new_with("one".to_string(), None, 100, at(0));
    let ds2 = Dataset::new_with("two".to_string(), Some("d".to_string()), 200, at(0));
    store.save_dataset(ds1.clone());
    store.save_dataset(ds2);
    for (id, ds) in [(1u128, 100u128), (2, 100), (3, 200)] {
        store.save_datapoint(Datapoint::new_with(ds, generic(Json::Null), DatapointSource::Manual, id, at(1)));
        store.save_queue_item(QueueItem::new_with(ds, id, None, id + 10, at(2)));
    }
    assert_eq!(store.dataset_count(), 2);
    assert_eq!(store.datapoint_count_for_dataset(100), 2);
    assert_eq!(store.datapoints_for_dataset(100).len(), 2);
    assert_eq!(store.queue_items_for_dataset(100).len(), 2);
    assert_eq!(store.get_dataset(100), Some(&ds1));
    assert_eq!(store.all_datasets().len(), 2);

    assert!(store.delete_datapoint(1));
    assert!(!store.delete_datapoint(1));
    assert!(store.get_queue_item(11).is_none());
    assert!(store.get_queue_item(12).is_some());

    assert!(store.delete_dataset(100));
    assert!(!store.delete_dataset(100));
    assert!(store.get_datapoint(2).is_none());
    assert!(store.get_queue_item(12).is_none());
    assert!(store.get_datapoint(3).is_some());
    assert!(store.get_queue_item(13).is_some());
    assert_eq!(store.dataset_count(), 1);
}

#[test]
fn queue_items_move_forward_only() {
    let mut store = empty_store();
    store.save_queue_item(QueueItem::new_with(1, 2, Some(Json::Bool(true)), 9, at(0)));
    store.take_pending();
    assert!(store.complete_queue_item(9, None).is_none());
    let claimed = store.claim_queue_item_at(9, "ann".to_string(), at(5)).unwrap();
    assert_eq!(claimed.status, QueueItemStatus::Claimed);
    assert_eq!(claimed.status.as_str(), "claimed");
    assert_eq!(claimed.claimed_by, Some("ann".to_string()));
    assert_eq!(claimed.claimed_at, Some(at(5)));
    assert!(store.claim_queue_item_at(9, "bob".to_string(), at(6)).is_none());
    assert!(store.claim_queue_item(9, "bob".to_string()).is_none());
    let done = store.complete_queue_item(9, Some(Json::Null)).unwrap();
    assert_eq!(done.status, QueueItemStatus::Completed);
    assert_eq!(done.edited_data, Some(Json::Null));
    assert_eq!(done.claimed_by, Some("ann".to_string()));
    assert!(store.complete_queue_item(9, None).is_none());
    assert!(store.claim_queue_item_at(9, "ann".to_string(), at(7)).is_none());
    assert!(store.claim_queue_item_at(404, "ann".to_string(), at(7)).is_none());
    assert_eq!(store.get_queue_item(9), Some(&done));
    assert_eq!(
        store.take_pending(),
        vec![BackendOp::SaveQueueItem(claimed), BackendOp::SaveQueueItem(done)]
    );
    assert_eq!(QueueItemStatus::Pending.as_str(), "pending");
    assert_eq!(QueueItemStatus::Completed.as_str(), "completed");
}

fn query(metrics: Vec<AnalyticsMetric>, group_by: Vec<GroupByField>) -> AnalyticsQuery {
    AnalyticsQuery { metrics, group_by, filter: AnalyticsFilter::new() }
}

fn cost_sum(terms: &Option<Vec<String>>) -> f64 {
    terms.as_ref().unwrap().iter().map(|t| t.parse::<f64>().unwrap()).sum()
}

#[test]
fn analytics_totals() {
    let spans = vec![
        span(1, 1, "a", llm("m1", Some("p"), (Some(1), Some(2)), Some("0.1")), 0).complete_at(None, at(2)),
        span(2, 1, "b", llm("m1", Some("p"), (Some(10), None), Some("0.2")), 0).complete_at(None, at(4)),
        span(3, 1, "c", llm("m2", None, (None, Some(5)), Some("0.3")), 0).complete_at(None, at(6)),
    ];
    let refs: Vec<&Span> = spans.iter().collect();
    let r = compute_analytics(&refs, &query(vec![AnalyticsMetric::TotalCost], vec![]));
    assert!((cost_sum(&r.totals.total_cost) - 0.6).abs() < 1e-9);
    assert_eq!(r.totals.total_cost, Some(vec!["0.1".to_string(), "0.2".to_string(), "0.3".to_string()]));
    assert_eq!(r.totals.span_count, None);
    assert_eq!(r.totals.total_tokens, None);
    assert!(r.groups.is_empty());
}

#[test]
fn analytics_groups_and_metrics() {
    let spans = vec![
        span(1, 1, "a", llm("m1", Some("p"), (Some(1), Some(2)), Some("0.1")), 0).complete_at(None, at(2)),
        span(2, 1, "b", custom(), 0).fail_at("x".to_string(), at(4)),
        span(3, 2, "c", llm("m1", None, (Some(10), Some(20)), None), 0),
        span(4, 2, "d", llm("m2", None, (None, Some(5)), Some("1.5")), 0).complete_at(None, at(1)),
    ];
    let refs: Vec<&Span> = spans.iter().collect();
    let all = vec![
        AnalyticsMetric::TotalCost,
        AnalyticsMetric::TotalInputTokens,
        AnalyticsMetric::TotalOutputTokens,
        AnalyticsMetric::TotalTokens,
        AnalyticsMetric::AvgLatencyMs,
        AnalyticsMetric::SpanCount,
        AnalyticsMetric::ErrorCount,
    ];
    let r = compute_analytics(&refs, &query(all.clone(), vec![GroupByField::Model, GroupByField::Kind]));
    assert_eq!(r.totals.span_count, Some(4));
    assert_eq!(r.totals.error_count, Some(1));
    assert_eq!(r.totals.total_input_tokens, Some(11));
    assert_eq!(r.totals.total_output_tokens, Some(27));
    assert_eq!(r.totals.total_tokens, Some(38));
    assert_eq!(r.totals.avg_latency_ms, Some(Latency { sum_ms: 7000, count: 3 }));
    assert_eq!(r.groups.len(), 3);
    let key = |kind: &str, model: &str| {
        vec![("kind".to_string(), kind.to_string()), ("model".to_string(), model.to_string())]
    };
    assert_eq!(r.groups[0].key, key("llm_call", "m1"));
    assert_eq!(r.groups[1].key, key("tool", "unknown"));
    assert_eq!(r.groups[2].key, key("llm_call", "m2"));
    assert_eq!(r.groups[0].metrics.span_count, Some(2));
    assert_eq!(r.groups[0].metrics.total_tokens, Some(33));
    assert_eq!(r.groups[0].metrics.total_cost, Some(vec!["0.1".to_string()]));
    assert_eq!(r.groups[0].metrics.avg_latency_ms, Some(Latency { sum_ms: 2000, count: 1 }));
    assert_eq!(r.groups[1].metrics.error_count, Some(1));
    assert_eq!(r.groups[1].metrics.total_cost, Some(vec![]));
    assert_eq!(r.groups[2].metrics.total_output_tokens, Some(5));

    let by_time = compute_analytics(
        &refs,
        &query(vec![AnalyticsMetric::SpanCount], vec![GroupByField::Hour, GroupByField::Day, GroupByField::Trace, GroupByField::Status, GroupByField::Provider, GroupByField::Day]),
    );
    assert_eq!(
        by_time.groups[0].key,
        vec![
            ("day".to_string(), "1970-01-01".to_string()),
            ("hour".to_string(), "1970-01-01T00:00".to_string()),
            ("provider".to_string(), "p".to_string()),
            ("status".to_string(), "completed".to_string()),
            ("trace".to_string(), "00000000-0000-0000-0000-000000000001".to_string()),
        ]
    );
    assert_eq!(key_of(&spans[1], &vec![GroupByField::Status]), vec![("status".to_string(), "failed".to_string())]);
    let none: Vec<&Span> = vec![];
    let empty = compute_analytics(&none, &query(all, vec![GroupByField::Model]));
    assert_eq!(empty.totals.span_count, Some(0));
    assert_eq!(empty.totals.avg_latency_ms, Some(Latency { sum_ms: 0, count: 0 }));
    assert!(empty.groups.is_empty());
}

#[test]
fn token_sums_stay_at_the_largest_count() {
    let spans = vec![
        span(1, 1, "a", llm("m", None, (Some(u64::MAX - 1), None), None), 0),
        span(2, 1, "b", llm("m", None, (Some(5), None), None), 0),
    ];
    let refs: Vec<&Span> = spans.iter().collect();
    let r = compute_analytics(&refs, &query(vec![AnalyticsMetric::TotalInputTokens], vec![]));
    assert_eq!(r.totals.total_input_tokens, Some(u64::MAX));
}

#[test]
fn summary_rolls_up_models() {
    let spans = vec![
        span(1, 1, "a", llm("m1", Some("openai"), (Some(1), Some(2)), Some("0.1")), 0).complete_at(None, at(2)),
        span(2, 1, "b", custom(), 0).fail_at("x".to_string(), at(4)),
        span(3, 2, "c", llm("m2", Some("ollama"), (Some(10), Some(20)), None), 0),
        span(4, 2, "d", llm("m1", Some("openai"), (None, Some(5)), Some("1.5")), 0).complete_at(None, at(1)),
        span(5, 2, "e", SpanKind::Custom { kind: "llm_call".to_string(), attributes: vec![] }, 0),
    ];
    let refs: Vec<&Span> = spans.iter().collect();
    let s = compute_summary(&refs, 2);
    assert_eq!(s.total_traces, 2);
    assert_eq!(s.total_spans, 5);
    assert_eq!(s.total_llm_calls, 4);
    assert_eq!(s.error_count, 1);
    assert_eq!(s.total_tokens, 38);
    assert_eq!(s.total_cost, vec!["0.1".to_string(), "1.5".to_string()]);
    assert_eq!(s.avg_latency_ms, Latency { sum_ms: 7000, count: 3 });
    assert_eq!(s.models_used, vec!["m1", "m2", "unknown"]);
    assert_eq!(s.providers_used, vec!["openai", "ollama"]);
    assert_eq!(s.cost_by_model[0].model, "m1");
    assert_eq!(s.cost_by_model[0].span_count, 2);
    assert_eq!(s.cost_by_model[0].cost, vec!["0.1".to_string(), "1.5".to_string()]);
    assert_eq!(s.cost_by_model[1].span_count, 1);
    assert_eq!(s.cost_by_model[2].span_count, 1);
    assert_eq!(s.tokens_by_model[0].input_tokens, 1);
    assert_eq!(s.tokens_by_model[0].output_tokens, 7);
    assert_eq!(s.tokens_by_model[0].total_tokens, 8);
    assert_eq!(s.tokens_by_model[1].total_tokens, 30);
    let none: Vec<&Span> = vec![];
    let empty = compute_summary(&none, 0);
    assert_eq!(empty.total_spans, 0);
    assert!(empty.models_used.is_empty());
    assert_eq!(empty.avg_latency_ms, Latency { sum_ms: 0, count: 0 });
}
