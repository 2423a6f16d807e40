use crate::api::handlers::{Reply, NOT_FOUND, OK};
use crate::api::types::{
    ExportData, ExportParams, FileListResponse, FileQueryParams, FileVersionsResponse,
    HealthResponse, StorageHealth, TraceListResponse,
};
use crate::storage::analytics::{answers, compute_analytics, compute_summary, summarises};
use crate::storage::filter::{FileFilter, FileFilterView, SpanFilter, SpanFilterView};
use crate::storage::persistent::{files_at, files_matching, list_view, refs_view, PersistentStore};
use crate::storage::store::SpanStoreView;
use crate::text::opt_text;
use crate::trace::analytics::{AnalyticsQuery, AnalyticsResponse, AnalyticsSummary};
use crate::trace::entities::{FileVersion, FileVersionView, Trace};
use crate::trace::span::{opt_time, Span, SpanId, SpanView, TraceId};
use vstd::prelude::*;

verus! {

/// Lists what is known of each trace, each trace once.
pub fn list_traces(store: &PersistentStore) -> (r: TraceListResponse)
    requires
        store@.wf(),
    ensures
        r.count == r.traces.len(),
        forall|i: int|
            0 <= i < r.traces.len() ==> store@.traces.contains_key((#[trigger] r.traces[i])@.id)
                && store@.traces[r.traces[i]@.id] == r.traces[i]@,
        forall|id: TraceId|
            store@.traces.contains_key(id) ==> exists|i: int|
                0 <= i < r.traces.len() && (#[trigger] r.traces[i])@.id == id,
        forall|i: int, j: int| 0 <= i < j < r.traces.len() ==> r.traces[i]@.id != r.traces[j]@.id,
{
    let found = store.all_traces();
    let mut traces: Vec<Trace> = Vec::new();
    let mut k: usize = 0;
    while k < found.len()
        invariant
            k <= found.len(),
            traces.len() == k,
            forall|i: int| 0 <= i < k ==> (#[trigger] traces[i])@ == found[i]@,
        decreases found.len() - k,
    {
        traces.push(found[k].clone());
        k = k + 1;
    }
    proof {
        assert forall|id: TraceId| store@.traces.contains_key(id) implies exists|i: int|
            0 <= i < traces.len() && (#[trigger] traces[i])@.id == id by {
            let i = choose|i: int| 0 <= i < found.len() && (#[trigger] found[i])@.id == id;
            assert(traces[i]@.id == id);
        }
        assert forall|i: int, j: int| 0 <= i < j < traces.len() implies traces[i]@.id
            != traces[j]@.id by {
            assert(found[i]@.id != found[j]@.id);
        }
    }
    let count = traces.len();
    TraceListResponse { traces, count }
}

fn copy_versions(found: &Vec<&FileVersion>) -> (r: Vec<FileVersion>)
    ensures
        list_view(r@) == refs_view(found@),
{
    let mut r: Vec<FileVersion> = Vec::new();
    let mut k: usize = 0;
    while k < found.len()
        invariant
            k <= found.len(),
            r.len() == k,
            forall|i: int| 0 <= i < k ==> (#[trigger] r[i])@ == found[i]@,
        decreases found.len() - k,
    {
        r.push(found[k].clone());
        k = k + 1;
    }
    assert(list_view(r@) =~= refs_view(found@));
    r
}

/// Lists the file versions that the parameters of a query ask for, in
/// the order in which they were kept.
pub fn list_files(store: &PersistentStore, params: FileQueryParams) -> (r: FileListResponse)
    ensures
        r.count == r.files.len(),
        list_view(r.files@) == files_matching(
            store@.file_versions,
            FileFilterView {
                path_prefix: opt_text(params.path_prefix),
                since: opt_time(params.since),
                until: opt_time(params.until),
                associated_trace: None,
            },
        ),
{
    let filter = FileFilter {
        path_prefix: params.path_prefix,
        since: params.since,
        until: params.until,
        associated_trace: None,
    };
    let files = copy_versions(&store.list_files(&filter));
    let count = files.len();
    FileListResponse { files, count }
}

/// Lists the versions of the file at a path, in the order in which they
/// were kept: 200, or 404 where there is none.
pub fn get_file_versions(store: &PersistentStore, path: String) -> (r: Reply<FileVersionsResponse>)
    ensures
        r.event.is_none(),
        match r.body {
            Some(b) => r.status == OK && b.path@ == path@ && b.count == b.versions.len()
                && b.count > 0 && list_view(b.versions@) == files_at(store@.file_versions, path@),
            None => r.status == NOT_FOUND && files_at(store@.file_versions, path@).len() == 0,
        },
{
    let versions = copy_versions(&store.get_file_versions(path.as_str()));
    assert(list_view(versions@).len() == versions.len());
    if versions.len() == 0 {
        return Reply { status: NOT_FOUND, body: None, event: None };
    }
    let count = versions.len();
    Reply { status: OK, body: Some(FileVersionsResponse { path, versions, count }), event: None }
}

/// The media type that the extension of a path stands for, or
/// `application/octet-stream` where it stands for none.
pub uninterp spec fn media_type(path: Seq<char>) -> Seq<char>;

/// Calls `mime_guess::from_path` and takes the first guess, or
/// `application/octet-stream`.  Trusted: the text that comes back is the
/// media type of the path, which depends on the path alone.
#[verifier::external_body]
fn guess_media_type(path: &str) -> (r: String)
    ensures
        r@ == media_type(path@),
{
    mime_guess::from_path(path).first_or_octet_stream().as_ref().to_string()
}

/// The path of the first version of a list that holds the content
/// `hash`.
pub open spec fn path_of_content(files: Seq<FileVersionView>, hash: Seq<char>) -> Option<Seq<char>>
    decreases files.len(),
{
    if files.len() == 0 {
        None
    } else {
        match path_of_content(files.drop_last(), hash) {
            Some(p) => Some(p),
            None => if files.last().hash == hash {
                Some(files.last().path)
            } else {
                None
            },
        }
    }
}

/// The media type under which the content `hash` is served: that of the
/// path of the first version that holds it, and `application/octet-stream`
/// where no version holds it.
pub open spec fn content_type_of(files: Seq<FileVersionView>, hash: Seq<char>) -> Seq<char> {
    match path_of_content(files, hash) {
        Some(p) => media_type(p),
        None => "application/octet-stream"@,
    }
}

proof fn lemma_all_files_match(files: Seq<FileVersionView>)
    ensures
        files_matching(
            files,
            FileFilterView { path_prefix: None, since: None, until: None, associated_trace: None },
        ) == files,
    decreases files.len(),
{
    let f = FileFilterView { path_prefix: None, since: None, until: None, associated_trace: None };
    if files.len() > 0 {
        lemma_all_files_match(files.drop_last());
        assert(files.drop_last().push(files.last()) =~= files);
    } else {
        assert(files =~= Seq::empty());
    }
}

proof fn lemma_path_found(files: Seq<FileVersionView>, hash: Seq<char>, k: int)
    requires
        0 <= k <= files.len(),
        path_of_content(files.take(k), hash).is_some(),
    ensures
        path_of_content(files, hash) == path_of_content(files.take(k), hash),
    decreases files.len() - k,
{
    if k < files.len() {
        assert(files.take(k + 1).drop_last() =~= files.take(k));
        lemma_path_found(files, hash, k + 1);
    } else {
        assert(files.take(k) =~= files);
    }
}

/// The media type under which the content `hash` is served.
pub fn content_type(store: &PersistentStore, hash: &str) -> (r: String)
    ensures
        r@ == content_type_of(store@.file_versions, hash@),
{
    let files = store.list_files(&FileFilter::new());
    let ghost all = store@.file_versions;
    proof {
        lemma_all_files_match(all);
        assert(refs_view(files@) == all);
    }
    let mut i: usize = 0;
    while i < files.len()
        invariant
            i <= files.len(),
            all == store@.file_versions,
            refs_view(files@) == all,
            path_of_content(all.take(i as int), hash@).is_none(),
        decreases files.len() - i,
    {
        proof {
            assert(all.take(i + 1).drop_last() =~= all.take(i as int));
            assert(all.take(i + 1).last() == files[i as int]@);
        }
        if crate::text::same_text(files[i].hash.as_str(), hash) {
            proof {
                assert(path_of_content(all.take(i + 1), hash@) == Some(files[i as int]@.path));
                lemma_path_found(all, hash@, i + 1);
            }
            return guess_media_type(files[i].path.as_str());
        }
        i = i + 1;
    }
    assert(all.take(i as int) =~= all);
    "application/octet-stream".to_owned()
}

/// The spans of a trace, in the order in which they came.
pub open spec fn trace_spans(s: SpanStoreView, t: TraceId) -> Seq<SpanView> {
    Seq::new(s.span_ids_of(t).len(), |i: int| s.spans[s.span_ids_of(t)[i]])
}

fn spans_of_trace(store: &PersistentStore, trace_id: TraceId) -> (r: Vec<Span>)
    requires
        store@.wf(),
    ensures
        list_view(r@) == trace_spans(store@.memory, trace_id),
{
    let ids = store.spans_for_trace(trace_id);
    let mut spans: Vec<Span> = Vec::new();
    let mut i: usize = 0;
    while i < ids.len()
        invariant
            i <= ids.len(),
            store@.wf(),
            ids@ == store@.memory.span_ids_of(trace_id),
            spans.len() == i,
            forall|k: int| 0 <= k < i ==> (#[trigger] spans[k])@ == store@.memory.spans[ids[k]],
        decreases ids.len() - i,
    {
        proof {
            assert(store@.memory.traces.contains_key(trace_id));
            assert(store@.memory.spans.contains_key(store@.memory.traces[trace_id][i as int]));
        }
        match store.get(ids[i]) {
            Some(span) => {
                spans.push(span.clone());
            },
            None => {
                assert(false);
            },
        }
        i = i + 1;
    }
    assert(list_view(spans@) =~= trace_spans(store@.memory, trace_id));
    spans
}

/// Exports the spans of one trace, or of every trace that has spans, by
/// trace.  A trace that is asked for and has no spans is left out.
pub fn export_json(store: &PersistentStore, params: ExportParams) -> (r: ExportData)
    requires
        store@.wf(),
    ensures
        forall|i: int|
            0 <= i < r.traces.len() ==> store@.memory.traces.contains_key(
                (#[trigger] r.traces[i]).0,
            ) && list_view(r.traces[i].1@) == trace_spans(store@.memory, r.traces[i].0),
        forall|i: int, j: int| 0 <= i < j < r.traces.len() ==> r.traces[i].0 != r.traces[j].0,
        match params.trace_id {
            Some(t) => forall|i: int| 0 <= i < r.traces.len() ==> (#[trigger] r.traces[i]).0 == t,
            None => true,
        },
        forall|t: TraceId| #[trigger]
            store@.memory.traces.contains_key(t) && (params.trace_id.is_none()
                || params.trace_id == Some(t)) ==> exists|i: int|
                0 <= i < r.traces.len() && (#[trigger] r.traces[i]).0 == t,
{
    let mut traces: Vec<(TraceId, Vec<Span>)> = Vec::new();
    match params.trace_id {
        Some(trace_id) => {
            let spans = spans_of_trace(store, trace_id);
            assert(list_view(spans@).len() == spans.len());
            if spans.len() > 0 {
                traces.push((trace_id, spans));
                assert(traces[0].0 == trace_id);
            } else {
                assert(!store@.memory.traces.contains_key(trace_id));
            }
            assert forall|t: TraceId| #[trigger]
                store@.memory.traces.contains_key(t) && params.trace_id == Some(
                    t,
                ) implies exists|i: int| 0 <= i < traces.len() && (#[trigger] traces[i]).0 == t by {
                assert(traces[0].0 == t);
            }
        },
        None => {
            let ids = store.span_trace_ids();
            let mut k: usize = 0;
            while k < ids.len()
                invariant
                    k <= ids.len(),
                    store@.wf(),
                    ids@.to_set() == store@.memory.traces.dom(),
                    ids@.no_duplicates(),
                    traces.len() == k,
                    forall|i: int|
                        0 <= i < k ==> (#[trigger] traces[i]).0 == ids[i] && list_view(
                            traces[i].1@,
                        ) == trace_spans(store@.memory, ids[i]),
                decreases ids.len() - k,
            {
                let spans = spans_of_trace(store, ids[k]);
                traces.push((ids[k], spans));
                k = k + 1;
            }
            proof {
                assert forall|i: int| 0 <= i < traces.len() implies store@.memory.traces.contains_key(
                    (#[trigger] traces[i]).0,
                ) by {
                    assert(ids@.to_set().contains(ids@[i]));
                }
                assert forall|t: TraceId| #[trigger]
                    store@.memory.traces.contains_key(t) implies exists|i: int|
                    0 <= i < traces.len() && (#[trigger] traces[i]).0 == t by {
                    assert(ids@.to_set().contains(t));
                    let i = choose|i: int| 0 <= i < ids.len() && ids@[i] == t;
                    assert(traces[i].0 == t);
                }
            }
        },
    }
    let r = ExportData { traces };
    proof {
        assert forall|t: TraceId| #[trigger]
            store@.memory.traces.contains_key(t) && (params.trace_id.is_none()
                || params.trace_id == Some(t)) implies exists|i: int|
            0 <= i < r.traces.len() && (#[trigger] r.traces[i]).0 == t by {
            let i = choose|i: int| 0 <= i < traces.len() && (#[trigger] traces[i]).0 == t;
            assert(r.traces[i].0 == t);
        }
    }
    r
}

/// How the daemon is: that it serves, for how long, and what it holds.
pub fn health(
    store: &PersistentStore,
    uptime_secs: u64,
    version: &str,
    backend: &str,
    region: Option<String>,
    instance: Option<String>,
) -> (r: HealthResponse)
    ensures
        r.status@ == "ok"@,
        r.uptime_secs == uptime_secs,
        r.version@ == version@,
        r.storage.trace_count == store@.trace_count(),
        r.storage.span_count == store@.memory.spans.dom().len(),
        r.storage.backend@ == backend@,
        r.region == region,
        r.instance == instance,
{
    HealthResponse {
        status: "ok".to_owned(),
        uptime_secs,
        version: version.to_owned(),
        storage: StorageHealth {
            trace_count: store.trace_count(),
            span_count: store.span_count(),
            backend: backend.to_owned(),
        },
        region,
        instance,
    }
}

/// The spans that a query for numbers looks at.
pub open spec fn analytics_filter_of(query: AnalyticsQuery) -> SpanFilterView {
    SpanFilterView {
        kind: opt_text(query.filter.kind),
        model: opt_text(query.filter.model),
        provider: opt_text(query.filter.provider),
        status: opt_text(query.filter.status),
        since: opt_time(query.filter.since),
        until: opt_time(query.filter.until),
        name_contains: None,
        path: None,
        trace_id: query.filter.trace_id,
        limit: None,
    }
}

/// The spans that a query for numbers looks at.
pub fn analytics_filter(query: &AnalyticsQuery) -> (f: SpanFilter)
    ensures
        f@ == analytics_filter_of(*query),
{
    SpanFilter {
        kind: crate::text::clone_opt_text(&query.filter.kind),
        model: crate::text::clone_opt_text(&query.filter.model),
        provider: crate::text::clone_opt_text(&query.filter.provider),
        status: crate::text::clone_opt_text(&query.filter.status),
        since: query.filter.since,
        until: query.filter.until,
        name_contains: None,
        path: None,
        trace_id: query.filter.trace_id,
        limit: None,
    }
}

/// True when the list holds the stored spans of the identifiers, each
/// once.
pub open spec fn lists(s: SpanStoreView, ids: Set<SpanId>, spans: Seq<SpanView>) -> bool {
    &&& forall|i: int|
        0 <= i < spans.len() ==> ids.contains((#[trigger] spans[i]).id) && s.spans[spans[i].id]
            == spans[i]
    &&& forall|id: SpanId|
        ids.contains(id) ==> exists|i: int| 0 <= i < spans.len() && (#[trigger] spans[i]).id == id
    &&& forall|i: int, j: int| 0 <= i < j < spans.len() ==> spans[i].id != spans[j].id
}

/// Answers a query for numbers over the stored spans that its filter
/// matches, each of which counts once.
pub fn post_analytics(store: &PersistentStore, query: &AnalyticsQuery) -> (r: AnalyticsResponse)
    requires
        store@.wf(),
    ensures
        exists|spans: Seq<SpanView>|
            lists(store@.memory, store@.memory.matching(analytics_filter_of(*query)), spans)
                && #[trigger] answers(r, spans, *query),
{
    let filter = analytics_filter(query);
    let spans = store.filter_spans(&filter);
    let r = compute_analytics(&spans, query);
    proof {
        let sv = crate::storage::analytics::spans_view(spans@);
        assert forall|id: SpanId|
            store@.memory.matching(filter@).contains(id) implies exists|i: int|
            0 <= i < sv.len() && (#[trigger] sv[i]).id == id by {
            let i = choose|i: int| 0 <= i < spans.len() && (#[trigger] spans[i])@.id == id;
            assert(sv[i].id == id);
        }
        assert(lists(store@.memory, store@.memory.matching(filter@), sv));
    }
    r
}

/// Sums up all stored spans, each of which counts once, for a dashboard.
pub fn analytics_summary(store: &PersistentStore) -> (r: AnalyticsSummary)
    requires
        store@.wf(),
    ensures
        exists|spans: Seq<SpanView>|
            lists(store@.memory, store@.memory.spans.dom(), spans) && #[trigger] summarises(
                r,
                spans,
                r.total_traces,
            ),
        r.total_spans == store@.memory.spans.dom().len(),
        r.total_traces == store@.trace_count(),
{
    let spans = store.all_spans();
    let trace_count = store.trace_count();
    let r = compute_summary(&spans, trace_count);
    proof {
        let sv = crate::storage::analytics::spans_view(spans@);
        assert forall|id: SpanId| store@.memory.spans.dom().contains(id) implies exists|i: int|
            0 <= i < sv.len() && (#[trigger] sv[i]).id == id by {
            let i = choose|i: int| 0 <= i < spans.len() && (#[trigger] spans[i])@.id == id;
            assert(sv[i].id == id);
        }
        assert(lists(store@.memory, store@.memory.spans.dom(), sv));
    }
    r
}

} // verus!
