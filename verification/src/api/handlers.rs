use crate::api::events::{SystemEvent, SystemEventView};
use crate::api::types::{
    ClearedAll, CreateSpanRequest, CreateTraceRequest, CreatedSpan, DeletedTrace, SpanList,
    SpanQueryParams, Stats,
};
use crate::json::{opt_json, Json};
use crate::storage::filter::{SpanFilter, SpanFilterView};
use crate::storage::persistent::{BackendOpView, PersistentStore, PersistentStoreView};
use crate::text::{opt_text, texts_view};
use crate::trace::entities::{QueueItem, QueueItemStatus, Trace};
use crate::trace::kind::SpanStatusView;
use crate::trace::span::{opt_time, QueueItemId, Span, SpanBuilder, SpanId, TraceId};
use vstd::prelude::*;

verus! {

/// What a request is answered with: a status, a body where the answer has
/// one, and the event that is to be published once the store is free
/// again.
#[derive(Debug, PartialEq)]
pub struct Reply<T> {
    pub status: u16,
    pub body: Option<T>,
    pub event: Option<SystemEvent>,
}

/// The value of an optional event.
pub open spec fn opt_event(e: Option<SystemEvent>) -> Option<SystemEventView> {
    match e {
        Some(e) => Some(e@),
        None => None,
    }
}

pub const OK: u16 = 200;

pub const CREATED: u16 = 201;

pub const BAD_REQUEST: u16 = 400;

pub const NOT_FOUND: u16 = 404;

pub const CONFLICT: u16 = 409;

/// The status of a request to end a span: 404 where the span is not
/// stored, 409 where it has ended, 200 where it was running.
pub open spec fn end_status(store: PersistentStoreView, id: SpanId) -> u16 {
    if !store.memory.spans.contains_key(id) {
        NOT_FOUND
    } else if store.memory.spans[id].is_terminal() {
        CONFLICT
    } else {
        OK
    }
}

/// Starts a span as a request describes it.  The answer is 201 with the
/// identifiers of the span and of its trace.
pub fn create_span(store: &mut PersistentStore, req: CreateSpanRequest) -> (r: Reply<CreatedSpan>)
    requires
        old(store)@.wf(),
    ensures
        final(store)@.wf(),
        r.status == CREATED,
        r.body.is_some(),
        r.body.unwrap().trace_id == req.trace_id,
        ({
            let id = r.body.unwrap().id;
            &&& final(store)@.memory.spans.contains_key(id)
            &&& final(store)@ == old(store)@.with_span(final(store)@.memory.spans[id])
            &&& opt_event(r.event) == Some(
                SystemEventView::SpanCreated { span: final(store)@.memory.spans[id] },
            )
            &&& final(store)@.memory.spans[id].id == id
            &&& final(store)@.memory.spans[id].trace_id == req.trace_id
            &&& final(store)@.memory.spans[id].parent_id == req.parent_id
            &&& final(store)@.memory.spans[id].name == req.name@
            &&& final(store)@.memory.spans[id].kind == req.kind@
            &&& final(store)@.memory.spans[id].input == opt_json(req.input)
            &&& final(store)@.memory.spans[id].status == SpanStatusView::Running
            &&& final(store)@.memory.spans[id].ended_at.is_none()
            &&& final(store)@.memory.spans[id].output.is_none()
        }),
{
    let mut builder = SpanBuilder::new(req.trace_id, req.name, req.kind);
    if let Some(parent_id) = req.parent_id {
        builder = builder.parent(parent_id);
    }
    if let Some(input) = req.input {
        builder = builder.input(input);
    }
    let span = builder.build();
    let id = span.id();
    let trace_id = span.trace_id();
    let shown = span.clone();
    store.insert(span);
    Reply {
        status: CREATED,
        body: Some(CreatedSpan { id, trace_id }),
        event: Some(SystemEvent::SpanCreated { span: shown }),
    }
}

/// Completes a span.  The answer is 404 where the span is not stored and
/// 409 where it has ended; the store is as it was then.  Else the span
/// completes, and the answer is 200.
pub fn complete_span(store: &mut PersistentStore, id: SpanId, output: Option<Json>) -> (r: Reply<Span>)
    requires
        old(store)@.wf(),
    ensures
        final(store)@.wf(),
        r.status == end_status(old(store)@, id),
        r.status != OK ==> final(store)@ == old(store)@ && r.body.is_none() && r.event.is_none(),
        r.status == OK ==> {
            &&& r.body.is_some()
            &&& final(store)@.memory.spans.contains_key(id)
            &&& r.body.unwrap()@ == final(store)@.memory.spans[id]
            &&& opt_event(r.event) == Some(SystemEventView::SpanCompleted { span: r.body.unwrap()@ })
            &&& exists|now: int|
                final(store)@ == old(store)@.span_completed(id, opt_json(output), now)
        },
{
    match store.get(id) {
        Some(span) => {
            if span.status().is_terminal() {
                return Reply { status: CONFLICT, body: None, event: None };
            }
        },
        None => {
            return Reply { status: NOT_FOUND, body: None, event: None };
        },
    }
    match store.complete_span(id, output) {
        Some(span) => {
            let shown = span.clone();
            Reply {
                status: OK,
                body: Some(span),
                event: Some(SystemEvent::SpanCompleted { span: shown }),
            }
        },
        None => Reply { status: NOT_FOUND, body: None, event: None },
    }
}

/// Fails a span.  The answer is 404 where the span is not stored and 409
/// where it has ended; the store is as it was then.  Else the span fails,
/// and the answer is 200.
pub fn fail_span(store: &mut PersistentStore, id: SpanId, error: String) -> (r: Reply<Span>)
    requires
        old(store)@.wf(),
    ensures
        final(store)@.wf(),
        r.status == end_status(old(store)@, id),
        r.status != OK ==> final(store)@ == old(store)@ && r.body.is_none() && r.event.is_none(),
        r.status == OK ==> {
            &&& r.body.is_some()
            &&& final(store)@.memory.spans.contains_key(id)
            &&& r.body.unwrap()@ == final(store)@.memory.spans[id]
            &&& opt_event(r.event) == Some(SystemEventView::SpanFailed { span: r.body.unwrap()@ })
            &&& exists|now: int| final(store)@ == old(store)@.span_failed(id, error@, now)
        },
{
    match store.get(id) {
        Some(span) => {
            if span.status().is_terminal() {
                return Reply { status: CONFLICT, body: None, event: None };
            }
        },
        None => {
            return Reply { status: NOT_FOUND, body: None, event: None };
        },
    }
    match store.fail_span(id, error) {
        Some(span) => {
            let shown = span.clone();
            Reply {
                status: OK,
                body: Some(span),
                event: Some(SystemEvent::SpanFailed { span: shown }),
            }
        },
        None => Reply { status: NOT_FOUND, body: None, event: None },
    }
}

/// Shows a span: 200 with the span, or 404.
pub fn get_span(store: &PersistentStore, id: SpanId) -> (r: Reply<Span>)
    ensures
        r.event.is_none(),
        match r.body {
            Some(s) => r.status == OK && store@.memory.spans.contains_key(id) && s@
                == store@.memory.spans[id],
            None => r.status == NOT_FOUND && !store@.memory.spans.contains_key(id),
        },
{
    match store.get(id) {
        Some(span) => Reply { status: OK, body: Some(span.clone()), event: None },
        None => Reply { status: NOT_FOUND, body: None, event: None },
    }
}

/// Takes a span out: 200 where it was stored, else 404.
pub fn delete_span(store: &mut PersistentStore, id: SpanId) -> (r: Reply<()>)
    requires
        old(store)@.wf(),
    ensures
        final(store)@.wf(),
        final(store)@ == old(store)@.span_deleted(id),
        old(store)@.memory.spans.contains_key(id) ==> r.status == OK && opt_event(r.event) == Some(
            SystemEventView::SpanDeleted { span_id: id },
        ),
        !old(store)@.memory.spans.contains_key(id) ==> r.status == NOT_FOUND && r.event.is_none(),
{
    if store.delete_span(id) {
        Reply { status: OK, body: None, event: Some(SystemEvent::SpanDeleted { span_id: id }) }
    } else {
        Reply { status: NOT_FOUND, body: None, event: None }
    }
}

/// The filter that the parameters of a query ask for.
pub fn span_filter(params: SpanQueryParams) -> (f: SpanFilter)
    ensures
        f@ == (SpanFilterView {
            kind: opt_text(params.kind),
            model: opt_text(params.model),
            provider: opt_text(params.provider),
            status: opt_text(params.status),
            since: opt_time(params.since),
            until: opt_time(params.until),
            name_contains: opt_text(params.name_contains),
            path: opt_text(params.path),
            trace_id: params.trace_id,
            limit: None,
        }),
{
    SpanFilter {
        kind: params.kind,
        model: params.model,
        provider: params.provider,
        status: params.status,
        since: params.since,
        until: params.until,
        name_contains: params.name_contains,
        path: params.path,
        trace_id: params.trace_id,
        limit: None,
    }
}

fn copy_spans(found: &Vec<&Span>) -> (r: Vec<Span>)
    ensures
        r.len() == found.len(),
        forall|i: int| 0 <= i < r.len() ==> (#[trigger] r[i])@ == found[i]@,
{
    let mut r: Vec<Span> = Vec::new();
    let mut i: usize = 0;
    while i < found.len()
        invariant
            i <= found.len(),
            r.len() == i,
            forall|k: int| 0 <= k < i ==> (#[trigger] r[k])@ == found[k]@,
        decreases found.len() - i,
    {
        r.push(found[i].clone());
        i = i + 1;
    }
    r
}

/// Lists the spans that the parameters of a query ask for: each of them
/// once and no other.
pub fn list_spans(store: &PersistentStore, params: SpanQueryParams) -> (r: SpanList)
    requires
        store@.wf(),
    ensures
        r.count == r.spans.len(),
        ({
            let f = SpanFilterView {
                kind: opt_text(params.kind),
                model: opt_text(params.model),
                provider: opt_text(params.provider),
                status: opt_text(params.status),
                since: opt_time(params.since),
                until: opt_time(params.until),
                name_contains: opt_text(params.name_contains),
                path: opt_text(params.path),
                trace_id: params.trace_id,
                limit: None,
            };
            &&& forall|i: int|
                0 <= i < r.spans.len() ==> store@.memory.matching(f).contains(
                    (#[trigger] r.spans[i])@.id,
                ) && store@.memory.spans[r.spans[i]@.id] == r.spans[i]@
            &&& forall|id: SpanId|
                store@.memory.matching(f).contains(id) ==> exists|i: int|
                    0 <= i < r.spans.len() && (#[trigger] r.spans[i])@.id == id
            &&& forall|i: int, j: int|
                0 <= i < j < r.spans.len() ==> r.spans[i]@.id != r.spans[j]@.id
        }),
{
    let filter = span_filter(params);
    let found = store.filter_spans(&filter);
    let spans = copy_spans(&found);
    proof {
        assert forall|id: SpanId| store@.memory.matching(filter@).contains(id) implies exists|i: int|
            0 <= i < spans.len() && (#[trigger] spans[i])@.id == id by {
            let i = choose|i: int| 0 <= i < found.len() && (#[trigger] found[i])@.id == id;
            assert(spans[i]@.id == id);
        }
    }
    let count = spans.len();
    SpanList { spans, count }
}

/// Shows the spans of a trace, in the order in which they came.  The
/// answer is 404 where the trace has no spans and nothing is known of it.
pub fn get_trace(store: &PersistentStore, trace_id: TraceId) -> (r: Reply<SpanList>)
    requires
        store@.wf(),
    ensures
        r.event.is_none(),
        match r.body {
            Some(list) => {
                &&& r.status == OK
                &&& list.count == list.spans.len()
                &&& list.spans.len() == store@.memory.span_ids_of(trace_id).len()
                &&& forall|i: int|
                    0 <= i < list.spans.len() ==> (#[trigger] list.spans[i])@
                        == store@.memory.spans[store@.memory.span_ids_of(trace_id)[i]]
            },
            None => r.status == NOT_FOUND && store@.memory.span_ids_of(trace_id).len() == 0
                && !store@.traces.contains_key(trace_id),
        },
        r.status == NOT_FOUND <==> (store@.memory.span_ids_of(trace_id).len() == 0
            && !store@.traces.contains_key(trace_id)),
{
    let ids = store.spans_for_trace(trace_id);
    if ids.len() == 0 {
        if store.get_trace(trace_id).is_none() {
            return Reply { status: NOT_FOUND, body: None, event: None };
        }
    }
    let mut spans: Vec<Span> = Vec::new();
    let mut i: usize = 0;
    while i < ids.len()
        invariant
            i <= ids.len(),
            store@.wf(),
            ids@ == store@.memory.span_ids_of(trace_id),
            spans.len() == i,
            forall|k: int| 0 <= k < i ==> (#[trigger] spans[k])@ == store@.memory.spans[ids[k]],
        decreases ids.len() - i,
    {
        proof {
            assert(store@.memory.traces.contains_key(trace_id));
            assert(store@.memory.spans.contains_key(store@.memory.traces[trace_id][i as int]));
        }
        match store.get(ids[i]) {
            Some(span) => {
                spans.push(span.clone());
            },
            None => {
                assert(false);
            },
        }
        i = i + 1;
    }
    let count = spans.len();
    Reply { status: OK, body: Some(SpanList { spans, count }), event: None }
}

/// Takes a trace out with its spans.  The answer is 200 with the number
/// of spans where the trace had spans, else 404; what is known of the
/// trace goes in either case.
pub fn delete_trace(store: &mut PersistentStore, trace_id: TraceId) -> (r: Reply<DeletedTrace>)
    requires
        old(store)@.wf(),
    ensures
        final(store)@.wf(),
        final(store)@ == old(store)@.trace_deleted(trace_id),
        ({
            let n = old(store)@.memory.span_ids_of(trace_id).len();
            &&& n > 0 ==> r.status == OK && r.body == Some(
                DeletedTrace { trace_id, spans_deleted: n as usize },
            ) && opt_event(r.event) == Some(SystemEventView::TraceDeleted { trace_id })
            &&& n == 0 ==> r.status == NOT_FOUND && r.body.is_none() && r.event.is_none()
        }),
{
    let spans_deleted = store.delete_trace(trace_id);
    if spans_deleted > 0 {
        Reply {
            status: OK,
            body: Some(DeletedTrace { trace_id, spans_deleted }),
            event: Some(SystemEvent::TraceDeleted { trace_id }),
        }
    } else {
        Reply { status: NOT_FOUND, body: None, event: None }
    }
}

/// Takes everything out.
pub fn clear_all_traces(store: &mut PersistentStore) -> (r: Reply<ClearedAll>)
    ensures
        final(store)@ == old(store)@.cleared(),
        final(store)@.wf(),
        r.status == OK,
        r.body.is_some() && r.body.unwrap().message@ == "All traces cleared"@,
        opt_event(r.event) == Some(SystemEventView::Cleared),
{
    store.clear();
    Reply {
        status: OK,
        body: Some(ClearedAll { message: "All traces cleared".to_owned() }),
        event: Some(SystemEvent::Cleared),
    }
}

/// Makes a trace as a request describes it.  The answer is 201 with the
/// trace.
pub fn create_trace(store: &mut PersistentStore, req: CreateTraceRequest) -> (r: Reply<Trace>)
    requires
        old(store)@.wf(),
    ensures
        final(store)@.wf(),
        r.status == CREATED,
        r.body.is_some(),
        ({
            let t = r.body.unwrap()@;
            &&& t.name == opt_text(req.name)
            &&& t.tags == texts_view(req.tags@)
            &&& t.org_id.is_none()
            &&& t.ended_at.is_none()
            &&& final(store)@ == (PersistentStoreView {
                traces: old(store)@.traces.insert(t.id, t),
                ..old(store)@
            }).noting(BackendOpView::SaveTrace(t))
            &&& opt_event(r.event) == Some(SystemEventView::TraceCreated { trace: t })
        }),
{
    let trace = Trace::new(req.name).with_tags(req.tags);
    let shown = trace.clone();
    let told = trace.clone();
    store.save_trace(trace);
    Reply { status: CREATED, body: Some(shown), event: Some(SystemEvent::TraceCreated { trace: told }) }
}

/// The numbers of the store.
pub fn get_stats(store: &PersistentStore) -> (r: Stats)
    ensures
        r.trace_count == store@.trace_count(),
        r.span_count == store@.memory.spans.dom().len(),
{
    Stats { trace_count: store.trace_count(), span_count: store.span_count() }
}

/// The status of a request to claim a queue item: 404 where the item is
/// not held, 409 where it is not pending, else 200.
pub open spec fn claim_status(store: PersistentStoreView, id: QueueItemId) -> u16 {
    if !store.queue_items.contains_key(id) {
        NOT_FOUND
    } else if store.queue_items[id].status != QueueItemStatus::Pending {
        CONFLICT
    } else {
        OK
    }
}

/// Claims a queue item.  The answer is 404 where the item is not held
/// and 409 where it is not pending; the store is as it was then.  Else
/// the item is claimed, and the answer is 200 with the item as it is kept.
pub fn claim_queue_item(store: &mut PersistentStore, id: QueueItemId, claimed_by: String) -> (r:
    Reply<QueueItem>)
    requires
        old(store)@.wf(),
    ensures
        final(store)@.wf(),
        exists|now: int| final(store)@ == old(store)@.queue_item_claimed(id, claimed_by@, now),
        r.status == claim_status(old(store)@, id),
        r.status == OK ==> {
            &&& r.body.is_some()
            &&& final(store)@.queue_items.contains_key(id)
            &&& r.body.unwrap()@ == final(store)@.queue_items[id]
            &&& opt_event(r.event) == Some(
                SystemEventView::QueueItemUpdated { item: r.body.unwrap()@ },
            )
        },
        r.status != OK ==> r.body.is_none() && r.event.is_none() && final(store)@ == old(store)@,
{
    let held = store.get_queue_item(id).is_some();
    match store.claim_queue_item(id, claimed_by) {
        Some(item) => {
            let shown = item.clone();
            Reply {
                status: OK,
                body: Some(item),
                event: Some(SystemEvent::QueueItemUpdated { item: shown }),
            }
        },
        None => {
            if held {
                Reply { status: CONFLICT, body: None, event: None }
            } else {
                Reply { status: NOT_FOUND, body: None, event: None }
            }
        },
    }
}

} // verus!
