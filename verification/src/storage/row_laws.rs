use crate::json::{json_text, JsonView};
use crate::storage::rows::{
    datapoint_of_row, datapoint_row, dataset_of_row, dataset_row, doc_of_text, file_of_row,
    file_row, lemma_size_round_trip, queue_item_of_row, queue_item_row, span_of_row, span_row,
    trace_of_row, trace_row,
};
use crate::storage::sqlite::lemma_status_columns_round_trip;
use crate::trace::codec::{
    id_faithful, lemma_kind_round_trip, opt_id_faithful, opt_time_faithful, time_faithful,
};
use crate::trace::codec_datasets::{
    lemma_datapoint_kind_round_trip, lemma_queue_status_round_trip, lemma_source_round_trip,
};
use crate::trace::codec_entities::{lemma_texts_round_trip, strings_json};
use crate::trace::entities::{
    DatapointView, DatasetView, FileVersionView, QueueItemView, TraceView,
};
use crate::trace::span::SpanView;
use vstd::prelude::*;

verus! {

/// True for a document that comes back from its text.
pub open spec fn doc_faithful(d: JsonView) -> bool {
    doc_of_text(json_text(d)) == Some(d)
}

/// True for an optional document that comes back from its text.
pub open spec fn opt_doc_faithful(d: Option<JsonView>) -> bool {
    d matches Some(d) ==> doc_faithful(d)
}

/// A span that knows its end exactly when it has ended comes back from
/// its row as it went, its organisation included, where its identifiers,
/// its instants and the documents of its kind and of its payloads come
/// back from their texts.
pub proof fn lemma_span_row_round_trip(s: SpanView)
    requires
        s.consistent(),
        id_faithful(s.id),
        id_faithful(s.trace_id),
        opt_id_faithful(s.org_id),
        opt_id_faithful(s.parent_id),
        time_faithful(s.started_at),
        opt_time_faithful(s.ended_at),
        doc_faithful(s.kind.to_json()),
        opt_doc_faithful(s.input),
        opt_doc_faithful(s.output),
    ensures
        span_of_row(span_row(s)) == Some(s),
{
    lemma_kind_round_trip(s.kind);
    lemma_status_columns_round_trip(s.status);
}

/// A trace comes back from its row as it went, its tags in their order,
/// where its identifiers, its instants and the list of its tags come
/// back from their texts.
pub proof fn lemma_trace_row_round_trip(t: TraceView)
    requires
        id_faithful(t.id),
        opt_id_faithful(t.org_id),
        time_faithful(t.started_at),
        opt_time_faithful(t.ended_at),
        doc_faithful(JsonView::Array(strings_json(t.tags))),
    ensures
        trace_of_row(trace_row(t)) == Some(t),
{
    lemma_texts_round_trip(t.tags);
}

/// A file version comes back from its row as it went, whatever its size,
/// where its instant and its span come back from their texts.
pub proof fn lemma_file_row_round_trip(v: FileVersionView)
    requires
        time_faithful(v.created_at),
        opt_id_faithful(v.created_by_span),
    ensures
        file_of_row(file_row(v)) == Some(v),
{
    lemma_size_round_trip(v.size);
}

/// A dataset comes back from its row as it went, where its identifiers
/// and its instants come back from their texts.
pub proof fn lemma_dataset_row_round_trip(d: DatasetView)
    requires
        id_faithful(d.id),
        opt_id_faithful(d.org_id),
        time_faithful(d.created_at),
        time_faithful(d.updated_at),
    ensures
        dataset_of_row(dataset_row(d)) == Some(d),
{
}

/// A datapoint comes back from its row as it went, where its
/// identifiers, its instant and the document of what it holds come back
/// from their texts.
pub proof fn lemma_datapoint_row_round_trip(d: DatapointView)
    requires
        id_faithful(d.id),
        id_faithful(d.dataset_id),
        opt_id_faithful(d.source_span_id),
        time_faithful(d.created_at),
        doc_faithful(d.kind.to_json()),
    ensures
        datapoint_of_row(datapoint_row(d)) == Some(d),
{
    lemma_datapoint_kind_round_trip(d.kind);
    lemma_source_round_trip(d.source);
}

/// A queue item comes back from its row as it went, in whichever status,
/// where its identifiers, its instants and its two documents come back
/// from their texts.
pub proof fn lemma_queue_item_row_round_trip(q: QueueItemView)
    requires
        id_faithful(q.id),
        id_faithful(q.dataset_id),
        id_faithful(q.datapoint_id),
        time_faithful(q.created_at),
        opt_time_faithful(q.claimed_at),
        opt_doc_faithful(q.original_data),
        opt_doc_faithful(q.edited_data),
    ensures
        queue_item_of_row(queue_item_row(q)) == Some(q),
{
    lemma_queue_status_round_trip(q.status);
}

} // verus!
