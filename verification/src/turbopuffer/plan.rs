use crate::ids::uuid_text;
use crate::json::{items_view, opt_json, Json, JsonView};
use crate::storage::persistent::{BackendOp, BackendOpView};
use crate::text::texts_view;
use crate::turbopuffer::read::{response_rows, rows_of};
use crate::turbopuffer::rows::{
    datapoint_row, datapoint_to_row, dataset_row, dataset_to_row, file_content_row,
    file_content_to_row, file_version_row, file_version_to_row, queue_item_row,
    queue_item_to_row, span_row, span_to_row, trace_row, trace_to_row,
};
use crate::turbopuffer::{filter_json, triple, Condition, ConditionView, FilterOp};
use vstd::prelude::*;

verus! {

/// One request to the row store, or two where rows are asked for before
/// they are taken out.
#[derive(Debug, PartialEq)]
pub enum RemoteStep {
    /// Write the row into the collection, in the place of the row of its
    /// identifier.
    Upsert { collection: String, row: Json },
    /// Take the rows of these identifiers out of the collection.
    Delete { collection: String, ids: Vec<String> },
    /// Ask the collection for the rows that the filter matches, for all
    /// of its rows where there is no filter, and take them out.
    DeleteMatching { collection: String, filter: Option<Json> },
}

/// The mathematical value of a [`RemoteStep`].
pub enum RemoteStepView {
    Upsert { collection: Seq<char>, row: JsonView },
    Delete { collection: Seq<char>, ids: Seq<Seq<char>> },
    DeleteMatching { collection: Seq<char>, filter: Option<JsonView> },
}

impl View for RemoteStep {
    type V = RemoteStepView;

    open spec fn view(&self) -> RemoteStepView {
        match self {
            RemoteStep::Upsert { collection, row } => RemoteStepView::Upsert {
                collection: collection@,
                row: row@,
            },
            RemoteStep::Delete { collection, ids } => RemoteStepView::Delete {
                collection: collection@,
                ids: texts_view(ids@),
            },
            RemoteStep::DeleteMatching { collection, filter } => RemoteStepView::DeleteMatching {
                collection: collection@,
                filter: opt_json(*filter),
            },
        }
    }
}

/// The values of a list of steps.
pub open spec fn steps_view(steps: Seq<RemoteStep>) -> Seq<RemoteStepView> {
    Seq::new(steps.len(), |i: int| steps[i]@)
}

/// The filter that matches the rows whose attribute is the text of an
/// identifier.
pub open spec fn equals_id(attribute: Seq<char>, id: u128) -> JsonView {
    triple(ConditionView { attribute, op: FilterOp::Eq, value: uuid_text(id) })
}

/// The filter by which the row store is asked whether it holds a
/// content, before the content is written: the row of the hash.  Writes
/// of anything else ask nothing.
pub open spec fn question_of(op: BackendOpView) -> Option<JsonView> {
    match op {
        BackendOpView::SaveFileContent { hash, content } => Some(
            triple(ConditionView { attribute: "id"@, op: FilterOp::Eq, value: hash }),
        ),
        _ => None,
    }
}

/// The steps by which a write that the store noted reaches the row
/// store; `existing` tells, for the content of a file, whether the row
/// store holds a content under the hash already.
///
/// A content that is held already is not written again: who writes first
/// wins.  A dataset goes with its datapoints and its queue items, a
/// datapoint with its queue items.
pub open spec fn steps_of(op: BackendOpView, existing: Option<bool>) -> Seq<RemoteStepView> {
    match op {
        BackendOpView::SaveSpan(s) => seq![
            RemoteStepView::Upsert { collection: "spans"@, row: span_row(s) },
        ],
        BackendOpView::DeleteSpan(id) => seq![
            RemoteStepView::Delete { collection: "spans"@, ids: seq![uuid_text(id)] },
        ],
        BackendOpView::DeleteTraceSpans(t) => seq![
            RemoteStepView::DeleteMatching {
                collection: "spans"@,
                filter: Some(equals_id("trace_id"@, t)),
            },
        ],
        BackendOpView::DeleteTrace(t) => seq![
            RemoteStepView::Delete { collection: "traces"@, ids: seq![uuid_text(t)] },
        ],
        BackendOpView::ClearSpans => seq![
            RemoteStepView::DeleteMatching { collection: "spans"@, filter: None },
        ],
        BackendOpView::SaveTrace(t) => seq![
            RemoteStepView::Upsert { collection: "traces"@, row: trace_row(t) },
        ],
        BackendOpView::SaveFileVersion(v) => seq![
            RemoteStepView::Upsert { collection: "files"@, row: file_version_row(v) },
        ],
        BackendOpView::SaveFileContent { hash, content } => if existing == Some(true) {
            Seq::empty()
        } else {
            seq![
                RemoteStepView::Upsert {
                    collection: "file_contents"@,
                    row: file_content_row(hash, content),
                },
            ]
        },
        BackendOpView::SaveDataset(d) => seq![
            RemoteStepView::Upsert { collection: "datasets"@, row: dataset_row(d) },
        ],
        BackendOpView::DeleteDataset(d) => seq![
            RemoteStepView::DeleteMatching {
                collection: "datapoints"@,
                filter: Some(equals_id("dataset_id"@, d)),
            },
            RemoteStepView::DeleteMatching {
                collection: "queue_items"@,
                filter: Some(equals_id("dataset_id"@, d)),
            },
            RemoteStepView::Delete { collection: "datasets"@, ids: seq![uuid_text(d)] },
        ],
        BackendOpView::SaveDatapoint(p) => seq![
            RemoteStepView::Upsert { collection: "datapoints"@, row: datapoint_row(p) },
        ],
        BackendOpView::DeleteDatapoint(p) => seq![
            RemoteStepView::DeleteMatching {
                collection: "queue_items"@,
                filter: Some(equals_id("datapoint_id"@, p)),
            },
            RemoteStepView::Delete { collection: "datapoints"@, ids: seq![uuid_text(p)] },
        ],
        BackendOpView::SaveQueueItem(q) => seq![
            RemoteStepView::Upsert { collection: "queue_items"@, row: queue_item_row(q) },
        ],
    }
}

fn filter_by(attribute: &str, value: String) -> (j: Option<Json>)
    ensures
        opt_json(j) == Some(
            triple(ConditionView { attribute: attribute@, op: FilterOp::Eq, value: value@ }),
        ),
{
    let mut conditions: Vec<Condition> = Vec::new();
    conditions.push(Condition { attribute: attribute.to_owned(), op: FilterOp::Eq, value });
    let j = filter_json(&conditions);
    assert(crate::turbopuffer::conditions_view(conditions@).len() == 1);
    assert(crate::turbopuffer::conditions_view(conditions@)[0] == conditions[0]@);
    j
}

fn upsert(collection: &str, row: Json) -> (r: Vec<RemoteStep>)
    ensures
        steps_view(r@) == seq![RemoteStepView::Upsert { collection: collection@, row: row@ }],
{
    let mut r: Vec<RemoteStep> = Vec::new();
    r.push(RemoteStep::Upsert { collection: collection.to_owned(), row });
    assert(steps_view(r@) =~= seq![RemoteStepView::Upsert { collection: collection@, row: row@ }]);
    r
}

fn delete_one(collection: &str, id: u128) -> (r: RemoteStep)
    ensures
        r@ == (RemoteStepView::Delete { collection: collection@, ids: seq![uuid_text(id)] }),
{
    let mut ids: Vec<String> = Vec::new();
    ids.push(crate::ids::id_to_string(id));
    assert(texts_view(ids@) =~= seq![uuid_text(id)]);
    RemoteStep::Delete { collection: collection.to_owned(), ids }
}

fn delete_where(collection: &str, attribute: &str, id: u128) -> (r: RemoteStep)
    ensures
        r@ == (RemoteStepView::DeleteMatching {
            collection: collection@,
            filter: Some(equals_id(attribute@, id)),
        }),
{
    RemoteStep::DeleteMatching {
        collection: collection.to_owned(),
        filter: filter_by(attribute, crate::ids::id_to_string(id)),
    }
}

/// The filter by which the row store is asked whether it holds a
/// content, before the content is written.
pub fn content_question(op: &BackendOp) -> (r: Option<Json>)
    ensures
        opt_json(r) == question_of(op@),
{
    match op {
        BackendOp::SaveFileContent { hash, content } => filter_by("id", hash.clone()),
        _ => None,
    }
}

/// The steps by which a write that the store noted reaches the row
/// store.  A content that the row store holds already is not written
/// again.
pub fn remote_steps(op: &BackendOp, existing: Option<bool>) -> (r: Vec<RemoteStep>)
    ensures
        steps_view(r@) == steps_of(op@, existing),
        (op@ is SaveFileContent && existing == Some(true)) ==> r.len() == 0,
{
    match op {
        BackendOp::SaveSpan(s) => upsert("spans", span_to_row(s)),
        BackendOp::DeleteSpan(id) => {
            let mut r: Vec<RemoteStep> = Vec::new();
            r.push(delete_one("spans", *id));
            assert(steps_view(r@) =~= steps_of(op@, existing));
            r
        },
        BackendOp::DeleteTraceSpans(t) => {
            let mut r: Vec<RemoteStep> = Vec::new();
            r.push(delete_where("spans", "trace_id", *t));
            assert(steps_view(r@) =~= steps_of(op@, existing));
            r
        },
        BackendOp::DeleteTrace(t) => {
            let mut r: Vec<RemoteStep> = Vec::new();
            r.push(delete_one("traces", *t));
            assert(steps_view(r@) =~= steps_of(op@, existing));
            r
        },
        BackendOp::ClearSpans => {
            let mut r: Vec<RemoteStep> = Vec::new();
            r.push(RemoteStep::DeleteMatching { collection: "spans".to_owned(), filter: None });
            assert(steps_view(r@) =~= steps_of(op@, existing));
            r
        },
        BackendOp::SaveTrace(t) => upsert("traces", trace_to_row(t)),
        BackendOp::SaveFileVersion(v) => upsert("files", file_version_to_row(v)),
        BackendOp::SaveFileContent { hash, content } => {
            let held = match existing {
                Some(held) => held,
                None => false,
            };
            if held {
                let r: Vec<RemoteStep> = Vec::new();
                assert(steps_view(r@) =~= Seq::empty());
                r
            } else {
                upsert("file_contents", file_content_to_row(hash.as_str(), content.as_slice()))
            }
        },
        BackendOp::SaveDataset(d) => upsert("datasets", dataset_to_row(d)),
        BackendOp::DeleteDataset(d) => {
            let mut r: Vec<RemoteStep> = Vec::new();
            r.push(delete_where("datapoints", "dataset_id", *d));
            r.push(delete_where("queue_items", "dataset_id", *d));
            r.push(delete_one("datasets", *d));
            assert(steps_view(r@) =~= steps_of(op@, existing));
            r
        },
        BackendOp::SaveDatapoint(p) => upsert("datapoints", datapoint_to_row(p)),
        BackendOp::DeleteDatapoint(p) => {
            let mut r: Vec<RemoteStep> = Vec::new();
            r.push(delete_where("queue_items", "datapoint_id", *p));
            r.push(delete_one("datapoints", *p));
            assert(steps_view(r@) =~= steps_of(op@, existing));
            r
        },
        BackendOp::SaveQueueItem(q) => upsert("queue_items", queue_item_to_row(q)),
    }
}

/// The identifiers of rows, in their order; a row without an identifier
/// in text is passed over.
pub open spec fn ids_of(rows: Seq<JsonView>) -> Seq<Seq<char>>
    decreases rows.len(),
{
    if rows.len() == 0 {
        Seq::empty()
    } else {
        let first = ids_of(rows.drop_last());
        match rows.last().get("id"@) {
            Some(JsonView::Str(id)) => first.push(id),
            _ => first,
        }
    }
}

/// The identifiers of the rows that the answer to a query holds: what a
/// step that takes out the rows that a filter matches then takes out.
pub fn row_ids(response: &Json) -> (r: Vec<String>)
    ensures
        texts_view(r@) == ids_of(rows_of(response@)),
{
    let rows = response_rows(response);
    let ghost all = items_view(rows@);
    let mut r: Vec<String> = Vec::new();
    let mut i: usize = 0;
    assert(all.take(0) =~= Seq::empty());
    assert(texts_view(r@) =~= Seq::empty());
    while i < rows.len()
        invariant
            i <= rows.len(),
            all == items_view(rows@),
            texts_view(r@) == ids_of(all.take(i as int)),
        decreases rows.len() - i,
    {
        proof {
            assert(all.take(i + 1).drop_last() =~= all.take(i as int));
            assert(all.take(i + 1).last() == rows[i as int]@);
        }
        let ghost before = texts_view(r@);
        if let Some(id) = rows[i].get("id") {
            if let Some(text) = id.as_str() {
                r.push(text.to_string());
                assert(texts_view(r@) =~= before.push(text@));
            }
        }
        i = i + 1;
    }
    assert(all.take(rows.len() as int) =~= all);
    r
}

} // verus!
