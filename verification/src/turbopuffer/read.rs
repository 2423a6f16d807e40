use crate::json::{items_view, Json, JsonView};
use crate::storage::persistent::list_view;
use crate::trace::entities::{
    Datapoint, DatapointView, Dataset, DatasetView, FileVersion, FileVersionView, QueueItem,
    QueueItemView, Trace, TraceView,
};
use crate::trace::span::{Span, SpanView};
use crate::turbopuffer::{extract_data, row_data};
use vstd::prelude::*;

verus! {

/// The rows of the answer to a query; none where the answer names none.
pub open spec fn rows_of(response: JsonView) -> Seq<JsonView> {
    match response.get("rows"@) {
        Some(JsonView::Array(rows)) => rows,
        _ => Seq::empty(),
    }
}

/// What the rows of an answer hold, in their order; a row that holds
/// nothing that can be read is passed over.
pub open spec fn read_all<T>(rows: Seq<JsonView>, read: spec_fn(JsonView) -> Option<T>) -> Seq<T>
    decreases rows.len(),
{
    if rows.len() == 0 {
        Seq::empty()
    } else {
        let first = read_all(rows.drop_last(), read);
        match row_data(rows.last()) {
            Some(d) => match read(d) {
                Some(x) => first.push(x),
                None => first,
            },
            None => first,
        }
    }
}

/// The rows of the answer to a query.
pub fn response_rows(response: &Json) -> (r: Vec<Json>)
    ensures
        items_view(r@) == rows_of(response@),
{
    let found = match response.get("rows") {
        Some(rows) => rows.as_array(),
        None => None,
    };
    match found {
        Some(rows) => {
            let mut r: Vec<Json> = Vec::new();
            let mut i: usize = 0;
            while i < rows.len()
                invariant
                    i <= rows.len(),
                    r.len() == i,
                    forall|k: int| 0 <= k < i ==> r[k]@ == rows[k]@,
                decreases rows.len() - i,
            {
                r.push(rows[i].clone());
                i = i + 1;
            }
            assert(items_view(r@) =~= items_view(rows@));
            r
        },
        None => {
            let r: Vec<Json> = Vec::new();
            assert(items_view(r@) =~= Seq::empty());
            r
        },
    }
}

/// The spans that the answer to a query holds.
pub fn read_spans(response: &Json) -> (r: Vec<Span>)
    ensures
        list_view(r@) == read_all(rows_of(response@), |d: JsonView| SpanView::from_json(d)),
{
    let rows = response_rows(response);
    let ghost all = items_view(rows@);
    let ghost read = |d: JsonView| SpanView::from_json(d);
    let mut r: Vec<Span> = Vec::new();
    let mut i: usize = 0;
    assert(all.take(0) =~= Seq::empty());
    assert(list_view(r@) =~= Seq::empty());
    while i < rows.len()
        invariant
            i <= rows.len(),
            all == items_view(rows@),
            read == |d: JsonView| SpanView::from_json(d),
            list_view(r@) == read_all(all.take(i as int), read),
        decreases rows.len() - i,
    {
        proof {
            assert(all.take(i + 1).drop_last() =~= all.take(i as int));
            assert(all.take(i + 1).last() == rows[i as int]@);
        }
        let ghost before = list_view(r@);
        if let Some(d) = extract_data(&rows[i]) {
            if let Some(x) = Span::from_json(&d) {
                r.push(x);
                assert(list_view(r@) =~= before.push(x@));
            }
        }
        i = i + 1;
    }
    assert(all.take(rows.len() as int) =~= all);
    r
}

/// The traces that the answer to a query holds.
pub fn read_traces(response: &Json) -> (r: Vec<Trace>)
    ensures
        list_view(r@) == read_all(rows_of(response@), |d: JsonView| TraceView::from_json(d)),
{
    let rows = response_rows(response);
    let ghost all = items_view(rows@);
    let ghost read = |d: JsonView| TraceView::from_json(d);
    let mut r: Vec<Trace> = Vec::new();
    let mut i: usize = 0;
    assert(all.take(0) =~= Seq::empty());
    assert(list_view(r@) =~= Seq::empty());
    while i < rows.len()
        invariant
            i <= rows.len(),
            all == items_view(rows@),
            read == |d: JsonView| TraceView::from_json(d),
            list_view(r@) == read_all(all.take(i as int), read),
        decreases rows.len() - i,
    {
        proof {
            assert(all.take(i + 1).drop_last() =~= all.take(i as int));
            assert(all.take(i + 1).last() == rows[i as int]@);
        }
        let ghost before = list_view(r@);
        if let Some(d) = extract_data(&rows[i]) {
            if let Some(x) = Trace::from_json(&d) {
                r.push(x);
                assert(list_view(r@) =~= before.push(x@));
            }
        }
        i = i + 1;
    }
    assert(all.take(rows.len() as int) =~= all);
    r
}

/// The file versions that the answer to a query holds.
pub fn read_file_versions(response: &Json) -> (r: Vec<FileVersion>)
    ensures
        list_view(r@) == read_all(rows_of(response@), |d: JsonView| FileVersionView::from_json(d)),
{
    let rows = response_rows(response);
    let ghost all = items_view(rows@);
    let ghost read = |d: JsonView| FileVersionView::from_json(d);
    let mut r: Vec<FileVersion> = Vec::new();
    let mut i: usize = 0;
    assert(all.take(0) =~= Seq::empty());
    assert(list_view(r@) =~= Seq::empty());
    while i < rows.len()
        invariant
            i <= rows.len(),
            all == items_view(rows@),
            read == |d: JsonView| FileVersionView::from_json(d),
            list_view(r@) == read_all(all.take(i as int), read),
        decreases rows.len() - i,
    {
        proof {
            assert(all.take(i + 1).drop_last() =~= all.take(i as int));
            assert(all.take(i + 1).last() == rows[i as int]@);
        }
        let ghost before = list_view(r@);
        if let Some(d) = extract_data(&rows[i]) {
            if let Some(x) = FileVersion::from_json(&d) {
                r.push(x);
                assert(list_view(r@) =~= before.push(x@));
            }
        }
        i = i + 1;
    }
    assert(all.take(rows.len() as int) =~= all);
    r
}

/// The datasets that the answer to a query holds.
pub fn read_datasets(response: &Json) -> (r: Vec<Dataset>)
    ensures
        list_view(r@) == read_all(rows_of(response@), |d: JsonView| DatasetView::from_json(d)),
{
    let rows = response_rows(response);
    let ghost all = items_view(rows@);
    let ghost read = |d: JsonView| DatasetView::from_json(d);
    let mut r: Vec<Dataset> = Vec::new();
    let mut i: usize = 0;
    assert(all.take(0) =~= Seq::empty());
    assert(list_view(r@) =~= Seq::empty());
    while i < rows.len()
        invariant
            i <= rows.len(),
            all == items_view(rows@),
            read == |d: JsonView| DatasetView::from_json(d),
            list_view(r@) == read_all(all.take(i as int), read),
        decreases rows.len() - i,
    {
        proof {
            assert(all.take(i + 1).drop_last() =~= all.take(i as int));
            assert(all.take(i + 1).last() == rows[i as int]@);
        }
        let ghost before = list_view(r@);
        if let Some(d) = extract_data(&rows[i]) {
            if let Some(x) = Dataset::from_json(&d) {
                r.push(x);
                assert(list_view(r@) =~= before.push(x@));
            }
        }
        i = i + 1;
    }
    assert(all.take(rows.len() as int) =~= all);
    r
}

/// The datapoints that the answer to a query holds.
pub fn read_datapoints(response: &Json) -> (r: Vec<Datapoint>)
    ensures
        list_view(r@) == read_all(rows_of(response@), |d: JsonView| DatapointView::from_json(d)),
{
    let rows = response_rows(response);
    let ghost all = items_view(rows@);
    let ghost read = |d: JsonView| DatapointView::from_json(d);
    let mut r: Vec<Datapoint> = Vec::new();
    let mut i: usize = 0;
    assert(all.take(0) =~= Seq::empty());
    assert(list_view(r@) =~= Seq::empty());
    while i < rows.len()
        invariant
            i <= rows.len(),
            all == items_view(rows@),
            read == |d: JsonView| DatapointView::from_json(d),
            list_view(r@) == read_all(all.take(i as int), read),
        decreases rows.len() - i,
    {
        proof {
            assert(all.take(i + 1).drop_last() =~= all.take(i as int));
            assert(all.take(i + 1).last() == rows[i as int]@);
        }
        let ghost before = list_view(r@);
        if let Some(d) = extract_data(&rows[i]) {
            if let Some(x) = Datapoint::from_json(&d) {
                r.push(x);
                assert(list_view(r@) =~= before.push(x@));
            }
        }
        i = i + 1;
    }
    assert(all.take(rows.len() as int) =~= all);
    r
}

/// The queue items that the answer to a query holds.
pub fn read_queue_items(response: &Json) -> (r: Vec<QueueItem>)
    ensures
        list_view(r@) == read_all(rows_of(response@), |d: JsonView| QueueItemView::from_json(d)),
{
    let rows = response_rows(response);
    let ghost all = items_view(rows@);
    let ghost read = |d: JsonView| QueueItemView::from_json(d);
    let mut r: Vec<QueueItem> = Vec::new();
    let mut i: usize = 0;
    assert(all.take(0) =~= Seq::empty());
    assert(list_view(r@) =~= Seq::empty());
    while i < rows.len()
        invariant
            i <= rows.len(),
            all == items_view(rows@),
            read == |d: JsonView| QueueItemView::from_json(d),
            list_view(r@) == read_all(all.take(i as int), read),
        decreases rows.len() - i,
    {
        proof {
            assert(all.take(i + 1).drop_last() =~= all.take(i as int));
            assert(all.take(i + 1).last() == rows[i as int]@);
        }
        let ghost before = list_view(r@);
        if let Some(d) = extract_data(&rows[i]) {
            if let Some(x) = QueueItem::from_json(&d) {
                r.push(x);
                assert(list_view(r@) =~= before.push(x@));
            }
        }
        i = i + 1;
    }
    assert(all.take(rows.len() as int) =~= all);
    r
}

} // verus!
