use crate::api::events::{SystemEvent, SystemEventView};
use crate::api::handlers::{opt_event, Reply, CREATED, NOT_FOUND, OK};
use crate::api::types::{
    CreateDatapointRequest, CreateDatasetRequest, DatapointListResponse, DatasetListResponse,
    DatasetResponse, ExportSpanRequest, UpdateDatasetRequest,
};
use crate::clock::Timestamp;
use crate::json::{Json, JsonView};
use crate::storage::persistent::{BackendOpView, PersistentStore, PersistentStoreView};
use crate::text::opt_text;
use crate::trace::entities::{
    Datapoint, DatapointKind, DatapointKindView, DatapointSource, DatapointView, Dataset,
    DatasetView,
};
use crate::trace::span::{DatapointId, DatasetId};
use vstd::prelude::*;

verus! {

/// The store after `d` was put in the place of the dataset of its
/// identifier and the write of it was noted.
pub open spec fn with_dataset(s: PersistentStoreView, d: DatasetView) -> PersistentStoreView {
    PersistentStoreView { datasets: s.datasets.insert(d.id, d), ..s }.noting(
        BackendOpView::SaveDataset(d),
    )
}

/// The store after `p` was put in the place of the datapoint of its
/// identifier and the write of it was noted.
pub open spec fn with_datapoint(s: PersistentStoreView, p: DatapointView) -> PersistentStoreView {
    PersistentStoreView { datapoints: s.datapoints.insert(p.id, p), ..s }.noting(
        BackendOpView::SaveDatapoint(p),
    )
}

/// Lists the datasets, each once, with the number of its datapoints.
pub fn list_datasets(store: &PersistentStore) -> (r: DatasetListResponse)
    requires
        store@.wf(),
    ensures
        r.count == r.datasets.len(),
        forall|i: int|
            0 <= i < r.datasets.len() ==> {
                let d = (#[trigger] r.datasets[i]).dataset@;
                &&& store@.datasets.contains_key(d.id)
                &&& store@.datasets[d.id] == d
                &&& r.datasets[i].datapoint_count == store@.datapoints_of(d.id).len()
            },
        forall|id: DatasetId|
            store@.datasets.contains_key(id) ==> exists|i: int|
                0 <= i < r.datasets.len() && (#[trigger] r.datasets[i]).dataset@.id == id,
        forall|i: int, j: int|
            0 <= i < j < r.datasets.len() ==> r.datasets[i].dataset@.id != r.datasets[j].dataset@.id,
{
    let all = store.all_datasets();
    let mut datasets: Vec<DatasetResponse> = Vec::new();
    let mut k: usize = 0;
    while k < all.len()
        invariant
            k <= all.len(),
            datasets.len() == k,
            forall|i: int|
                0 <= i < k ==> (#[trigger] datasets[i]).dataset@ == all[i]@
                    && datasets[i].datapoint_count == store@.datapoints_of(all[i]@.id).len(),
        decreases all.len() - k,
    {
        let ds = all[k];
        datasets.push(
            DatasetResponse {
                dataset: ds.clone(),
                datapoint_count: store.datapoint_count_for_dataset(ds.id),
            },
        );
        k = k + 1;
    }
    proof {
        assert forall|id: DatasetId| store@.datasets.contains_key(id) implies exists|i: int|
            0 <= i < datasets.len() && (#[trigger] datasets[i]).dataset@.id == id by {
            let i = choose|i: int| 0 <= i < all.len() && (#[trigger] all[i])@.id == id;
            assert(datasets[i].dataset@.id == id);
        }
        assert forall|i: int| 0 <= i < datasets.len() implies {
            let d = (#[trigger] datasets[i]).dataset@;
            &&& store@.datasets.contains_key(d.id)
            &&& store@.datasets[d.id] == d
            &&& datasets[i].datapoint_count == store@.datapoints_of(d.id).len()
        } by {
            assert(store@.datasets.contains_key(all[i]@.id));
        }
        assert forall|i: int, j: int| 0 <= i < j < datasets.len() implies datasets[i].dataset@.id
            != datasets[j].dataset@.id by {
            assert(all[i]@.id != all[j]@.id);
        }
    }
    let count = datasets.len();
    DatasetListResponse { datasets, count }
}

/// Makes a dataset as a request describes it.  The answer is 201 with
/// the dataset.
pub fn create_dataset(store: &mut PersistentStore, req: CreateDatasetRequest) -> (r: Reply<Dataset>)
    requires
        old(store)@.wf(),
    ensures
        final(store)@.wf(),
        r.status == CREATED,
        r.body.is_some(),
        ({
            let d = r.body.unwrap()@;
            &&& d.name == req.name@
            &&& d.description == opt_text(req.description)
            &&& d.org_id.is_none()
            &&& d.created_at == d.updated_at
            &&& final(store)@ == with_dataset(old(store)@, d)
            &&& opt_event(r.event) == Some(SystemEventView::DatasetCreated { dataset: d })
        }),
{
    let dataset = Dataset::new(req.name, req.description);
    let shown = dataset.clone();
    let told = dataset.clone();
    store.save_dataset(dataset);
    Reply {
        status: CREATED,
        body: Some(shown),
        event: Some(SystemEvent::DatasetCreated { dataset: told }),
    }
}

/// Shows a dataset with the number of its datapoints: 200, or 404 where
/// the dataset is not held.
pub fn get_dataset(store: &PersistentStore, dataset_id: DatasetId) -> (r: Reply<DatasetResponse>)
    ensures
        r.event.is_none(),
        match r.body {
            Some(b) => r.status == OK && store@.datasets.contains_key(dataset_id) && b.dataset@
                == store@.datasets[dataset_id] && b.datapoint_count == store@.datapoints_of(
                b.dataset@.id,
            ).len(),
            None => r.status == NOT_FOUND && !store@.datasets.contains_key(dataset_id),
        },
{
    match store.get_dataset(dataset_id) {
        Some(ds) => Reply {
            status: OK,
            body: Some(
                DatasetResponse {
                    dataset: ds.clone(),
                    datapoint_count: store.datapoint_count_for_dataset(ds.id),
                },
            ),
            event: None,
        },
        None => Reply { status: NOT_FOUND, body: None, event: None },
    }
}

/// A dataset after a request to change it at the instant `now`: the name
/// and the description change where the request gives one.
pub open spec fn updated(
    d: DatasetView,
    name: Option<Seq<char>>,
    description: Option<Seq<char>>,
    now: int,
) -> DatasetView {
    DatasetView {
        name: match name {
            Some(n) => n,
            None => d.name,
        },
        description: match description {
            Some(t) => Some(t),
            None => d.description,
        },
        updated_at: now,
        ..d
    }
}

/// Changes a dataset at the instant `now`.  The answer is 404 where the
/// dataset is not held, and the store is as it was then; else 200 with
/// the dataset as it is kept.
pub fn update_dataset_at(
    store: &mut PersistentStore,
    dataset_id: DatasetId,
    req: UpdateDatasetRequest,
    now: Timestamp,
) -> (r: Reply<Dataset>)
    requires
        old(store)@.wf(),
    ensures
        final(store)@.wf(),
        r.event.is_none(),
        match r.body {
            Some(d) => {
                &&& r.status == OK
                &&& old(store)@.datasets.contains_key(dataset_id)
                &&& d@ == updated(
                    old(store)@.datasets[dataset_id],
                    opt_text(req.name),
                    opt_text(req.description),
                    now@,
                )
                &&& final(store)@ == with_dataset(old(store)@, d@)
            },
            None => r.status == NOT_FOUND && !old(store)@.datasets.contains_key(dataset_id)
                && final(store)@ == old(store)@,
        },
{
    let mut changed = match store.get_dataset(dataset_id) {
        Some(ds) => ds.clone(),
        None => {
            return Reply { status: NOT_FOUND, body: None, event: None };
        },
    };
    if let Some(name) = req.name {
        changed.name = name;
    }
    if let Some(description) = req.description {
        changed.description = Some(description);
    }
    changed.updated_at = now;
    let shown = changed.clone();
    store.save_dataset(changed);
    Reply { status: OK, body: Some(shown), event: None }
}

/// Changes a dataset, now.
pub fn update_dataset(store: &mut PersistentStore, dataset_id: DatasetId, req: UpdateDatasetRequest) -> (r:
    Reply<Dataset>)
    requires
        old(store)@.wf(),
    ensures
        final(store)@.wf(),
        r.event.is_none(),
        match r.body {
            Some(d) => {
                &&& r.status == OK
                &&& old(store)@.datasets.contains_key(dataset_id)
                &&& d@ == updated(
                    old(store)@.datasets[dataset_id],
                    opt_text(req.name),
                    opt_text(req.description),
                    d@.updated_at,
                )
                &&& final(store)@ == with_dataset(old(store)@, d@)
            },
            None => r.status == NOT_FOUND && !old(store)@.datasets.contains_key(dataset_id)
                && final(store)@ == old(store)@,
        },
{
    let now = crate::clock::now();
    update_dataset_at(store, dataset_id, req, now)
}

/// Takes a dataset out with its datapoints and queue items: 200 where it
/// was held, else 404.
pub fn delete_dataset(store: &mut PersistentStore, dataset_id: DatasetId) -> (r: Reply<()>)
    requires
        old(store)@.wf(),
    ensures
        final(store)@.wf(),
        final(store)@ == old(store)@.dataset_deleted(dataset_id),
        r.body.is_none(),
        old(store)@.datasets.contains_key(dataset_id) ==> r.status == OK && opt_event(r.event)
            == Some(SystemEventView::DatasetDeleted { dataset_id }),
        !old(store)@.datasets.contains_key(dataset_id) ==> r.status == NOT_FOUND
            && r.event.is_none(),
{
    if store.delete_dataset(dataset_id) {
        Reply { status: OK, body: None, event: Some(SystemEvent::DatasetDeleted { dataset_id }) }
    } else {
        Reply { status: NOT_FOUND, body: None, event: None }
    }
}

/// Lists the datapoints of a dataset, each once: 200, or 404 where the
/// dataset is not held.
pub fn list_datapoints(store: &PersistentStore, dataset_id: DatasetId) -> (r: Reply<
    DatapointListResponse,
>)
    requires
        store@.wf(),
    ensures
        r.event.is_none(),
        match r.body {
            Some(list) => {
                &&& r.status == OK
                &&& store@.datasets.contains_key(dataset_id)
                &&& list.count == list.datapoints.len()
                &&& list.count == store@.datapoints_of(dataset_id).len()
                &&& forall|i: int|
                    0 <= i < list.datapoints.len() ==> store@.datapoints_of(dataset_id).contains(
                        (#[trigger] list.datapoints[i])@.id,
                    ) && store@.datapoints[list.datapoints[i]@.id] == list.datapoints[i]@
                &&& forall|id: DatapointId|
                    store@.datapoints_of(dataset_id).contains(id) ==> exists|i: int|
                        0 <= i < list.datapoints.len() && (#[trigger] list.datapoints[i])@.id == id
                &&& forall|i: int, j: int|
                    0 <= i < j < list.datapoints.len() ==> list.datapoints[i]@.id
                        != list.datapoints[j]@.id
            },
            None => r.status == NOT_FOUND && !store@.datasets.contains_key(dataset_id),
        },
{
    if store.get_dataset(dataset_id).is_none() {
        return Reply { status: NOT_FOUND, body: None, event: None };
    }
    let found = store.datapoints_for_dataset(dataset_id);
    let mut datapoints: Vec<Datapoint> = Vec::new();
    let mut k: usize = 0;
    while k < found.len()
        invariant
            k <= found.len(),
            datapoints.len() == k,
            forall|i: int| 0 <= i < k ==> (#[trigger] datapoints[i])@ == found[i]@,
        decreases found.len() - k,
    {
        datapoints.push(found[k].clone());
        k = k + 1;
    }
    proof {
        assert forall|id: DatapointId|
            store@.datapoints_of(dataset_id).contains(id) implies exists|i: int|
            0 <= i < datapoints.len() && (#[trigger] datapoints[i])@.id == id by {
            let i = choose|i: int| 0 <= i < found.len() && (#[trigger] found[i])@.id == id;
            assert(datapoints[i]@.id == id);
        }
        assert forall|i: int, j: int| 0 <= i < j < datapoints.len() implies datapoints[i]@.id
            != datapoints[j]@.id by {
            assert(found[i]@.id != found[j]@.id);
        }
    }
    let count = datapoints.len();
    Reply { status: OK, body: Some(DatapointListResponse { datapoints, count }), event: None }
}

/// Puts a datapoint of the given content and source into a held dataset
/// and tells of it.
fn add_datapoint(
    store: &mut PersistentStore,
    dataset_id: DatasetId,
    kind: DatapointKind,
    source: DatapointSource,
    source_span_id: Option<u128>,
) -> (r: Reply<Datapoint>)
    requires
        old(store)@.wf(),
    ensures
        final(store)@.wf(),
        r.status == CREATED,
        r.body.is_some(),
        ({
            let p = r.body.unwrap()@;
            &&& p.dataset_id == dataset_id
            &&& p.kind == kind@
            &&& p.source == source
            &&& p.source_span_id == source_span_id
            &&& final(store)@ == with_datapoint(old(store)@, p)
            &&& opt_event(r.event) == Some(SystemEventView::DatapointCreated { datapoint: p })
        }),
{
    let mut dp = Datapoint::new(dataset_id, kind, source);
    if let Some(span_id) = source_span_id {
        dp = dp.with_source_span(span_id);
    }
    let shown = dp.clone();
    let told = dp.clone();
    store.save_datapoint(dp);
    Reply {
        status: CREATED,
        body: Some(shown),
        event: Some(SystemEvent::DatapointCreated { datapoint: told }),
    }
}

/// Makes a datapoint by hand.  The answer is 404 where the dataset is not
/// held, and the store is as it was then; else 201 with the datapoint.
pub fn create_datapoint(store: &mut PersistentStore, dataset_id: DatasetId, req: CreateDatapointRequest) -> (r:
    Reply<Datapoint>)
    requires
        old(store)@.wf(),
    ensures
        final(store)@.wf(),
        match r.body {
            Some(p) => {
                &&& r.status == CREATED
                &&& old(store)@.datasets.contains_key(dataset_id)
                &&& p@.dataset_id == dataset_id
                &&& p@.kind == req.kind@
                &&& p@.source == DatapointSource::Manual
                &&& p@.source_span_id.is_none()
                &&& final(store)@ == with_datapoint(old(store)@, p@)
                &&& opt_event(r.event) == Some(SystemEventView::DatapointCreated { datapoint: p@ })
            },
            None => r.status == NOT_FOUND && !old(store)@.datasets.contains_key(dataset_id)
                && final(store)@ == old(store)@ && r.event.is_none(),
        },
{
    if store.get_dataset(dataset_id).is_none() {
        return Reply { status: NOT_FOUND, body: None, event: None };
    }
    add_datapoint(store, dataset_id, req.kind, DatapointSource::Manual, None)
}

/// Takes a datapoint out of a dataset with its queue items.  The answer
/// is 200 where the datapoint is held and belongs to the dataset; else
/// 404, and the store is as it was.
pub fn delete_datapoint(store: &mut PersistentStore, dataset_id: DatasetId, id: DatapointId) -> (r: Reply<()>)
    requires
        old(store)@.wf(),
    ensures
        final(store)@.wf(),
        r.body.is_none(),
        r.event.is_none(),
        ({
            let held = old(store)@.datapoints.contains_key(id)
                && old(store)@.datapoints[id].dataset_id == dataset_id;
            &&& held ==> r.status == OK && final(store)@ == old(store)@.datapoint_deleted(id)
            &&& !held ==> r.status == NOT_FOUND && final(store)@ == old(store)@
        }),
{
    match store.get_datapoint(id) {
        Some(dp) => {
            if dp.dataset_id != dataset_id {
                return Reply { status: NOT_FOUND, body: None, event: None };
            }
        },
        None => {
            return Reply { status: NOT_FOUND, body: None, event: None };
        },
    }
    store.delete_datapoint(id);
    Reply { status: OK, body: None, event: None }
}

/// What a datapoint that is made of a span holds: the input of the span,
/// or null, and its output as what is expected.
pub open spec fn exported(input: Option<JsonView>, output: Option<JsonView>) -> DatapointKindView {
    DatapointKindView::Generic {
        input: match input {
            Some(j) => j,
            None => JsonView::Null,
        },
        expected_output: output,
        actual_output: None,
        score: None,
        metadata: Seq::empty(),
    }
}

/// Makes a datapoint of a span.  The answer is 404 where the dataset or
/// the span is not held, and the store is as it was then; else 201 with
/// the datapoint.
pub fn export_span_to_dataset(store: &mut PersistentStore, dataset_id: DatasetId, req: ExportSpanRequest) -> (r:
    Reply<Datapoint>)
    requires
        old(store)@.wf(),
    ensures
        final(store)@.wf(),
        match r.body {
            Some(p) => {
                &&& r.status == CREATED
                &&& old(store)@.datasets.contains_key(dataset_id)
                &&& old(store)@.memory.spans.contains_key(req.span_id)
                &&& p@.dataset_id == dataset_id
                &&& p@.kind == exported(
                    old(store)@.memory.spans[req.span_id].input,
                    old(store)@.memory.spans[req.span_id].output,
                )
                &&& p@.source == DatapointSource::SpanExport
                &&& p@.source_span_id == Some(req.span_id)
                &&& final(store)@ == with_datapoint(old(store)@, p@)
                &&& opt_event(r.event) == Some(SystemEventView::DatapointCreated { datapoint: p@ })
            },
            None => r.status == NOT_FOUND && !(old(store)@.datasets.contains_key(dataset_id)
                && old(store)@.memory.spans.contains_key(req.span_id)) && final(store)@
                == old(store)@ && r.event.is_none(),
        },
{
    if store.get_dataset(dataset_id).is_none() {
        return Reply { status: NOT_FOUND, body: None, event: None };
    }
    let kind = match store.get(req.span_id) {
        Some(span) => DatapointKind::Generic {
            input: match span.input() {
                Some(j) => j.clone(),
                None => Json::Null,
            },
            expected_output: match span.output() {
                Some(j) => Some(j.clone()),
                None => None,
            },
            actual_output: None,
            score: None,
            metadata: Vec::new(),
        },
        None => {
            return Reply { status: NOT_FOUND, body: None, event: None };
        },
    };
    assert(crate::json::fields_view(Seq::<(String, Json)>::empty()) =~= Seq::empty());
    add_datapoint(store, dataset_id, kind, DatapointSource::SpanExport, Some(req.span_id))
}

} // verus!
