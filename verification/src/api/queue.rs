use crate::api::datasets::with_datapoint;
use crate::api::events::{SystemEvent, SystemEventView};
use crate::api::handlers::{opt_event, Reply, BAD_REQUEST, CONFLICT, CREATED, NOT_FOUND, OK};
use crate::api::import::{file_import, mapped, ImportError};
use crate::api::types::{
    EnqueueRequest, EnqueueResponse, ImportResponse, QueueCounts, QueueListResponse,
};
use crate::json::{opt_json, Json, JsonView};
use crate::storage::persistent::{PersistentStore, PersistentStoreView};
use crate::trace::entities::{
    Datapoint, DatapointKind, DatapointKindView, DatapointSource, DatapointView, QueueItem,
    QueueItemStatus, QueueItemView,
};
use crate::trace::span::{DatapointId, DatasetId, QueueItemId};
use vstd::prelude::*;

verus! {

/// What a request that makes several things is answered with: a status, a
/// body where the answer has one, and the events that are to be
/// published, in their order.
#[derive(Debug, PartialEq)]
pub struct Batch<T> {
    pub status: u16,
    pub body: Option<T>,
    pub events: Vec<SystemEvent>,
}

/// The values of a list of events.
pub open spec fn events_view(events: Seq<SystemEvent>) -> Seq<SystemEventView> {
    Seq::new(events.len(), |i: int| events[i]@)
}

/// How many of the items have the status.
pub open spec fn count_with(items: Seq<QueueItemView>, status: QueueItemStatus) -> nat
    decreases items.len(),
{
    if items.len() == 0 {
        0
    } else if items.last().status == status {
        count_with(items.drop_last(), status) + 1
    } else {
        count_with(items.drop_last(), status)
    }
}

/// The values of a list of queue items.
pub open spec fn items_view(items: Seq<QueueItem>) -> Seq<QueueItemView> {
    Seq::new(items.len(), |i: int| items[i]@)
}

proof fn lemma_count_bound(items: Seq<QueueItemView>, status: QueueItemStatus)
    ensures
        count_with(items, status) <= items.len(),
    decreases items.len(),
{
    if items.len() > 0 {
        lemma_count_bound(items.drop_last(), status);
    }
}

/// Lists the queue items of a dataset, each once, and counts them by
/// status: 200, or 404 where the dataset is not held.
pub fn list_queue(store: &PersistentStore, dataset_id: DatasetId) -> (r: Reply<QueueListResponse>)
    requires
        store@.wf(),
    ensures
        r.event.is_none(),
        match r.body {
            Some(list) => {
                &&& r.status == OK
                &&& store@.datasets.contains_key(dataset_id)
                &&& forall|i: int|
                    0 <= i < list.items.len() ==> store@.queue_of(dataset_id).contains(
                        (#[trigger] list.items[i])@.id,
                    ) && store@.queue_items[list.items[i]@.id] == list.items[i]@
                &&& forall|id: QueueItemId|
                    store@.queue_of(dataset_id).contains(id) ==> exists|i: int|
                        0 <= i < list.items.len() && (#[trigger] list.items[i])@.id == id
                &&& forall|i: int, j: int|
                    0 <= i < j < list.items.len() ==> list.items[i]@.id != list.items[j]@.id
                &&& list.counts.pending == count_with(
                    items_view(list.items@),
                    QueueItemStatus::Pending,
                )
                &&& list.counts.claimed == count_with(
                    items_view(list.items@),
                    QueueItemStatus::Claimed,
                )
                &&& list.counts.completed == count_with(
                    items_view(list.items@),
                    QueueItemStatus::Completed,
                )
            },
            None => r.status == NOT_FOUND && !store@.datasets.contains_key(dataset_id),
        },
{
    if store.get_dataset(dataset_id).is_none() {
        return Reply { status: NOT_FOUND, body: None, event: None };
    }
    let found = store.queue_items_for_dataset(dataset_id);
    let mut items: Vec<QueueItem> = Vec::new();
    let mut pending: usize = 0;
    let mut claimed: usize = 0;
    let mut completed: usize = 0;
    let mut k: usize = 0;
    while k < found.len()
        invariant
            k <= found.len(),
            items.len() == k,
            forall|i: int| 0 <= i < k ==> (#[trigger] items[i])@ == found[i]@,
            pending == count_with(items_view(items@), QueueItemStatus::Pending),
            claimed == count_with(items_view(items@), QueueItemStatus::Claimed),
            completed == count_with(items_view(items@), QueueItemStatus::Completed),
        decreases found.len() - k,
    {
        let item = found[k].clone();
        proof {
            let before = items_view(items@);
            let after = items_view(items@.push(item));
            assert(after.drop_last() =~= before);
            assert(after.last() == item@);
            lemma_count_bound(before, QueueItemStatus::Pending);
            lemma_count_bound(before, QueueItemStatus::Claimed);
            lemma_count_bound(before, QueueItemStatus::Completed);
        }
        match item.status {
            QueueItemStatus::Pending => {
                pending = pending + 1;
            },
            QueueItemStatus::Claimed => {
                claimed = claimed + 1;
            },
            QueueItemStatus::Completed => {
                completed = completed + 1;
            },
        }
        items.push(item);
        k = k + 1;
    }
    proof {
        assert forall|id: QueueItemId| store@.queue_of(dataset_id).contains(id) implies exists|
            i: int,
        |
            0 <= i < items.len() && (#[trigger] items[i])@.id == id by {
            let i = choose|i: int| 0 <= i < found.len() && (#[trigger] found[i])@.id == id;
            assert(items[i]@.id == id);
        }
        assert forall|i: int, j: int| 0 <= i < j < items.len() implies items[i]@.id
            != items[j]@.id by {
            assert(found[i]@.id != found[j]@.id);
        }
    }
    Reply {
        status: OK,
        body: Some(QueueListResponse { items, counts: QueueCounts { pending, claimed, completed } }),
        event: None,
    }
}

/// The identifiers of the list that name a datapoint of the dataset, in
/// their order.
pub open spec fn eligible(s: PersistentStoreView, d: DatasetId, ids: Seq<DatapointId>) -> Seq<
    DatapointId,
>
    decreases ids.len(),
{
    if ids.len() == 0 {
        Seq::empty()
    } else if s.datapoints_of(d).contains(ids.last()) {
        eligible(s, d, ids.drop_last()).push(ids.last())
    } else {
        eligible(s, d, ids.drop_last())
    }
}

/// The queue item that an event tells of.
pub open spec fn told_item(e: SystemEventView) -> QueueItemView {
    match e {
        SystemEventView::QueueItemUpdated { item } => item,
        _ => arbitrary(),
    }
}

/// The store after the queue items that the events tell of were kept,
/// one after the other.
pub open spec fn with_told_items(s: PersistentStoreView, events: Seq<SystemEventView>) -> PersistentStoreView
    decreases events.len(),
{
    if events.len() == 0 {
        s
    } else {
        with_told_items(s, events.drop_last()).with_queue_item(told_item(events.last()))
    }
}

/// True when the event tells of a fresh pending queue item for the
/// datapoint `p` of the dataset `d`, with the content of the datapoint as
/// what it started from.
pub open spec fn tells_enqueued(e: SystemEventView, s: PersistentStoreView, d: DatasetId, p: DatapointId) -> bool {
    e matches SystemEventView::QueueItemUpdated { item } && {
        &&& item.dataset_id == d
        &&& item.datapoint_id == p
        &&& item.status == QueueItemStatus::Pending
        &&& item.claimed_by.is_none()
        &&& item.claimed_at.is_none()
        &&& item.original_data == Some(s.datapoints[p].kind.to_json())
        &&& item.edited_data.is_none()
    }
}

/// Puts the datapoints of a list into the labelling queue of a dataset.
/// An identifier that names no datapoint of the dataset is passed over.
/// The answer is 404 where the dataset is not held, and the store is as
/// it was then; else 201 with the number of items made, and an event for
/// each.
pub fn enqueue_datapoints(store: &mut PersistentStore, dataset_id: DatasetId, req: EnqueueRequest) -> (r:
    Batch<EnqueueResponse>)
    requires
        old(store)@.wf(),
    ensures
        final(store)@.wf(),
        !old(store)@.datasets.contains_key(dataset_id) ==> r.status == NOT_FOUND && r.body.is_none()
            && r.events.len() == 0 && final(store)@ == old(store)@,
        old(store)@.datasets.contains_key(dataset_id) ==> {
            let chosen = eligible(old(store)@, dataset_id, req.datapoint_ids@);
            &&& r.status == CREATED
            &&& r.body == Some(EnqueueResponse { enqueued: r.events.len() })
            &&& r.events.len() == chosen.len()
            &&& forall|k: int|
                0 <= k < r.events.len() ==> tells_enqueued(
                    (#[trigger] r.events[k])@,
                    old(store)@,
                    dataset_id,
                    chosen[k],
                )
            &&& final(store)@ == with_told_items(old(store)@, events_view(r.events@))
        },
{
    if store.get_dataset(dataset_id).is_none() {
        return Batch { status: NOT_FOUND, body: None, events: Vec::new() };
    }
    let ghost before = store@;
    let mut events: Vec<SystemEvent> = Vec::new();
    let mut i: usize = 0;
    assert(events_view(events@) =~= Seq::empty());
    assert(req.datapoint_ids@.take(0) =~= Seq::empty());
    while i < req.datapoint_ids.len()
        invariant
            i <= req.datapoint_ids.len(),
            before.wf(),
            store@.wf(),
            store@.datapoints == before.datapoints,
            store@ == with_told_items(before, events_view(events@)),
            events.len() == eligible(before, dataset_id, req.datapoint_ids@.take(i as int)).len(),
            forall|k: int|
                0 <= k < events.len() ==> tells_enqueued(
                    (#[trigger] events[k])@,
                    before,
                    dataset_id,
                    eligible(before, dataset_id, req.datapoint_ids@.take(i as int))[k],
                ),
        decreases req.datapoint_ids.len() - i,
    {
        let dp_id = req.datapoint_ids[i];
        let ghost ids = req.datapoint_ids@;
        proof {
            assert(ids.take(i + 1).drop_last() =~= ids.take(i as int));
            assert(ids.take(i + 1).last() == dp_id);
        }
        let original = match store.get_datapoint(dp_id) {
            Some(dp) => {
                if dp.dataset_id == dataset_id {
                    Some(dp.kind.to_json())
                } else {
                    None
                }
            },
            None => None,
        };
        if let Some(data) = original {
            let item = QueueItem::new(dataset_id, dp_id, Some(data));
            let told = item.clone();
            let ghost events_before = events_view(events@);
            store.save_queue_item(item);
            events.push(SystemEvent::QueueItemUpdated { item: told });
            proof {
                let after = events_view(events@);
                assert(after.drop_last() =~= events_before);
                assert(told_item(after.last()) == told@);
            }
        }
        i = i + 1;
    }
    assert(req.datapoint_ids@.take(i as int) =~= req.datapoint_ids@);
    let enqueued = events.len();
    Batch { status: CREATED, body: Some(EnqueueResponse { enqueued }), events }
}

/// The datapoint that an event tells of.
pub open spec fn told_datapoint(e: SystemEventView) -> DatapointView {
    match e {
        SystemEventView::DatapointCreated { datapoint } => datapoint,
        _ => arbitrary(),
    }
}

/// The store after the datapoints that the events tell of were kept, one
/// after the other.
pub open spec fn with_told_datapoints(s: PersistentStoreView, events: Seq<SystemEventView>) -> PersistentStoreView
    decreases events.len(),
{
    if events.len() == 0 {
        s
    } else {
        with_datapoint(with_told_datapoints(s, events.drop_last()), told_datapoint(events.last()))
    }
}

/// True when the event tells of a fresh datapoint of the dataset `d` that
/// came with a file and holds `kind`.
pub open spec fn tells_imported(e: SystemEventView, d: DatasetId, kind: DatapointKindView) -> bool {
    e matches SystemEventView::DatapointCreated { datapoint } && {
        &&& datapoint.dataset_id == d
        &&& datapoint.kind == kind
        &&& datapoint.source == DatapointSource::FileUpload
        &&& datapoint.source_span_id.is_none()
    }
}

/// Keeps what a file held as datapoints of a dataset, in the order of the
/// file, and tells of each.
pub fn import_datapoints(store: &mut PersistentStore, dataset_id: DatasetId, kinds: Vec<DatapointKind>) -> (r:
    Batch<ImportResponse>)
    requires
        old(store)@.wf(),
    ensures
        final(store)@.wf(),
        r.status == CREATED,
        r.body == Some(ImportResponse { imported: kinds.len(), dataset_id }),
        r.events.len() == kinds.len(),
        forall|k: int|
            0 <= k < r.events.len() ==> tells_imported(
                (#[trigger] r.events[k])@,
                dataset_id,
                kinds[k]@,
            ),
        final(store)@ == with_told_datapoints(old(store)@, events_view(r.events@)),
{
    let ghost before = store@;
    let mut events: Vec<SystemEvent> = Vec::new();
    let mut i: usize = 0;
    assert(events_view(events@) =~= Seq::empty());
    while i < kinds.len()
        invariant
            i <= kinds.len(),
            events.len() == i,
            store@.wf(),
            store@ == with_told_datapoints(before, events_view(events@)),
            forall|k: int|
                0 <= k < i ==> tells_imported((#[trigger] events[k])@, dataset_id, kinds[k]@),
        decreases kinds.len() - i,
    {
        let dp = Datapoint::new(dataset_id, kinds[i].clone(), DatapointSource::FileUpload);
        let told = dp.clone();
        let ghost events_before = events_view(events@);
        store.save_datapoint(dp);
        events.push(SystemEvent::DatapointCreated { datapoint: told });
        proof {
            let after = events_view(events@);
            assert(after.drop_last() =~= events_before);
            assert(told_datapoint(after.last()) == told@);
        }
        i = i + 1;
    }
    let imported = kinds.len();
    Batch { status: CREATED, body: Some(ImportResponse { imported, dataset_id }), events }
}

/// What an import is answered with where it is turned away.
#[derive(Debug, PartialEq)]
pub enum ImportRefusal {
    /// The dataset is not held: 404.
    NoDataset,
    /// The file cannot be read: 400, with the reason.
    Unreadable(ImportError),
}

impl ImportRefusal {
    pub fn status_code(&self) -> (code: u16)
        ensures
            code == match *self {
                ImportRefusal::NoDataset => NOT_FOUND,
                ImportRefusal::Unreadable(_) => BAD_REQUEST,
            },
    {
        match self {
            ImportRefusal::NoDataset => NOT_FOUND,
            ImportRefusal::Unreadable(_) => BAD_REQUEST,
        }
    }

    pub fn message(&self) -> (s: String)
        ensures
            *self == ImportRefusal::NoDataset ==> s@ == "dataset not found"@,
    {
        match self {
            ImportRefusal::NoDataset => "dataset not found".to_owned(),
            ImportRefusal::Unreadable(e) => e.message(),
        }
    }
}

/// Imports one file into a dataset.  Where the dataset is not held, or
/// the file cannot be read, the store is as it was.
pub fn import_file(store: &mut PersistentStore, dataset_id: DatasetId, filename: &str, data: &[u8]) -> (r:
    Result<Batch<ImportResponse>, ImportRefusal>)
    requires
        old(store)@.wf(),
    ensures
        final(store)@.wf(),
        !old(store)@.datasets.contains_key(dataset_id) ==> r == Err::<
            Batch<ImportResponse>,
            ImportRefusal,
        >(ImportRefusal::NoDataset),
        old(store)@.datasets.contains_key(dataset_id) ==> (match file_import(filename@, data@) {
            Ok(kinds) => r matches Ok(b) && {
                &&& b.status == CREATED
                &&& b.body == Some(ImportResponse { imported: b.events.len(), dataset_id })
                &&& b.events.len() == kinds.len()
                &&& forall|k: int|
                    0 <= k < b.events.len() ==> tells_imported(
                        (#[trigger] b.events[k])@,
                        dataset_id,
                        kinds[k],
                    )
                &&& final(store)@ == with_told_datapoints(old(store)@, events_view(b.events@))
            },
            Err(e) => r matches Err(ImportRefusal::Unreadable(why)) && why@ == e,
        }),
        r.is_err() ==> final(store)@ == old(store)@,
{
    if store.get_dataset(dataset_id).is_none() {
        return Err(ImportRefusal::NoDataset);
    }
    match crate::api::import::parse_import(filename, data) {
        Ok(kinds) => {
            let b = import_datapoints(store, dataset_id, kinds);
            Ok(b)
        },
        Err(e) => Err(ImportRefusal::Unreadable(e)),
    }
}

/// The status of a request to hand in the labelling of a queue item: 404
/// where the item is not held, 409 where it is not claimed, else 200.
pub open spec fn submit_status(store: PersistentStoreView, id: QueueItemId) -> u16 {
    if !store.queue_items.contains_key(id) {
        NOT_FOUND
    } else if store.queue_items[id].status != QueueItemStatus::Claimed {
        CONFLICT
    } else {
        OK
    }
}

/// What edited data stand for as the content of a datapoint: what they
/// say where they tell their type, else what they are mapped to.
pub open spec fn relabelled_kind(edited: JsonView) -> DatapointKindView {
    match DatapointKindView::from_json(edited) {
        Some(kind) => kind,
        None => mapped(edited),
    }
}

/// The store after the datapoint of the claimed queue item `id` took the
/// edited data as its content.  Nothing changes where there are no edited
/// data or the datapoint is not held.
pub open spec fn relabelled(s: PersistentStoreView, id: QueueItemId, edited: Option<JsonView>) -> PersistentStoreView {
    let p = s.queue_items[id].datapoint_id;
    match edited {
        Some(data) if s.datapoints.contains_key(p) => with_datapoint(
            s,
            DatapointView { kind: relabelled_kind(data), ..s.datapoints[p] },
        ),
        _ => s,
    }
}

/// Hands in the labelling of a claimed queue item.  The answer is 404
/// where the item is not held and 409 where it is not claimed; the store
/// is as it was then.  Else the datapoint takes the edited data, where
/// there are any, the item completes, and the answer is 200 with the
/// item.
pub fn submit_queue_item(store: &mut PersistentStore, id: QueueItemId, edited_data: Option<Json>) -> (r:
    Reply<QueueItem>)
    requires
        old(store)@.wf(),
    ensures
        final(store)@.wf(),
        r.status == submit_status(old(store)@, id),
        r.status != OK ==> r.body.is_none() && r.event.is_none() && final(store)@ == old(store)@,
        r.status == OK ==> {
            &&& r.body.is_some()
            &&& r.body.unwrap()@ == old(store)@.queue_items[id].completed(opt_json(edited_data))
            &&& opt_event(r.event) == Some(
                SystemEventView::QueueItemUpdated { item: r.body.unwrap()@ },
            )
            &&& final(store)@ == relabelled(
                old(store)@,
                id,
                opt_json(edited_data),
            ).queue_item_completed(id, opt_json(edited_data))
        },
{
    let datapoint_id = match store.get_queue_item(id) {
        Some(item) => {
            match item.status {
                QueueItemStatus::Claimed => item.datapoint_id,
                _ => {
                    return Reply { status: CONFLICT, body: None, event: None };
                },
            }
        },
        None => {
            return Reply { status: NOT_FOUND, body: None, event: None };
        },
    };
    if let Some(edited) = &edited_data {
        let changed = match store.get_datapoint(datapoint_id) {
            Some(dp) => {
                let kind = match DatapointKind::from_json(edited) {
                    Some(kind) => kind,
                    None => crate::api::import::map_object_to_datapoint_kind(edited),
                };
                Some(
                    Datapoint {
                        id: dp.id,
                        dataset_id: dp.dataset_id,
                        kind,
                        source: dp.source,
                        source_span_id: dp.source_span_id,
                        created_at: dp.created_at,
                    },
                )
            },
            None => None,
        };
        if let Some(dp) = changed {
            store.save_datapoint(dp);
        }
    }
    match store.complete_queue_item(id, edited_data) {
        Some(item) => {
            let shown = item.clone();
            Reply {
                status: OK,
                body: Some(item),
                event: Some(SystemEvent::QueueItemUpdated { item: shown }),
            }
        },
        None => Reply { status: CONFLICT, body: None, event: None },
    }
}

} // verus!
