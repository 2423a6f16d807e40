use crate::clock::Timestamp;
use crate::json::{opt_json, Json};
use crate::storage::error::StorageError;
use crate::storage::filter::{FileFilter, SpanFilter};
use crate::storage::store::{SpanStore, SpanStoreView};
use crate::trace::entities::{
    Datapoint, DatapointView, Dataset, DatasetView, FileVersion, FileVersionView, QueueItem,
    QueueItemStatus, QueueItemView, Trace, TraceView,
};
use crate::trace::kind::SpanKind;
use crate::trace::span::{DatapointId, DatasetId, QueueItemId, Span, SpanId, SpanView, TraceId};
use std::collections::HashMap;
use vstd::prelude::*;
use vstd::std_specs::iter::IteratorSpec;

verus! {

broadcast use vstd::std_specs::hash::group_hash_axioms;

/// A write that the store owes its backend.  The store changes its memory
/// first and notes the write; whoever runs the backend carries the notes
/// out in order.  A write that fails is reported and not taken back.
#[derive(Debug, PartialEq)]
pub enum BackendOp {
    SaveSpan(Span),
    DeleteSpan(SpanId),
    DeleteTraceSpans(TraceId),
    DeleteTrace(TraceId),
    ClearSpans,
    SaveTrace(Trace),
    SaveFileVersion(FileVersion),
    SaveFileContent { hash: String, content: Vec<u8> },
    SaveDataset(Dataset),
    DeleteDataset(DatasetId),
    SaveDatapoint(Datapoint),
    DeleteDatapoint(DatapointId),
    SaveQueueItem(QueueItem),
}

/// The mathematical value of a [`BackendOp`].
pub enum BackendOpView {
    SaveSpan(SpanView),
    DeleteSpan(SpanId),
    DeleteTraceSpans(TraceId),
    DeleteTrace(TraceId),
    ClearSpans,
    SaveTrace(TraceView),
    SaveFileVersion(FileVersionView),
    SaveFileContent { hash: Seq<char>, content: Seq<u8> },
    SaveDataset(DatasetView),
    DeleteDataset(DatasetId),
    SaveDatapoint(DatapointView),
    DeleteDatapoint(DatapointId),
    SaveQueueItem(QueueItemView),
}

impl View for BackendOp {
    type V = BackendOpView;

    open spec fn view(&self) -> BackendOpView {
        match self {
            BackendOp::SaveSpan(s) => BackendOpView::SaveSpan(s@),
            BackendOp::DeleteSpan(id) => BackendOpView::DeleteSpan(*id),
            BackendOp::DeleteTraceSpans(id) => BackendOpView::DeleteTraceSpans(*id),
            BackendOp::DeleteTrace(id) => BackendOpView::DeleteTrace(*id),
            BackendOp::ClearSpans => BackendOpView::ClearSpans,
            BackendOp::SaveTrace(t) => BackendOpView::SaveTrace(t@),
            BackendOp::SaveFileVersion(v) => BackendOpView::SaveFileVersion(v@),
            BackendOp::SaveFileContent { hash, content } => BackendOpView::SaveFileContent {
                hash: hash@,
                content: content@,
            },
            BackendOp::SaveDataset(d) => BackendOpView::SaveDataset(d@),
            BackendOp::DeleteDataset(id) => BackendOpView::DeleteDataset(*id),
            BackendOp::SaveDatapoint(d) => BackendOpView::SaveDatapoint(d@),
            BackendOp::DeleteDatapoint(id) => BackendOpView::DeleteDatapoint(*id),
            BackendOp::SaveQueueItem(q) => BackendOpView::SaveQueueItem(q@),
        }
    }
}

/// The values of a list of writes.
pub open spec fn ops_view(ops: Seq<BackendOp>) -> Seq<BackendOpView> {
    Seq::new(ops.len(), |i: int| ops[i]@)
}

/// The values of the entities of a map.
pub open spec fn map_view<T: View>(m: Map<u128, T>) -> Map<u128, T::V> {
    Map::new(|id: u128| m.contains_key(id), |id: u128| m[id]@)
}

/// The values of a list of entities.
pub open spec fn list_view<T: View>(v: Seq<T>) -> Seq<T::V> {
    Seq::new(v.len(), |i: int| v[i]@)
}

/// The entries of a map: each once, in no particular order.
pub fn entries<T>(m: &HashMap<u128, T>) -> (r: Vec<(u128, &T)>)
    ensures
        forall|i: int| 0 <= i < r.len() ==> m@.contains_key(#[trigger] r[i].0) && m@[r[i].0] == *r[i].1,
        forall|id: u128| m@.contains_key(id) ==> exists|i: int| 0 <= i < r.len() && #[trigger] r[i].0 == id,
        forall|i: int, j: int| 0 <= i < j < r.len() ==> r[i].0 != r[j].0,
        r.len() == m@.dom().len(),
{
    let mut r: Vec<(u128, &T)> = Vec::new();
    let ghost pairs = m.iter().remaining();
    for pair in it: m.iter()
        invariant
            it.seq() == pairs,
            pairs == m.iter().remaining(),
            pairs.no_duplicates(),
            r@.len() == it.index(),
            forall|j: int| 0 <= j < r@.len() ==> r@[j].0 == *pairs[j].0 && r@[j].1 == pairs[j].1,
    {
        r.push((*pair.0, pair.1));
    }
    proof {
        assert forall|i: int| 0 <= i < r.len() implies m@.contains_key(#[trigger] r[i].0) && m@[r[i].0]
            == *r[i].1 by {
            assert(m@.contains_key(*pairs[i].0));
        }
        assert forall|id: u128| m@.contains_key(id) implies exists|i: int|
            0 <= i < r.len() && #[trigger] r[i].0 == id by {
            assert(pairs.contains((&id, &m@[id])));
            let i = choose|i: int| 0 <= i < pairs.len() && pairs[i] == (&id, &m@[id]);
            assert(r[i].0 == id);
        }
        assert forall|i: int, j: int| 0 <= i < j < r.len() implies r[i].0 != r[j].0 by {
            assert(m@.contains_key(*pairs[i].0));
            assert(m@.contains_key(*pairs[j].0));
            if r[i].0 == r[j].0 {
                assert(pairs[i] == pairs[j]);
            }
        }
    }
    r
}

/// Takes the entries named by `keys` out of a map.
pub fn remove_all<T>(m: &mut HashMap<u128, T>, keys: &Vec<u128>)
    ensures
        final(m)@ == old(m)@.remove_keys(keys@.to_set()),
{
    let ghost before = m@;
    let mut i: usize = 0;
    assert(m@ =~= before.remove_keys(keys@.subrange(0, 0).to_set()));
    while i < keys.len()
        invariant
            i <= keys.len(),
            m@ =~= before.remove_keys(keys@.subrange(0, i as int).to_set()),
        decreases keys.len() - i,
    {
        m.remove(&keys[i]);
        proof {
            let a = keys@.subrange(0, i as int);
            let b = keys@.subrange(0, i + 1);
            assert(b =~= a.push(keys@[i as int]));
            assert forall|x: u128| b.to_set().contains(x) <==> a.to_set().insert(
                keys@[i as int],
            ).contains(x) by {
                if b.to_set().contains(x) {
                    let k = choose|k: int| 0 <= k < b.len() && b[k] == x;
                    if k < a.len() {
                        assert(a[k] == x);
                    }
                }
                if a.to_set().contains(x) {
                    let k = choose|k: int| 0 <= k < a.len() && a[k] == x;
                    assert(b[k] == x);
                }
                if x == keys@[i as int] {
                    assert(b[i as int] == x);
                }
            }
            assert(b.to_set() =~= a.to_set().insert(keys@[i as int]));
        }
        i = i + 1;
    }
    assert(keys@.subrange(0, keys.len() as int) =~= keys@);
}

/// Everything the daemon holds in memory: the spans with their two
/// indexes, what is known of each trace, the file versions, the datasets
/// with their datapoints and queue items, and the writes that the backend
/// has not been handed yet.
pub struct PersistentStore {
    memory: SpanStore,
    trace_meta: HashMap<TraceId, Trace>,
    file_versions: Vec<FileVersion>,
    datasets: HashMap<DatasetId, Dataset>,
    datapoints: HashMap<DatapointId, Datapoint>,
    queue_items: HashMap<QueueItemId, QueueItem>,
    pending: Vec<BackendOp>,
}

/// The mathematical value of a [`PersistentStore`].
pub struct PersistentStoreView {
    pub memory: SpanStoreView,
    pub traces: Map<TraceId, TraceView>,
    pub file_versions: Seq<FileVersionView>,
    pub datasets: Map<DatasetId, DatasetView>,
    pub datapoints: Map<DatapointId, DatapointView>,
    pub queue_items: Map<QueueItemId, QueueItemView>,
    pub pending: Seq<BackendOpView>,
}

impl View for PersistentStore {
    type V = PersistentStoreView;

    closed spec fn view(&self) -> PersistentStoreView {
        PersistentStoreView {
            memory: self.memory@,
            traces: map_view(self.trace_meta@),
            file_versions: list_view(self.file_versions@),
            datasets: map_view(self.datasets@),
            datapoints: map_view(self.datapoints@),
            queue_items: map_view(self.queue_items@),
            pending: ops_view(self.pending@),
        }
    }
}

/// The span store that a list of spans fills, put in one after the other.
pub open spec fn spans_loaded(spans: Seq<SpanView>) -> SpanStoreView
    decreases spans.len(),
{
    if spans.len() == 0 {
        SpanStoreView::empty()
    } else {
        spans_loaded(spans.drop_last()).inserted(spans.last())
    }
}

/// The map that a list of traces fills; of two with one identifier the
/// later stays.
pub open spec fn traces_loaded(items: Seq<TraceView>) -> Map<TraceId, TraceView>
    decreases items.len(),
{
    if items.len() == 0 {
        Map::empty()
    } else {
        traces_loaded(items.drop_last()).insert(items.last().id, items.last())
    }
}

/// The map that a list of datasets fills.
pub open spec fn datasets_loaded(items: Seq<DatasetView>) -> Map<DatasetId, DatasetView>
    decreases items.len(),
{
    if items.len() == 0 {
        Map::empty()
    } else {
        datasets_loaded(items.drop_last()).insert(items.last().id, items.last())
    }
}

/// The map that a list of datapoints fills.
pub open spec fn datapoints_loaded(items: Seq<DatapointView>) -> Map<DatapointId, DatapointView>
    decreases items.len(),
{
    if items.len() == 0 {
        Map::empty()
    } else {
        datapoints_loaded(items.drop_last()).insert(items.last().id, items.last())
    }
}

/// The map that a list of queue items fills.
pub open spec fn queue_loaded(items: Seq<QueueItemView>) -> Map<QueueItemId, QueueItemView>
    decreases items.len(),
{
    if items.len() == 0 {
        Map::empty()
    } else {
        queue_loaded(items.drop_last()).insert(items.last().id, items.last())
    }
}

impl PersistentStoreView {
    /// The span indexes agree, and every trace, dataset, datapoint and
    /// queue item is held under its own identifier.
    pub open spec fn wf(self) -> bool {
        &&& self.memory.wf()
        &&& self.traces.dom().finite()
        &&& self.datasets.dom().finite()
        &&& self.datapoints.dom().finite()
        &&& self.queue_items.dom().finite()
        &&& forall|id: TraceId| #[trigger] self.traces.contains_key(id) ==> self.traces[id].id == id
        &&& forall|id: DatasetId| #[trigger]
            self.datasets.contains_key(id) ==> self.datasets[id].id == id
        &&& forall|id: DatapointId| #[trigger]
            self.datapoints.contains_key(id) ==> self.datapoints[id].id == id
        &&& forall|id: QueueItemId| #[trigger]
            self.queue_items.contains_key(id) ==> self.queue_items[id].id == id
    }

    /// The store with one more write noted.
    pub open spec fn noting(self, op: BackendOpView) -> PersistentStoreView {
        PersistentStoreView { pending: self.pending.push(op), ..self }
    }

    /// The store after `s` was put in and the write of it was noted.
    pub open spec fn with_span(self, s: SpanView) -> PersistentStoreView {
        PersistentStoreView { memory: self.memory.inserted(s), ..self }.noting(
            BackendOpView::SaveSpan(s),
        )
    }

    /// True when the span `id` is stored and still runs.
    pub open spec fn can_end(self, id: SpanId) -> bool {
        self.memory.spans.contains_key(id) && !self.memory.spans[id].is_terminal()
    }

    /// The store after a request to complete the span `id`: the span is
    /// completed and the write of it noted where it was running; nothing
    /// changes otherwise.
    pub open spec fn span_completed(
        self,
        id: SpanId,
        output: Option<crate::json::JsonView>,
        now: int,
    ) -> PersistentStoreView {
        if self.can_end(id) {
            self.with_span(self.memory.spans[id].completed(output, now))
        } else {
            self
        }
    }

    /// The store after a request to fail the span `id`.
    pub open spec fn span_failed(self, id: SpanId, error: Seq<char>, now: int) -> PersistentStoreView {
        if self.can_end(id) {
            self.with_span(self.memory.spans[id].failed(error, now))
        } else {
            self
        }
    }

    /// The store after a request to complete the span `id` as a span of
    /// another kind.
    pub open spec fn span_completed_as(
        self,
        id: SpanId,
        kind: crate::trace::kind::SpanKindView,
        output: Option<crate::json::JsonView>,
        now: int,
    ) -> PersistentStoreView {
        if self.can_end(id) {
            self.with_span(self.memory.spans[id].completed_as(kind, output, now))
        } else {
            self
        }
    }

    /// The store after a request to take the span `id` out.
    pub open spec fn span_deleted(self, id: SpanId) -> PersistentStoreView {
        if self.memory.spans.contains_key(id) {
            PersistentStoreView { memory: self.memory.deleted(id), ..self }.noting(
                BackendOpView::DeleteSpan(id),
            )
        } else {
            self
        }
    }

    /// The store after a request to take a trace out: its spans and what
    /// is known of it leave memory; the backend is told to drop the spans,
    /// where there were any, and the trace.
    pub open spec fn trace_deleted(self, t: TraceId) -> PersistentStoreView {
        let cleared = PersistentStoreView {
            memory: self.memory.without_trace(t),
            traces: self.traces.remove(t),
            ..self
        };
        if self.memory.span_ids_of(t).len() > 0 {
            cleared.noting(BackendOpView::DeleteTraceSpans(t)).noting(BackendOpView::DeleteTrace(t))
        } else {
            cleared.noting(BackendOpView::DeleteTrace(t))
        }
    }

    /// The store after everything was taken out.
    pub open spec fn cleared(self) -> PersistentStoreView {
        PersistentStoreView {
            memory: SpanStoreView::empty(),
            traces: Map::empty(),
            file_versions: Seq::empty(),
            datasets: Map::empty(),
            datapoints: Map::empty(),
            queue_items: Map::empty(),
            pending: self.pending.push(BackendOpView::ClearSpans),
        }
    }

    /// The number of traces: those that are known of, or, where none is,
    /// those that have spans.
    pub open spec fn trace_count(self) -> nat {
        if self.traces.dom().len() == 0 {
            self.memory.traces.dom().len()
        } else {
            self.traces.dom().len()
        }
    }

    /// The datapoints of a dataset.
    pub open spec fn datapoints_of(self, d: DatasetId) -> Set<DatapointId> {
        Set::new(|id: DatapointId| self.datapoints.contains_key(id) && self.datapoints[id].dataset_id == d)
    }

    /// The queue items of a dataset.
    pub open spec fn queue_of(self, d: DatasetId) -> Set<QueueItemId> {
        Set::new(|id: QueueItemId| self.queue_items.contains_key(id) && self.queue_items[id].dataset_id == d)
    }

    /// The queue items of a datapoint.
    pub open spec fn queue_of_datapoint(self, p: DatapointId) -> Set<QueueItemId> {
        Set::new(|id: QueueItemId| self.queue_items.contains_key(id) && self.queue_items[id].datapoint_id == p)
    }

    /// The store after a request to take a dataset out: the dataset goes
    /// with its datapoints and queue items.
    pub open spec fn dataset_deleted(self, d: DatasetId) -> PersistentStoreView {
        if self.datasets.contains_key(d) {
            PersistentStoreView {
                datasets: self.datasets.remove(d),
                datapoints: self.datapoints.remove_keys(self.datapoints_of(d)),
                queue_items: self.queue_items.remove_keys(self.queue_of(d)),
                ..self
            }.noting(BackendOpView::DeleteDataset(d))
        } else {
            self
        }
    }

    /// The store after a request to take a datapoint out: the datapoint
    /// goes with its queue items.
    pub open spec fn datapoint_deleted(self, p: DatapointId) -> PersistentStoreView {
        if self.datapoints.contains_key(p) {
            PersistentStoreView {
                datapoints: self.datapoints.remove(p),
                queue_items: self.queue_items.remove_keys(self.queue_of_datapoint(p)),
                ..self
            }.noting(BackendOpView::DeleteDatapoint(p))
        } else {
            self
        }
    }

    /// The store after `q` was put in the place of the queue item of its
    /// identifier and the write of it was noted.
    pub open spec fn with_queue_item(self, q: QueueItemView) -> PersistentStoreView {
        PersistentStoreView { queue_items: self.queue_items.insert(q.id, q), ..self }.noting(
            BackendOpView::SaveQueueItem(q),
        )
    }

    /// True when the queue item `id` is held and has the status `status`.
    pub open spec fn queue_item_is(self, id: QueueItemId, status: QueueItemStatus) -> bool {
        self.queue_items.contains_key(id) && self.queue_items[id].status == status
    }

    /// The store after a request to claim a queue item: a pending item
    /// becomes claimed; nothing changes otherwise.
    pub open spec fn queue_item_claimed(self, id: QueueItemId, by: Seq<char>, now: int) -> PersistentStoreView {
        if self.queue_item_is(id, QueueItemStatus::Pending) {
            self.with_queue_item(self.queue_items[id].claimed(by, now))
        } else {
            self
        }
    }

    /// The store after a request to complete a queue item: a claimed item
    /// becomes completed; nothing changes otherwise.
    pub open spec fn queue_item_completed(
        self,
        id: QueueItemId,
        edited: Option<crate::json::JsonView>,
    ) -> PersistentStoreView {
        if self.queue_item_is(id, QueueItemStatus::Claimed) {
            self.with_queue_item(self.queue_items[id].completed(edited))
        } else {
            self
        }
    }
}

/// A store filled from a list of spans, each of which knows its end
/// exactly when it has ended, has indexes that agree.
pub proof fn lemma_spans_loaded_wf(spans: Seq<SpanView>)
    requires
        forall|i: int| 0 <= i < spans.len() ==> (#[trigger] spans[i]).consistent(),
    ensures
        spans_loaded(spans).wf(),
    decreases spans.len(),
{
    if spans.len() > 0 {
        assert forall|i: int| 0 <= i < spans.drop_last().len() implies (#[trigger] spans.drop_last()[i]).consistent() by {
            assert(spans.drop_last()[i] == spans[i]);
        }
        lemma_spans_loaded_wf(spans.drop_last());
        crate::storage::store::lemma_inserted_wf(spans_loaded(spans.drop_last()), spans.last());
    }
}

/// The file versions of a list that a filter matches, in their order.
pub open spec fn files_matching(files: Seq<FileVersionView>, f: crate::storage::filter::FileFilterView) -> Seq<FileVersionView>
    decreases files.len(),
{
    if files.len() == 0 {
        Seq::empty()
    } else if f.matches(files.last()) {
        files_matching(files.drop_last(), f).push(files.last())
    } else {
        files_matching(files.drop_last(), f)
    }
}

/// The file versions of a list that belong to a path, in their order.
pub open spec fn files_at(files: Seq<FileVersionView>, path: Seq<char>) -> Seq<FileVersionView>
    decreases files.len(),
{
    if files.len() == 0 {
        Seq::empty()
    } else if files.last().path == path {
        files_at(files.drop_last(), path).push(files.last())
    } else {
        files_at(files.drop_last(), path)
    }
}

/// The values of a list of borrowed entities.
pub open spec fn refs_view<T: View>(v: Seq<&T>) -> Seq<T::V> {
    Seq::new(v.len(), |i: int| v[i]@)
}

fn load_traces(items: Vec<Trace>) -> (m: HashMap<TraceId, Trace>)
    ensures
        map_view(m@) == traces_loaded(list_view(items@)),
{
    let mut m: HashMap<TraceId, Trace> = HashMap::new();
    let ghost all = list_view(items@);
    let ghost mut n: int = 0;
    assert(map_view(m@) =~= traces_loaded(all.take(0)));
    for item in it: items
        invariant
            n == it.index(),
            it.seq() == items@,
            all == list_view(items@),
            map_view(m@) == traces_loaded(all.take(n)),
    {
        proof {
            assert(all.take(n + 1).drop_last() =~= all.take(n));
            assert(all.take(n + 1).last() == item@);
        }
        let ghost before = m@;
        m.insert(item.id, item);
        proof {
            assert(map_view(m@) =~= map_view(before).insert(item@.id, item@));
            n = n + 1;
        }
    }
    assert(all.take(n) =~= all);
    m
}

fn load_datasets(items: Vec<Dataset>) -> (m: HashMap<DatasetId, Dataset>)
    ensures
        map_view(m@) == datasets_loaded(list_view(items@)),
{
    let mut m: HashMap<DatasetId, Dataset> = HashMap::new();
    let ghost all = list_view(items@);
    let ghost mut n: int = 0;
    assert(map_view(m@) =~= datasets_loaded(all.take(0)));
    for item in it: items
        invariant
            n == it.index(),
            it.seq() == items@,
            all == list_view(items@),
            map_view(m@) == datasets_loaded(all.take(n)),
    {
        proof {
            assert(all.take(n + 1).drop_last() =~= all.take(n));
            assert(all.take(n + 1).last() == item@);
        }
        let ghost before = m@;
        m.insert(item.id, item);
        proof {
            assert(map_view(m@) =~= map_view(before).insert(item@.id, item@));
            n = n + 1;
        }
    }
    assert(all.take(n) =~= all);
    m
}

fn load_datapoints(items: Vec<Datapoint>) -> (m: HashMap<DatapointId, Datapoint>)
    ensures
        map_view(m@) == datapoints_loaded(list_view(items@)),
{
    let mut m: HashMap<DatapointId, Datapoint> = HashMap::new();
    let ghost all = list_view(items@);
    let ghost mut n: int = 0;
    assert(map_view(m@) =~= datapoints_loaded(all.take(0)));
    for item in it: items
        invariant
            n == it.index(),
            it.seq() == items@,
            all == list_view(items@),
            map_view(m@) == datapoints_loaded(all.take(n)),
    {
        proof {
            assert(all.take(n + 1).drop_last() =~= all.take(n));
            assert(all.take(n + 1).last() == item@);
        }
        let ghost before = m@;
        m.insert(item.id, item);
        proof {
            assert(map_view(m@) =~= map_view(before).insert(item@.id, item@));
            n = n + 1;
        }
    }
    assert(all.take(n) =~= all);
    m
}

fn load_queue(items: Vec<QueueItem>) -> (m: HashMap<QueueItemId, QueueItem>)
    ensures
        map_view(m@) == queue_loaded(list_view(items@)),
{
    let mut m: HashMap<QueueItemId, QueueItem> = HashMap::new();
    let ghost all = list_view(items@);
    let ghost mut n: int = 0;
    assert(map_view(m@) =~= queue_loaded(all.take(0)));
    for item in it: items
        invariant
            n == it.index(),
            it.seq() == items@,
            all == list_view(items@),
            map_view(m@) == queue_loaded(all.take(n)),
    {
        proof {
            assert(all.take(n + 1).drop_last() =~= all.take(n));
            assert(all.take(n + 1).last() == item@);
        }
        let ghost before = m@;
        m.insert(item.id, item);
        proof {
            assert(map_view(m@) =~= map_view(before).insert(item@.id, item@));
            n = n + 1;
        }
    }
    assert(all.take(n) =~= all);
    m
}

fn load_spans(items: Vec<Span>) -> (m: SpanStore)
    ensures
        m@ == spans_loaded(list_view(items@)),
        m@.wf(),
{
    let mut m = SpanStore::new();
    let ghost all = list_view(items@);
    let ghost mut n: int = 0;
    assert(all.take(0) =~= Seq::empty());
    for item in it: items
        invariant
            n == it.index(),
            it.seq() == items@,
            all == list_view(items@),
            m@ == spans_loaded(all.take(n)),
            m@.wf(),
    {
        proof {
            assert(all.take(n + 1).drop_last() =~= all.take(n));
            assert(all.take(n + 1).last() == item@);
        }
        m.insert(item);
        proof {
            n = n + 1;
        }
    }
    assert(all.take(n) =~= all);
    m
}

proof fn lemma_traces_loaded_keys(items: Seq<TraceView>)
    ensures
        traces_loaded(items).dom().finite(),
        forall|id: TraceId| #[trigger]
            traces_loaded(items).contains_key(id) ==> traces_loaded(items)[id].id == id,
    decreases items.len(),
{
    if items.len() > 0 {
        lemma_traces_loaded_keys(items.drop_last());
    }
}

proof fn lemma_datasets_loaded_keys(items: Seq<DatasetView>)
    ensures
        datasets_loaded(items).dom().finite(),
        forall|id: DatasetId| #[trigger]
            datasets_loaded(items).contains_key(id) ==> datasets_loaded(items)[id].id == id,
    decreases items.len(),
{
    if items.len() > 0 {
        lemma_datasets_loaded_keys(items.drop_last());
    }
}

proof fn lemma_datapoints_loaded_keys(items: Seq<DatapointView>)
    ensures
        datapoints_loaded(items).dom().finite(),
        forall|id: DatapointId| #[trigger]
            datapoints_loaded(items).contains_key(id) ==> datapoints_loaded(items)[id].id == id,
    decreases items.len(),
{
    if items.len() > 0 {
        lemma_datapoints_loaded_keys(items.drop_last());
    }
}

proof fn lemma_queue_loaded_keys(items: Seq<QueueItemView>)
    ensures
        queue_loaded(items).dom().finite(),
        forall|id: QueueItemId| #[trigger]
            queue_loaded(items).contains_key(id) ==> queue_loaded(items)[id].id == id,
    decreases items.len(),
{
    if items.len() > 0 {
        lemma_queue_loaded_keys(items.drop_last());
    }
}

impl PersistentStore {
    /// The store that holds what a backend handed over at the start, with
    /// no write owed.
    pub fn from_loaded(
        spans: Vec<Span>,
        traces: Vec<Trace>,
        file_versions: Vec<FileVersion>,
        datasets: Vec<Dataset>,
        datapoints: Vec<Datapoint>,
        queue_items: Vec<QueueItem>,
    ) -> (s: PersistentStore)
        ensures
            s@ == (PersistentStoreView {
                memory: spans_loaded(list_view(spans@)),
                traces: traces_loaded(list_view(traces@)),
                file_versions: list_view(file_versions@),
                datasets: datasets_loaded(list_view(datasets@)),
                datapoints: datapoints_loaded(list_view(datapoints@)),
                queue_items: queue_loaded(list_view(queue_items@)),
                pending: Seq::empty(),
            }),
            s@.wf(),
    {
        proof {
            lemma_traces_loaded_keys(list_view(traces@));
            lemma_datasets_loaded_keys(list_view(datasets@));
            lemma_datapoints_loaded_keys(list_view(datapoints@));
            lemma_queue_loaded_keys(list_view(queue_items@));
        }
        let s = PersistentStore {
            memory: load_spans(spans),
            trace_meta: load_traces(traces),
            file_versions,
            datasets: load_datasets(datasets),
            datapoints: load_datapoints(datapoints),
            queue_items: load_queue(queue_items),
            pending: Vec::new(),
        };
        assert(s@.pending =~= Seq::empty());
        s
    }

    /// The writes that are owed to the backend, oldest first; the store
    /// owes none after this.
    pub fn take_pending(&mut self) -> (ops: Vec<BackendOp>)
        ensures
            ops_view(ops@) == old(self)@.pending,
            final(self)@ == (PersistentStoreView { pending: Seq::empty(), ..old(self)@ }),
    {
        let mut ops: Vec<BackendOp> = Vec::new();
        std::mem::swap(&mut ops, &mut self.pending);
        assert(self@.pending =~= Seq::empty());
        ops
    }

    /// Notes a write.
    fn note(&mut self, op: BackendOp)
        ensures
            final(self)@ == old(self)@.noting(op@),
    {
        self.pending.push(op);
        assert(self@.pending =~= old(self)@.pending.push(op@));
    }

    /// Puts `span` in and notes the write of it.
    pub fn insert(&mut self, span: Span) -> (id: SpanId)
        requires
            old(self)@.wf(),
        ensures
            final(self)@ == old(self)@.with_span(span@),
            final(self)@.wf(),
            id == span@.id,
    {
        let copy = span.clone();
        let id = self.memory.insert(span);
        self.note(BackendOp::SaveSpan(copy));
        id
    }

    /// The span `id`, if it is stored.  A stored span knows its end
    /// exactly when it has ended.
    pub fn get(&self, id: SpanId) -> (r: Option<&Span>)
        ensures
            match r {
                Some(s) => self@.memory.spans.contains_key(id) && self@.memory.spans[id] == s@
                    && s@.consistent(),
                None => !self@.memory.spans.contains_key(id),
            },
    {
        self.memory.get(id)
    }

    /// The identifiers of the spans of a trace, in the order in which they
    /// came: exactly the stored spans whose trace it is, each once.
    pub fn spans_for_trace(&self, trace_id: TraceId) -> (r: Vec<SpanId>)
        requires
            self@.wf(),
        ensures
            r@ == self@.memory.span_ids_of(trace_id),
            r@.to_set() == self@.memory.members(trace_id),
            r@.no_duplicates(),
    {
        self.memory.spans_for_trace(trace_id)
    }

    /// The traces that have spans, each once.
    pub fn span_trace_ids(&self) -> (r: Vec<TraceId>)
        ensures
            r@.to_set() == self@.memory.traces.dom(),
            r@.no_duplicates(),
    {
        self.memory.trace_ids()
    }

    /// Every stored span, each once, in no particular order.
    pub fn all_spans(&self) -> (r: Vec<&Span>)
        requires
            self@.wf(),
        ensures
            forall|i: int|
                0 <= i < r.len() ==> self@.memory.spans.contains_key(#[trigger] r[i]@.id)
                    && self@.memory.spans[r[i]@.id] == r[i]@,
            forall|id: SpanId|
                self@.memory.spans.contains_key(id) ==> exists|i: int|
                    0 <= i < r.len() && #[trigger] r[i]@.id == id,
            forall|i: int, j: int| 0 <= i < j < r.len() ==> r[i]@.id != r[j]@.id,
            r.len() == self@.memory.spans.dom().len(),
    {
        self.memory.all_spans()
    }

    /// The number of stored spans.
    pub fn span_count(&self) -> (n: usize)
        ensures
            n == self@.memory.spans.dom().len(),
    {
        self.memory.span_count()
    }

    /// The number of traces: those that are known of, or, where none is,
    /// those that have spans.
    pub fn trace_count(&self) -> (n: usize)
        ensures
            n == self@.trace_count(),
    {
        assert(self@.traces.dom() =~= self.trace_meta@.dom());
        if self.trace_meta.len() == 0 {
            self.memory.trace_count()
        } else {
            self.trace_meta.len()
        }
    }

    /// The stored spans that `filter` matches: each of them once and no
    /// other.
    pub fn filter_spans(&self, filter: &SpanFilter) -> (r: Vec<&Span>)
        requires
            self@.wf(),
        ensures
            forall|i: int|
                0 <= i < r.len() ==> self@.memory.matching(filter@).contains(#[trigger] r[i]@.id)
                    && self@.memory.spans[r[i]@.id] == r[i]@,
            forall|id: SpanId|
                self@.memory.matching(filter@).contains(id) ==> exists|i: int|
                    0 <= i < r.len() && #[trigger] r[i]@.id == id,
            forall|i: int, j: int| 0 <= i < j < r.len() ==> r[i]@.id != r[j]@.id,
    {
        self.memory.filter_spans(filter)
    }

    /// Puts `next` in the place of a stored span of the same identifier
    /// and trace, notes the write and hands a copy back.
    fn transition(&mut self, next: Span) -> (r: Span)
        requires
            old(self)@.wf(),
        ensures
            final(self)@ == old(self)@.with_span(next@),
            final(self)@.wf(),
            r@ == next@,
    {
        let stored = next.clone();
        let noted = next.clone();
        self.memory.replace(stored);
        self.note(BackendOp::SaveSpan(noted));
        next
    }

    /// Completes the span `id` at the instant `now`.  A span that is not
    /// stored, or that has ended, stays as it is and `None` comes back.
    pub fn complete_span_at(&mut self, id: SpanId, output: Option<Json>, now: Timestamp) -> (r:
        Option<Span>)
        requires
            old(self)@.wf(),
        ensures
            final(self)@.wf(),
            final(self)@ == old(self)@.span_completed(id, opt_json(output), now@),
            r.is_some() == old(self)@.can_end(id),
            r.is_some() ==> r.unwrap()@ == old(self)@.memory.spans[id].completed(
                opt_json(output),
                now@,
            ),
    {
        let span = match self.memory.get(id) {
            Some(s) => s.clone(),
            None => {
                return None;
            },
        };
        if span.status().is_terminal() {
            return None;
        }
        let done = span.complete_at(output, now);
        Some(self.transition(done))
    }

    /// Completes the span `id`, now.
    pub fn complete_span(&mut self, id: SpanId, output: Option<Json>) -> (r: Option<Span>)
        requires
            old(self)@.wf(),
        ensures
            final(self)@.wf(),
            exists|now: int| final(self)@ == old(self)@.span_completed(id, opt_json(output), now),
            r.is_some() == old(self)@.can_end(id),
            r.is_some() ==> final(self)@.memory.spans.contains_key(id)
                && final(self)@.memory.spans[id] == r.unwrap()@,
    {
        let now = crate::clock::now();
        let ghost before = self@;
        let r = self.complete_span_at(id, output, now);
        proof {
            if r.is_some() {
                assert(self@.memory.spans.contains_key(id));
            }
        }
        r
    }

    /// Completes the span `id` at the instant `now` as a span of the kind
    /// `kind`.  After a span has ended its kind stays as it is.
    pub fn complete_span_with_kind_at(
        &mut self,
        id: SpanId,
        kind: SpanKind,
        output: Option<Json>,
        now: Timestamp,
    ) -> (r: Option<Span>)
        requires
            old(self)@.wf(),
        ensures
            final(self)@.wf(),
            final(self)@ == old(self)@.span_completed_as(id, kind@, opt_json(output), now@),
            r.is_some() == old(self)@.can_end(id),
            r.is_some() ==> r.unwrap()@ == old(self)@.memory.spans[id].completed_as(
                kind@,
                opt_json(output),
                now@,
            ),
    {
        let span = match self.memory.get(id) {
            Some(s) => s.clone(),
            None => {
                return None;
            },
        };
        if span.status().is_terminal() {
            return None;
        }
        let done = span.complete_with_kind_at(kind, output, now);
        Some(self.transition(done))
    }

    /// Completes the span `id`, now, as a span of the kind `kind`.
    pub fn complete_span_with_kind(&mut self, id: SpanId, kind: SpanKind, output: Option<Json>) -> (r:
        Option<Span>)
        requires
            old(self)@.wf(),
        ensures
            final(self)@.wf(),
            exists|now: int|
                final(self)@ == old(self)@.span_completed_as(id, kind@, opt_json(output), now),
            r.is_some() == old(self)@.can_end(id),
            r.is_some() ==> final(self)@.memory.spans.contains_key(id)
                && final(self)@.memory.spans[id] == r.unwrap()@,
    {
        let now = crate::clock::now();
        let r = self.complete_span_with_kind_at(id, kind, output, now);
        proof {
            if r.is_some() {
                assert(self@.memory.spans.contains_key(id));
            }
        }
        r
    }

    /// Fails the span `id` at the instant `now`.  A span that is not
    /// stored, or that has ended, stays as it is and `None` comes back.
    pub fn fail_span_at(&mut self, id: SpanId, error: String, now: Timestamp) -> (r: Option<Span>)
        requires
            old(self)@.wf(),
        ensures
            final(self)@.wf(),
            final(self)@ == old(self)@.span_failed(id, error@, now@),
            r.is_some() == old(self)@.can_end(id),
            r.is_some() ==> r.unwrap()@ == old(self)@.memory.spans[id].failed(error@, now@),
    {
        let span = match self.memory.get(id) {
            Some(s) => s.clone(),
            None => {
                return None;
            },
        };
        if span.status().is_terminal() {
            return None;
        }
        let done = span.fail_at(error, now);
        Some(self.transition(done))
    }

    /// Fails the span `id`, now.
    pub fn fail_span(&mut self, id: SpanId, error: String) -> (r: Option<Span>)
        requires
            old(self)@.wf(),
        ensures
            final(self)@.wf(),
            exists|now: int| final(self)@ == old(self)@.span_failed(id, error@, now),
            r.is_some() == old(self)@.can_end(id),
            r.is_some() ==> final(self)@.memory.spans.contains_key(id)
                && final(self)@.memory.spans[id] == r.unwrap()@,
    {
        let now = crate::clock::now();
        let r = self.fail_span_at(id, error, now);
        proof {
            if r.is_some() {
                assert(self@.memory.spans.contains_key(id));
            }
        }
        r
    }

    /// Takes the span `id` out; true when it was stored.
    pub fn delete_span(&mut self, id: SpanId) -> (r: bool)
        requires
            old(self)@.wf(),
        ensures
            final(self)@.wf(),
            final(self)@ == old(self)@.span_deleted(id),
            r == old(self)@.memory.spans.contains_key(id),
    {
        if self.memory.delete_span(id) {
            self.note(BackendOp::DeleteSpan(id));
            true
        } else {
            false
        }
    }

    /// Takes a trace out with its spans and with what is known of it, and
    /// returns how many spans it had.
    pub fn delete_trace(&mut self, trace_id: TraceId) -> (n: usize)
        requires
            old(self)@.wf(),
        ensures
            final(self)@.wf(),
            final(self)@ == old(self)@.trace_deleted(trace_id),
            n == old(self)@.memory.span_ids_of(trace_id).len(),
    {
        let ghost before = self@;
        let n = self.memory.delete_trace(trace_id);
        self.trace_meta.remove(&trace_id);
        assert(map_view(self.trace_meta@) =~= before.traces.remove(trace_id));
        if n > 0 {
            self.note(BackendOp::DeleteTraceSpans(trace_id));
        }
        self.note(BackendOp::DeleteTrace(trace_id));
        n
    }

    /// Takes everything out, and notes that the backend is to drop its
    /// spans.
    pub fn clear(&mut self)
        ensures
            final(self)@ == old(self)@.cleared(),
            final(self)@.wf(),
    {
        self.memory.clear();
        self.trace_meta.clear();
        self.file_versions.clear();
        self.datasets.clear();
        self.datapoints.clear();
        self.queue_items.clear();
        self.note(BackendOp::ClearSpans);
        assert(self@.traces =~= Map::empty());
        assert(self@.datasets =~= Map::empty());
        assert(self@.datapoints =~= Map::empty());
        assert(self@.queue_items =~= Map::empty());
        assert(self@.file_versions =~= Seq::empty());
    }

    /// Keeps what is known of a trace, in the place of what was known of
    /// it, and notes the write.
    pub fn save_trace(&mut self, trace: Trace)
        requires
            old(self)@.wf(),
        ensures
            final(self)@.wf(),
            final(self)@ == (PersistentStoreView {
                traces: old(self)@.traces.insert(trace@.id, trace@),
                ..old(self)@
            }).noting(BackendOpView::SaveTrace(trace@)),
    {
        let ghost before = self@;
        let copy = trace.clone();
        self.trace_meta.insert(trace.id, trace);
        assert(map_view(self.trace_meta@) =~= before.traces.insert(trace@.id, trace@));
        self.note(BackendOp::SaveTrace(copy));
    }

    /// What is known of the trace `id`.
    pub fn get_trace(&self, id: TraceId) -> (r: Option<&Trace>)
        ensures
            match r {
                Some(t) => self@.traces.contains_key(id) && self@.traces[id] == t@,
                None => !self@.traces.contains_key(id),
            },
    {
        self.trace_meta.get(&id)
    }

    /// Every trace that is known of, each once, in no particular order.
    pub fn all_traces(&self) -> (r: Vec<&Trace>)
        requires
            self@.wf(),
        ensures
            forall|i: int|
                0 <= i < r.len() ==> self@.traces.contains_key(#[trigger] r[i]@.id)
                    && self@.traces[r[i]@.id] == r[i]@,
            forall|id: TraceId|
                self@.traces.contains_key(id) ==> exists|i: int|
                    0 <= i < r.len() && #[trigger] r[i]@.id == id,
            forall|i: int, j: int| 0 <= i < j < r.len() ==> r[i]@.id != r[j]@.id,
    {
        let all = entries(&self.trace_meta);
        let mut r: Vec<&Trace> = Vec::new();
        let mut k: usize = 0;
        while k < all.len()
            invariant
                k <= all.len(),
                r.len() == k,
                forall|i: int| 0 <= i < k ==> r[i] == all[i].1,
            decreases all.len() - k,
        {
            r.push(all[k].1);
            k = k + 1;
        }
        proof {
            assert forall|i: int| 0 <= i < r.len() implies self@.traces.contains_key(
                #[trigger] r[i]@.id,
            ) && self@.traces[r[i]@.id] == r[i]@ by {
                assert(self.trace_meta@.contains_key(all[i].0));
                assert(self@.traces.contains_key(all[i].0));
            }
            assert forall|id: TraceId| self@.traces.contains_key(id) implies exists|i: int|
                0 <= i < r.len() && #[trigger] r[i]@.id == id by {
                assert(self.trace_meta@.contains_key(id));
                let i = choose|i: int| 0 <= i < all.len() && #[trigger] all[i].0 == id;
                assert(self@.traces.contains_key(all[i].0));
                assert(r[i]@.id == id);
            }
            assert forall|i: int, j: int| 0 <= i < j < r.len() implies r[i]@.id != r[j]@.id by {
                assert(self@.traces.contains_key(all[i].0));
                assert(self@.traces.contains_key(all[j].0));
            }
        }
        r
    }
}

impl PersistentStore {
    /// Keeps a file version, after those that are kept, and notes the
    /// write.
    pub fn save_file_version(&mut self, version: FileVersion)
        ensures
            final(self)@ == (PersistentStoreView {
                file_versions: old(self)@.file_versions.push(version@),
                ..old(self)@
            }).noting(BackendOpView::SaveFileVersion(version@)),
    {
        let ghost before = self@;
        let copy = version.clone();
        self.file_versions.push(version);
        assert(list_view(self.file_versions@) =~= before.file_versions.push(version@));
        self.note(BackendOp::SaveFileVersion(copy));
    }

    /// Notes that the backend is to keep `content` under `hash`, unless
    /// it keeps something under that hash already.
    pub fn save_file_content(&mut self, hash: &str, content: &[u8])
        ensures
            final(self)@ == old(self)@.noting(
                BackendOpView::SaveFileContent { hash: hash@, content: content@ },
            ),
    {
        let h = hash.to_owned();
        let c = vstd::slice::slice_to_vec(content);
        self.note(BackendOp::SaveFileContent { hash: h, content: c });
    }

    /// The file versions that `filter` matches, in the order in which
    /// they were kept.
    pub fn list_files(&self, filter: &FileFilter) -> (r: Vec<&FileVersion>)
        ensures
            refs_view(r@) == files_matching(self@.file_versions, filter@),
    {
        let mut r: Vec<&FileVersion> = Vec::new();
        let ghost all = list_view(self.file_versions@);
        let mut i: usize = 0;
        assert(refs_view(r@) =~= files_matching(all.take(0), filter@));
        while i < self.file_versions.len()
            invariant
                i <= self.file_versions.len(),
                all == list_view(self.file_versions@),
                refs_view(r@) == files_matching(all.take(i as int), filter@),
            decreases self.file_versions.len() - i,
        {
            let v = &self.file_versions[i];
            proof {
                assert(all.take(i + 1).drop_last() =~= all.take(i as int));
                assert(all.take(i + 1).last() == v@);
            }
            if filter.matches(v) {
                let ghost before = refs_view(r@);
                r.push(v);
                assert(refs_view(r@) =~= before.push(v@));
            }
            i = i + 1;
        }
        assert(all.take(i as int) =~= all);
        r
    }

    /// The versions of the file at `path`, in the order in which they
    /// were kept.
    pub fn get_file_versions(&self, path: &str) -> (r: Vec<&FileVersion>)
        ensures
            refs_view(r@) == files_at(self@.file_versions, path@),
    {
        let mut r: Vec<&FileVersion> = Vec::new();
        let ghost all = list_view(self.file_versions@);
        let mut i: usize = 0;
        assert(refs_view(r@) =~= files_at(all.take(0), path@));
        while i < self.file_versions.len()
            invariant
                i <= self.file_versions.len(),
                all == list_view(self.file_versions@),
                refs_view(r@) == files_at(all.take(i as int), path@),
            decreases self.file_versions.len() - i,
        {
            let v = &self.file_versions[i];
            proof {
                assert(all.take(i + 1).drop_last() =~= all.take(i as int));
                assert(all.take(i + 1).last() == v@);
            }
            if crate::text::same_text(v.path.as_str(), path) {
                let ghost before = refs_view(r@);
                r.push(v);
                assert(refs_view(r@) =~= before.push(v@));
            }
            i = i + 1;
        }
        assert(all.take(i as int) =~= all);
        r
    }

    /// Keeps a dataset, in the place of the dataset of its identifier,
    /// and notes the write.
    pub fn save_dataset(&mut self, dataset: Dataset)
        requires
            old(self)@.wf(),
        ensures
            final(self)@.wf(),
            final(self)@ == (PersistentStoreView {
                datasets: old(self)@.datasets.insert(dataset@.id, dataset@),
                ..old(self)@
            }).noting(BackendOpView::SaveDataset(dataset@)),
    {
        let ghost before = self@;
        let copy = dataset.clone();
        self.datasets.insert(dataset.id, dataset);
        assert(map_view(self.datasets@) =~= before.datasets.insert(dataset@.id, dataset@));
        self.note(BackendOp::SaveDataset(copy));
    }

    /// The dataset `id`, if it is held.
    pub fn get_dataset(&self, id: DatasetId) -> (r: Option<&Dataset>)
        ensures
            match r {
                Some(d) => self@.datasets.contains_key(id) && self@.datasets[id] == d@,
                None => !self@.datasets.contains_key(id),
            },
    {
        self.datasets.get(&id)
    }

    /// Every dataset, each once, in no particular order.
    pub fn all_datasets(&self) -> (r: Vec<&Dataset>)
        requires
            self@.wf(),
        ensures
            forall|i: int|
                0 <= i < r.len() ==> self@.datasets.contains_key(#[trigger] r[i]@.id)
                    && self@.datasets[r[i]@.id] == r[i]@,
            forall|id: DatasetId|
                self@.datasets.contains_key(id) ==> exists|i: int|
                    0 <= i < r.len() && #[trigger] r[i]@.id == id,
            forall|i: int, j: int| 0 <= i < j < r.len() ==> r[i]@.id != r[j]@.id,
    {
        let all = entries(&self.datasets);
        let mut r: Vec<&Dataset> = Vec::new();
        let mut k: usize = 0;
        while k < all.len()
            invariant
                k <= all.len(),
                r.len() == k,
                forall|i: int| 0 <= i < k ==> r[i] == all[i].1,
            decreases all.len() - k,
        {
            r.push(all[k].1);
            k = k + 1;
        }
        proof {
            assert forall|i: int| 0 <= i < r.len() implies self@.datasets.contains_key(
                #[trigger] r[i]@.id,
            ) && self@.datasets[r[i]@.id] == r[i]@ by {
                assert(self.datasets@.contains_key(all[i].0));
                assert(self@.datasets.contains_key(all[i].0));
            }
            assert forall|id: DatasetId| self@.datasets.contains_key(id) implies exists|i: int|
                0 <= i < r.len() && #[trigger] r[i]@.id == id by {
                assert(self.datasets@.contains_key(id));
                let i = choose|i: int| 0 <= i < all.len() && #[trigger] all[i].0 == id;
                assert(self@.datasets.contains_key(all[i].0));
                assert(r[i]@.id == id);
            }
            assert forall|i: int, j: int| 0 <= i < j < r.len() implies r[i]@.id != r[j]@.id by {
                assert(self@.datasets.contains_key(all[i].0));
                assert(self@.datasets.contains_key(all[j].0));
            }
        }
        r
    }

    /// The identifiers of the datapoints of a dataset.
    fn datapoint_ids_of(&self, dataset_id: DatasetId) -> (keys: Vec<DatapointId>)
        ensures
            keys@.to_set() == self@.datapoints_of(dataset_id),
            keys@.no_duplicates(),
    {
        let all = entries(&self.datapoints);
        let mut keys: Vec<DatapointId> = Vec::new();
        let ghost mut picked: Seq<int> = Seq::empty();
        let mut k: usize = 0;
        while k < all.len()
            invariant
                k <= all.len(),
                picked.len() == keys.len(),
                forall|i: int|
                    0 <= i < keys.len() ==> 0 <= #[trigger] picked[i] < k && keys[i]
                        == all[picked[i]].0 && all[picked[i]].1.dataset_id == dataset_id,
                forall|i: int, j: int| 0 <= i < j < keys.len() ==> picked[i] < picked[j],
                forall|j: int|
                    0 <= j < k && all[j].1.dataset_id == dataset_id ==> exists|i: int|
                        0 <= i < keys.len() && #[trigger] picked[i] == j,
            decreases all.len() - k,
        {
            if all[k].1.dataset_id == dataset_id {
                let ghost prev = picked;
                keys.push(all[k].0);
                proof {
                    picked = picked.push(k as int);
                    assert forall|j: int|
                        0 <= j < k + 1 && all[j].1.dataset_id == dataset_id implies exists|i: int|
                        0 <= i < keys.len() && #[trigger] picked[i] == j by {
                        if j < k {
                            let i = choose|i: int| 0 <= i < prev.len() && #[trigger] prev[i] == j;
                            assert(picked[i] == j);
                        } else {
                            assert(picked[keys.len() - 1] == j);
                        }
                    }
                }
            }
            k = k + 1;
        }
        proof {
            assert forall|id: DatapointId| keys@.to_set().contains(id) <==> self@.datapoints_of(
                dataset_id,
            ).contains(id) by {
                if keys@.to_set().contains(id) {
                    let i = choose|i: int| 0 <= i < keys.len() && keys@[i] == id;
                    assert(self.datapoints@.contains_key(all[picked[i]].0));
                }
                if self@.datapoints_of(dataset_id).contains(id) {
                    assert(self.datapoints@.contains_key(id));
                    let j = choose|j: int| 0 <= j < all.len() && #[trigger] all[j].0 == id;
                    let i = choose|i: int| 0 <= i < keys.len() && #[trigger] picked[i] == j;
                    assert(keys@[i] == id);
                }
            }
            assert(keys@.to_set() =~= self@.datapoints_of(dataset_id));
            assert forall|i: int, j: int| 0 <= i < j < keys.len() implies keys@[i] != keys@[j] by {
                assert(picked[i] < picked[j]);
            }
        }
        keys
    }

    /// The identifiers of the queue items of a dataset.
    fn queue_ids_of(&self, dataset_id: DatasetId) -> (keys: Vec<QueueItemId>)
        ensures
            keys@.to_set() == self@.queue_of(dataset_id),
            keys@.no_duplicates(),
    {
        let all = entries(&self.queue_items);
        let mut keys: Vec<QueueItemId> = Vec::new();
        let ghost mut picked: Seq<int> = Seq::empty();
        let mut k: usize = 0;
        while k < all.len()
            invariant
                k <= all.len(),
                picked.len() == keys.len(),
                forall|i: int|
                    0 <= i < keys.len() ==> 0 <= #[trigger] picked[i] < k && keys[i]
                        == all[picked[i]].0 && all[picked[i]].1.dataset_id == dataset_id,
                forall|i: int, j: int| 0 <= i < j < keys.len() ==> picked[i] < picked[j],
                forall|j: int|
                    0 <= j < k && all[j].1.dataset_id == dataset_id ==> exists|i: int|
                        0 <= i < keys.len() && #[trigger] picked[i] == j,
            decreases all.len() - k,
        {
            if all[k].1.dataset_id == dataset_id {
                let ghost prev = picked;
                keys.push(all[k].0);
                proof {
                    picked = picked.push(k as int);
                    assert forall|j: int|
                        0 <= j < k + 1 && all[j].1.dataset_id == dataset_id implies exists|i: int|
                        0 <= i < keys.len() && #[trigger] picked[i] == j by {
                        if j < k {
                            let i = choose|i: int| 0 <= i < prev.len() && #[trigger] prev[i] == j;
                            assert(picked[i] == j);
                        } else {
                            assert(picked[keys.len() - 1] == j);
                        }
                    }
                }
            }
            k = k + 1;
        }
        proof {
            assert forall|id: QueueItemId| keys@.to_set().contains(id) <==> self@.queue_of(
                dataset_id,
            ).contains(id) by {
                if keys@.to_set().contains(id) {
                    let i = choose|i: int| 0 <= i < keys.len() && keys@[i] == id;
                    assert(self.queue_items@.contains_key(all[picked[i]].0));
                }
                if self@.queue_of(dataset_id).contains(id) {
                    assert(self.queue_items@.contains_key(id));
                    let j = choose|j: int| 0 <= j < all.len() && #[trigger] all[j].0 == id;
                    let i = choose|i: int| 0 <= i < keys.len() && #[trigger] picked[i] == j;
                    assert(keys@[i] == id);
                }
            }
            assert(keys@.to_set() =~= self@.queue_of(dataset_id));
            assert forall|i: int, j: int| 0 <= i < j < keys.len() implies keys@[i] != keys@[j] by {
                assert(picked[i] < picked[j]);
            }
        }
        keys
    }

    /// The identifiers of the queue items of a datapoint.
    fn queue_ids_of_datapoint(&self, datapoint_id: DatapointId) -> (keys: Vec<QueueItemId>)
        ensures
            keys@.to_set() == self@.queue_of_datapoint(datapoint_id),
            keys@.no_duplicates(),
    {
        let all = entries(&self.queue_items);
        let mut keys: Vec<QueueItemId> = Vec::new();
        let ghost mut picked: Seq<int> = Seq::empty();
        let mut k: usize = 0;
        while k < all.len()
            invariant
                k <= all.len(),
                picked.len() == keys.len(),
                forall|i: int|
                    0 <= i < keys.len() ==> 0 <= #[trigger] picked[i] < k && keys[i]
                        == all[picked[i]].0 && all[picked[i]].1.datapoint_id == datapoint_id,
                forall|i: int, j: int| 0 <= i < j < keys.len() ==> picked[i] < picked[j],
                forall|j: int|
                    0 <= j < k && all[j].1.datapoint_id == datapoint_id ==> exists|i: int|
                        0 <= i < keys.len() && #[trigger] picked[i] == j,
            decreases all.len() - k,
        {
            if all[k].1.datapoint_id == datapoint_id {
                let ghost prev = picked;
                keys.push(all[k].0);
                proof {
                    picked = picked.push(k as int);
                    assert forall|j: int|
                        0 <= j < k + 1 && all[j].1.datapoint_id == datapoint_id implies exists|i: int|
                        0 <= i < keys.len() && #[trigger] picked[i] == j by {
                        if j < k {
                            let i = choose|i: int| 0 <= i < prev.len() && #[trigger] prev[i] == j;
                            assert(picked[i] == j);
                        } else {
                            assert(picked[keys.len() - 1] == j);
                        }
                    }
                }
            }
            k = k + 1;
        }
        proof {
            assert forall|id: QueueItemId| keys@.to_set().contains(id)
                <==> self@.queue_of_datapoint(datapoint_id).contains(id) by {
                if keys@.to_set().contains(id) {
                    let i = choose|i: int| 0 <= i < keys.len() && keys@[i] == id;
                    assert(self.queue_items@.contains_key(all[picked[i]].0));
                }
                if self@.queue_of_datapoint(datapoint_id).contains(id) {
                    assert(self.queue_items@.contains_key(id));
                    let j = choose|j: int| 0 <= j < all.len() && #[trigger] all[j].0 == id;
                    let i = choose|i: int| 0 <= i < keys.len() && #[trigger] picked[i] == j;
                    assert(keys@[i] == id);
                }
            }
            assert(keys@.to_set() =~= self@.queue_of_datapoint(datapoint_id));
            assert forall|i: int, j: int| 0 <= i < j < keys.len() implies keys@[i] != keys@[j] by {
                assert(picked[i] < picked[j]);
            }
        }
        keys
    }

    /// Takes a dataset out with its datapoints and queue items; true when
    /// it was held.
    pub fn delete_dataset(&mut self, id: DatasetId) -> (r: bool)
        requires
            old(self)@.wf(),
        ensures
            final(self)@.wf(),
            final(self)@ == old(self)@.dataset_deleted(id),
            r == old(self)@.datasets.contains_key(id),
    {
        let ghost before = self@;
        if self.datasets.contains_key(&id) {
            let points = self.datapoint_ids_of(id);
            let items = self.queue_ids_of(id);
            self.datasets.remove(&id);
            remove_all(&mut self.datapoints, &points);
            remove_all(&mut self.queue_items, &items);
            proof {
                assert(map_view(self.datasets@) =~= before.datasets.remove(id));
                assert(map_view(self.datapoints@) =~= before.datapoints.remove_keys(
                    before.datapoints_of(id),
                ));
                assert(map_view(self.queue_items@) =~= before.queue_items.remove_keys(
                    before.queue_of(id),
                ));
                assert(self@.datapoints.dom().subset_of(before.datapoints.dom()));
                assert(self@.queue_items.dom().subset_of(before.queue_items.dom()));
                vstd::set_lib::lemma_set_subset_finite(
                    before.datapoints.dom(),
                    self@.datapoints.dom(),
                );
                vstd::set_lib::lemma_set_subset_finite(
                    before.queue_items.dom(),
                    self@.queue_items.dom(),
                );
            }
            self.note(BackendOp::DeleteDataset(id));
            true
        } else {
            assert(!before.datasets.contains_key(id));
            false
        }
    }

    /// The number of datasets.
    pub fn dataset_count(&self) -> (n: usize)
        ensures
            n == self@.datasets.dom().len(),
    {
        assert(self@.datasets.dom() =~= self.datasets@.dom());
        self.datasets.len()
    }

    /// Keeps a datapoint, in the place of the datapoint of its
    /// identifier, and notes the write.
    pub fn save_datapoint(&mut self, dp: Datapoint)
        requires
            old(self)@.wf(),
        ensures
            final(self)@.wf(),
            final(self)@ == (PersistentStoreView {
                datapoints: old(self)@.datapoints.insert(dp@.id, dp@),
                ..old(self)@
            }).noting(BackendOpView::SaveDatapoint(dp@)),
    {
        let ghost before = self@;
        let copy = dp.clone();
        self.datapoints.insert(dp.id, dp);
        assert(map_view(self.datapoints@) =~= before.datapoints.insert(dp@.id, dp@));
        self.note(BackendOp::SaveDatapoint(copy));
    }

    /// The datapoint `id`, if it is held.
    pub fn get_datapoint(&self, id: DatapointId) -> (r: Option<&Datapoint>)
        ensures
            match r {
                Some(d) => self@.datapoints.contains_key(id) && self@.datapoints[id] == d@,
                None => !self@.datapoints.contains_key(id),
            },
    {
        self.datapoints.get(&id)
    }

    /// The datapoints of a dataset, each once, in no particular order.
    pub fn datapoints_for_dataset(&self, dataset_id: DatasetId) -> (r: Vec<&Datapoint>)
        requires
            self@.wf(),
        ensures
            forall|i: int|
                0 <= i < r.len() ==> self@.datapoints_of(dataset_id).contains(#[trigger] r[i]@.id)
                    && self@.datapoints[r[i]@.id] == r[i]@,
            forall|id: DatapointId|
                self@.datapoints_of(dataset_id).contains(id) ==> exists|i: int|
                    0 <= i < r.len() && #[trigger] r[i]@.id == id,
            forall|i: int, j: int| 0 <= i < j < r.len() ==> r[i]@.id != r[j]@.id,
            r.len() == self@.datapoints_of(dataset_id).len(),
    {
        let keys = self.datapoint_ids_of(dataset_id);
        let mut r: Vec<&Datapoint> = Vec::new();
        let mut k: usize = 0;
        proof {
            keys@.unique_seq_to_set();
        }
        while k < keys.len()
            invariant
                k <= keys.len(),
                r.len() == k,
                self@.wf(),
                keys@.to_set() == self@.datapoints_of(dataset_id),
                forall|i: int|
                    0 <= i < k ==> (#[trigger] r[i])@.id == keys[i] && self@.datapoints[keys[i]]
                        == r[i]@,
            decreases keys.len() - k,
        {
            assert(keys@.to_set().contains(keys@[k as int]));
            assert(self@.datapoints.contains_key(keys@[k as int]));
            match self.datapoints.get(&keys[k]) {
                Some(dp) => {
                    r.push(dp);
                },
                None => {
                    assert(false);
                },
            }
            k = k + 1;
        }
        proof {
            assert forall|i: int| 0 <= i < r.len() implies self@.datapoints_of(dataset_id).contains(
                #[trigger] r[i]@.id,
            ) && self@.datapoints[r[i]@.id] == r[i]@ by {
                assert(keys@.to_set().contains(keys@[i]));
            }
            assert forall|id: DatapointId|
                self@.datapoints_of(dataset_id).contains(id) implies exists|i: int|
                0 <= i < r.len() && #[trigger] r[i]@.id == id by {
                assert(keys@.to_set().contains(id));
                let i = choose|i: int| 0 <= i < keys.len() && keys@[i] == id;
                assert(r[i]@.id == id);
            }
        }
        r
    }

    /// The number of datapoints of a dataset.
    pub fn datapoint_count_for_dataset(&self, dataset_id: DatasetId) -> (n: usize)
        ensures
            n == self@.datapoints_of(dataset_id).len(),
    {
        let keys = self.datapoint_ids_of(dataset_id);
        proof {
            keys@.unique_seq_to_set();
        }
        keys.len()
    }

    /// Takes a datapoint out with its queue items; true when it was held.
    pub fn delete_datapoint(&mut self, id: DatapointId) -> (r: bool)
        requires
            old(self)@.wf(),
        ensures
            final(self)@.wf(),
            final(self)@ == old(self)@.datapoint_deleted(id),
            r == old(self)@.datapoints.contains_key(id),
    {
        let ghost before = self@;
        if self.datapoints.contains_key(&id) {
            let items = self.queue_ids_of_datapoint(id);
            self.datapoints.remove(&id);
            remove_all(&mut self.queue_items, &items);
            proof {
                assert(map_view(self.datapoints@) =~= before.datapoints.remove(id));
                assert(map_view(self.queue_items@) =~= before.queue_items.remove_keys(
                    before.queue_of_datapoint(id),
                ));
                assert(self@.queue_items.dom().subset_of(before.queue_items.dom()));
                vstd::set_lib::lemma_set_subset_finite(
                    before.queue_items.dom(),
                    self@.queue_items.dom(),
                );
            }
            self.note(BackendOp::DeleteDatapoint(id));
            true
        } else {
            assert(!before.datapoints.contains_key(id));
            false
        }
    }

    /// Keeps a queue item, in the place of the item of its identifier,
    /// and notes the write.
    pub fn save_queue_item(&mut self, item: QueueItem)
        requires
            old(self)@.wf(),
        ensures
            final(self)@.wf(),
            final(self)@ == old(self)@.with_queue_item(item@),
    {
        let ghost before = self@;
        let copy = item.clone();
        self.queue_items.insert(item.id, item);
        assert(map_view(self.queue_items@) =~= before.queue_items.insert(item@.id, item@));
        self.note(BackendOp::SaveQueueItem(copy));
    }

    /// The queue item `id`, if it is held.
    pub fn get_queue_item(&self, id: QueueItemId) -> (r: Option<&QueueItem>)
        ensures
            match r {
                Some(q) => self@.queue_items.contains_key(id) && self@.queue_items[id] == q@,
                None => !self@.queue_items.contains_key(id),
            },
    {
        self.queue_items.get(&id)
    }

    /// The queue items of a dataset, each once, in no particular order.
    pub fn queue_items_for_dataset(&self, dataset_id: DatasetId) -> (r: Vec<&QueueItem>)
        requires
            self@.wf(),
        ensures
            forall|i: int|
                0 <= i < r.len() ==> self@.queue_of(dataset_id).contains(#[trigger] r[i]@.id)
                    && self@.queue_items[r[i]@.id] == r[i]@,
            forall|id: QueueItemId|
                self@.queue_of(dataset_id).contains(id) ==> exists|i: int|
                    0 <= i < r.len() && #[trigger] r[i]@.id == id,
            forall|i: int, j: int| 0 <= i < j < r.len() ==> r[i]@.id != r[j]@.id,
    {
        let keys = self.queue_ids_of(dataset_id);
        let mut r: Vec<&QueueItem> = Vec::new();
        let mut k: usize = 0;
        while k < keys.len()
            invariant
                k <= keys.len(),
                r.len() == k,
                self@.wf(),
                keys@.to_set() == self@.queue_of(dataset_id),
                forall|i: int|
                    0 <= i < k ==> (#[trigger] r[i])@.id == keys[i] && self@.queue_items[keys[i]]
                        == r[i]@,
            decreases keys.len() - k,
        {
            assert(keys@.to_set().contains(keys@[k as int]));
            assert(self@.queue_items.contains_key(keys@[k as int]));
            match self.queue_items.get(&keys[k]) {
                Some(q) => {
                    r.push(q);
                },
                None => {
                    assert(false);
                },
            }
            k = k + 1;
        }
        proof {
            assert forall|i: int| 0 <= i < r.len() implies self@.queue_of(dataset_id).contains(
                #[trigger] r[i]@.id,
            ) && self@.queue_items[r[i]@.id] == r[i]@ by {
                assert(keys@.to_set().contains(keys@[i]));
            }
            assert forall|id: QueueItemId| self@.queue_of(dataset_id).contains(id) implies exists|
                i: int,
            |
                0 <= i < r.len() && #[trigger] r[i]@.id == id by {
                assert(keys@.to_set().contains(id));
                let i = choose|i: int| 0 <= i < keys.len() && keys@[i] == id;
                assert(r[i]@.id == id);
            }
        }
        r
    }

    /// Claims a pending queue item for `claimed_by` at the instant `now`.
    /// An item that is not held, or not pending, stays as it is and
    /// `None` comes back.
    pub fn claim_queue_item_at(&mut self, id: QueueItemId, claimed_by: String, now: Timestamp) -> (r:
        Option<QueueItem>)
        requires
            old(self)@.wf(),
        ensures
            final(self)@.wf(),
            final(self)@ == old(self)@.queue_item_claimed(id, claimed_by@, now@),
            r.is_some() == old(self)@.queue_item_is(id, QueueItemStatus::Pending),
            r.is_some() ==> r.unwrap()@ == old(self)@.queue_items[id].claimed(claimed_by@, now@),
    {
        let item = match self.queue_items.get(&id) {
            Some(q) => q.clone(),
            None => {
                return None;
            },
        };
        match item.status {
            QueueItemStatus::Pending => {},
            _ => {
                return None;
            },
        }
        let claimed = item.claim_at(claimed_by, now);
        let copy = claimed.clone();
        self.save_queue_item(copy);
        Some(claimed)
    }

    /// Claims a pending queue item for `claimed_by`, now.
    pub fn claim_queue_item(&mut self, id: QueueItemId, claimed_by: String) -> (r: Option<QueueItem>)
        requires
            old(self)@.wf(),
        ensures
            final(self)@.wf(),
            exists|now: int| final(self)@ == old(self)@.queue_item_claimed(id, claimed_by@, now),
            r.is_some() == old(self)@.queue_item_is(id, QueueItemStatus::Pending),
            r.is_some() ==> final(self)@.queue_items.contains_key(id)
                && final(self)@.queue_items[id] == r.unwrap()@,
    {
        let now = crate::clock::now();
        let r = self.claim_queue_item_at(id, claimed_by, now);
        proof {
            if r.is_some() {
                assert(self@.queue_items.contains_key(id));
            }
        }
        r
    }

    /// Completes a claimed queue item with the data as the labeller left
    /// it.  An item that is not held, or not claimed, stays as it is and
    /// `None` comes back.
    pub fn complete_queue_item(&mut self, id: QueueItemId, edited_data: Option<Json>) -> (r: Option<
        QueueItem,
    >)
        requires
            old(self)@.wf(),
        ensures
            final(self)@.wf(),
            final(self)@ == old(self)@.queue_item_completed(id, opt_json(edited_data)),
            r.is_some() == old(self)@.queue_item_is(id, QueueItemStatus::Claimed),
            r.is_some() ==> r.unwrap()@ == old(self)@.queue_items[id].completed(
                opt_json(edited_data),
            ),
    {
        let item = match self.queue_items.get(&id) {
            Some(q) => q.clone(),
            None => {
                return None;
            },
        };
        match item.status {
            QueueItemStatus::Claimed => {},
            _ => {
                return None;
            },
        }
        let completed = item.complete(edited_data);
        let copy = completed.clone();
        self.save_queue_item(copy);
        Some(completed)
    }
}

/// What a backend handed over, or nothing where it failed.
pub open spec fn or_empty<T>(r: Result<Vec<T>, StorageError>) -> Seq<T> {
    match r {
        Ok(v) => v@,
        Err(_) => Seq::empty(),
    }
}

fn unwrap_or_empty<T>(r: Result<Vec<T>, StorageError>) -> (v: Vec<T>)
    ensures
        v@ == or_empty(r),
{
    match r {
        Ok(v) => v,
        Err(_) => Vec::new(),
    }
}

impl PersistentStore {
    /// Opens the store on what a backend answered to the six loads of the
    /// start.  The spans and the traces are needed: where one of these two
    /// loads failed, its error comes back, that of the spans first.  A
    /// failed load of file versions, datasets, datapoints or queue items
    /// counts as an empty one.
    pub fn open(
        spans: Result<Vec<Span>, StorageError>,
        traces: Result<Vec<Trace>, StorageError>,
        file_versions: Result<Vec<FileVersion>, StorageError>,
        datasets: Result<Vec<Dataset>, StorageError>,
        datapoints: Result<Vec<Datapoint>, StorageError>,
        queue_items: Result<Vec<QueueItem>, StorageError>,
    ) -> (r: Result<PersistentStore, StorageError>)
        ensures
            match (spans, traces) {
                (Err(e), _) => r == Err::<PersistentStore, StorageError>(e),
                (Ok(_), Err(e)) => r == Err::<PersistentStore, StorageError>(e),
                (Ok(s), Ok(t)) => r.is_ok() && r.unwrap()@.wf() && r.unwrap()@ == (
                PersistentStoreView {
                    memory: spans_loaded(list_view(s@)),
                    traces: traces_loaded(list_view(t@)),
                    file_versions: list_view(or_empty(file_versions)),
                    datasets: datasets_loaded(list_view(or_empty(datasets))),
                    datapoints: datapoints_loaded(list_view(or_empty(datapoints))),
                    queue_items: queue_loaded(list_view(or_empty(queue_items))),
                    pending: Seq::empty(),
                }),
            },
    {
        let s = match spans {
            Ok(s) => s,
            Err(e) => {
                return Err(e);
            },
        };
        let t = match traces {
            Ok(t) => t,
            Err(e) => {
                return Err(e);
            },
        };
        Ok(
            PersistentStore::from_loaded(
                s,
                t,
                unwrap_or_empty(file_versions),
                unwrap_or_empty(datasets),
                unwrap_or_empty(datapoints),
                unwrap_or_empty(queue_items),
            ),
        )
    }
}

} // verus!
