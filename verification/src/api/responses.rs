use crate::api::types::{
    ClearedAll, CreatedSpan, DatapointListResponse, DatasetListResponse, DatasetResponse,
    DeletedTrace, EnqueueResponse, ExportData, FileListResponse, FileVersionsResponse,
    HealthResponse, ImportResponse, QueueCounts, QueueListResponse, SpanList, Stats,
    StorageHealth, TraceListResponse,
};
use crate::ids::uuid_text;
use crate::json::{items_view, lemma_array_view, Json, JsonView};
use crate::text::{decimal, opt_text};
use crate::trace::codec::{opt_id_json, opt_text_json};
use crate::trace::codec_entities::dataset_entries;
use crate::trace::entities::{Datapoint, FileVersion, QueueItem, Trace};
use crate::trace::span::Span;
use crate::wire::{assemble, id_string, number, opt_string, string, time_string, ObjectWriter};
use vstd::prelude::*;

verus! {

/// A count as a JSON number.
pub open spec fn count(n: usize) -> Option<JsonView> {
    Some(JsonView::Number(decimal(n as nat)))
}

fn count_json(n: usize) -> (j: Json)
    ensures
        Some(j@) == count(n),
{
    number(n as u64)
}

/// A list of spans on the wire.
pub open spec fn spans_json(spans: Seq<Span>) -> JsonView {
    JsonView::Array(Seq::new(spans.len(), |i: int| spans[i]@.to_json()))
}

/// A list of spans on the wire.
pub fn spans_to_json(spans: &Vec<Span>) -> (j: Json)
    ensures
        j@ == spans_json(spans@),
{
    let mut items: Vec<Json> = Vec::new();
    let mut i: usize = 0;
    while i < spans.len()
        invariant
            i <= spans.len(),
            items.len() == i,
            forall|k: int| 0 <= k < i ==> items[k]@ == spans[k]@.to_json(),
        decreases spans.len() - i,
    {
        items.push(spans[i].to_json());
        i = i + 1;
    }
    proof {
        lemma_array_view(items);
        assert(items_view(items@) =~= Seq::new(spans.len() as nat, |i: int| spans[i]@.to_json()));
    }
    Json::Array(items)
}

/// A list of traces on the wire.
pub open spec fn traces_json(traces: Seq<Trace>) -> JsonView {
    JsonView::Array(Seq::new(traces.len(), |i: int| traces[i]@.to_json()))
}

fn traces_to_json(traces: &Vec<Trace>) -> (j: Json)
    ensures
        j@ == traces_json(traces@),
{
    let mut items: Vec<Json> = Vec::new();
    let mut i: usize = 0;
    while i < traces.len()
        invariant
            i <= traces.len(),
            items.len() == i,
            forall|k: int| 0 <= k < i ==> items[k]@ == traces[k]@.to_json(),
        decreases traces.len() - i,
    {
        items.push(traces[i].to_json());
        i = i + 1;
    }
    proof {
        lemma_array_view(items);
        assert(items_view(items@) =~= Seq::new(
            traces.len() as nat,
            |i: int| traces[i]@.to_json(),
        ));
    }
    Json::Array(items)
}

/// A list of file versions on the wire.
pub open spec fn versions_json(versions: Seq<FileVersion>) -> JsonView {
    JsonView::Array(Seq::new(versions.len(), |i: int| versions[i]@.to_json()))
}

fn versions_to_json(versions: &Vec<FileVersion>) -> (j: Json)
    ensures
        j@ == versions_json(versions@),
{
    let mut items: Vec<Json> = Vec::new();
    let mut i: usize = 0;
    while i < versions.len()
        invariant
            i <= versions.len(),
            items.len() == i,
            forall|k: int| 0 <= k < i ==> items[k]@ == versions[k]@.to_json(),
        decreases versions.len() - i,
    {
        items.push(versions[i].to_json());
        i = i + 1;
    }
    proof {
        lemma_array_view(items);
        assert(items_view(items@) =~= Seq::new(
            versions.len() as nat,
            |i: int| versions[i]@.to_json(),
        ));
    }
    Json::Array(items)
}

/// A list of datapoints on the wire.
pub open spec fn datapoints_json(datapoints: Seq<Datapoint>) -> JsonView {
    JsonView::Array(Seq::new(datapoints.len(), |i: int| datapoints[i]@.to_json()))
}

fn datapoints_to_json(datapoints: &Vec<Datapoint>) -> (j: Json)
    ensures
        j@ == datapoints_json(datapoints@),
{
    let mut items: Vec<Json> = Vec::new();
    let mut i: usize = 0;
    while i < datapoints.len()
        invariant
            i <= datapoints.len(),
            items.len() == i,
            forall|k: int| 0 <= k < i ==> items[k]@ == datapoints[k]@.to_json(),
        decreases datapoints.len() - i,
    {
        items.push(datapoints[i].to_json());
        i = i + 1;
    }
    proof {
        lemma_array_view(items);
        assert(items_view(items@) =~= Seq::new(
            datapoints.len() as nat,
            |i: int| datapoints[i]@.to_json(),
        ));
    }
    Json::Array(items)
}

/// A list of queue items on the wire.
pub open spec fn queue_json(items: Seq<QueueItem>) -> JsonView {
    JsonView::Array(Seq::new(items.len(), |i: int| items[i]@.to_json()))
}

fn queue_to_json(queue: &Vec<QueueItem>) -> (j: Json)
    ensures
        j@ == queue_json(queue@),
{
    let mut items: Vec<Json> = Vec::new();
    let mut i: usize = 0;
    while i < queue.len()
        invariant
            i <= queue.len(),
            items.len() == i,
            forall|k: int| 0 <= k < i ==> items[k]@ == queue[k]@.to_json(),
        decreases queue.len() - i,
    {
        items.push(queue[i].to_json());
        i = i + 1;
    }
    proof {
        lemma_array_view(items);
        assert(items_view(items@) =~= Seq::new(queue.len() as nat, |i: int| queue[i]@.to_json()));
    }
    Json::Array(items)
}

impl CreatedSpan {
    pub open spec fn spec_json(self) -> JsonView {
        JsonView::Object(
            assemble(
                seq![
                    ("id"@, Some(JsonView::Str(uuid_text(self.id)))),
                    ("trace_id"@, Some(JsonView::Str(uuid_text(self.trace_id)))),
                ],
            ),
        )
    }

    /// The answer on the wire.
    pub fn to_json(&self) -> (j: Json)
        ensures
            j@ == self.spec_json(),
    {
        let mut w = ObjectWriter::new();
        w.put("id", id_string(self.id));
        w.put("trace_id", id_string(self.trace_id));
        assert(w.entries() =~= seq![
            ("id"@, Some(JsonView::Str(uuid_text(self.id)))),
            ("trace_id"@, Some(JsonView::Str(uuid_text(self.trace_id)))),
        ]);
        w.finish()
    }
}

impl SpanList {
    pub open spec fn spec_json(self) -> JsonView {
        JsonView::Object(
            assemble(seq![("spans"@, Some(spans_json(self.spans@))), ("count"@, count(self.count))]),
        )
    }

    /// The answer on the wire.
    pub fn to_json(&self) -> (j: Json)
        ensures
            j@ == self.spec_json(),
    {
        let mut w = ObjectWriter::new();
        w.put("spans", spans_to_json(&self.spans));
        w.put("count", count_json(self.count));
        assert(w.entries() =~= seq![
            ("spans"@, Some(spans_json(self.spans@))),
            ("count"@, count(self.count)),
        ]);
        w.finish()
    }
}

impl TraceListResponse {
    pub open spec fn spec_json(self) -> JsonView {
        JsonView::Object(
            assemble(
                seq![("traces"@, Some(traces_json(self.traces@))), ("count"@, count(self.count))],
            ),
        )
    }

    /// The answer on the wire.
    pub fn to_json(&self) -> (j: Json)
        ensures
            j@ == self.spec_json(),
    {
        let mut w = ObjectWriter::new();
        w.put("traces", traces_to_json(&self.traces));
        w.put("count", count_json(self.count));
        assert(w.entries() =~= seq![
            ("traces"@, Some(traces_json(self.traces@))),
            ("count"@, count(self.count)),
        ]);
        w.finish()
    }
}

impl Stats {
    pub open spec fn spec_json(self) -> JsonView {
        JsonView::Object(
            assemble(
                seq![
                    ("trace_count"@, count(self.trace_count)),
                    ("span_count"@, count(self.span_count)),
                ],
            ),
        )
    }

    /// The answer on the wire.
    pub fn to_json(&self) -> (j: Json)
        ensures
            j@ == self.spec_json(),
    {
        let mut w = ObjectWriter::new();
        w.put("trace_count", count_json(self.trace_count));
        w.put("span_count", count_json(self.span_count));
        assert(w.entries() =~= seq![
            ("trace_count"@, count(self.trace_count)),
            ("span_count"@, count(self.span_count)),
        ]);
        w.finish()
    }
}

impl DeletedTrace {
    pub open spec fn spec_json(self) -> JsonView {
        JsonView::Object(
            assemble(
                seq![
                    ("trace_id"@, Some(JsonView::Str(uuid_text(self.trace_id)))),
                    ("spans_deleted"@, count(self.spans_deleted)),
                ],
            ),
        )
    }

    /// The answer on the wire.
    pub fn to_json(&self) -> (j: Json)
        ensures
            j@ == self.spec_json(),
    {
        let mut w = ObjectWriter::new();
        w.put("trace_id", id_string(self.trace_id));
        w.put("spans_deleted", count_json(self.spans_deleted));
        assert(w.entries() =~= seq![
            ("trace_id"@, Some(JsonView::Str(uuid_text(self.trace_id)))),
            ("spans_deleted"@, count(self.spans_deleted)),
        ]);
        w.finish()
    }
}

impl ClearedAll {
    pub open spec fn spec_json(self) -> JsonView {
        JsonView::Object(assemble(seq![("message"@, Some(JsonView::Str(self.message@)))]))
    }

    /// The answer on the wire.
    pub fn to_json(&self) -> (j: Json)
        ensures
            j@ == self.spec_json(),
    {
        let mut w = ObjectWriter::new();
        w.put("message", string(self.message.as_str()));
        assert(w.entries() =~= seq![("message"@, Some(JsonView::Str(self.message@)))]);
        w.finish()
    }
}

impl ExportData {
    /// The spans of each trace, under the text of the identifier of the
    /// trace.
    pub open spec fn spec_traces(self) -> Seq<(Seq<char>, JsonView)> {
        Seq::new(
            self.traces@.len(),
            |i: int| (uuid_text(self.traces[i].0), spans_json(self.traces[i].1@)),
        )
    }

    pub open spec fn spec_json(self) -> JsonView {
        JsonView::Object(assemble(seq![("traces"@, Some(JsonView::Object(self.spec_traces())))]))
    }

    /// The answer on the wire.
    pub fn to_json(&self) -> (j: Json)
        ensures
            j@ == self.spec_json(),
    {
        let mut fields: Vec<(String, Json)> = Vec::new();
        let mut i: usize = 0;
        while i < self.traces.len()
            invariant
                i <= self.traces.len(),
                fields.len() == i,
                forall|k: int|
                    0 <= k < i ==> (#[trigger] fields[k]).0@ == uuid_text(self.traces[k].0)
                        && fields[k].1@ == spans_json(self.traces[k].1@),
            decreases self.traces.len() - i,
        {
            let name = crate::ids::id_to_string(self.traces[i].0);
            fields.push((name, spans_to_json(&self.traces[i].1)));
            i = i + 1;
        }
        proof {
            crate::json::lemma_object_view(fields);
            assert(crate::json::fields_view(fields@) =~= self.spec_traces());
        }
        let mut w = ObjectWriter::new();
        w.put("traces", Json::Object(fields));
        assert(w.entries() =~= seq![("traces"@, Some(JsonView::Object(self.spec_traces())))]);
        w.finish()
    }
}

impl FileListResponse {
    pub open spec fn spec_json(self) -> JsonView {
        JsonView::Object(
            assemble(
                seq![("files"@, Some(versions_json(self.files@))), ("count"@, count(self.count))],
            ),
        )
    }

    /// The answer on the wire.
    pub fn to_json(&self) -> (j: Json)
        ensures
            j@ == self.spec_json(),
    {
        let mut w = ObjectWriter::new();
        w.put("files", versions_to_json(&self.files));
        w.put("count", count_json(self.count));
        assert(w.entries() =~= seq![
            ("files"@, Some(versions_json(self.files@))),
            ("count"@, count(self.count)),
        ]);
        w.finish()
    }
}

impl FileVersionsResponse {
    pub open spec fn spec_json(self) -> JsonView {
        JsonView::Object(
            assemble(
                seq![
                    ("path"@, Some(JsonView::Str(self.path@))),
                    ("versions"@, Some(versions_json(self.versions@))),
                    ("count"@, count(self.count)),
                ],
            ),
        )
    }

    /// The answer on the wire.
    pub fn to_json(&self) -> (j: Json)
        ensures
            j@ == self.spec_json(),
    {
        let mut w = ObjectWriter::new();
        w.put("path", string(self.path.as_str()));
        w.put("versions", versions_to_json(&self.versions));
        w.put("count", count_json(self.count));
        assert(w.entries() =~= seq![
            ("path"@, Some(JsonView::Str(self.path@))),
            ("versions"@, Some(versions_json(self.versions@))),
            ("count"@, count(self.count)),
        ]);
        w.finish()
    }
}

impl DatasetResponse {
    /// The fields of the dataset, and the number of its datapoints beside
    /// them.
    pub open spec fn spec_json(self) -> JsonView {
        JsonView::Object(
            assemble(
                dataset_entries(self.dataset@).push(
                    ("datapoint_count"@, count(self.datapoint_count)),
                ),
            ),
        )
    }

    /// The answer on the wire.
    pub fn to_json(&self) -> (j: Json)
        ensures
            j@ == self.spec_json(),
    {
        let mut w = ObjectWriter::new();
        w.put("id", id_string(self.dataset.id));
        w.put_opt("org_id", opt_id_json(self.dataset.org_id));
        w.put("name", string(self.dataset.name.as_str()));
        w.put_opt("description", opt_text_json(&self.dataset.description));
        w.put("created_at", time_string(&self.dataset.created_at));
        w.put("updated_at", time_string(&self.dataset.updated_at));
        assert(w.entries() =~= dataset_entries(self.dataset@));
        w.put("datapoint_count", count_json(self.datapoint_count));
        w.finish()
    }
}

/// A list of datasets with their counts on the wire.
pub open spec fn datasets_json(datasets: Seq<DatasetResponse>) -> JsonView {
    JsonView::Array(Seq::new(datasets.len(), |i: int| datasets[i].spec_json()))
}

impl DatasetListResponse {
    pub open spec fn spec_json(self) -> JsonView {
        JsonView::Object(
            assemble(
                seq![
                    ("datasets"@, Some(datasets_json(self.datasets@))),
                    ("count"@, count(self.count)),
                ],
            ),
        )
    }

    /// The answer on the wire.
    pub fn to_json(&self) -> (j: Json)
        ensures
            j@ == self.spec_json(),
    {
        let mut items: Vec<Json> = Vec::new();
        let mut i: usize = 0;
        while i < self.datasets.len()
            invariant
                i <= self.datasets.len(),
                items.len() == i,
                forall|k: int| 0 <= k < i ==> items[k]@ == self.datasets[k].spec_json(),
            decreases self.datasets.len() - i,
        {
            items.push(self.datasets[i].to_json());
            i = i + 1;
        }
        proof {
            lemma_array_view(items);
            assert(items_view(items@) =~= Seq::new(
                self.datasets.len() as nat,
                |i: int| self.datasets[i].spec_json(),
            ));
        }
        let mut w = ObjectWriter::new();
        w.put("datasets", Json::Array(items));
        w.put("count", count_json(self.count));
        assert(w.entries() =~= seq![
            ("datasets"@, Some(datasets_json(self.datasets@))),
            ("count"@, count(self.count)),
        ]);
        w.finish()
    }
}

impl DatapointListResponse {
    pub open spec fn spec_json(self) -> JsonView {
        JsonView::Object(
            assemble(
                seq![
                    ("datapoints"@, Some(datapoints_json(self.datapoints@))),
                    ("count"@, count(self.count)),
                ],
            ),
        )
    }

    /// The answer on the wire.
    pub fn to_json(&self) -> (j: Json)
        ensures
            j@ == self.spec_json(),
    {
        let mut w = ObjectWriter::new();
        w.put("datapoints", datapoints_to_json(&self.datapoints));
        w.put("count", count_json(self.count));
        assert(w.entries() =~= seq![
            ("datapoints"@, Some(datapoints_json(self.datapoints@))),
            ("count"@, count(self.count)),
        ]);
        w.finish()
    }
}

impl ImportResponse {
    pub open spec fn spec_json(self) -> JsonView {
        JsonView::Object(
            assemble(
                seq![
                    ("imported"@, count(self.imported)),
                    ("dataset_id"@, Some(JsonView::Str(uuid_text(self.dataset_id)))),
                ],
            ),
        )
    }

    /// The answer on the wire.
    pub fn to_json(&self) -> (j: Json)
        ensures
            j@ == self.spec_json(),
    {
        let mut w = ObjectWriter::new();
        w.put("imported", count_json(self.imported));
        w.put("dataset_id", id_string(self.dataset_id));
        assert(w.entries() =~= seq![
            ("imported"@, count(self.imported)),
            ("dataset_id"@, Some(JsonView::Str(uuid_text(self.dataset_id)))),
        ]);
        w.finish()
    }
}

impl QueueCounts {
    pub open spec fn spec_json(self) -> JsonView {
        JsonView::Object(
            assemble(
                seq![
                    ("pending"@, count(self.pending)),
                    ("claimed"@, count(self.claimed)),
                    ("completed"@, count(self.completed)),
                ],
            ),
        )
    }

    /// The counts on the wire.
    pub fn to_json(&self) -> (j: Json)
        ensures
            j@ == self.spec_json(),
    {
        let mut w = ObjectWriter::new();
        w.put("pending", count_json(self.pending));
        w.put("claimed", count_json(self.claimed));
        w.put("completed", count_json(self.completed));
        assert(w.entries() =~= seq![
            ("pending"@, count(self.pending)),
            ("claimed"@, count(self.claimed)),
            ("completed"@, count(self.completed)),
        ]);
        w.finish()
    }
}

impl QueueListResponse {
    pub open spec fn spec_json(self) -> JsonView {
        JsonView::Object(
            assemble(
                seq![
                    ("items"@, Some(queue_json(self.items@))),
                    ("counts"@, Some(self.counts.spec_json())),
                ],
            ),
        )
    }

    /// The answer on the wire.
    pub fn to_json(&self) -> (j: Json)
        ensures
            j@ == self.spec_json(),
    {
        let mut w = ObjectWriter::new();
        w.put("items", queue_to_json(&self.items));
        w.put("counts", self.counts.to_json());
        assert(w.entries() =~= seq![
            ("items"@, Some(queue_json(self.items@))),
            ("counts"@, Some(self.counts.spec_json())),
        ]);
        w.finish()
    }
}

impl EnqueueResponse {
    pub open spec fn spec_json(self) -> JsonView {
        JsonView::Object(assemble(seq![("enqueued"@, count(self.enqueued))]))
    }

    /// The answer on the wire.
    pub fn to_json(&self) -> (j: Json)
        ensures
            j@ == self.spec_json(),
    {
        let mut w = ObjectWriter::new();
        w.put("enqueued", count_json(self.enqueued));
        assert(w.entries() =~= seq![("enqueued"@, count(self.enqueued))]);
        w.finish()
    }
}

impl StorageHealth {
    pub open spec fn spec_json(self) -> JsonView {
        JsonView::Object(
            assemble(
                seq![
                    ("trace_count"@, count(self.trace_count)),
                    ("span_count"@, count(self.span_count)),
                    ("backend"@, Some(JsonView::Str(self.backend@))),
                ],
            ),
        )
    }

    /// What the daemon holds, on the wire.
    pub fn to_json(&self) -> (j: Json)
        ensures
            j@ == self.spec_json(),
    {
        let mut w = ObjectWriter::new();
        w.put("trace_count", count_json(self.trace_count));
        w.put("span_count", count_json(self.span_count));
        w.put("backend", string(self.backend.as_str()));
        assert(w.entries() =~= seq![
            ("trace_count"@, count(self.trace_count)),
            ("span_count"@, count(self.span_count)),
            ("backend"@, Some(JsonView::Str(self.backend@))),
        ]);
        w.finish()
    }
}

impl HealthResponse {
    /// The region and the instance are left out where there is none.
    pub open spec fn spec_json(self) -> JsonView {
        JsonView::Object(
            assemble(
                seq![
                    ("status"@, Some(JsonView::Str(self.status@))),
                    ("uptime_secs"@, Some(JsonView::Number(decimal(self.uptime_secs as nat)))),
                    ("version"@, Some(JsonView::Str(self.version@))),
                    ("storage"@, Some(self.storage.spec_json())),
                    ("region"@, opt_string(opt_text(self.region))),
                    ("instance"@, opt_string(opt_text(self.instance))),
                ],
            ),
        )
    }

    /// The answer on the wire.
    pub fn to_json(&self) -> (j: Json)
        ensures
            j@ == self.spec_json(),
    {
        let mut w = ObjectWriter::new();
        w.put("status", string(self.status.as_str()));
        w.put("uptime_secs", number(self.uptime_secs));
        w.put("version", string(self.version.as_str()));
        w.put("storage", self.storage.to_json());
        w.put_opt("region", opt_text_json(&self.region));
        w.put_opt("instance", opt_text_json(&self.instance));
        assert(w.entries() =~= seq![
            ("status"@, Some(JsonView::Str(self.status@))),
            ("uptime_secs"@, Some(JsonView::Number(decimal(self.uptime_secs as nat)))),
            ("version"@, Some(JsonView::Str(self.version@))),
            ("storage"@, Some(self.storage.spec_json())),
            ("region"@, opt_string(opt_text(self.region))),
            ("instance"@, opt_string(opt_text(self.instance))),
        ]);
        w.finish()
    }
}

} // verus!
