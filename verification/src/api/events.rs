use crate::trace::entities::{
    Datapoint, DatapointView, Dataset, DatasetView, FileVersion, FileVersionView, QueueItem,
    QueueItemView, Trace, TraceView,
};
use crate::trace::span::{DatasetId, Span, SpanId, SpanView, TraceId};
use crate::ids::uuid_text;
use crate::json::{json_text, Json, JsonView};
use crate::text::same_text;
use crate::wire::{assemble, get_id, get_str, id_at, str_at, ObjectWriter};
use vstd::prelude::*;

verus! {

/// What subscribers are told of.  An event is published after the change
/// that it tells of has reached the store, so whoever hears of it finds
/// the change there.
#[derive(Debug, PartialEq)]
pub enum SystemEvent {
    SpanCreated { span: Span },
    SpanCompleted { span: Span },
    SpanFailed { span: Span },
    TraceCreated { trace: Trace },
    TraceCompleted { trace: Trace },
    FileVersionCreated { file: FileVersion },
    SpanDeleted { span_id: SpanId },
    TraceDeleted { trace_id: TraceId },
    DatasetCreated { dataset: Dataset },
    DatasetDeleted { dataset_id: DatasetId },
    DatapointCreated { datapoint: Datapoint },
    QueueItemUpdated { item: QueueItem },
    Cleared,
}

/// The mathematical value of a [`SystemEvent`].
pub enum SystemEventView {
    SpanCreated { span: SpanView },
    SpanCompleted { span: SpanView },
    SpanFailed { span: SpanView },
    TraceCreated { trace: TraceView },
    TraceCompleted { trace: TraceView },
    FileVersionCreated { file: FileVersionView },
    SpanDeleted { span_id: SpanId },
    TraceDeleted { trace_id: TraceId },
    DatasetCreated { dataset: DatasetView },
    DatasetDeleted { dataset_id: DatasetId },
    DatapointCreated { datapoint: DatapointView },
    QueueItemUpdated { item: QueueItemView },
    Cleared,
}

impl View for SystemEvent {
    type V = SystemEventView;

    open spec fn view(&self) -> SystemEventView {
        match self {
            SystemEvent::SpanCreated { span } => SystemEventView::SpanCreated { span: span@ },
            SystemEvent::SpanCompleted { span } => SystemEventView::SpanCompleted { span: span@ },
            SystemEvent::SpanFailed { span } => SystemEventView::SpanFailed { span: span@ },
            SystemEvent::TraceCreated { trace } => SystemEventView::TraceCreated { trace: trace@ },
            SystemEvent::TraceCompleted { trace } => SystemEventView::TraceCompleted {
                trace: trace@,
            },
            SystemEvent::FileVersionCreated { file } => SystemEventView::FileVersionCreated {
                file: file@,
            },
            SystemEvent::SpanDeleted { span_id } => SystemEventView::SpanDeleted {
                span_id: *span_id,
            },
            SystemEvent::TraceDeleted { trace_id } => SystemEventView::TraceDeleted {
                trace_id: *trace_id,
            },
            SystemEvent::DatasetCreated { dataset } => SystemEventView::DatasetCreated {
                dataset: dataset@,
            },
            SystemEvent::DatasetDeleted { dataset_id } => SystemEventView::DatasetDeleted {
                dataset_id: *dataset_id,
            },
            SystemEvent::DatapointCreated { datapoint } => SystemEventView::DatapointCreated {
                datapoint: datapoint@,
            },
            SystemEvent::QueueItemUpdated { item } => SystemEventView::QueueItemUpdated {
                item: item@,
            },
            SystemEvent::Cleared => SystemEventView::Cleared,
        }
    }
}

impl SystemEventView {
    /// The name of the kind of the event, by which it is told apart on
    /// the wire.
    pub open spec fn kind_name(self) -> Seq<char> {
        match self {
            SystemEventView::SpanCreated { .. } => "span_created"@,
            SystemEventView::SpanCompleted { .. } => "span_completed"@,
            SystemEventView::SpanFailed { .. } => "span_failed"@,
            SystemEventView::TraceCreated { .. } => "trace_created"@,
            SystemEventView::TraceCompleted { .. } => "trace_completed"@,
            SystemEventView::FileVersionCreated { .. } => "file_version_created"@,
            SystemEventView::SpanDeleted { .. } => "span_deleted"@,
            SystemEventView::TraceDeleted { .. } => "trace_deleted"@,
            SystemEventView::DatasetCreated { .. } => "dataset_created"@,
            SystemEventView::DatasetDeleted { .. } => "dataset_deleted"@,
            SystemEventView::DatapointCreated { .. } => "datapoint_created"@,
            SystemEventView::QueueItemUpdated { .. } => "queue_item_updated"@,
            SystemEventView::Cleared => "cleared"@,
        }
    }
}

impl SystemEvent {
    /// The name of the kind of the event.
    pub fn kind_name(&self) -> (r: &'static str)
        ensures
            r@ == self@.kind_name(),
    {
        match self {
            SystemEvent::SpanCreated { .. } => "span_created",
            SystemEvent::SpanCompleted { .. } => "span_completed",
            SystemEvent::SpanFailed { .. } => "span_failed",
            SystemEvent::TraceCreated { .. } => "trace_created",
            SystemEvent::TraceCompleted { .. } => "trace_completed",
            SystemEvent::FileVersionCreated { .. } => "file_version_created",
            SystemEvent::SpanDeleted { .. } => "span_deleted",
            SystemEvent::TraceDeleted { .. } => "trace_deleted",
            SystemEvent::DatasetCreated { .. } => "dataset_created",
            SystemEvent::DatasetDeleted { .. } => "dataset_deleted",
            SystemEvent::DatapointCreated { .. } => "datapoint_created",
            SystemEvent::QueueItemUpdated { .. } => "queue_item_updated",
            SystemEvent::Cleared => "cleared",
        }
    }
}

/// The event bus holds this many events for a subscriber that is slow;
/// of more, such a subscriber loses the oldest.
pub const EVENT_BUS_CAPACITY: usize = 256;

/// The background subscriber waits this many seconds before it connects
/// again after an error.
pub const RECONNECT_DELAY_SECS: u64 = 1;

/// The channel on which the daemons of a cluster tell one another of
/// events.
pub const REDIS_CHANNEL: &'static str = "llmfs:events";

impl SystemEventView {
    /// The name under which an event holds what it tells of, and that in
    /// JSON; nothing for the event that everything was cleared.
    pub open spec fn payload(self) -> Option<(Seq<char>, JsonView)> {
        match self {
            SystemEventView::SpanCreated { span } => Some(("span"@, span.to_json())),
            SystemEventView::SpanCompleted { span } => Some(("span"@, span.to_json())),
            SystemEventView::SpanFailed { span } => Some(("span"@, span.to_json())),
            SystemEventView::TraceCreated { trace } => Some(("trace"@, trace.to_json())),
            SystemEventView::TraceCompleted { trace } => Some(("trace"@, trace.to_json())),
            SystemEventView::FileVersionCreated { file } => Some(("file"@, file.to_json())),
            SystemEventView::SpanDeleted { span_id } => Some(
                ("span_id"@, JsonView::Str(uuid_text(span_id))),
            ),
            SystemEventView::TraceDeleted { trace_id } => Some(
                ("trace_id"@, JsonView::Str(uuid_text(trace_id))),
            ),
            SystemEventView::DatasetCreated { dataset } => Some(("dataset"@, dataset.to_json())),
            SystemEventView::DatasetDeleted { dataset_id } => Some(
                ("dataset_id"@, JsonView::Str(uuid_text(dataset_id))),
            ),
            SystemEventView::DatapointCreated { datapoint } => Some(
                ("datapoint"@, datapoint.to_json()),
            ),
            SystemEventView::QueueItemUpdated { item } => Some(("item"@, item.to_json())),
            SystemEventView::Cleared => None,
        }
    }

    /// The event on the wire: an object with the name of its kind under
    /// `type`, and with what it tells of.
    pub open spec fn to_json(self) -> JsonView {
        JsonView::Object(
            assemble(
                match self.payload() {
                    Some((name, value)) => seq![
                        ("type"@, Some(JsonView::Str(self.kind_name()))),
                        (name, Some(value)),
                    ],
                    None => seq![("type"@, Some(JsonView::Str(self.kind_name())))],
                },
            ),
        )
    }

    /// The frame of the event in a stream of server-sent events: `data: `,
    /// the event in JSON, and an empty line.
    pub open spec fn sse_frame(self) -> Seq<char> {
        "data: "@ + json_text(self.to_json()) + "\n\n"@
    }
}

impl SystemEvent {
    /// The event on the wire.
    pub fn to_json(&self) -> (j: Json)
        ensures
            j@ == self@.to_json(),
    {
        let mut w = ObjectWriter::new();
        w.put("type", crate::wire::string(self.kind_name()));
        match self {
            SystemEvent::SpanCreated { span } => {
                w.put("span", span.to_json());
            },
            SystemEvent::SpanCompleted { span } => {
                w.put("span", span.to_json());
            },
            SystemEvent::SpanFailed { span } => {
                w.put("span", span.to_json());
            },
            SystemEvent::TraceCreated { trace } => {
                w.put("trace", trace.to_json());
            },
            SystemEvent::TraceCompleted { trace } => {
                w.put("trace", trace.to_json());
            },
            SystemEvent::FileVersionCreated { file } => {
                w.put("file", file.to_json());
            },
            SystemEvent::SpanDeleted { span_id } => {
                w.put("span_id", crate::wire::id_string(*span_id));
            },
            SystemEvent::TraceDeleted { trace_id } => {
                w.put("trace_id", crate::wire::id_string(*trace_id));
            },
            SystemEvent::DatasetCreated { dataset } => {
                w.put("dataset", dataset.to_json());
            },
            SystemEvent::DatasetDeleted { dataset_id } => {
                w.put("dataset_id", crate::wire::id_string(*dataset_id));
            },
            SystemEvent::DatapointCreated { datapoint } => {
                w.put("datapoint", datapoint.to_json());
            },
            SystemEvent::QueueItemUpdated { item } => {
                w.put("item", item.to_json());
            },
            SystemEvent::Cleared => {},
        }
        assert(w.entries() =~= match self@.payload() {
            Some((name, value)) => seq![
                ("type"@, Some(JsonView::Str(self@.kind_name()))),
                (name, Some(value)),
            ],
            None => seq![("type"@, Some(JsonView::Str(self@.kind_name())))],
        });
        w.finish()
    }

    /// The frame of the event in a stream of server-sent events.
    pub fn sse_frame(&self) -> (s: String)
        ensures
            s@ == self@.sse_frame(),
    {
        let text = crate::json::to_text(&self.to_json());
        crate::text::concat3("data: ", text.as_str(), "\n\n")
    }
}

impl SystemEventView {
    /// The event that a value on the wire stands for: the name under
    /// `type` says of which kind it is, and what it tells of is read as
    /// that kind asks.  A value of no known kind, or without what its
    /// kind tells of, stands for nothing.
    pub open spec fn from_json(j: JsonView) -> Option<SystemEventView> {
        match str_at(j, "type"@) {
            None => None,
            Some(kind) => {
                if kind == "span_created"@ {
                    match j.get("span"@) {
                        Some(d) => match SpanView::from_json(d) {
                            Some(span) => Some(SystemEventView::SpanCreated { span }),
                            None => None,
                        },
                        None => None,
                    }
                } else if kind == "span_completed"@ {
                    match j.get("span"@) {
                        Some(d) => match SpanView::from_json(d) {
                            Some(span) => Some(SystemEventView::SpanCompleted { span }),
                            None => None,
                        },
                        None => None,
                    }
                } else if kind == "span_failed"@ {
                    match j.get("span"@) {
                        Some(d) => match SpanView::from_json(d) {
                            Some(span) => Some(SystemEventView::SpanFailed { span }),
                            None => None,
                        },
                        None => None,
                    }
                } else if kind == "trace_created"@ {
                    match j.get("trace"@) {
                        Some(d) => match TraceView::from_json(d) {
                            Some(trace) => Some(SystemEventView::TraceCreated { trace }),
                            None => None,
                        },
                        None => None,
                    }
                } else if kind == "trace_completed"@ {
                    match j.get("trace"@) {
                        Some(d) => match TraceView::from_json(d) {
                            Some(trace) => Some(SystemEventView::TraceCompleted { trace }),
                            None => None,
                        },
                        None => None,
                    }
                } else if kind == "file_version_created"@ {
                    match j.get("file"@) {
                        Some(d) => match FileVersionView::from_json(d) {
                            Some(file) => Some(SystemEventView::FileVersionCreated { file }),
                            None => None,
                        },
                        None => None,
                    }
                } else if kind == "span_deleted"@ {
                    match id_at(j, "span_id"@) {
                        Some(span_id) => Some(SystemEventView::SpanDeleted { span_id }),
                        None => None,
                    }
                } else if kind == "trace_deleted"@ {
                    match id_at(j, "trace_id"@) {
                        Some(trace_id) => Some(SystemEventView::TraceDeleted { trace_id }),
                        None => None,
                    }
                } else if kind == "dataset_created"@ {
                    match j.get("dataset"@) {
                        Some(d) => match DatasetView::from_json(d) {
                            Some(dataset) => Some(SystemEventView::DatasetCreated { dataset }),
                            None => None,
                        },
                        None => None,
                    }
                } else if kind == "dataset_deleted"@ {
                    match id_at(j, "dataset_id"@) {
                        Some(dataset_id) => Some(SystemEventView::DatasetDeleted { dataset_id }),
                        None => None,
                    }
                } else if kind == "datapoint_created"@ {
                    match j.get("datapoint"@) {
                        Some(d) => match DatapointView::from_json(d) {
                            Some(datapoint) => Some(SystemEventView::DatapointCreated { datapoint }),
                            None => None,
                        },
                        None => None,
                    }
                } else if kind == "queue_item_updated"@ {
                    match j.get("item"@) {
                        Some(d) => match QueueItemView::from_json(d) {
                            Some(item) => Some(SystemEventView::QueueItemUpdated { item }),
                            None => None,
                        },
                        None => None,
                    }
                } else if kind == "cleared"@ {
                    Some(SystemEventView::Cleared)
                } else {
                    None
                }
            },
        }
    }
}

impl SystemEvent {
    /// The event that a value on the wire stands for; what a daemon hears
    /// from another is read by this before it is told on.
    pub fn from_json(j: &Json) -> (r: Option<SystemEvent>)
        ensures
            match r {
                Some(e) => SystemEventView::from_json(j@) == Some(e@),
                None => SystemEventView::from_json(j@).is_none(),
            },
    {
        let kind = match get_str(j, "type") {
            Some(kind) => kind,
            None => { return None; },
        };
        if same_text(kind, "span_created") {
            match j.get("span") {
                Some(d) => match Span::from_json(d) {
                    Some(span) => Some(SystemEvent::SpanCreated { span }),
                    None => None,
                },
                None => None,
            }
        } else if same_text(kind, "span_completed") {
            match j.get("span") {
                Some(d) => match Span::from_json(d) {
                    Some(span) => Some(SystemEvent::SpanCompleted { span }),
                    None => None,
                },
                None => None,
            }
        } else if same_text(kind, "span_failed") {
            match j.get("span") {
                Some(d) => match Span::from_json(d) {
                    Some(span) => Some(SystemEvent::SpanFailed { span }),
                    None => None,
                },
                None => None,
            }
        } else if same_text(kind, "trace_created") {
            match j.get("trace") {
                Some(d) => match Trace::from_json(d) {
                    Some(trace) => Some(SystemEvent::TraceCreated { trace }),
                    None => None,
                },
                None => None,
            }
        } else if same_text(kind, "trace_completed") {
            match j.get("trace") {
                Some(d) => match Trace::from_json(d) {
                    Some(trace) => Some(SystemEvent::TraceCompleted { trace }),
                    None => None,
                },
                None => None,
            }
        } else if same_text(kind, "file_version_created") {
            match j.get("file") {
                Some(d) => match FileVersion::from_json(d) {
                    Some(file) => Some(SystemEvent::FileVersionCreated { file }),
                    None => None,
                },
                None => None,
            }
        } else if same_text(kind, "span_deleted") {
            match get_id(j, "span_id") {
                Some(span_id) => Some(SystemEvent::SpanDeleted { span_id }),
                None => None,
            }
        } else if same_text(kind, "trace_deleted") {
            match get_id(j, "trace_id") {
                Some(trace_id) => Some(SystemEvent::TraceDeleted { trace_id }),
                None => None,
            }
        } else if same_text(kind, "dataset_created") {
            match j.get("dataset") {
                Some(d) => match Dataset::from_json(d) {
                    Some(dataset) => Some(SystemEvent::DatasetCreated { dataset }),
                    None => None,
                },
                None => None,
            }
        } else if same_text(kind, "dataset_deleted") {
            match get_id(j, "dataset_id") {
                Some(dataset_id) => Some(SystemEvent::DatasetDeleted { dataset_id }),
                None => None,
            }
        } else if same_text(kind, "datapoint_created") {
            match j.get("datapoint") {
                Some(d) => match Datapoint::from_json(d) {
                    Some(datapoint) => Some(SystemEvent::DatapointCreated { datapoint }),
                    None => None,
                },
                None => None,
            }
        } else if same_text(kind, "queue_item_updated") {
            match j.get("item") {
                Some(d) => match QueueItem::from_json(d) {
                    Some(item) => Some(SystemEvent::QueueItemUpdated { item }),
                    None => None,
                },
                None => None,
            }
        } else if same_text(kind, "cleared") {
            Some(SystemEvent::Cleared)
        } else {
            None
        }
    }

    /// The event that a message from another daemon stands for; nothing
    /// where the message is no JSON or no event.
    pub fn from_message(payload: &[u8]) -> (r: Option<SystemEvent>)
        ensures
            match r {
                Some(e) => crate::json::json_parsed(payload@) matches Some(j)
                    && SystemEventView::from_json(j) == Some(e@),
                None => match crate::json::json_parsed(payload@) {
                    Some(j) => SystemEventView::from_json(j).is_none(),
                    None => true,
                },
            },
    {
        match crate::json::parse(payload) {
            Some(j) => SystemEvent::from_json(&j),
            None => None,
        }
    }
}

/// The event that tells of a span that has ended: that it failed where
/// it failed, else that it was completed.
pub fn span_ended(span: Span) -> (e: SystemEvent)
    ensures
        e@ == (if span@.status is Failed {
            SystemEventView::SpanFailed { span: span@ }
        } else {
            SystemEventView::SpanCompleted { span: span@ }
        }),
{
    let failed = match span.status() {
        crate::trace::kind::SpanStatus::Failed { .. } => true,
        _ => false,
    };
    if failed {
        SystemEvent::SpanFailed { span }
    } else {
        SystemEvent::SpanCompleted { span }
    }
}

} // verus!
