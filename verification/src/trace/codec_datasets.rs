use crate::clock::rfc3339_text;
use crate::ids::uuid_text;
use crate::json::{fields_view, items_view, Json, JsonView};
use crate::trace::codec::{
    get_nanos, get_object, get_opt_id, get_opt_number, get_opt_str, get_opt_time, get_payload,
    id_faithful, lemma_pair, nanos_at, object_at, opt_id_at, opt_id_faithful, opt_id_json,
    opt_id_string, opt_number_at, opt_number_json, opt_str_at, opt_text_json, opt_time_at,
    opt_time_faithful, opt_time_json, opt_time_string, time_faithful,
};
use crate::trace::entities::{
    messages_view, Datapoint, DatapointKind, DatapointKindView, DatapointSource, DatapointView,
    Message, MessageView, QueueItem, QueueItemStatus, QueueItemView,
};
use crate::wire::{
    absent, assemble, id_at, lemma_differ, lemma_lookup_assembled, names_distinct, opt_number_text,
    opt_string, str_at, ObjectWriter,
};
use vstd::prelude::*;

verus! {

/// The entries of a message on the wire.
pub open spec fn message_entries(m: MessageView) -> Seq<(Seq<char>, Option<JsonView>)> {
    seq![("role"@, Some(JsonView::Str(m.role))), ("content"@, Some(JsonView::Str(m.content)))]
}

impl MessageView {
    /// The message on the wire.
    pub open spec fn to_json(self) -> JsonView {
        JsonView::Object(assemble(message_entries(self)))
    }

    /// The message that an object on the wire stands for.
    pub open spec fn from_json(j: JsonView) -> Option<MessageView> {
        match (str_at(j, "role"@), str_at(j, "content"@)) {
            (Some(role), Some(content)) => Some(MessageView { role, content }),
            _ => None,
        }
    }
}

/// A message comes back from the wire as it went.
pub proof fn lemma_message_round_trip(m: MessageView)
    ensures
        MessageView::from_json(m.to_json()) == Some(m),
{
    reveal_strlit("role");
    reveal_strlit("content");
    let e = message_entries(m);
    assert(e.len() == 2);
    assert(e[0].0 == "role"@ && e[1].0 == "content"@);
    assert forall|i: int, j: int| 0 <= i < e.len() && 0 <= j < e.len() && i != j implies e[i].0
        != e[j].0 by {
        lemma_pair(e, i, j);
    }
    lemma_lookup_assembled(e, "role"@);
    lemma_lookup_assembled(e, "content"@);
    let j = m.to_json();
    assert(j.get("role"@) == e[0].1);
    assert(j.get("content"@) == e[1].1);
}

impl Message {
    /// The message on the wire.  It comes back from it as it went.
    pub fn to_json(&self) -> (j: Json)
        ensures
            j@ == self@.to_json(),
            MessageView::from_json(j@) == Some(self@),
    {
        let mut w = ObjectWriter::new();
        w.put("role", crate::wire::string(self.role.as_str()));
        w.put("content", crate::wire::string(self.content.as_str()));
        assert(w.entries() =~= message_entries(self@));
        proof {
            lemma_message_round_trip(self@);
        }
        w.finish()
    }

    /// The message that an object on the wire stands for.
    pub fn from_json(j: &Json) -> (r: Option<Message>)
        ensures
            match r {
                Some(m) => MessageView::from_json(j@) == Some(m@),
                None => MessageView::from_json(j@).is_none(),
            },
    {
        match (crate::wire::get_str(j, "role"), crate::wire::get_str(j, "content")) {
            (Some(role), Some(content)) => Some(
                Message { role: role.to_owned(), content: content.to_owned() },
            ),
            _ => None,
        }
    }
}

/// A list of messages on the wire.
pub open spec fn messages_json(messages: Seq<MessageView>) -> Seq<JsonView> {
    Seq::new(messages.len(), |i: int| messages[i].to_json())
}

/// The messages that a list on the wire holds; `None` where an item is no
/// message.
pub open spec fn messages_of(items: Seq<JsonView>) -> Option<Seq<MessageView>>
    decreases items.len(),
{
    if items.len() == 0 {
        Some(Seq::empty())
    } else {
        match (messages_of(items.drop_last()), MessageView::from_json(items.last())) {
            (Some(first), Some(m)) => Some(first.push(m)),
            _ => None,
        }
    }
}

/// A list of messages comes back from the wire as it went.
pub proof fn lemma_messages_round_trip(messages: Seq<MessageView>)
    ensures
        messages_of(messages_json(messages)) == Some(messages),
    decreases messages.len(),
{
    if messages.len() > 0 {
        lemma_messages_round_trip(messages.drop_last());
        lemma_message_round_trip(messages.last());
        let items = messages_json(messages);
        assert(items.drop_last() =~= messages_json(messages.drop_last()));
        assert(items.last() == messages.last().to_json());
        assert(messages.drop_last().push(messages.last()) =~= messages);
    } else {
        assert(messages_json(messages) =~= Seq::empty());
        assert(messages =~= Seq::empty());
    }
}

proof fn lemma_messages_prefix(items: Seq<JsonView>, k: int)
    requires
        0 <= k <= items.len(),
        messages_of(items.take(k)).is_none(),
    ensures
        messages_of(items).is_none(),
    decreases items.len() - k,
{
    if k < items.len() {
        assert(items.take(k + 1).drop_last() =~= items.take(k));
        lemma_messages_prefix(items, k + 1);
    } else {
        assert(items.take(k) =~= items);
    }
}

fn messages_to_json(messages: &Vec<Message>) -> (j: Json)
    ensures
        j@ == JsonView::Array(messages_json(messages_view(messages@))),
{
    let mut items: Vec<Json> = Vec::new();
    let mut i: usize = 0;
    while i < messages.len()
        invariant
            i <= messages.len(),
            items.len() == i,
            forall|k: int| 0 <= k < i ==> items[k]@ == messages[k]@.to_json(),
        decreases messages.len() - i,
    {
        items.push(messages[i].to_json());
        i = i + 1;
    }
    proof {
        crate::json::lemma_array_view(items);
        assert(items_view(items@) =~= messages_json(messages_view(messages@)));
    }
    Json::Array(items)
}

fn read_messages(items: &Vec<Json>) -> (r: Option<Vec<Message>>)
    ensures
        match r {
            Some(v) => messages_of(items_view(items@)) == Some(messages_view(v@)),
            None => messages_of(items_view(items@)).is_none(),
        },
{
    let ghost all = items_view(items@);
    let mut r: Vec<Message> = Vec::new();
    let mut i: usize = 0;
    assert(all.take(0) =~= Seq::empty());
    assert(messages_view(r@) =~= Seq::empty());
    while i < items.len()
        invariant
            i <= items.len(),
            all == items_view(items@),
            messages_of(all.take(i as int)) == Some(messages_view(r@)),
        decreases items.len() - i,
    {
        proof {
            assert(all.take(i + 1).drop_last() =~= all.take(i as int));
            assert(all.take(i + 1).last() == items[i as int]@);
        }
        match Message::from_json(&items[i]) {
            Some(m) => {
                let ghost before = messages_view(r@);
                let ghost mv = m@;
                r.push(m);
                assert(messages_view(r@) =~= before.push(mv));
            },
            None => {
                proof {
                    lemma_messages_prefix(all, i + 1);
                }
                return None;
            },
        }
        i = i + 1;
    }
    assert(all.take(items.len() as int) =~= all);
    Some(r)
}

/// The messages that a list on the wire holds.
pub fn read_message_list(items: &Vec<Json>) -> (r: Option<Vec<Message>>)
    ensures
        match r {
            Some(v) => messages_of(items_view(items@)) == Some(messages_view(v@)),
            None => messages_of(items_view(items@)).is_none(),
        },
{
    read_messages(items)
}

/// The message of an optional value on the wire.
pub open spec fn opt_message_json(m: Option<MessageView>) -> Option<JsonView> {
    match m {
        Some(m) => Some(m.to_json()),
        None => None,
    }
}

/// The message under `key` where one may stand there.
pub open spec fn opt_message_at(j: JsonView, key: Seq<char>) -> Option<Option<MessageView>> {
    if absent(j, key) {
        Some(None)
    } else {
        match MessageView::from_json(j.get(key).unwrap()) {
            Some(m) => Some(Some(m)),
            None => None,
        }
    }
}

/// The messages under `key`.
pub open spec fn messages_at(j: JsonView, key: Seq<char>) -> Option<Seq<MessageView>> {
    match j.get(key) {
        Some(v) => match v.as_array() {
            Some(items) => messages_of(items),
            None => None,
        },
        None => None,
    }
}

/// The entries of what a datapoint holds, on the wire.
pub open spec fn datapoint_kind_entries(k: DatapointKindView) -> Seq<(Seq<char>, Option<JsonView>)> {
    match k {
        DatapointKindView::LlmConversation { messages, expected, metadata } => seq![
            ("type"@, Some(JsonView::Str("llm_conversation"@))),
            ("messages"@, Some(JsonView::Array(messages_json(messages)))),
            ("expected"@, opt_message_json(expected)),
            ("metadata"@, Some(JsonView::Object(metadata))),
        ],
        DatapointKindView::Generic {
            input,
            expected_output,
            actual_output,
            score,
            metadata,
        } => seq![
            ("type"@, Some(JsonView::Str("generic"@))),
            ("input"@, Some(input)),
            ("expected_output"@, expected_output),
            ("actual_output"@, actual_output),
            ("score"@, opt_number_text(score)),
            ("metadata"@, Some(JsonView::Object(metadata))),
        ],
    }
}

impl DatapointKindView {
    /// What a datapoint holds, on the wire: an object that tells its type
    /// under `type`.
    pub open spec fn to_json(self) -> JsonView {
        JsonView::Object(assemble(datapoint_kind_entries(self)))
    }

    /// What an object on the wire stands for.
    pub open spec fn from_json(j: JsonView) -> Option<DatapointKindView> {
        match str_at(j, "type"@) {
            None => None,
            Some(t) => if t == "llm_conversation"@ {
                match (
                    messages_at(j, "messages"@),
                    opt_message_at(j, "expected"@),
                    object_at(j, "metadata"@),
                ) {
                    (Some(messages), Some(expected), Some(metadata)) => Some(
                        DatapointKindView::LlmConversation { messages, expected, metadata },
                    ),
                    _ => None,
                }
            } else if t == "generic"@ {
                match (j.get("input"@), opt_number_at(j, "score"@), object_at(j, "metadata"@)) {
                    (Some(input), Some(score), Some(metadata)) => Some(
                        DatapointKindView::Generic {
                            input,
                            expected_output: j.get("expected_output"@),
                            actual_output: j.get("actual_output"@),
                            score,
                            metadata,
                        },
                    ),
                    _ => None,
                }
            } else {
                None
            },
        }
    }
}

proof fn lemma_datapoint_kind_names(k: DatapointKindView)
    ensures
        names_distinct(datapoint_kind_entries(k)),
{
    reveal_strlit("type");
    reveal_strlit("messages");
    reveal_strlit("expected");
    reveal_strlit("metadata");
    reveal_strlit("input");
    reveal_strlit("expected_output");
    reveal_strlit("actual_output");
    reveal_strlit("score");
    lemma_differ("messages"@, "expected"@, 0);
    lemma_differ("messages"@, "metadata"@, 2);
    lemma_differ("expected"@, "metadata"@, 0);
    lemma_differ("input"@, "score"@, 0);
    let e = datapoint_kind_entries(k);
    match k {
        DatapointKindView::LlmConversation { .. } => {
            assert(e.len() == 4);
            assert(e[0].0 == "type"@ && e[1].0 == "messages"@ && e[2].0 == "expected"@ && e[3].0
                == "metadata"@);
            assert forall|i: int, j: int|
                0 <= i < e.len() && 0 <= j < e.len() && i != j implies e[i].0 != e[j].0 by {
                lemma_pair(e, i, j);
                if (i == 1 && j == 3) || (i == 3 && j == 1) {
                    assert("messages"@ != "metadata"@);
                }
            }
        },
        DatapointKindView::Generic { .. } => {
            assert(e.len() == 6);
            assert(e[0].0 == "type"@ && e[1].0 == "input"@ && e[2].0 == "expected_output"@
                && e[3].0 == "actual_output"@ && e[4].0 == "score"@ && e[5].0 == "metadata"@);
            assert forall|i: int, j: int|
                0 <= i < e.len() && 0 <= j < e.len() && i != j implies e[i].0 != e[j].0 by {
                lemma_pair(e, i, j);
            }
        },
    }
}

/// What a datapoint holds comes back from the wire as it went.
pub proof fn lemma_datapoint_kind_round_trip(k: DatapointKindView)
    ensures
        DatapointKindView::from_json(k.to_json()) == Some(k),
{
    lemma_datapoint_kind_names(k);
    reveal_strlit("llm_conversation");
    reveal_strlit("generic");
    lemma_differ("llm_conversation"@, "generic"@, 0);
    let e = datapoint_kind_entries(k);
    let j = k.to_json();
    lemma_lookup_assembled(e, "type"@);
    assert(e[0].0 == "type"@);
    assert(j.get("type"@) == e[0].1);
    match k {
        DatapointKindView::LlmConversation { messages, expected, metadata } => {
            assert(e[1].0 == "messages"@ && e[2].0 == "expected"@ && e[3].0 == "metadata"@);
            lemma_lookup_assembled(e, "messages"@);
            lemma_lookup_assembled(e, "expected"@);
            lemma_lookup_assembled(e, "metadata"@);
            assert(j.get("messages"@) == e[1].1);
            assert(j.get("expected"@) == e[2].1);
            assert(j.get("metadata"@) == e[3].1);
            lemma_messages_round_trip(messages);
            if let Some(m) = expected {
                lemma_message_round_trip(m);
            }
        },
        DatapointKindView::Generic { input, expected_output, actual_output, score, metadata } => {
            assert(e[1].0 == "input"@ && e[2].0 == "expected_output"@ && e[3].0
                == "actual_output"@ && e[4].0 == "score"@ && e[5].0 == "metadata"@);
            lemma_lookup_assembled(e, "input"@);
            lemma_lookup_assembled(e, "expected_output"@);
            lemma_lookup_assembled(e, "actual_output"@);
            lemma_lookup_assembled(e, "score"@);
            lemma_lookup_assembled(e, "metadata"@);
            assert(j.get("input"@) == e[1].1);
            assert(j.get("expected_output"@) == e[2].1);
            assert(j.get("actual_output"@) == e[3].1);
            assert(j.get("score"@) == e[4].1);
            assert(j.get("metadata"@) == e[5].1);
        },
    }
}

fn object_of(fields: &Vec<(String, Json)>) -> (j: Json)
    ensures
        j@ == JsonView::Object(fields_view(fields@)),
{
    let copy = crate::json::clone_fields(fields);
    proof {
        crate::json::lemma_object_view(copy);
    }
    Json::Object(copy)
}

impl DatapointKind {
    /// What a datapoint holds, on the wire.  It comes back from it as it
    /// went.
    pub fn to_json(&self) -> (j: Json)
        ensures
            j@ == self@.to_json(),
            DatapointKindView::from_json(j@) == Some(self@),
    {
        let mut w = ObjectWriter::new();
        match self {
            DatapointKind::LlmConversation { messages, expected, metadata } => {
                w.put("type", crate::wire::string("llm_conversation"));
                w.put("messages", messages_to_json(messages));
                let e = match expected {
                    Some(m) => Some(m.to_json()),
                    None => None,
                };
                w.put_opt("expected", e);
                w.put("metadata", object_of(metadata));
            },
            DatapointKind::Generic { input, expected_output, actual_output, score, metadata } => {
                w.put("type", crate::wire::string("generic"));
                w.put("input", input.clone());
                w.put_opt("expected_output", crate::json::clone_opt(expected_output));
                w.put_opt("actual_output", crate::json::clone_opt(actual_output));
                w.put_opt("score", opt_number_json(score));
                w.put("metadata", object_of(metadata));
            },
        }
        assert(w.entries() =~= datapoint_kind_entries(self@));
        proof {
            lemma_datapoint_kind_round_trip(self@);
        }
        w.finish()
    }

    /// What an object on the wire stands for.
    pub fn from_json(j: &Json) -> (r: Option<DatapointKind>)
        ensures
            match r {
                Some(k) => DatapointKindView::from_json(j@) == Some(k@),
                None => DatapointKindView::from_json(j@).is_none(),
            },
    {
        let t = match crate::wire::get_str(j, "type") {
            Some(t) => t,
            None => {
                return None;
            },
        };
        if crate::text::same_text(t, "llm_conversation") {
            let messages = match j.get("messages") {
                Some(v) => match v.as_array() {
                    Some(items) => read_messages(items),
                    None => None,
                },
                None => None,
            };
            let expected = if crate::wire::is_absent(j, "expected") {
                Some(None)
            } else {
                match j.get("expected") {
                    Some(v) => match Message::from_json(v) {
                        Some(m) => Some(Some(m)),
                        None => None,
                    },
                    None => None,
                }
            };
            let metadata = get_object(j, "metadata");
            match (messages, expected, metadata) {
                (Some(messages), Some(expected), Some(metadata)) => Some(
                    DatapointKind::LlmConversation { messages, expected, metadata },
                ),
                _ => None,
            }
        } else if crate::text::same_text(t, "generic") {
            let input = get_payload(j, "input");
            let score = get_opt_number(j, "score");
            let metadata = get_object(j, "metadata");
            match (input, score, metadata) {
                (Some(input), Some(score), Some(metadata)) => Some(
                    DatapointKind::Generic {
                        input,
                        expected_output: get_payload(j, "expected_output"),
                        actual_output: get_payload(j, "actual_output"),
                        score,
                        metadata,
                    },
                ),
                _ => None,
            }
        } else {
            None
        }
    }
}

impl DatapointSource {
    /// The source that a name on the wire stands for.
    pub open spec fn spec_from_name(name: Seq<char>) -> Option<DatapointSource> {
        if name == "manual"@ {
            Some(DatapointSource::Manual)
        } else if name == "span_export"@ {
            Some(DatapointSource::SpanExport)
        } else if name == "file_upload"@ {
            Some(DatapointSource::FileUpload)
        } else {
            None
        }
    }

    /// The source that a name on the wire stands for.
    pub fn from_name(name: &str) -> (r: Option<DatapointSource>)
        ensures
            r == DatapointSource::spec_from_name(name@),
    {
        if crate::text::same_text(name, "manual") {
            Some(DatapointSource::Manual)
        } else if crate::text::same_text(name, "span_export") {
            Some(DatapointSource::SpanExport)
        } else if crate::text::same_text(name, "file_upload") {
            Some(DatapointSource::FileUpload)
        } else {
            None
        }
    }
}

/// A source comes back from its name.
pub proof fn lemma_source_round_trip(s: DatapointSource)
    ensures
        DatapointSource::spec_from_name(s.spec_as_str()) == Some(s),
{
    reveal_strlit("manual");
    reveal_strlit("span_export");
    reveal_strlit("file_upload");
    lemma_differ("span_export"@, "file_upload"@, 0);
    lemma_differ("span_export"@, "manual"@, 0);
    lemma_differ("file_upload"@, "manual"@, 0);
    match s {
        DatapointSource::Manual => {},
        DatapointSource::SpanExport => {},
        DatapointSource::FileUpload => {},
    }
}

impl QueueItemStatus {
    /// The status that a name on the wire stands for.
    pub open spec fn spec_from_name(name: Seq<char>) -> Option<QueueItemStatus> {
        if name == "pending"@ {
            Some(QueueItemStatus::Pending)
        } else if name == "claimed"@ {
            Some(QueueItemStatus::Claimed)
        } else if name == "completed"@ {
            Some(QueueItemStatus::Completed)
        } else {
            None
        }
    }

    /// The status that a name on the wire stands for.
    pub fn from_name(name: &str) -> (r: Option<QueueItemStatus>)
        ensures
            r == QueueItemStatus::spec_from_name(name@),
    {
        if crate::text::same_text(name, "pending") {
            Some(QueueItemStatus::Pending)
        } else if crate::text::same_text(name, "claimed") {
            Some(QueueItemStatus::Claimed)
        } else if crate::text::same_text(name, "completed") {
            Some(QueueItemStatus::Completed)
        } else {
            None
        }
    }
}

/// The status of a queue item comes back from its name.
pub proof fn lemma_queue_status_round_trip(s: QueueItemStatus)
    ensures
        QueueItemStatus::spec_from_name(s.spec_as_str()) == Some(s),
{
    reveal_strlit("pending");
    reveal_strlit("claimed");
    reveal_strlit("completed");
    assert("pending"@.len() == 7);
    assert("claimed"@.len() == 7);
    assert("pending"@[0] == 'p');
    assert("claimed"@[0] == 'c');
    lemma_differ("pending"@, "claimed"@, 0);
    lemma_differ("completed"@, "pending"@, 0);
    lemma_differ("completed"@, "claimed"@, 1);
    match s {
        QueueItemStatus::Pending => {},
        QueueItemStatus::Claimed => {},
        QueueItemStatus::Completed => {},
    }
}

/// The entries of a datapoint on the wire.
pub open spec fn datapoint_entries(d: DatapointView) -> Seq<(Seq<char>, Option<JsonView>)> {
    seq![
        ("id"@, Some(JsonView::Str(uuid_text(d.id)))),
        ("dataset_id"@, Some(JsonView::Str(uuid_text(d.dataset_id)))),
        ("kind"@, Some(d.kind.to_json())),
        ("source"@, Some(JsonView::Str(d.source.spec_as_str()))),
        ("source_span_id"@, opt_id_string(d.source_span_id)),
        ("created_at"@, Some(JsonView::Str(rfc3339_text(d.created_at)))),
    ]
}

impl DatapointView {
    /// The datapoint on the wire.
    pub open spec fn to_json(self) -> JsonView {
        JsonView::Object(assemble(datapoint_entries(self)))
    }

    /// The datapoint that an object on the wire stands for.
    pub open spec fn from_json(j: JsonView) -> Option<DatapointView> {
        match (
            id_at(j, "id"@),
            id_at(j, "dataset_id"@),
            j.get("kind"@),
            str_at(j, "source"@),
            opt_id_at(j, "source_span_id"@),
            nanos_at(j, "created_at"@),
        ) {
            (
                Some(id),
                Some(dataset_id),
                Some(kind),
                Some(source),
                Some(source_span_id),
                Some(created_at),
            ) => match (
                DatapointKindView::from_json(kind),
                DatapointSource::spec_from_name(source),
            ) {
                (Some(kind), Some(source)) => Some(
                    DatapointView { id, dataset_id, kind, source, source_span_id, created_at },
                ),
                _ => None,
            },
            _ => None,
        }
    }
}

proof fn lemma_datapoint_names(d: DatapointView)
    ensures
        names_distinct(datapoint_entries(d)),
{
    reveal_strlit("id");
    reveal_strlit("dataset_id");
    reveal_strlit("kind");
    reveal_strlit("source");
    reveal_strlit("source_span_id");
    reveal_strlit("created_at");
    lemma_differ("dataset_id"@, "created_at"@, 0);
    let e = datapoint_entries(d);
    assert(e.len() == 6);
    assert(e[0].0 == "id"@ && e[1].0 == "dataset_id"@ && e[2].0 == "kind"@ && e[3].0 == "source"@
        && e[4].0 == "source_span_id"@ && e[5].0 == "created_at"@);
    assert forall|i: int, j: int| 0 <= i < e.len() && 0 <= j < e.len() && i != j implies e[i].0
        != e[j].0 by {
        lemma_pair(e, i, j);
    }
}

/// A datapoint comes back from the wire as it went.
pub proof fn lemma_datapoint_round_trip(d: DatapointView)
    requires
        id_faithful(d.id),
        id_faithful(d.dataset_id),
        opt_id_faithful(d.source_span_id),
        time_faithful(d.created_at),
    ensures
        DatapointView::from_json(d.to_json()) == Some(d),
{
    lemma_datapoint_names(d);
    lemma_datapoint_kind_round_trip(d.kind);
    lemma_source_round_trip(d.source);
    let e = datapoint_entries(d);
    assert(e[0].0 == "id"@ && e[1].0 == "dataset_id"@ && e[2].0 == "kind"@ && e[3].0 == "source"@
        && e[4].0 == "source_span_id"@ && e[5].0 == "created_at"@);
    lemma_lookup_assembled(e, "id"@);
    lemma_lookup_assembled(e, "dataset_id"@);
    lemma_lookup_assembled(e, "kind"@);
    lemma_lookup_assembled(e, "source"@);
    lemma_lookup_assembled(e, "source_span_id"@);
    lemma_lookup_assembled(e, "created_at"@);
    let j = d.to_json();
    assert(j.get("id"@) == e[0].1);
    assert(j.get("dataset_id"@) == e[1].1);
    assert(j.get("kind"@) == e[2].1);
    assert(j.get("source"@) == e[3].1);
    assert(j.get("source_span_id"@) == e[4].1);
    assert(j.get("created_at"@) == e[5].1);
}

impl Datapoint {
    /// The datapoint on the wire.  It comes back from it as it went.
    pub fn to_json(&self) -> (j: Json)
        ensures
            j@ == self@.to_json(),
            DatapointView::from_json(j@) == Some(self@),
    {
        let mut w = ObjectWriter::new();
        w.put("id", crate::wire::id_string(self.id));
        w.put("dataset_id", crate::wire::id_string(self.dataset_id));
        w.put("kind", self.kind.to_json());
        w.put("source", crate::wire::string(self.source.as_str()));
        w.put_opt("source_span_id", opt_id_json(self.source_span_id));
        w.put("created_at", crate::wire::time_string(&self.created_at));
        assert(w.entries() =~= datapoint_entries(self@));
        proof {
            lemma_datapoint_round_trip(self@);
        }
        w.finish()
    }

    /// The datapoint that an object on the wire stands for.
    pub fn from_json(j: &Json) -> (r: Option<Datapoint>)
        ensures
            match r {
                Some(d) => DatapointView::from_json(j@) == Some(d@),
                None => DatapointView::from_json(j@).is_none(),
            },
    {
        let id = crate::wire::get_id(j, "id");
        let dataset_id = crate::wire::get_id(j, "dataset_id");
        let kind = j.get("kind");
        let source = crate::wire::get_str(j, "source");
        let source_span_id = get_opt_id(j, "source_span_id");
        let created_at = get_nanos(j, "created_at");
        match (id, dataset_id, kind, source, source_span_id, created_at) {
            (
                Some(id),
                Some(dataset_id),
                Some(kind),
                Some(source),
                Some(source_span_id),
                Some(created_at),
            ) => match (DatapointKind::from_json(kind), DatapointSource::from_name(source)) {
                (Some(kind), Some(source)) => Some(
                    Datapoint { id, dataset_id, kind, source, source_span_id, created_at },
                ),
                _ => None,
            },
            _ => None,
        }
    }
}

/// The entries of a queue item on the wire.
pub open spec fn queue_item_entries(q: QueueItemView) -> Seq<(Seq<char>, Option<JsonView>)> {
    seq![
        ("id"@, Some(JsonView::Str(uuid_text(q.id)))),
        ("dataset_id"@, Some(JsonView::Str(uuid_text(q.dataset_id)))),
        ("datapoint_id"@, Some(JsonView::Str(uuid_text(q.datapoint_id)))),
        ("status"@, Some(JsonView::Str(q.status.spec_as_str()))),
        ("claimed_by"@, opt_string(q.claimed_by)),
        ("claimed_at"@, opt_time_string(q.claimed_at)),
        ("original_data"@, q.original_data),
        ("edited_data"@, q.edited_data),
        ("created_at"@, Some(JsonView::Str(rfc3339_text(q.created_at)))),
    ]
}

impl QueueItemView {
    /// The queue item on the wire.
    pub open spec fn to_json(self) -> JsonView {
        JsonView::Object(assemble(queue_item_entries(self)))
    }

    /// The queue item that an object on the wire stands for.
    pub open spec fn from_json(j: JsonView) -> Option<QueueItemView> {
        match (
            id_at(j, "id"@),
            id_at(j, "dataset_id"@),
            id_at(j, "datapoint_id"@),
            str_at(j, "status"@),
            opt_str_at(j, "claimed_by"@),
            opt_time_at(j, "claimed_at"@),
            nanos_at(j, "created_at"@),
        ) {
            (
                Some(id),
                Some(dataset_id),
                Some(datapoint_id),
                Some(status),
                Some(claimed_by),
                Some(claimed_at),
                Some(created_at),
            ) => match QueueItemStatus::spec_from_name(status) {
                Some(status) => Some(
                    QueueItemView {
                        id,
                        dataset_id,
                        datapoint_id,
                        status,
                        claimed_by,
                        claimed_at,
                        original_data: j.get("original_data"@),
                        edited_data: j.get("edited_data"@),
                        created_at,
                    },
                ),
                None => None,
            },
            _ => None,
        }
    }
}

proof fn lemma_queue_item_names(q: QueueItemView)
    ensures
        names_distinct(queue_item_entries(q)),
{
    reveal_strlit("id");
    reveal_strlit("dataset_id");
    reveal_strlit("datapoint_id");
    reveal_strlit("status");
    reveal_strlit("claimed_by");
    reveal_strlit("claimed_at");
    reveal_strlit("original_data");
    reveal_strlit("edited_data");
    reveal_strlit("created_at");
    lemma_differ("dataset_id"@, "claimed_by"@, 0);
    lemma_differ("dataset_id"@, "claimed_at"@, 0);
    lemma_differ("dataset_id"@, "created_at"@, 0);
    lemma_differ("claimed_by"@, "claimed_at"@, 8);
    lemma_differ("claimed_by"@, "created_at"@, 1);
    lemma_differ("claimed_at"@, "created_at"@, 1);
    let e = queue_item_entries(q);
    assert(e.len() == 9);
    assert(e[0].0 == "id"@ && e[1].0 == "dataset_id"@ && e[2].0 == "datapoint_id"@ && e[3].0
        == "status"@ && e[4].0 == "claimed_by"@ && e[5].0 == "claimed_at"@ && e[6].0
        == "original_data"@ && e[7].0 == "edited_data"@ && e[8].0 == "created_at"@);
    assert forall|i: int, j: int| 0 <= i < e.len() && 0 <= j < e.len() && i != j implies e[i].0
        != e[j].0 by {
        lemma_pair(e, i, j);
    }
}

/// A queue item comes back from the wire as it went.
pub proof fn lemma_queue_item_round_trip(q: QueueItemView)
    requires
        id_faithful(q.id),
        id_faithful(q.dataset_id),
        id_faithful(q.datapoint_id),
        opt_time_faithful(q.claimed_at),
        time_faithful(q.created_at),
    ensures
        QueueItemView::from_json(q.to_json()) == Some(q),
{
    lemma_queue_item_names(q);
    lemma_queue_status_round_trip(q.status);
    let e = queue_item_entries(q);
    assert(e[0].0 == "id"@ && e[1].0 == "dataset_id"@ && e[2].0 == "datapoint_id"@ && e[3].0
        == "status"@ && e[4].0 == "claimed_by"@ && e[5].0 == "claimed_at"@ && e[6].0
        == "original_data"@ && e[7].0 == "edited_data"@ && e[8].0 == "created_at"@);
    lemma_lookup_assembled(e, "id"@);
    lemma_lookup_assembled(e, "dataset_id"@);
    lemma_lookup_assembled(e, "datapoint_id"@);
    lemma_lookup_assembled(e, "status"@);
    lemma_lookup_assembled(e, "claimed_by"@);
    lemma_lookup_assembled(e, "claimed_at"@);
    lemma_lookup_assembled(e, "original_data"@);
    lemma_lookup_assembled(e, "edited_data"@);
    lemma_lookup_assembled(e, "created_at"@);
    let j = q.to_json();
    assert(j.get("id"@) == e[0].1);
    assert(j.get("dataset_id"@) == e[1].1);
    assert(j.get("datapoint_id"@) == e[2].1);
    assert(j.get("status"@) == e[3].1);
    assert(j.get("claimed_by"@) == e[4].1);
    assert(j.get("claimed_at"@) == e[5].1);
    assert(j.get("original_data"@) == e[6].1);
    assert(j.get("edited_data"@) == e[7].1);
    assert(j.get("created_at"@) == e[8].1);
}

impl QueueItem {
    /// The queue item on the wire.  It comes back from it as it went.
    pub fn to_json(&self) -> (j: Json)
        ensures
            j@ == self@.to_json(),
            QueueItemView::from_json(j@) == Some(self@),
    {
        let mut w = ObjectWriter::new();
        w.put("id", crate::wire::id_string(self.id));
        w.put("dataset_id", crate::wire::id_string(self.dataset_id));
        w.put("datapoint_id", crate::wire::id_string(self.datapoint_id));
        w.put("status", crate::wire::string(self.status.as_str()));
        w.put_opt("claimed_by", opt_text_json(&self.claimed_by));
        w.put_opt("claimed_at", opt_time_json(&self.claimed_at));
        w.put_opt("original_data", crate::json::clone_opt(&self.original_data));
        w.put_opt("edited_data", crate::json::clone_opt(&self.edited_data));
        w.put("created_at", crate::wire::time_string(&self.created_at));
        assert(w.entries() =~= queue_item_entries(self@));
        proof {
            lemma_queue_item_round_trip(self@);
        }
        w.finish()
    }

    /// The queue item that an object on the wire stands for.
    pub fn from_json(j: &Json) -> (r: Option<QueueItem>)
        ensures
            match r {
                Some(q) => QueueItemView::from_json(j@) == Some(q@),
                None => QueueItemView::from_json(j@).is_none(),
            },
    {
        let id = crate::wire::get_id(j, "id");
        let dataset_id = crate::wire::get_id(j, "dataset_id");
        let datapoint_id = crate::wire::get_id(j, "datapoint_id");
        let status = crate::wire::get_str(j, "status");
        let claimed_by = get_opt_str(j, "claimed_by");
        let claimed_at = get_opt_time(j, "claimed_at");
        let created_at = get_nanos(j, "created_at");
        match (id, dataset_id, datapoint_id, status, claimed_by, claimed_at, created_at) {
            (
                Some(id),
                Some(dataset_id),
                Some(datapoint_id),
                Some(status),
                Some(claimed_by),
                Some(claimed_at),
                Some(created_at),
            ) => match QueueItemStatus::from_name(status) {
                Some(status) => Some(
                    QueueItem {
                        id,
                        dataset_id,
                        datapoint_id,
                        status,
                        claimed_by,
                        claimed_at,
                        original_data: get_payload(j, "original_data"),
                        edited_data: get_payload(j, "edited_data"),
                        created_at,
                    },
                ),
                None => None,
            },
            _ => None,
        }
    }
}

} // verus!
