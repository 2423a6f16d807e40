use crate::clock::Timestamp;
use crate::json::{clone_fields, clone_opt, fields_view, opt_json, Json, JsonView};
use crate::text::{clone_opt_text, clone_texts, opt_text, texts_view};
use crate::trace::span::{opt_time, DatapointId, DatasetId, OrgId, QueueItemId, SpanId, TraceId};
use vstd::prelude::*;

verus! {

/// What is known of a trace itself, whether or not it holds spans yet.
#[derive(Debug, PartialEq)]
pub struct Trace {
    pub id: TraceId,
    pub org_id: Option<OrgId>,
    pub name: Option<String>,
    pub tags: Vec<String>,
    pub started_at: Timestamp,
    pub ended_at: Option<Timestamp>,
    pub machine_id: Option<String>,
}

/// The mathematical value of a [`Trace`].
pub struct TraceView {
    pub id: TraceId,
    pub org_id: Option<OrgId>,
    pub name: Option<Seq<char>>,
    pub tags: Seq<Seq<char>>,
    pub started_at: int,
    pub ended_at: Option<int>,
    pub machine_id: Option<Seq<char>>,
}

impl View for Trace {
    type V = TraceView;

    open spec fn view(&self) -> TraceView {
        TraceView {
            id: self.id,
            org_id: self.org_id,
            name: opt_text(self.name),
            tags: texts_view(self.tags@),
            started_at: self.started_at@,
            ended_at: opt_time(self.ended_at),
            machine_id: opt_text(self.machine_id),
        }
    }
}

impl TraceView {
    /// The trace, ended at `now`.
    pub open spec fn ended(self, now: int) -> TraceView {
        TraceView { ended_at: Some(now), ..self }
    }
}

impl Trace {
    /// The trace `id` that started at `now`, without tags.
    pub fn new_with(name: Option<String>, id: TraceId, now: Timestamp) -> (t: Trace)
        ensures
            t@ == (TraceView {
                id,
                org_id: None,
                name: opt_text(name),
                tags: Seq::empty(),
                started_at: now@,
                ended_at: None,
                machine_id: None,
            }),
    {
        let t = Trace {
            id,
            org_id: None,
            name,
            tags: Vec::new(),
            started_at: now,
            ended_at: None,
            machine_id: None,
        };
        assert(t@.tags =~= Seq::empty());
        t
    }

    /// A trace with a fresh identifier that starts now.
    pub fn new(name: Option<String>) -> (t: Trace)
        ensures
            t@.org_id.is_none(),
            t@.name == opt_text(name),
            t@.tags == Seq::<Seq<char>>::empty(),
            t@.ended_at.is_none(),
            t@.machine_id.is_none(),
    {
        let id = crate::ids::fresh_id();
        let now = crate::clock::now();
        Trace::new_with(name, id, now)
    }

    pub fn with_org(self, org_id: OrgId) -> (t: Trace)
        ensures
            t@ == (TraceView { org_id: Some(org_id), ..self@ }),
    {
        let mut t = self;
        t.org_id = Some(org_id);
        t
    }

    pub fn with_tags(self, tags: Vec<String>) -> (t: Trace)
        ensures
            t@ == (TraceView { tags: texts_view(tags@), ..self@ }),
    {
        let mut t = self;
        t.tags = tags;
        t
    }

    /// The trace, ended at `now`.
    pub fn complete_at(self, now: Timestamp) -> (t: Trace)
        ensures
            t@ == self@.ended(now@),
    {
        let mut t = self;
        t.ended_at = Some(now);
        t
    }

    /// The trace, ended now.
    pub fn complete(self) -> (t: Trace)
        ensures
            exists|now: int| t@ == self@.ended(now),
    {
        let now = crate::clock::now();
        self.complete_at(now)
    }
}

impl Clone for Trace {
    fn clone(&self) -> (r: Trace)
        ensures
            r@ == self@,
    {
        Trace {
            id: self.id,
            org_id: self.org_id,
            name: clone_opt_text(&self.name),
            tags: clone_texts(&self.tags),
            started_at: self.started_at,
            ended_at: self.ended_at,
            machine_id: clone_opt_text(&self.machine_id),
        }
    }
}

/// A file that is followed, with the hash of what it holds now.
#[derive(Debug, PartialEq)]
pub struct TrackedFile {
    pub path: String,
    pub current_hash: String,
    pub created_at: Timestamp,
    pub updated_at: Timestamp,
}

/// One snapshot of a file: its path and the hash of what it held.
#[derive(Debug, PartialEq)]
pub struct FileVersion {
    pub hash: String,
    pub path: String,
    pub size: u64,
    pub created_at: Timestamp,
    pub created_by_span: Option<SpanId>,
}

/// The mathematical value of a [`FileVersion`].
pub struct FileVersionView {
    pub hash: Seq<char>,
    pub path: Seq<char>,
    pub size: u64,
    pub created_at: int,
    pub created_by_span: Option<SpanId>,
}

impl View for FileVersion {
    type V = FileVersionView;

    open spec fn view(&self) -> FileVersionView {
        FileVersionView {
            hash: self.hash@,
            path: self.path@,
            size: self.size,
            created_at: self.created_at@,
            created_by_span: self.created_by_span,
        }
    }
}

impl Clone for FileVersion {
    fn clone(&self) -> (r: FileVersion)
        ensures
            r@ == self@,
    {
        FileVersion {
            hash: self.hash.clone(),
            path: self.path.clone(),
            size: self.size,
            created_at: self.created_at,
            created_by_span: self.created_by_span,
        }
    }
}

/// The SHA-256 digest of a sequence of bytes, as 64 lower-case hexadecimal
/// digits.
pub uninterp spec fn sha256_hex(bytes: Seq<u8>) -> Seq<char>;

/// `sha2::Sha256` over the bytes, with the digest written by `{:x}`: the
/// hexadecimal text of the SHA-256 digest, 64 characters long.
#[verifier::external_body]
fn sha256_digest_hex(bytes: &[u8]) -> (s: String)
    ensures
        s@ == sha256_hex(bytes@),
        s@.len() == 64,
{
    let mut hasher = <sha2::Sha256 as sha2::Digest>::new();
    sha2::Digest::update(&mut hasher, bytes);
    format!("{:x}", sha2::Digest::finalize(hasher))
}

/// The content hash of `bytes`: the SHA-256 digest in hexadecimal.
pub fn content_hash(bytes: &[u8]) -> (s: String)
    ensures
        s@ == sha256_hex(bytes@),
        s@.len() == 64,
{
    sha256_digest_hex(bytes)
}

/// One turn of a conversation.
#[derive(Debug, PartialEq)]
pub struct Message {
    pub role: String,
    pub content: String,
}

/// The mathematical value of a [`Message`].
pub struct MessageView {
    pub role: Seq<char>,
    pub content: Seq<char>,
}

impl View for Message {
    type V = MessageView;

    open spec fn view(&self) -> MessageView {
        MessageView { role: self.role@, content: self.content@ }
    }
}

impl Clone for Message {
    fn clone(&self) -> (r: Message)
        ensures
            r@ == self@,
    {
        Message { role: self.role.clone(), content: self.content.clone() }
    }
}

/// The values of a list of messages.
pub open spec fn messages_view(v: Seq<Message>) -> Seq<MessageView> {
    Seq::new(v.len(), |i: int| v[i]@)
}

/// The value of an optional message.
pub open spec fn opt_message(o: Option<Message>) -> Option<MessageView> {
    match o {
        Some(m) => Some(m@),
        None => None,
    }
}

/// A copy of a list of messages.
pub fn clone_messages(v: &Vec<Message>) -> (r: Vec<Message>)
    ensures
        messages_view(r@) == messages_view(v@),
{
    let mut r: Vec<Message> = Vec::new();
    let mut i: usize = 0;
    while i < v.len()
        invariant
            i <= v.len(),
            r.len() == i,
            forall|k: int| 0 <= k < i ==> r[k]@ == v[k]@,
        decreases v.len() - i,
    {
        r.push(v[i].clone());
        i = i + 1;
    }
    assert(messages_view(r@) =~= messages_view(v@));
    r
}

/// What a datapoint holds: a conversation, or an input with the outputs
/// that belong to it.
#[derive(Debug, PartialEq)]
pub enum DatapointKind {
    LlmConversation {
        messages: Vec<Message>,
        expected: Option<Message>,
        metadata: Vec<(String, Json)>,
    },
    Generic {
        input: Json,
        expected_output: Option<Json>,
        actual_output: Option<Json>,
        /// The score, as the decimal text of the number.
        score: Option<String>,
        metadata: Vec<(String, Json)>,
    },
}

/// The mathematical value of a [`DatapointKind`].
pub enum DatapointKindView {
    LlmConversation {
        messages: Seq<MessageView>,
        expected: Option<MessageView>,
        metadata: Seq<(Seq<char>, JsonView)>,
    },
    Generic {
        input: JsonView,
        expected_output: Option<JsonView>,
        actual_output: Option<JsonView>,
        score: Option<Seq<char>>,
        metadata: Seq<(Seq<char>, JsonView)>,
    },
}

impl View for DatapointKind {
    type V = DatapointKindView;

    open spec fn view(&self) -> DatapointKindView {
        match self {
            DatapointKind::LlmConversation {
                messages,
                expected,
                metadata,
            } => DatapointKindView::LlmConversation {
                messages: messages_view(messages@),
                expected: opt_message(*expected),
                metadata: fields_view(metadata@),
            },
            DatapointKind::Generic {
                input,
                expected_output,
                actual_output,
                score,
                metadata,
            } => DatapointKindView::Generic {
                input: input@,
                expected_output: opt_json(*expected_output),
                actual_output: opt_json(*actual_output),
                score: opt_text(*score),
                metadata: fields_view(metadata@),
            },
        }
    }
}

impl Clone for DatapointKind {
    fn clone(&self) -> (r: DatapointKind)
        ensures
            r@ == self@,
    {
        match self {
            DatapointKind::LlmConversation {
                messages,
                expected,
                metadata,
            } => DatapointKind::LlmConversation {
                messages: clone_messages(messages),
                expected: match expected {
                    Some(m) => Some(m.clone()),
                    None => None,
                },
                metadata: clone_fields(metadata),
            },
            DatapointKind::Generic {
                input,
                expected_output,
                actual_output,
                score,
                metadata,
            } => DatapointKind::Generic {
                input: input.clone(),
                expected_output: clone_opt(expected_output),
                actual_output: clone_opt(actual_output),
                score: clone_opt_text(score),
                metadata: clone_fields(metadata),
            },
        }
    }
}

/// Where a datapoint came from.
#[derive(Clone, Copy, Debug, PartialEq, Eq, Structural)]
pub enum DatapointSource {
    Manual,
    SpanExport,
    FileUpload,
}

impl DatapointSource {
    /// The name of the source on the wire.
    pub open spec fn spec_as_str(self) -> Seq<char> {
        match self {
            DatapointSource::Manual => "manual"@,
            DatapointSource::SpanExport => "span_export"@,
            DatapointSource::FileUpload => "file_upload"@,
        }
    }

    /// The name of the source on the wire.
    pub fn as_str(&self) -> (r: &str)
        ensures
            r@ == self.spec_as_str(),
    {
        match self {
            DatapointSource::Manual => "manual",
            DatapointSource::SpanExport => "span_export",
            DatapointSource::FileUpload => "file_upload",
        }
    }
}

/// A named collection of datapoints.
#[derive(Debug, PartialEq)]
pub struct Dataset {
    pub id: DatasetId,
    pub org_id: Option<OrgId>,
    pub name: String,
    pub description: Option<String>,
    pub created_at: Timestamp,
    pub updated_at: Timestamp,
}

/// The mathematical value of a [`Dataset`].
pub struct DatasetView {
    pub id: DatasetId,
    pub org_id: Option<OrgId>,
    pub name: Seq<char>,
    pub description: Option<Seq<char>>,
    pub created_at: int,
    pub updated_at: int,
}

impl View for Dataset {
    type V = DatasetView;

    open spec fn view(&self) -> DatasetView {
        DatasetView {
            id: self.id,
            org_id: self.org_id,
            name: self.name@,
            description: opt_text(self.description),
            created_at: self.created_at@,
            updated_at: self.updated_at@,
        }
    }
}

impl Dataset {
    /// The dataset `id`, made at `now`.
    pub fn new_with(name: String, description: Option<String>, id: DatasetId, now: Timestamp) -> (d:
        Dataset)
        ensures
            d@ == (DatasetView {
                id,
                org_id: None,
                name: name@,
                description: opt_text(description),
                created_at: now@,
                updated_at: now@,
            }),
    {
        Dataset { id, org_id: None, name, description, created_at: now, updated_at: now }
    }

    /// A dataset with a fresh identifier, made now.
    pub fn new(name: String, description: Option<String>) -> (d: Dataset)
        ensures
            d@.org_id.is_none(),
            d@.name == name@,
            d@.description == opt_text(description),
            d@.created_at == d@.updated_at,
    {
        let id = crate::ids::fresh_id();
        let now = crate::clock::now();
        Dataset::new_with(name, description, id, now)
    }

    pub fn with_org(self, org_id: OrgId) -> (d: Dataset)
        ensures
            d@ == (DatasetView { org_id: Some(org_id), ..self@ }),
    {
        let mut d = self;
        d.org_id = Some(org_id);
        d
    }
}

impl Clone for Dataset {
    fn clone(&self) -> (r: Dataset)
        ensures
            r@ == self@,
    {
        Dataset {
            id: self.id,
            org_id: self.org_id,
            name: self.name.clone(),
            description: clone_opt_text(&self.description),
            created_at: self.created_at,
            updated_at: self.updated_at,
        }
    }
}

/// One example of a dataset.
#[derive(Debug, PartialEq)]
pub struct Datapoint {
    pub id: DatapointId,
    pub dataset_id: DatasetId,
    pub kind: DatapointKind,
    pub source: DatapointSource,
    pub source_span_id: Option<SpanId>,
    pub created_at: Timestamp,
}

/// The mathematical value of a [`Datapoint`].
pub struct DatapointView {
    pub id: DatapointId,
    pub dataset_id: DatasetId,
    pub kind: DatapointKindView,
    pub source: DatapointSource,
    pub source_span_id: Option<SpanId>,
    pub created_at: int,
}

impl View for Datapoint {
    type V = DatapointView;

    open spec fn view(&self) -> DatapointView {
        DatapointView {
            id: self.id,
            dataset_id: self.dataset_id,
            kind: self.kind@,
            source: self.source,
            source_span_id: self.source_span_id,
            created_at: self.created_at@,
        }
    }
}

impl Datapoint {
    /// The datapoint `id` of `dataset_id`, made at `now`.
    pub fn new_with(
        dataset_id: DatasetId,
        kind: DatapointKind,
        source: DatapointSource,
        id: DatapointId,
        now: Timestamp,
    ) -> (d: Datapoint)
        ensures
            d@ == (DatapointView {
                id,
                dataset_id,
                kind: kind@,
                source,
                source_span_id: None,
                created_at: now@,
            }),
    {
        Datapoint { id, dataset_id, kind, source, source_span_id: None, created_at: now }
    }

    /// A datapoint of `dataset_id` with a fresh identifier, made now.
    pub fn new(dataset_id: DatasetId, kind: DatapointKind, source: DatapointSource) -> (d:
        Datapoint)
        ensures
            d@.dataset_id == dataset_id,
            d@.kind == kind@,
            d@.source == source,
            d@.source_span_id.is_none(),
    {
        let id = crate::ids::fresh_id();
        let now = crate::clock::now();
        Datapoint::new_with(dataset_id, kind, source, id, now)
    }

    pub fn with_source_span(self, span_id: SpanId) -> (d: Datapoint)
        ensures
            d@ == (DatapointView { source_span_id: Some(span_id), ..self@ }),
    {
        let mut d = self;
        d.source_span_id = Some(span_id);
        d
    }
}

impl Clone for Datapoint {
    fn clone(&self) -> (r: Datapoint)
        ensures
            r@ == self@,
    {
        Datapoint {
            id: self.id,
            dataset_id: self.dataset_id,
            kind: self.kind.clone(),
            source: self.source,
            source_span_id: self.source_span_id,
            created_at: self.created_at,
        }
    }
}

/// Where the labelling of a datapoint stands.
#[derive(Clone, Copy, Debug, PartialEq, Eq, Structural)]
pub enum QueueItemStatus {
    Pending,
    Claimed,
    Completed,
}

impl QueueItemStatus {
    /// The short name of the status.
    pub open spec fn spec_as_str(self) -> Seq<char> {
        match self {
            QueueItemStatus::Pending => "pending"@,
            QueueItemStatus::Claimed => "claimed"@,
            QueueItemStatus::Completed => "completed"@,
        }
    }

    pub fn as_str(&self) -> (r: &str)
        ensures
            r@ == self.spec_as_str(),
    {
        match self {
            QueueItemStatus::Pending => "pending",
            QueueItemStatus::Claimed => "claimed",
            QueueItemStatus::Completed => "completed",
        }
    }
}

/// The labelling slot of one datapoint: pending, then claimed by someone,
/// then completed.
#[derive(Debug, PartialEq)]
pub struct QueueItem {
    pub id: QueueItemId,
    pub dataset_id: DatasetId,
    pub datapoint_id: DatapointId,
    pub status: QueueItemStatus,
    pub claimed_by: Option<String>,
    pub claimed_at: Option<Timestamp>,
    pub original_data: Option<Json>,
    pub edited_data: Option<Json>,
    pub created_at: Timestamp,
}

/// The mathematical value of a [`QueueItem`].
pub struct QueueItemView {
    pub id: QueueItemId,
    pub dataset_id: DatasetId,
    pub datapoint_id: DatapointId,
    pub status: QueueItemStatus,
    pub claimed_by: Option<Seq<char>>,
    pub claimed_at: Option<int>,
    pub original_data: Option<JsonView>,
    pub edited_data: Option<JsonView>,
    pub created_at: int,
}

impl View for QueueItem {
    type V = QueueItemView;

    open spec fn view(&self) -> QueueItemView {
        QueueItemView {
            id: self.id,
            dataset_id: self.dataset_id,
            datapoint_id: self.datapoint_id,
            status: self.status,
            claimed_by: opt_text(self.claimed_by),
            claimed_at: opt_time(self.claimed_at),
            original_data: opt_json(self.original_data),
            edited_data: opt_json(self.edited_data),
            created_at: self.created_at@,
        }
    }
}

impl QueueItemView {
    /// The item after `by` claimed it at `now`.
    pub open spec fn claimed(self, by: Seq<char>, now: int) -> QueueItemView {
        QueueItemView {
            status: QueueItemStatus::Claimed,
            claimed_by: Some(by),
            claimed_at: Some(now),
            ..self
        }
    }

    /// The item after its labelling was handed in.
    pub open spec fn completed(self, edited: Option<JsonView>) -> QueueItemView {
        QueueItemView { status: QueueItemStatus::Completed, edited_data: edited, ..self }
    }
}

impl QueueItem {
    /// The pending item `id` for a datapoint, made at `now`.
    pub fn new_with(
        dataset_id: DatasetId,
        datapoint_id: DatapointId,
        original_data: Option<Json>,
        id: QueueItemId,
        now: Timestamp,
    ) -> (q: QueueItem)
        ensures
            q@ == (QueueItemView {
                id,
                dataset_id,
                datapoint_id,
                status: QueueItemStatus::Pending,
                claimed_by: None,
                claimed_at: None,
                original_data: opt_json(original_data),
                edited_data: None,
                created_at: now@,
            }),
    {
        QueueItem {
            id,
            dataset_id,
            datapoint_id,
            status: QueueItemStatus::Pending,
            claimed_by: None,
            claimed_at: None,
            original_data,
            edited_data: None,
            created_at: now,
        }
    }

    /// A pending item with a fresh identifier, made now.
    pub fn new(dataset_id: DatasetId, datapoint_id: DatapointId, original_data: Option<Json>) -> (q:
        QueueItem)
        ensures
            q@.dataset_id == dataset_id,
            q@.datapoint_id == datapoint_id,
            q@.status == QueueItemStatus::Pending,
            q@.claimed_by.is_none(),
            q@.claimed_at.is_none(),
            q@.original_data == opt_json(original_data),
            q@.edited_data.is_none(),
    {
        let id = crate::ids::fresh_id();
        let now = crate::clock::now();
        QueueItem::new_with(dataset_id, datapoint_id, original_data, id, now)
    }

    /// The item, claimed by `claimed_by` at `now`.
    pub fn claim_at(self, claimed_by: String, now: Timestamp) -> (q: QueueItem)
        ensures
            q@ == self@.claimed(claimed_by@, now@),
    {
        let mut q = self;
        q.status = QueueItemStatus::Claimed;
        q.claimed_by = Some(claimed_by);
        q.claimed_at = Some(now);
        q
    }

    /// The item, claimed by `claimed_by` now.
    pub fn claim(self, claimed_by: String) -> (q: QueueItem)
        ensures
            exists|now: int| q@ == self@.claimed(claimed_by@, now),
    {
        let now = crate::clock::now();
        self.claim_at(claimed_by, now)
    }

    /// The item, completed with the data as the labeller left it.
    pub fn complete(self, edited_data: Option<Json>) -> (q: QueueItem)
        ensures
            q@ == self@.completed(opt_json(edited_data)),
    {
        let mut q = self;
        q.status = QueueItemStatus::Completed;
        q.edited_data = edited_data;
        q
    }
}

impl Clone for QueueItem {
    fn clone(&self) -> (r: QueueItem)
        ensures
            r@ == self@,
    {
        QueueItem {
            id: self.id,
            dataset_id: self.dataset_id,
            datapoint_id: self.datapoint_id,
            status: self.status,
            claimed_by: clone_opt_text(&self.claimed_by),
            claimed_at: self.claimed_at,
            original_data: clone_opt(&self.original_data),
            edited_data: clone_opt(&self.edited_data),
            created_at: self.created_at,
        }
    }
}

} // verus!
