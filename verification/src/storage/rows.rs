use crate::clock::{rfc3339_text, Timestamp};
use crate::ids::{uuid_parsed, uuid_text};
use crate::json::{json_parsed, json_text, opt_json, Json, JsonView};
use crate::storage::error::StorageError;
use crate::storage::sqlite::{status_columns, status_of_columns};
use crate::text::{opt_text, texts_view};
use crate::trace::codec_entities::{strings_json, texts_of};
use crate::trace::entities::{
    Datapoint, DatapointKind, DatapointKindView, DatapointSource, DatapointView, Dataset,
    DatasetView, FileVersion, FileVersionView, QueueItem, QueueItemStatus, QueueItemView, Trace,
    TraceView,
};
use crate::trace::kind::SpanKindView;
use crate::trace::span::{checked, opt_time, Span, SpanView};
use crate::wire::time_named;
use vstd::prelude::*;

verus! {

/// The columns of a span in the table of the spans.
#[derive(Debug, PartialEq)]
pub struct SpanRow {
    pub id: String,
    pub trace_id: String,
    pub parent_id: Option<String>,
    pub name: String,
    pub kind_json: String,
    pub status: String,
    pub error: Option<String>,
    pub started_at: String,
    pub ended_at: Option<String>,
    pub input_json: Option<String>,
    pub output_json: Option<String>,
    pub org_id: Option<String>,
}

/// The mathematical value of a [`SpanRow`].
pub struct SpanRowView {
    pub id: Seq<char>,
    pub trace_id: Seq<char>,
    pub parent_id: Option<Seq<char>>,
    pub name: Seq<char>,
    pub kind_json: Seq<char>,
    pub status: Seq<char>,
    pub error: Option<Seq<char>>,
    pub started_at: Seq<char>,
    pub ended_at: Option<Seq<char>>,
    pub input_json: Option<Seq<char>>,
    pub output_json: Option<Seq<char>>,
    pub org_id: Option<Seq<char>>,
}

impl View for SpanRow {
    type V = SpanRowView;

    open spec fn view(&self) -> SpanRowView {
        SpanRowView {
            id: self.id@,
            trace_id: self.trace_id@,
            parent_id: opt_text(self.parent_id),
            name: self.name@,
            kind_json: self.kind_json@,
            status: self.status@,
            error: opt_text(self.error),
            started_at: self.started_at@,
            ended_at: opt_text(self.ended_at),
            input_json: opt_text(self.input_json),
            output_json: opt_text(self.output_json),
            org_id: opt_text(self.org_id),
        }
    }
}

/// The text of an optional identifier.
pub open spec fn opt_uuid_text(id: Option<u128>) -> Option<Seq<char>> {
    match id {
        Some(id) => Some(uuid_text(id)),
        None => None,
    }
}

/// The text of an optional instant.
pub open spec fn opt_time_text(t: Option<int>) -> Option<Seq<char>> {
    match t {
        Some(t) => Some(rfc3339_text(t)),
        None => None,
    }
}

/// The text of an optional document.
pub open spec fn opt_doc_text(d: Option<JsonView>) -> Option<Seq<char>> {
    match d {
        Some(d) => Some(json_text(d)),
        None => None,
    }
}

/// The document that a text holds.
pub open spec fn doc_of_text(s: Seq<char>) -> Option<JsonView> {
    json_parsed(vstd::utf8::encode_utf8(s))
}

/// The row of a span: identifiers and instants as their texts, the status
/// as its short name with the error beside it, the kind and the payloads
/// as JSON, and the organisation where the span has one.
pub open spec fn span_row(s: SpanView) -> SpanRowView {
    SpanRowView {
        id: uuid_text(s.id),
        trace_id: uuid_text(s.trace_id),
        parent_id: opt_uuid_text(s.parent_id),
        name: s.name,
        kind_json: json_text(s.kind.to_json()),
        status: status_columns(s.status).0,
        error: status_columns(s.status).1,
        started_at: rfc3339_text(s.started_at),
        ended_at: opt_time_text(s.ended_at),
        input_json: opt_doc_text(s.input),
        output_json: opt_doc_text(s.output),
        org_id: opt_uuid_text(s.org_id),
    }
}

/// The identifier that an optional text names; the outer `None` where
/// the text names none.
pub open spec fn opt_id_of(s: Option<Seq<char>>) -> Option<Option<u128>> {
    match s {
        None => Some(None),
        Some(s) => match uuid_parsed(s) {
            Some(id) => Some(Some(id)),
            None => None,
        },
    }
}

/// The instant that a text names, in nanoseconds since the epoch.
pub open spec fn nanos_of(s: Seq<char>) -> Option<int> {
    match time_named(s) {
        Some((secs, nanos)) => Some(secs * 1_000_000_000 + nanos),
        None => None,
    }
}

/// The instant that an optional text names.
pub open spec fn opt_nanos_of(s: Option<Seq<char>>) -> Option<Option<int>> {
    match s {
        None => Some(None),
        Some(s) => match nanos_of(s) {
            Some(t) => Some(Some(t)),
            None => None,
        },
    }
}

/// The document that an optional text holds.
pub open spec fn opt_doc_of(s: Option<Seq<char>>) -> Option<Option<JsonView>> {
    match s {
        None => Some(None),
        Some(s) => match doc_of_text(s) {
            Some(d) => Some(Some(d)),
            None => None,
        },
    }
}

/// The kind that a text in JSON holds.
pub open spec fn kind_of_text(s: Seq<char>) -> Option<SpanKindView> {
    match doc_of_text(s) {
        Some(d) => SpanKindView::from_json(d),
        None => None,
    }
}

/// The span that a row holds; `None` where a column cannot be read, or
/// where the row gives an end to a span that runs, or none to a span
/// that has ended.
pub open spec fn span_of_row(row: SpanRowView) -> Option<SpanView> {
    match (
        uuid_parsed(row.id),
        uuid_parsed(row.trace_id),
        opt_id_of(row.parent_id),
        opt_id_of(row.org_id),
        kind_of_text(row.kind_json),
        status_of_columns(row.status, row.error),
        nanos_of(row.started_at),
        opt_nanos_of(row.ended_at),
        opt_doc_of(row.input_json),
        opt_doc_of(row.output_json),
    ) {
        (
            Some(id),
            Some(trace_id),
            Some(parent_id),
            Some(org_id),
            Some(kind),
            Some(status),
            Some(started_at),
            Some(ended_at),
            Some(input),
            Some(output),
        ) => checked(
            SpanView {
                id,
                trace_id,
                org_id,
                parent_id,
                name: row.name,
                kind,
                status,
                started_at,
                ended_at,
                input,
                output,
            },
        ),
        _ => None,
    }
}

/// The kind of error that the first column of a row of a span that
/// cannot be read gives, in the order of the columns; a row whose end
/// does not fit its status gives an error of the database.
pub open spec fn span_fault(row: SpanRowView) -> Option<RowFault> {
    if uuid_parsed(row.id).is_none() || uuid_parsed(row.trace_id).is_none() || opt_id_of(
        row.parent_id,
    ).is_none() || opt_id_of(row.org_id).is_none() {
        Some(RowFault::Database)
    } else if kind_of_text(row.kind_json).is_none() {
        Some(RowFault::Serialization)
    } else if status_of_columns(row.status, row.error).is_none() || nanos_of(
        row.started_at,
    ).is_none() || opt_nanos_of(row.ended_at).is_none() {
        Some(RowFault::Database)
    } else if opt_doc_of(row.input_json).is_none() || opt_doc_of(row.output_json).is_none() {
        Some(RowFault::Serialization)
    } else if opt_nanos_of(row.ended_at).unwrap().is_some() != status_of_columns(
        row.status,
        row.error,
    ).unwrap().is_terminal() {
        Some(RowFault::Database)
    } else {
        None
    }
}

fn opt_id_text(id: Option<u128>) -> (r: Option<String>)
    ensures
        opt_text(r) == opt_uuid_text(id),
{
    match id {
        Some(id) => Some(crate::ids::id_to_string(id)),
        None => None,
    }
}

fn opt_time_to_text(t: &Option<Timestamp>) -> (r: Option<String>)
    ensures
        opt_text(r) == opt_time_text(opt_time(*t)),
{
    match t {
        Some(t) => Some(crate::clock::to_rfc3339(t)),
        None => None,
    }
}

fn opt_doc_to_text(d: Option<&Json>) -> (r: Option<String>)
    ensures
        opt_text(r) == opt_doc_text(
            match d {
                Some(d) => Some(d@),
                None => None,
            },
        ),
{
    match d {
        Some(d) => Some(crate::json::to_text(d)),
        None => None,
    }
}

fn read_doc(s: &str) -> (r: Option<Json>)
    ensures
        opt_json(r) == doc_of_text(s@),
{
    crate::json::parse(s.as_bytes())
}

fn read_opt_id(s: &Option<String>) -> (r: Option<Option<u128>>)
    ensures
        r == opt_id_of(opt_text(*s)),
{
    match s {
        None => Some(None),
        Some(s) => match crate::ids::parse_id(s.as_str()) {
            Some(id) => Some(Some(id)),
            None => None,
        },
    }
}

fn read_nanos(s: &str) -> (r: Option<Timestamp>)
    ensures
        match r {
            Some(t) => nanos_of(s@) == Some(t@),
            None => nanos_of(s@).is_none(),
        },
{
    crate::wire::read_time(s)
}

fn read_opt_nanos(s: &Option<String>) -> (r: Option<Option<Timestamp>>)
    ensures
        match r {
            Some(t) => opt_nanos_of(opt_text(*s)) == Some(opt_time(t)),
            None => opt_nanos_of(opt_text(*s)).is_none(),
        },
{
    match s {
        None => Some(None),
        Some(s) => match read_nanos(s.as_str()) {
            Some(t) => Some(Some(t)),
            None => None,
        },
    }
}

fn read_opt_doc(s: &Option<String>) -> (r: Option<Option<Json>>)
    ensures
        match r {
            Some(d) => opt_doc_of(opt_text(*s)) == Some(opt_json(d)),
            None => opt_doc_of(opt_text(*s)).is_none(),
        },
{
    match s {
        None => Some(None),
        Some(s) => match read_doc(s.as_str()) {
            Some(d) => Some(Some(d)),
            None => None,
        },
    }
}

/// The row of a span.
pub fn span_to_row(span: &Span) -> (row: SpanRow)
    ensures
        row@ == span_row(span@),
{
    let (status, error) = crate::storage::sqlite::status_to_columns(span.status());
    SpanRow {
        id: crate::ids::id_to_string(span.id()),
        trace_id: crate::ids::id_to_string(span.trace_id()),
        parent_id: opt_id_text(span.parent_id()),
        name: span.name().to_owned(),
        kind_json: crate::json::to_text(&span.kind().to_json()),
        status,
        error,
        started_at: crate::clock::to_rfc3339(&span.started_at()),
        ended_at: opt_time_to_text(&span.ended_at()),
        input_json: opt_doc_to_text(span.input()),
        output_json: opt_doc_to_text(span.output()),
        org_id: opt_id_text(span.org_id()),
    }
}

fn database(message: &str) -> (e: StorageError)
    ensures
        e matches StorageError::Database(m) && m@ == message@,
{
    StorageError::Database(message.to_owned())
}

fn serialization(message: &str) -> (e: StorageError)
    ensures
        e matches StorageError::Serialization(m) && m@ == message@,
{
    StorageError::Serialization(message.to_owned())
}

/// The span that a row holds.  A column that cannot be read gives an
/// error: one of the database for an identifier, a status or an instant,
/// one of serialization for the kind or a payload; of two such columns
/// the error tells of the first in the order of the columns.  A row whose
/// end does not fit its status gives an error of the database.
pub fn deserialize_span(row: &SpanRow) -> (r: Result<Span, StorageError>)
    ensures
        match r {
            Ok(span) => span_of_row(row@) == Some(span@) && span_fault(row@).is_none(),
            Err(e) => span_of_row(row@).is_none() && is_fault(e, span_fault(row@)),
        },
{
    let id = match crate::ids::parse_id(row.id.as_str()) {
        Some(id) => id,
        None => {
            return Err(database("invalid span id"));
        },
    };
    let trace_id = match crate::ids::parse_id(row.trace_id.as_str()) {
        Some(id) => id,
        None => {
            return Err(database("invalid trace id"));
        },
    };
    let parent_id = match read_opt_id(&row.parent_id) {
        Some(id) => id,
        None => {
            return Err(database("invalid parent id"));
        },
    };
    let org_id = match read_opt_id(&row.org_id) {
        Some(id) => id,
        None => {
            return Err(database("invalid org id"));
        },
    };
    let kind = match read_doc(row.kind_json.as_str()) {
        Some(doc) => match crate::trace::kind::SpanKind::from_json(&doc) {
            Some(kind) => kind,
            None => {
                return Err(serialization("invalid span kind"));
            },
        },
        None => {
            return Err(serialization("invalid span kind"));
        },
    };
    let status = match crate::storage::sqlite::status_from_columns(
        row.status.as_str(),
        crate::text::opt_as_str(&row.error),
    ) {
        Ok(status) => status,
        Err(e) => {
            return Err(e);
        },
    };
    let started_at = match read_nanos(row.started_at.as_str()) {
        Some(t) => t,
        None => {
            return Err(database("invalid started_at"));
        },
    };
    let ended_at = match read_opt_nanos(&row.ended_at) {
        Some(t) => t,
        None => {
            return Err(database("invalid ended_at"));
        },
    };
    let input = match read_opt_doc(&row.input_json) {
        Some(d) => d,
        None => {
            return Err(serialization("invalid input"));
        },
    };
    let output = match read_opt_doc(&row.output_json) {
        Some(d) => d,
        None => {
            return Err(serialization("invalid output"));
        },
    };
    match Span::from_parts(
        id,
        trace_id,
        org_id,
        parent_id,
        row.name.clone(),
        kind,
        status,
        started_at,
        ended_at,
        input,
        output,
    ) {
        Some(span) => Ok(span),
        None => Err(database("the end of the span does not fit its status")),
    }
}

/// The columns of a trace in the table of the traces.
#[derive(Debug, PartialEq)]
pub struct TraceRow {
    pub id: String,
    pub name: Option<String>,
    pub tags_json: String,
    pub started_at: String,
    pub ended_at: Option<String>,
    pub machine_id: Option<String>,
    pub org_id: Option<String>,
}

/// The mathematical value of a [`TraceRow`].
pub struct TraceRowView {
    pub id: Seq<char>,
    pub name: Option<Seq<char>>,
    pub tags_json: Seq<char>,
    pub started_at: Seq<char>,
    pub ended_at: Option<Seq<char>>,
    pub machine_id: Option<Seq<char>>,
    pub org_id: Option<Seq<char>>,
}

impl View for TraceRow {
    type V = TraceRowView;

    open spec fn view(&self) -> TraceRowView {
        TraceRowView {
            id: self.id@,
            name: opt_text(self.name),
            tags_json: self.tags_json@,
            started_at: self.started_at@,
            ended_at: opt_text(self.ended_at),
            machine_id: opt_text(self.machine_id),
            org_id: opt_text(self.org_id),
        }
    }
}

/// The row of a trace.
pub open spec fn trace_row(t: TraceView) -> TraceRowView {
    TraceRowView {
        id: uuid_text(t.id),
        name: t.name,
        tags_json: json_text(JsonView::Array(strings_json(t.tags))),
        started_at: rfc3339_text(t.started_at),
        ended_at: opt_time_text(t.ended_at),
        machine_id: t.machine_id,
        org_id: opt_uuid_text(t.org_id),
    }
}

/// The tags that a text in JSON holds; none where the text holds no list
/// of strings.
pub open spec fn tags_of_text(s: Seq<char>) -> Seq<Seq<char>> {
    match doc_of_text(s) {
        Some(JsonView::Array(items)) => match texts_of(items) {
            Some(tags) => tags,
            None => Seq::empty(),
        },
        _ => Seq::empty(),
    }
}

/// The trace that a row holds; `None` where one of its identifiers or
/// of its instants cannot be read.
pub open spec fn trace_of_row(row: TraceRowView) -> Option<TraceView> {
    match (
        uuid_parsed(row.id),
        nanos_of(row.started_at),
        opt_nanos_of(row.ended_at),
        opt_id_of(row.org_id),
    ) {
        (Some(id), Some(started_at), Some(ended_at), Some(org_id)) => Some(
            TraceView {
                id,
                org_id,
                name: row.name,
                tags: tags_of_text(row.tags_json),
                started_at,
                ended_at,
                machine_id: row.machine_id,
            },
        ),
        _ => None,
    }
}

/// The row of a trace.
pub fn trace_to_row(trace: &Trace) -> (row: TraceRow)
    ensures
        row@ == trace_row(trace@),
{
    let tags = crate::trace::codec_entities::tags_to_json(&trace.tags);
    TraceRow {
        id: crate::ids::id_to_string(trace.id),
        name: crate::text::clone_opt_text(&trace.name),
        tags_json: crate::json::to_text(&tags),
        started_at: crate::clock::to_rfc3339(&trace.started_at),
        ended_at: opt_time_to_text(&trace.ended_at),
        machine_id: crate::text::clone_opt_text(&trace.machine_id),
        org_id: opt_id_text(trace.org_id),
    }
}

/// The trace that a row holds.  An identifier or an instant that cannot
/// be read gives an error of the database; tags that cannot be read count
/// as none.
pub fn deserialize_trace(row: &TraceRow) -> (r: Result<Trace, StorageError>)
    ensures
        match r {
            Ok(trace) => trace_of_row(row@) == Some(trace@),
            Err(e) => trace_of_row(row@).is_none() && e is Database,
        },
{
    let id = match crate::ids::parse_id(row.id.as_str()) {
        Some(id) => id,
        None => {
            return Err(database("invalid trace id"));
        },
    };
    let started_at = match read_nanos(row.started_at.as_str()) {
        Some(t) => t,
        None => {
            return Err(database("invalid started_at"));
        },
    };
    let ended_at = match read_opt_nanos(&row.ended_at) {
        Some(t) => t,
        None => {
            return Err(database("invalid ended_at"));
        },
    };
    let org_id = match read_opt_id(&row.org_id) {
        Some(id) => id,
        None => {
            return Err(database("invalid org id"));
        },
    };
    let tags = match read_doc(row.tags_json.as_str()) {
        Some(doc) => match crate::trace::codec_entities::tags_from_json(&doc) {
            Some(tags) => tags,
            None => {
                let empty: Vec<String> = Vec::new();
                assert(texts_view(empty@) =~= Seq::empty());
                empty
            },
        },
        None => {
            let empty: Vec<String> = Vec::new();
            assert(texts_view(empty@) =~= Seq::empty());
            empty
        },
    };
    Ok(
        Trace {
            id,
            org_id,
            name: crate::text::clone_opt_text(&row.name),
            tags,
            started_at,
            ended_at,
            machine_id: crate::text::clone_opt_text(&row.machine_id),
        },
    )
}

/// What kind of error a row that cannot be read gives.
#[derive(Clone, Copy, Debug, PartialEq, Eq, Structural)]
pub enum RowFault {
    /// An identifier, a name or an instant cannot be read.
    Database,
    /// A document cannot be read.
    Serialization,
}

/// True when the error is of the kind that the fault asks for.
pub open spec fn is_fault(e: StorageError, fault: Option<RowFault>) -> bool {
    match fault {
        Some(RowFault::Database) => e is Database,
        Some(RowFault::Serialization) => e is Serialization,
        None => false,
    }
}

/// The column of a size: the number itself below two to the power of 63,
/// and less two to the power of 64 from there on.
pub open spec fn size_column(size: u64) -> i64 {
    if size <= 0x7fff_ffff_ffff_ffff {
        size as i64
    } else {
        (size - 0x1_0000_0000_0000_0000) as i64
    }
}

/// The size that a column holds.
pub open spec fn size_of_column(column: i64) -> u64 {
    if column >= 0 {
        column as u64
    } else {
        (column + 0x1_0000_0000_0000_0000) as u64
    }
}

/// A size comes back from its column as it went.
pub proof fn lemma_size_round_trip(size: u64)
    ensures
        size_of_column(size_column(size)) == size,
{
}

fn size_to_column(size: u64) -> (c: i64)
    ensures
        c == size_column(size),
{
    if size <= 0x7fff_ffff_ffff_ffff {
        size as i64
    } else {
        let rest: u64 = size - 0x8000_0000_0000_0000;
        (rest as i64) + i64::MIN
    }
}

fn size_from_column(column: i64) -> (size: u64)
    ensures
        size == size_of_column(column),
{
    if column >= 0 {
        column as u64
    } else {
        let rest: i64 = column - i64::MIN;
        (rest as u64) + 0x8000_0000_0000_0000
    }
}

/// The columns of a file version in the table of the files.
#[derive(Debug, PartialEq)]
pub struct FileRow {
    pub path: String,
    pub hash: String,
    pub size: i64,
    pub created_at: String,
    pub created_by_span: Option<String>,
}

/// The mathematical value of a [`FileRow`].
pub struct FileRowView {
    pub path: Seq<char>,
    pub hash: Seq<char>,
    pub size: i64,
    pub created_at: Seq<char>,
    pub created_by_span: Option<Seq<char>>,
}

impl View for FileRow {
    type V = FileRowView;

    open spec fn view(&self) -> FileRowView {
        FileRowView {
            path: self.path@,
            hash: self.hash@,
            size: self.size,
            created_at: self.created_at@,
            created_by_span: opt_text(self.created_by_span),
        }
    }
}

/// The row of a file version.
pub open spec fn file_row(v: FileVersionView) -> FileRowView {
    FileRowView {
        path: v.path,
        hash: v.hash,
        size: size_column(v.size),
        created_at: rfc3339_text(v.created_at),
        created_by_span: opt_uuid_text(v.created_by_span),
    }
}

/// The file version that a row holds; `None` where its instant or its
/// span cannot be read.
pub open spec fn file_of_row(row: FileRowView) -> Option<FileVersionView> {
    match (nanos_of(row.created_at), opt_id_of(row.created_by_span)) {
        (Some(created_at), Some(created_by_span)) => Some(
            FileVersionView {
                hash: row.hash,
                path: row.path,
                size: size_of_column(row.size),
                created_at,
                created_by_span,
            },
        ),
        _ => None,
    }
}

/// The row of a file version.
pub fn file_to_row(version: &FileVersion) -> (row: FileRow)
    ensures
        row@ == file_row(version@),
{
    FileRow {
        path: version.path.clone(),
        hash: version.hash.clone(),
        size: size_to_column(version.size),
        created_at: crate::clock::to_rfc3339(&version.created_at),
        created_by_span: opt_id_text(version.created_by_span),
    }
}

/// The file version that a row holds.  An instant or a span that cannot
/// be read gives an error of the database.
pub fn deserialize_file(row: &FileRow) -> (r: Result<FileVersion, StorageError>)
    ensures
        match r {
            Ok(v) => file_of_row(row@) == Some(v@),
            Err(e) => file_of_row(row@).is_none() && e is Database,
        },
{
    let created_at = match read_nanos(row.created_at.as_str()) {
        Some(t) => t,
        None => {
            return Err(database("invalid created_at"));
        },
    };
    let created_by_span = match read_opt_id(&row.created_by_span) {
        Some(id) => id,
        None => {
            return Err(database("invalid span id"));
        },
    };
    Ok(
        FileVersion {
            hash: row.hash.clone(),
            path: row.path.clone(),
            size: size_from_column(row.size),
            created_at,
            created_by_span,
        },
    )
}

/// The columns of a dataset in the table of the datasets.
#[derive(Debug, PartialEq)]
pub struct DatasetRow {
    pub id: String,
    pub name: String,
    pub description: Option<String>,
    pub created_at: String,
    pub updated_at: String,
    pub org_id: Option<String>,
}

/// The mathematical value of a [`DatasetRow`].
pub struct DatasetRowView {
    pub id: Seq<char>,
    pub name: Seq<char>,
    pub description: Option<Seq<char>>,
    pub created_at: Seq<char>,
    pub updated_at: Seq<char>,
    pub org_id: Option<Seq<char>>,
}

impl View for DatasetRow {
    type V = DatasetRowView;

    open spec fn view(&self) -> DatasetRowView {
        DatasetRowView {
            id: self.id@,
            name: self.name@,
            description: opt_text(self.description),
            created_at: self.created_at@,
            updated_at: self.updated_at@,
            org_id: opt_text(self.org_id),
        }
    }
}

/// The row of a dataset.
pub open spec fn dataset_row(d: DatasetView) -> DatasetRowView {
    DatasetRowView {
        id: uuid_text(d.id),
        name: d.name,
        description: d.description,
        created_at: rfc3339_text(d.created_at),
        updated_at: rfc3339_text(d.updated_at),
        org_id: opt_uuid_text(d.org_id),
    }
}

/// The dataset that a row holds; `None` where one of its identifiers or
/// of its instants cannot be read.
pub open spec fn dataset_of_row(row: DatasetRowView) -> Option<DatasetView> {
    match (
        uuid_parsed(row.id),
        nanos_of(row.created_at),
        nanos_of(row.updated_at),
        opt_id_of(row.org_id),
    ) {
        (Some(id), Some(created_at), Some(updated_at), Some(org_id)) => Some(
            DatasetView {
                id,
                org_id,
                name: row.name,
                description: row.description,
                created_at,
                updated_at,
            },
        ),
        _ => None,
    }
}

/// The row of a dataset.
pub fn dataset_to_row(dataset: &Dataset) -> (row: DatasetRow)
    ensures
        row@ == dataset_row(dataset@),
{
    DatasetRow {
        id: crate::ids::id_to_string(dataset.id),
        name: dataset.name.clone(),
        description: crate::text::clone_opt_text(&dataset.description),
        created_at: crate::clock::to_rfc3339(&dataset.created_at),
        updated_at: crate::clock::to_rfc3339(&dataset.updated_at),
        org_id: opt_id_text(dataset.org_id),
    }
}

/// The dataset that a row holds.  An identifier or an instant that cannot
/// be read gives an error of the database.
pub fn deserialize_dataset(row: &DatasetRow) -> (r: Result<Dataset, StorageError>)
    ensures
        match r {
            Ok(d) => dataset_of_row(row@) == Some(d@),
            Err(e) => dataset_of_row(row@).is_none() && e is Database,
        },
{
    let id = match crate::ids::parse_id(row.id.as_str()) {
        Some(id) => id,
        None => {
            return Err(database("invalid dataset id"));
        },
    };
    let created_at = match read_nanos(row.created_at.as_str()) {
        Some(t) => t,
        None => {
            return Err(database("invalid created_at"));
        },
    };
    let updated_at = match read_nanos(row.updated_at.as_str()) {
        Some(t) => t,
        None => {
            return Err(database("invalid updated_at"));
        },
    };
    let org_id = match read_opt_id(&row.org_id) {
        Some(id) => id,
        None => {
            return Err(database("invalid org id"));
        },
    };
    Ok(
        Dataset {
            id,
            org_id,
            name: row.name.clone(),
            description: crate::text::clone_opt_text(&row.description),
            created_at,
            updated_at,
        },
    )
}

/// The columns of a datapoint in the table of the datapoints.
#[derive(Debug, PartialEq)]
pub struct DatapointRow {
    pub id: String,
    pub dataset_id: String,
    pub kind_json: String,
    pub source: String,
    pub source_span_id: Option<String>,
    pub created_at: String,
}

/// The mathematical value of a [`DatapointRow`].
pub struct DatapointRowView {
    pub id: Seq<char>,
    pub dataset_id: Seq<char>,
    pub kind_json: Seq<char>,
    pub source: Seq<char>,
    pub source_span_id: Option<Seq<char>>,
    pub created_at: Seq<char>,
}

impl View for DatapointRow {
    type V = DatapointRowView;

    open spec fn view(&self) -> DatapointRowView {
        DatapointRowView {
            id: self.id@,
            dataset_id: self.dataset_id@,
            kind_json: self.kind_json@,
            source: self.source@,
            source_span_id: opt_text(self.source_span_id),
            created_at: self.created_at@,
        }
    }
}

/// The row of a datapoint.
pub open spec fn datapoint_row(d: DatapointView) -> DatapointRowView {
    DatapointRowView {
        id: uuid_text(d.id),
        dataset_id: uuid_text(d.dataset_id),
        kind_json: json_text(d.kind.to_json()),
        source: d.source.spec_as_str(),
        source_span_id: opt_uuid_text(d.source_span_id),
        created_at: rfc3339_text(d.created_at),
    }
}

/// What a text in JSON says that a datapoint holds.
pub open spec fn datapoint_kind_of_text(s: Seq<char>) -> Option<DatapointKindView> {
    match doc_of_text(s) {
        Some(d) => DatapointKindView::from_json(d),
        None => None,
    }
}

/// The datapoint that a row holds; `None` where a column cannot be read.
pub open spec fn datapoint_of_row(row: DatapointRowView) -> Option<DatapointView> {
    match (
        uuid_parsed(row.id),
        uuid_parsed(row.dataset_id),
        datapoint_kind_of_text(row.kind_json),
        DatapointSource::spec_from_name(row.source),
        opt_id_of(row.source_span_id),
        nanos_of(row.created_at),
    ) {
        (
            Some(id),
            Some(dataset_id),
            Some(kind),
            Some(source),
            Some(source_span_id),
            Some(created_at),
        ) => Some(DatapointView { id, dataset_id, kind, source, source_span_id, created_at }),
        _ => None,
    }
}

/// The kind of error that the first column of a row of a datapoint that
/// cannot be read gives, in the order of the columns.
pub open spec fn datapoint_fault(row: DatapointRowView) -> Option<RowFault> {
    if uuid_parsed(row.id).is_none() || uuid_parsed(row.dataset_id).is_none() {
        Some(RowFault::Database)
    } else if datapoint_kind_of_text(row.kind_json).is_none() || DatapointSource::spec_from_name(
        row.source,
    ).is_none() {
        Some(RowFault::Serialization)
    } else if opt_id_of(row.source_span_id).is_none() || nanos_of(row.created_at).is_none() {
        Some(RowFault::Database)
    } else {
        None
    }
}

/// The row of a datapoint.
pub fn datapoint_to_row(dp: &Datapoint) -> (row: DatapointRow)
    ensures
        row@ == datapoint_row(dp@),
{
    let kind = dp.kind.to_json();
    DatapointRow {
        id: crate::ids::id_to_string(dp.id),
        dataset_id: crate::ids::id_to_string(dp.dataset_id),
        kind_json: crate::json::to_text(&kind),
        source: dp.source.as_str().to_owned(),
        source_span_id: opt_id_text(dp.source_span_id),
        created_at: crate::clock::to_rfc3339(&dp.created_at),
    }
}

/// The datapoint that a row holds.  A column that cannot be read gives
/// an error: one of the database for an identifier or an instant, one of
/// serialization for the content or the source; of two such columns the
/// error tells of the first in the order of the columns.
pub fn deserialize_datapoint(row: &DatapointRow) -> (r: Result<Datapoint, StorageError>)
    ensures
        match r {
            Ok(d) => datapoint_of_row(row@) == Some(d@) && datapoint_fault(row@).is_none(),
            Err(e) => datapoint_of_row(row@).is_none() && is_fault(e, datapoint_fault(row@)),
        },
{
    let id = match crate::ids::parse_id(row.id.as_str()) {
        Some(id) => id,
        None => {
            return Err(database("invalid datapoint id"));
        },
    };
    let dataset_id = match crate::ids::parse_id(row.dataset_id.as_str()) {
        Some(id) => id,
        None => {
            return Err(database("invalid dataset id"));
        },
    };
    let kind = match read_doc(row.kind_json.as_str()) {
        Some(doc) => match DatapointKind::from_json(&doc) {
            Some(kind) => kind,
            None => {
                return Err(serialization("invalid kind"));
            },
        },
        None => {
            return Err(serialization("invalid kind"));
        },
    };
    let source = match DatapointSource::from_name(row.source.as_str()) {
        Some(source) => source,
        None => {
            return Err(serialization("invalid source"));
        },
    };
    let source_span_id = match read_opt_id(&row.source_span_id) {
        Some(id) => id,
        None => {
            return Err(database("invalid span id"));
        },
    };
    let created_at = match read_nanos(row.created_at.as_str()) {
        Some(t) => t,
        None => {
            return Err(database("invalid created_at"));
        },
    };
    Ok(Datapoint { id, dataset_id, kind, source, source_span_id, created_at })
}

/// The columns of a queue item in the table of the queue items.
#[derive(Debug, PartialEq)]
pub struct QueueItemRow {
    pub id: String,
    pub dataset_id: String,
    pub datapoint_id: String,
    pub status: String,
    pub claimed_by: Option<String>,
    pub claimed_at: Option<String>,
    pub original_data_json: Option<String>,
    pub edited_data_json: Option<String>,
    pub created_at: String,
}

/// The mathematical value of a [`QueueItemRow`].
pub struct QueueItemRowView {
    pub id: Seq<char>,
    pub dataset_id: Seq<char>,
    pub datapoint_id: Seq<char>,
    pub status: Seq<char>,
    pub claimed_by: Option<Seq<char>>,
    pub claimed_at: Option<Seq<char>>,
    pub original_data_json: Option<Seq<char>>,
    pub edited_data_json: Option<Seq<char>>,
    pub created_at: Seq<char>,
}

impl View for QueueItemRow {
    type V = QueueItemRowView;

    open spec fn view(&self) -> QueueItemRowView {
        QueueItemRowView {
            id: self.id@,
            dataset_id: self.dataset_id@,
            datapoint_id: self.datapoint_id@,
            status: self.status@,
            claimed_by: opt_text(self.claimed_by),
            claimed_at: opt_text(self.claimed_at),
            original_data_json: opt_text(self.original_data_json),
            edited_data_json: opt_text(self.edited_data_json),
            created_at: self.created_at@,
        }
    }
}

/// The row of a queue item.
pub open spec fn queue_item_row(q: QueueItemView) -> QueueItemRowView {
    QueueItemRowView {
        id: uuid_text(q.id),
        dataset_id: uuid_text(q.dataset_id),
        datapoint_id: uuid_text(q.datapoint_id),
        status: q.status.spec_as_str(),
        claimed_by: q.claimed_by,
        claimed_at: opt_time_text(q.claimed_at),
        original_data_json: opt_doc_text(q.original_data),
        edited_data_json: opt_doc_text(q.edited_data),
        created_at: rfc3339_text(q.created_at),
    }
}

/// The queue item that a row holds; `None` where a column cannot be
/// read.
pub open spec fn queue_item_of_row(row: QueueItemRowView) -> Option<QueueItemView> {
    match (
        uuid_parsed(row.id),
        uuid_parsed(row.dataset_id),
        uuid_parsed(row.datapoint_id),
        QueueItemStatus::spec_from_name(row.status),
        opt_nanos_of(row.claimed_at),
        opt_doc_of(row.original_data_json),
        opt_doc_of(row.edited_data_json),
        nanos_of(row.created_at),
    ) {
        (
            Some(id),
            Some(dataset_id),
            Some(datapoint_id),
            Some(status),
            Some(claimed_at),
            Some(original_data),
            Some(edited_data),
            Some(created_at),
        ) => Some(
            QueueItemView {
                id,
                dataset_id,
                datapoint_id,
                status,
                claimed_by: row.claimed_by,
                claimed_at,
                original_data,
                edited_data,
                created_at,
            },
        ),
        _ => None,
    }
}

/// The kind of error that the first column of a row of a queue item that
/// cannot be read gives, in the order of the columns.
pub open spec fn queue_item_fault(row: QueueItemRowView) -> Option<RowFault> {
    if uuid_parsed(row.id).is_none() || uuid_parsed(row.dataset_id).is_none() || uuid_parsed(
        row.datapoint_id,
    ).is_none() {
        Some(RowFault::Database)
    } else if QueueItemStatus::spec_from_name(row.status).is_none() {
        Some(RowFault::Serialization)
    } else if opt_nanos_of(row.claimed_at).is_none() {
        Some(RowFault::Database)
    } else if opt_doc_of(row.original_data_json).is_none() || opt_doc_of(
        row.edited_data_json,
    ).is_none() {
        Some(RowFault::Serialization)
    } else if nanos_of(row.created_at).is_none() {
        Some(RowFault::Database)
    } else {
        None
    }
}

/// The row of a queue item.
pub fn queue_item_to_row(item: &QueueItem) -> (row: QueueItemRow)
    ensures
        row@ == queue_item_row(item@),
{
    QueueItemRow {
        id: crate::ids::id_to_string(item.id),
        dataset_id: crate::ids::id_to_string(item.dataset_id),
        datapoint_id: crate::ids::id_to_string(item.datapoint_id),
        status: item.status.as_str().to_owned(),
        claimed_by: crate::text::clone_opt_text(&item.claimed_by),
        claimed_at: opt_time_to_text(&item.claimed_at),
        original_data_json: opt_doc_to_text(item.original_data.as_ref()),
        edited_data_json: opt_doc_to_text(item.edited_data.as_ref()),
        created_at: crate::clock::to_rfc3339(&item.created_at),
    }
}

/// The queue item that a row holds.  A column that cannot be read gives
/// an error: one of the database for an identifier or an instant, one of
/// serialization for the status or a document; of two such columns the
/// error tells of the first in the order of the columns.
pub fn deserialize_queue_item(row: &QueueItemRow) -> (r: Result<QueueItem, StorageError>)
    ensures
        match r {
            Ok(q) => queue_item_of_row(row@) == Some(q@) && queue_item_fault(row@).is_none(),
            Err(e) => queue_item_of_row(row@).is_none() && is_fault(e, queue_item_fault(row@)),
        },
{
    let id = match crate::ids::parse_id(row.id.as_str()) {
        Some(id) => id,
        None => {
            return Err(database("invalid queue item id"));
        },
    };
    let dataset_id = match crate::ids::parse_id(row.dataset_id.as_str()) {
        Some(id) => id,
        None => {
            return Err(database("invalid dataset id"));
        },
    };
    let datapoint_id = match crate::ids::parse_id(row.datapoint_id.as_str()) {
        Some(id) => id,
        None => {
            return Err(database("invalid datapoint id"));
        },
    };
    let status = match QueueItemStatus::from_name(row.status.as_str()) {
        Some(status) => status,
        None => {
            return Err(serialization("invalid status"));
        },
    };
    let claimed_at = match read_opt_nanos(&row.claimed_at) {
        Some(t) => t,
        None => {
            return Err(database("invalid claimed_at"));
        },
    };
    let original_data = match read_opt_doc(&row.original_data_json) {
        Some(d) => d,
        None => {
            return Err(serialization("invalid original data"));
        },
    };
    let edited_data = match read_opt_doc(&row.edited_data_json) {
        Some(d) => d,
        None => {
            return Err(serialization("invalid edited data"));
        },
    };
    let created_at = match read_nanos(row.created_at.as_str()) {
        Some(t) => t,
        None => {
            return Err(database("invalid created_at"));
        },
    };
    Ok(
        QueueItem {
            id,
            dataset_id,
            datapoint_id,
            status,
            claimed_by: crate::text::clone_opt_text(&row.claimed_by),
            claimed_at,
            original_data,
            edited_data,
            created_at,
        },
    )
}

} // verus!
