use crate::api::billing::{base64_decode, base64_decoded, base64_standard, base64_text};
use crate::clock::rfc3339_text;
use crate::ids::uuid_text;
use crate::json::{json_text, Json, JsonView};
use crate::storage::error::StorageError;
use crate::text::decimal;
use crate::trace::codec::{time_or_null, time_or_null_json};
use crate::trace::entities::{
    Datapoint, DatapointSource, DatapointView, Dataset, DatasetView, FileVersion, FileVersionView,
    QueueItem, QueueItemView, Trace, TraceView,
};
use crate::trace::span::{Span, SpanView};
use crate::wire::{assemble, str_at, str_or_null, ObjectWriter};
use vstd::prelude::*;

verus! {

fn text_or_null(s: Option<&str>) -> (j: Json)
    ensures
        j@ == str_or_null(crate::text::opt_str(s)),
{
    match s {
        Some(s) => crate::wire::string(s),
        None => Json::Null,
    }
}

/// The row of a span: its identifier, the whole span as a text in JSON
/// under `data`, and the attributes by which spans are filtered.
pub open spec fn span_row(s: SpanView) -> JsonView {
    JsonView::Object(
        assemble(
            seq![
                ("id"@, Some(JsonView::Str(uuid_text(s.id)))),
                ("data"@, Some(JsonView::Str(json_text(s.to_json())))),
                ("trace_id"@, Some(JsonView::Str(uuid_text(s.trace_id)))),
                ("name"@, Some(JsonView::Str(s.name))),
                ("kind"@, Some(JsonView::Str(s.kind.kind_name()))),
                ("status"@, Some(JsonView::Str(s.status.as_str()))),
                ("model"@, Some(str_or_null(s.kind.model()))),
                ("provider"@, Some(str_or_null(s.kind.provider()))),
                ("path"@, Some(str_or_null(s.kind.path()))),
                ("started_at"@, Some(JsonView::Str(rfc3339_text(s.started_at)))),
                ("ended_at"@, Some(time_or_null(s.ended_at))),
            ],
        ),
    )
}

/// The row of a span.
pub fn span_to_row(span: &Span) -> (j: Json)
    ensures
        j@ == span_row(span@),
{
    let mut w = ObjectWriter::new();
    w.put("id", crate::wire::id_string(span.id()));
    w.put("data", Json::Str(crate::json::to_text(&span.to_json())));
    w.put("trace_id", crate::wire::id_string(span.trace_id()));
    w.put("name", crate::wire::string(span.name()));
    w.put("kind", crate::wire::string(span.kind().kind_name()));
    w.put("status", crate::wire::string(span.status().as_str()));
    w.put("model", text_or_null(span.kind().model()));
    w.put("provider", text_or_null(span.kind().provider()));
    w.put("path", text_or_null(span.kind().path()));
    w.put("started_at", crate::wire::time_string(&span.started_at()));
    w.put("ended_at", time_or_null_json(&span.ended_at()));
    assert(w.entries() =~= seq![
        ("id"@, Some(JsonView::Str(uuid_text(span@.id)))),
        ("data"@, Some(JsonView::Str(json_text(span@.to_json())))),
        ("trace_id"@, Some(JsonView::Str(uuid_text(span@.trace_id)))),
        ("name"@, Some(JsonView::Str(span@.name))),
        ("kind"@, Some(JsonView::Str(span@.kind.kind_name()))),
        ("status"@, Some(JsonView::Str(span@.status.as_str()))),
        ("model"@, Some(str_or_null(span@.kind.model()))),
        ("provider"@, Some(str_or_null(span@.kind.provider()))),
        ("path"@, Some(str_or_null(span@.kind.path()))),
        ("started_at"@, Some(JsonView::Str(rfc3339_text(span@.started_at)))),
        ("ended_at"@, Some(time_or_null(span@.ended_at))),
    ]);
    w.finish()
}

/// The row of a trace.
pub open spec fn trace_row(t: TraceView) -> JsonView {
    JsonView::Object(
        assemble(
            seq![
                ("id"@, Some(JsonView::Str(uuid_text(t.id)))),
                ("data"@, Some(JsonView::Str(json_text(t.to_json())))),
                ("name"@, Some(str_or_null(t.name))),
                ("started_at"@, Some(JsonView::Str(rfc3339_text(t.started_at)))),
                ("ended_at"@, Some(time_or_null(t.ended_at))),
            ],
        ),
    )
}

/// The row of a trace.
pub fn trace_to_row(trace: &Trace) -> (j: Json)
    ensures
        j@ == trace_row(trace@),
{
    let mut w = ObjectWriter::new();
    w.put("id", crate::wire::id_string(trace.id));
    w.put("data", Json::Str(crate::json::to_text(&trace.to_json())));
    w.put("name", text_or_null(crate::text::opt_as_str(&trace.name)));
    w.put("started_at", crate::wire::time_string(&trace.started_at));
    w.put("ended_at", time_or_null_json(&trace.ended_at));
    assert(w.entries() =~= seq![
        ("id"@, Some(JsonView::Str(uuid_text(trace@.id)))),
        ("data"@, Some(JsonView::Str(json_text(trace@.to_json())))),
        ("name"@, Some(str_or_null(trace@.name))),
        ("started_at"@, Some(JsonView::Str(rfc3339_text(trace@.started_at)))),
        ("ended_at"@, Some(time_or_null(trace@.ended_at))),
    ]);
    w.finish()
}

/// The row of a dataset.
pub open spec fn dataset_row(d: DatasetView) -> JsonView {
    JsonView::Object(
        assemble(
            seq![
                ("id"@, Some(JsonView::Str(uuid_text(d.id)))),
                ("data"@, Some(JsonView::Str(json_text(d.to_json())))),
                ("name"@, Some(JsonView::Str(d.name))),
                ("created_at"@, Some(JsonView::Str(rfc3339_text(d.created_at)))),
                ("updated_at"@, Some(JsonView::Str(rfc3339_text(d.updated_at)))),
            ],
        ),
    )
}

/// The row of a dataset.
pub fn dataset_to_row(dataset: &Dataset) -> (j: Json)
    ensures
        j@ == dataset_row(dataset@),
{
    let mut w = ObjectWriter::new();
    w.put("id", crate::wire::id_string(dataset.id));
    w.put("data", Json::Str(crate::json::to_text(&dataset.to_json())));
    w.put("name", crate::wire::string(dataset.name.as_str()));
    w.put("created_at", crate::wire::time_string(&dataset.created_at));
    w.put("updated_at", crate::wire::time_string(&dataset.updated_at));
    assert(w.entries() =~= seq![
        ("id"@, Some(JsonView::Str(uuid_text(dataset@.id)))),
        ("data"@, Some(JsonView::Str(json_text(dataset@.to_json())))),
        ("name"@, Some(JsonView::Str(dataset@.name))),
        ("created_at"@, Some(JsonView::Str(rfc3339_text(dataset@.created_at)))),
        ("updated_at"@, Some(JsonView::Str(rfc3339_text(dataset@.updated_at)))),
    ]);
    w.finish()
}

/// The name of a source among the attributes of a row.
pub open spec fn source_attribute(s: DatapointSource) -> Seq<char> {
    match s {
        DatapointSource::Manual => "Manual"@,
        DatapointSource::SpanExport => "SpanExport"@,
        DatapointSource::FileUpload => "FileUpload"@,
    }
}

fn source_name(s: DatapointSource) -> (r: &'static str)
    ensures
        r@ == source_attribute(s),
{
    match s {
        DatapointSource::Manual => "Manual",
        DatapointSource::SpanExport => "SpanExport",
        DatapointSource::FileUpload => "FileUpload",
    }
}

/// The row of a datapoint.
pub open spec fn datapoint_row(d: DatapointView) -> JsonView {
    JsonView::Object(
        assemble(
            seq![
                ("id"@, Some(JsonView::Str(uuid_text(d.id)))),
                ("data"@, Some(JsonView::Str(json_text(d.to_json())))),
                ("dataset_id"@, Some(JsonView::Str(uuid_text(d.dataset_id)))),
                ("source"@, Some(JsonView::Str(source_attribute(d.source)))),
                ("created_at"@, Some(JsonView::Str(rfc3339_text(d.created_at)))),
            ],
        ),
    )
}

/// The row of a datapoint.
pub fn datapoint_to_row(dp: &Datapoint) -> (j: Json)
    ensures
        j@ == datapoint_row(dp@),
{
    let mut w = ObjectWriter::new();
    w.put("id", crate::wire::id_string(dp.id));
    w.put("data", Json::Str(crate::json::to_text(&dp.to_json())));
    w.put("dataset_id", crate::wire::id_string(dp.dataset_id));
    w.put("source", crate::wire::string(source_name(dp.source)));
    w.put("created_at", crate::wire::time_string(&dp.created_at));
    assert(w.entries() =~= seq![
        ("id"@, Some(JsonView::Str(uuid_text(dp@.id)))),
        ("data"@, Some(JsonView::Str(json_text(dp@.to_json())))),
        ("dataset_id"@, Some(JsonView::Str(uuid_text(dp@.dataset_id)))),
        ("source"@, Some(JsonView::Str(source_attribute(dp@.source)))),
        ("created_at"@, Some(JsonView::Str(rfc3339_text(dp@.created_at)))),
    ]);
    w.finish()
}

/// The row of a queue item.
pub open spec fn queue_item_row(q: QueueItemView) -> JsonView {
    JsonView::Object(
        assemble(
            seq![
                ("id"@, Some(JsonView::Str(uuid_text(q.id)))),
                ("data"@, Some(JsonView::Str(json_text(q.to_json())))),
                ("dataset_id"@, Some(JsonView::Str(uuid_text(q.dataset_id)))),
                ("datapoint_id"@, Some(JsonView::Str(uuid_text(q.datapoint_id)))),
                ("status"@, Some(JsonView::Str(q.status.spec_as_str()))),
                ("claimed_by"@, Some(str_or_null(q.claimed_by))),
                ("created_at"@, Some(JsonView::Str(rfc3339_text(q.created_at)))),
            ],
        ),
    )
}

/// The row of a queue item.
pub fn queue_item_to_row(item: &QueueItem) -> (j: Json)
    ensures
        j@ == queue_item_row(item@),
{
    let mut w = ObjectWriter::new();
    w.put("id", crate::wire::id_string(item.id));
    w.put("data", Json::Str(crate::json::to_text(&item.to_json())));
    w.put("dataset_id", crate::wire::id_string(item.dataset_id));
    w.put("datapoint_id", crate::wire::id_string(item.datapoint_id));
    w.put("status", crate::wire::string(item.status.as_str()));
    w.put("claimed_by", text_or_null(crate::text::opt_as_str(&item.claimed_by)));
    w.put("created_at", crate::wire::time_string(&item.created_at));
    assert(w.entries() =~= seq![
        ("id"@, Some(JsonView::Str(uuid_text(item@.id)))),
        ("data"@, Some(JsonView::Str(json_text(item@.to_json())))),
        ("dataset_id"@, Some(JsonView::Str(uuid_text(item@.dataset_id)))),
        ("datapoint_id"@, Some(JsonView::Str(uuid_text(item@.datapoint_id)))),
        ("status"@, Some(JsonView::Str(item@.status.spec_as_str()))),
        ("claimed_by"@, Some(str_or_null(item@.claimed_by))),
        ("created_at"@, Some(JsonView::Str(rfc3339_text(item@.created_at)))),
    ]);
    w.finish()
}

/// The row of a file version.  Its identifier is its path, a colon, and
/// its hash.
pub open spec fn file_version_row(v: FileVersionView) -> JsonView {
    JsonView::Object(
        assemble(
            seq![
                ("id"@, Some(JsonView::Str(v.path + ":"@ + v.hash))),
                ("data"@, Some(JsonView::Str(json_text(v.to_json())))),
                ("path"@, Some(JsonView::Str(v.path))),
                ("hash"@, Some(JsonView::Str(v.hash))),
                ("size"@, Some(JsonView::Number(decimal(v.size as nat)))),
                ("created_at"@, Some(JsonView::Str(rfc3339_text(v.created_at)))),
            ],
        ),
    )
}

/// The row of a file version.
pub fn file_version_to_row(version: &FileVersion) -> (j: Json)
    ensures
        j@ == file_version_row(version@),
{
    let mut w = ObjectWriter::new();
    w.put(
        "id",
        Json::Str(crate::text::concat3(version.path.as_str(), ":", version.hash.as_str())),
    );
    w.put("data", Json::Str(crate::json::to_text(&version.to_json())));
    w.put("path", crate::wire::string(version.path.as_str()));
    w.put("hash", crate::wire::string(version.hash.as_str()));
    w.put("size", crate::wire::number(version.size));
    w.put("created_at", crate::wire::time_string(&version.created_at));
    assert(w.entries() =~= seq![
        ("id"@, Some(JsonView::Str(version@.path + ":"@ + version@.hash))),
        ("data"@, Some(JsonView::Str(json_text(version@.to_json())))),
        ("path"@, Some(JsonView::Str(version@.path))),
        ("hash"@, Some(JsonView::Str(version@.hash))),
        ("size"@, Some(JsonView::Number(decimal(version@.size as nat)))),
        ("created_at"@, Some(JsonView::Str(rfc3339_text(version@.created_at)))),
    ]);
    w.finish()
}

/// The row of the content of a file: its hash as the identifier, the
/// content in base64, and its size.
pub open spec fn file_content_row(hash: Seq<char>, content: Seq<u8>) -> JsonView {
    JsonView::Object(
        assemble(
            seq![
                ("id"@, Some(JsonView::Str(hash))),
                ("content_base64"@, Some(JsonView::Str(base64_text(content)))),
                ("size"@, Some(JsonView::Number(decimal(content.len())))),
            ],
        ),
    )
}

/// The row of the content of a file.
pub fn file_content_to_row(hash: &str, content: &[u8]) -> (j: Json)
    ensures
        j@ == file_content_row(hash@, content@),
{
    let mut w = ObjectWriter::new();
    w.put("id", crate::wire::string(hash));
    w.put("content_base64", Json::Str(base64_standard(content)));
    w.put("size", crate::wire::number(content.len() as u64));
    assert(w.entries() =~= seq![
        ("id"@, Some(JsonView::Str(hash@))),
        ("content_base64"@, Some(JsonView::Str(base64_text(content@)))),
        ("size"@, Some(JsonView::Number(decimal(content@.len())))),
    ]);
    w.finish()
}

/// The content that a row holds: what its base64 stands for.  A row that
/// is missing is not found; a row without content in base64 is an error of
/// the backend.
pub fn file_content_of_row(row: Option<&Json>) -> (r: Result<Vec<u8>, StorageError>)
    ensures
        match row {
            None => r == Err::<Vec<u8>, StorageError>(StorageError::NotFound),
            Some(row) => match str_at(row@, "content_base64"@) {
                None => r matches Err(StorageError::Backend(m)) && m@
                    == "Missing content_base64"@,
                Some(text) => match base64_decoded(text) {
                    Some(bytes) => r matches Ok(v) && v@ == bytes,
                    None => r matches Err(StorageError::Backend(m)) && m@
                        == "Base64 decode error"@,
                },
            },
        },
{
    match row {
        None => Err(StorageError::NotFound),
        Some(row) => match crate::wire::get_str(row, "content_base64") {
            None => Err(StorageError::Backend("Missing content_base64".to_owned())),
            Some(text) => match base64_decode(text) {
                Some(bytes) => Ok(bytes),
                None => Err(StorageError::Backend("Base64 decode error".to_owned())),
            },
        },
    }
}

} // verus!
