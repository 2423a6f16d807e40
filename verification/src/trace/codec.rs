use crate::clock::{rfc3339_text, Timestamp};
use crate::ids::{uuid_parsed, uuid_text, Id};
use crate::json::{fields_view, opt_json, Json, JsonView};
use crate::text::{decimal, opt_text};
use crate::trace::kind::{SpanKind, SpanKindView, SpanStatus, SpanStatusView};
use crate::trace::span::{checked, opt_time, Span, SpanView};
use crate::wire::{
    absent, assemble, id_at, lemma_count_round_trip, lemma_differ, lemma_lookup_assembled,
    names_distinct, opt_number, opt_number_text, opt_string, str_at, time_named, u64_at,
    ObjectWriter,
};
use vstd::prelude::*;

verus! {

/// True for an identifier that comes back from its text.
pub open spec fn id_faithful(id: Id) -> bool {
    uuid_parsed(uuid_text(id)) == Some(id)
}

/// True for an optional identifier that comes back from its text.
pub open spec fn opt_id_faithful(id: Option<Id>) -> bool {
    id matches Some(id) ==> id_faithful(id)
}

/// True for an instant that comes back from its text.
pub open spec fn time_faithful(t: int) -> bool {
    time_named(rfc3339_text(t)) matches Some((secs, nanos)) && secs * 1_000_000_000 + nanos == t
}

/// True for an optional instant that comes back from its text.
pub open spec fn opt_time_faithful(t: Option<int>) -> bool {
    t matches Some(t) ==> time_faithful(t)
}

/// The text under `key` where a text may stand there: none where the
/// field is missing or null; the outer `None` where something else than
/// a string stands there.
pub open spec fn opt_str_at(j: JsonView, key: Seq<char>) -> Option<Option<Seq<char>>> {
    if absent(j, key) {
        Some(None)
    } else {
        match j.get(key).unwrap().as_str() {
            Some(s) => Some(Some(s)),
            None => None,
        }
    }
}

/// The count under `key` where a count may stand there.
pub open spec fn opt_u64_at(j: JsonView, key: Seq<char>) -> Option<Option<u64>> {
    if absent(j, key) {
        Some(None)
    } else {
        match j.get(key).unwrap().as_u64() {
            Some(n) => Some(Some(n)),
            None => None,
        }
    }
}

/// The text of the number under `key` where a number may stand there.
pub open spec fn opt_number_at(j: JsonView, key: Seq<char>) -> Option<Option<Seq<char>>> {
    if absent(j, key) {
        Some(None)
    } else {
        match j.get(key).unwrap() {
            JsonView::Number(n) => Some(Some(n)),
            _ => None,
        }
    }
}

/// The identifier under `key` where one may stand there.
pub open spec fn opt_id_at(j: JsonView, key: Seq<char>) -> Option<Option<Id>> {
    if absent(j, key) {
        Some(None)
    } else {
        match id_at(j, key) {
            Some(id) => Some(Some(id)),
            None => None,
        }
    }
}

/// The instant under `key` where one may stand there, in nanoseconds
/// since the epoch.
pub open spec fn opt_time_at(j: JsonView, key: Seq<char>) -> Option<Option<int>> {
    if absent(j, key) {
        Some(None)
    } else {
        match crate::wire::time_at(j, key) {
            Some((secs, nanos)) => Some(Some(secs * 1_000_000_000 + nanos)),
            None => None,
        }
    }
}

/// The instant under `key`, in nanoseconds since the epoch.
pub open spec fn nanos_at(j: JsonView, key: Seq<char>) -> Option<int> {
    match crate::wire::time_at(j, key) {
        Some((secs, nanos)) => Some(secs * 1_000_000_000 + nanos),
        None => None,
    }
}

/// The value of an optional identifier: its string, or null.
pub open spec fn id_or_null(id: Option<Id>) -> JsonView {
    match id {
        Some(id) => JsonView::Str(uuid_text(id)),
        None => JsonView::Null,
    }
}

/// The string of an optional identifier.
pub open spec fn opt_id_string(id: Option<Id>) -> Option<JsonView> {
    match id {
        Some(id) => Some(JsonView::Str(uuid_text(id))),
        None => None,
    }
}

/// The value of an optional instant: its string, or null.
pub open spec fn time_or_null(t: Option<int>) -> JsonView {
    match t {
        Some(t) => JsonView::Str(rfc3339_text(t)),
        None => JsonView::Null,
    }
}

/// The string of an optional instant.
pub open spec fn opt_time_string(t: Option<int>) -> Option<JsonView> {
    match t {
        Some(t) => Some(JsonView::Str(rfc3339_text(t))),
        None => None,
    }
}

pub fn get_opt_str(j: &Json, key: &str) -> (r: Option<Option<String>>)
    ensures
        match r {
            Some(v) => opt_str_at(j@, key@) == Some(opt_text(v)),
            None => opt_str_at(j@, key@).is_none(),
        },
{
    if crate::wire::is_absent(j, key) {
        return Some(None);
    }
    match j.get(key) {
        Some(v) => match v.as_str() {
            Some(s) => Some(Some(s.to_owned())),
            None => None,
        },
        None => None,
    }
}

pub fn get_opt_u64(j: &Json, key: &str) -> (r: Option<Option<u64>>)
    ensures
        r == opt_u64_at(j@, key@),
{
    if crate::wire::is_absent(j, key) {
        return Some(None);
    }
    match j.get(key) {
        Some(v) => match v.as_u64() {
            Some(n) => Some(Some(n)),
            None => None,
        },
        None => None,
    }
}

pub fn get_opt_number(j: &Json, key: &str) -> (r: Option<Option<String>>)
    ensures
        match r {
            Some(v) => opt_number_at(j@, key@) == Some(opt_text(v)),
            None => opt_number_at(j@, key@).is_none(),
        },
{
    if crate::wire::is_absent(j, key) {
        return Some(None);
    }
    match j.get(key) {
        Some(v) => match v {
            Json::Number(n) => Some(Some(n.clone())),
            _ => None,
        },
        None => None,
    }
}

pub fn get_opt_id(j: &Json, key: &str) -> (r: Option<Option<Id>>)
    ensures
        r == opt_id_at(j@, key@),
{
    if crate::wire::is_absent(j, key) {
        return Some(None);
    }
    match crate::wire::get_id(j, key) {
        Some(id) => Some(Some(id)),
        None => None,
    }
}

pub fn get_opt_time(j: &Json, key: &str) -> (r: Option<Option<Timestamp>>)
    ensures
        match r {
            Some(t) => opt_time_at(j@, key@) == Some(opt_time(t)),
            None => opt_time_at(j@, key@).is_none(),
        },
{
    if crate::wire::is_absent(j, key) {
        return Some(None);
    }
    match crate::wire::get_time(j, key) {
        Some(t) => Some(Some(t)),
        None => None,
    }
}

pub fn get_nanos(j: &Json, key: &str) -> (r: Option<Timestamp>)
    ensures
        match r {
            Some(t) => nanos_at(j@, key@) == Some(t@),
            None => nanos_at(j@, key@).is_none(),
        },
{
    match crate::wire::get_time(j, key) {
        Some(t) => Some(t),
        None => None,
    }
}

pub fn id_or_null_json(id: Option<Id>) -> (j: Json)
    ensures
        j@ == id_or_null(id),
        opt_id_faithful(id),
{
    match id {
        Some(id) => crate::wire::id_string(id),
        None => Json::Null,
    }
}

pub fn opt_id_json(id: Option<Id>) -> (j: Option<Json>)
    ensures
        opt_json(j) == opt_id_string(id),
        opt_id_faithful(id),
{
    match id {
        Some(id) => Some(crate::wire::id_string(id)),
        None => None,
    }
}

pub fn time_or_null_json(t: &Option<Timestamp>) -> (j: Json)
    ensures
        j@ == time_or_null(opt_time(*t)),
        opt_time_faithful(opt_time(*t)),
{
    match t {
        Some(t) => crate::wire::time_string(t),
        None => Json::Null,
    }
}

pub fn opt_time_json(t: &Option<Timestamp>) -> (j: Option<Json>)
    ensures
        opt_json(j) == opt_time_string(opt_time(*t)),
        opt_time_faithful(opt_time(*t)),
{
    match t {
        Some(t) => Some(crate::wire::time_string(t)),
        None => None,
    }
}

pub fn opt_text_json(s: &Option<String>) -> (j: Option<Json>)
    ensures
        opt_json(j) == opt_string(opt_text(*s)),
{
    match s {
        Some(s) => Some(crate::wire::string(s.as_str())),
        None => None,
    }
}

pub fn opt_u64_json(n: Option<u64>) -> (j: Option<Json>)
    ensures
        opt_json(j) == opt_number(n),
{
    match n {
        Some(n) => Some(crate::wire::number(n)),
        None => None,
    }
}

pub fn opt_number_json(s: &Option<String>) -> (j: Option<Json>)
    ensures
        opt_json(j) == opt_number_text(opt_text(*s)),
{
    match s {
        Some(s) => Some(Json::Number(s.clone())),
        None => None,
    }
}

impl SpanStatusView {
    /// The status on the wire: its name, and for a failed span an object
    /// that holds the error under `failed`.
    pub open spec fn to_json(self) -> JsonView {
        match self {
            SpanStatusView::Running => JsonView::Str("running"@),
            SpanStatusView::Completed => JsonView::Str("completed"@),
            SpanStatusView::Failed { error } => JsonView::Object(
                assemble(
                    seq![
                        (
                            "failed"@,
                            Some(
                                JsonView::Object(
                                    assemble(seq![("error"@, Some(JsonView::Str(error)))]),
                                ),
                            ),
                        ),
                    ],
                ),
            ),
        }
    }

    /// The status that a value on the wire stands for.
    pub open spec fn from_json(j: JsonView) -> Option<SpanStatusView> {
        match j {
            JsonView::Str(s) => if s == "running"@ {
                Some(SpanStatusView::Running)
            } else if s == "completed"@ {
                Some(SpanStatusView::Completed)
            } else {
                None
            },
            JsonView::Object(_) => match j.get("failed"@) {
                Some(inner) => match str_at(inner, "error"@) {
                    Some(error) => Some(SpanStatusView::Failed { error }),
                    None => None,
                },
                None => None,
            },
            _ => None,
        }
    }
}

impl SpanStatus {
    /// The status on the wire.
    pub fn to_json(&self) -> (j: Json)
        ensures
            j@ == self@.to_json(),
    {
        match self {
            SpanStatus::Running => crate::wire::string("running"),
            SpanStatus::Completed => crate::wire::string("completed"),
            SpanStatus::Failed { error } => {
                let mut inner = ObjectWriter::new();
                inner.put("error", crate::wire::string(error.as_str()));
                let mut outer = ObjectWriter::new();
                outer.put("failed", inner.finish());
                assert(inner.entries() =~= seq![("error"@, Some(JsonView::Str(error@)))]);
                assert(outer.entries() =~= seq![
                    (
                        "failed"@,
                        Some(
                            JsonView::Object(
                                assemble(seq![("error"@, Some(JsonView::Str(error@)))]),
                            ),
                        ),
                    ),
                ]);
                outer.finish()
            },
        }
    }

    /// The status that a value on the wire stands for.
    pub fn from_json(j: &Json) -> (r: Option<SpanStatus>)
        ensures
            match r {
                Some(s) => SpanStatusView::from_json(j@) == Some(s@),
                None => SpanStatusView::from_json(j@).is_none(),
            },
    {
        match j {
            Json::Str(s) => {
                if crate::text::same_text(s.as_str(), "running") {
                    Some(SpanStatus::Running)
                } else if crate::text::same_text(s.as_str(), "completed") {
                    Some(SpanStatus::Completed)
                } else {
                    None
                }
            },
            Json::Object(_) => match j.get("failed") {
                Some(inner) => match crate::wire::get_str(inner, "error") {
                    Some(error) => Some(SpanStatus::Failed { error: error.to_owned() }),
                    None => None,
                },
                None => None,
            },
            _ => None,
        }
    }
}

/// A status comes back from the wire as it went.
pub proof fn lemma_status_round_trip(s: SpanStatusView)
    ensures
        SpanStatusView::from_json(s.to_json()) == Some(s),
{
    reveal_strlit("running");
    reveal_strlit("completed");
    match s {
        SpanStatusView::Running => {},
        SpanStatusView::Completed => {
            assert("completed"@.len() != "running"@.len());
        },
        SpanStatusView::Failed { error } => {
            let inner = seq![("error"@, Some(JsonView::Str(error)))];
            assert(inner[0].0 == "error"@);
            lemma_lookup_assembled(inner, "error"@);
            let outer = seq![("failed"@, Some(JsonView::Object(assemble(inner))))];
            assert(outer[0].0 == "failed"@);
            lemma_lookup_assembled(outer, "failed"@);
        },
    }
}

/// The entries of a kind on the wire: its type first, then its fields;
/// a field without a value is left out.
pub open spec fn kind_entries(k: SpanKindView) -> Seq<(Seq<char>, Option<JsonView>)> {
    match k {
        SpanKindView::FsRead { path, file_version, bytes_read } => seq![
            ("type"@, Some(JsonView::Str("fs_read"@))),
            ("path"@, Some(JsonView::Str(path))),
            ("file_version"@, opt_string(file_version)),
            ("bytes_read"@, Some(JsonView::Number(decimal(bytes_read as nat)))),
        ],
        SpanKindView::FsWrite { path, file_version, bytes_written } => seq![
            ("type"@, Some(JsonView::Str("fs_write"@))),
            ("path"@, Some(JsonView::Str(path))),
            ("file_version"@, Some(JsonView::Str(file_version))),
            ("bytes_written"@, Some(JsonView::Number(decimal(bytes_written as nat)))),
        ],
        SpanKindView::LlmCall {
            model,
            provider,
            input_tokens,
            output_tokens,
            cost,
            input_preview,
            output_preview,
        } => seq![
            ("type"@, Some(JsonView::Str("llm_call"@))),
            ("model"@, Some(JsonView::Str(model))),
            ("provider"@, opt_string(provider)),
            ("input_tokens"@, opt_number(input_tokens)),
            ("output_tokens"@, opt_number(output_tokens)),
            ("cost"@, opt_number_text(cost)),
            ("input_preview"@, opt_string(input_preview)),
            ("output_preview"@, opt_string(output_preview)),
        ],
        SpanKindView::Custom { kind, attributes } => seq![
            ("type"@, Some(JsonView::Str("custom"@))),
            ("kind"@, Some(JsonView::Str(kind))),
            ("attributes"@, Some(JsonView::Object(attributes))),
        ],
    }
}

/// The fields under `key` where an object may stand there: none where the
/// field is missing or null.
pub open spec fn object_at(j: JsonView, key: Seq<char>) -> Option<Seq<(Seq<char>, JsonView)>> {
    if absent(j, key) {
        Some(Seq::empty())
    } else {
        match j.get(key).unwrap() {
            JsonView::Object(fields) => Some(fields),
            _ => None,
        }
    }
}

impl SpanKindView {
    /// The kind on the wire: an object that tells its type under `type`.
    pub open spec fn to_json(self) -> JsonView {
        JsonView::Object(assemble(kind_entries(self)))
    }

    /// The kind that an object on the wire stands for; `None` where the
    /// type is not known, or a field that the type needs is missing or of
    /// another type.
    pub open spec fn from_json(j: JsonView) -> Option<SpanKindView> {
        match str_at(j, "type"@) {
            None => None,
            Some(t) => if t == "fs_read"@ {
                match (str_at(j, "path"@), opt_str_at(j, "file_version"@), u64_at(j, "bytes_read"@)) {
                    (Some(path), Some(file_version), Some(bytes_read)) => Some(
                        SpanKindView::FsRead { path, file_version, bytes_read },
                    ),
                    _ => None,
                }
            } else if t == "fs_write"@ {
                match (str_at(j, "path"@), str_at(j, "file_version"@), u64_at(j, "bytes_written"@)) {
                    (Some(path), Some(file_version), Some(bytes_written)) => Some(
                        SpanKindView::FsWrite { path, file_version, bytes_written },
                    ),
                    _ => None,
                }
            } else if t == "llm_call"@ {
                match (
                    str_at(j, "model"@),
                    opt_str_at(j, "provider"@),
                    opt_u64_at(j, "input_tokens"@),
                    opt_u64_at(j, "output_tokens"@),
                    opt_number_at(j, "cost"@),
                    opt_str_at(j, "input_preview"@),
                    opt_str_at(j, "output_preview"@),
                ) {
                    (
                        Some(model),
                        Some(provider),
                        Some(input_tokens),
                        Some(output_tokens),
                        Some(cost),
                        Some(input_preview),
                        Some(output_preview),
                    ) => Some(
                        SpanKindView::LlmCall {
                            model,
                            provider,
                            input_tokens,
                            output_tokens,
                            cost,
                            input_preview,
                            output_preview,
                        },
                    ),
                    _ => None,
                }
            } else if t == "custom"@ {
                match (str_at(j, "kind"@), object_at(j, "attributes"@)) {
                    (Some(kind), Some(attributes)) => Some(
                        SpanKindView::Custom { kind, attributes },
                    ),
                    _ => None,
                }
            } else {
                None
            },
        }
    }
}

/// The fields under `key` where an object may stand there.
pub fn get_object(j: &Json, key: &str) -> (r: Option<Vec<(String, Json)>>)
    ensures
        match r {
            Some(fields) => object_at(j@, key@) == Some(fields_view(fields@)),
            None => object_at(j@, key@).is_none(),
        },
{
    if crate::wire::is_absent(j, key) {
        let empty: Vec<(String, Json)> = Vec::new();
        assert(fields_view(empty@) =~= Seq::empty());
        return Some(empty);
    }
    match j.get(key) {
        Some(v) => match v {
            Json::Object(fields) => {
                proof {
                    crate::json::lemma_object_view(*fields);
                }
                Some(crate::json::clone_fields(fields))
            },
            _ => None,
        },
        None => None,
    }
}

impl SpanKind {
    /// The kind on the wire.
    pub fn to_json(&self) -> (j: Json)
        ensures
            j@ == self@.to_json(),
    {
        let mut w = ObjectWriter::new();
        match self {
            SpanKind::FsRead { path, file_version, bytes_read } => {
                w.put("type", crate::wire::string("fs_read"));
                w.put("path", crate::wire::string(path.as_str()));
                w.put_opt("file_version", opt_text_json(file_version));
                w.put("bytes_read", crate::wire::number(*bytes_read));
            },
            SpanKind::FsWrite { path, file_version, bytes_written } => {
                w.put("type", crate::wire::string("fs_write"));
                w.put("path", crate::wire::string(path.as_str()));
                w.put("file_version", crate::wire::string(file_version.as_str()));
                w.put("bytes_written", crate::wire::number(*bytes_written));
            },
            SpanKind::LlmCall {
                model,
                provider,
                input_tokens,
                output_tokens,
                cost,
                input_preview,
                output_preview,
            } => {
                w.put("type", crate::wire::string("llm_call"));
                w.put("model", crate::wire::string(model.as_str()));
                w.put_opt("provider", opt_text_json(provider));
                w.put_opt("input_tokens", opt_u64_json(*input_tokens));
                w.put_opt("output_tokens", opt_u64_json(*output_tokens));
                w.put_opt("cost", opt_number_json(cost));
                w.put_opt("input_preview", opt_text_json(input_preview));
                w.put_opt("output_preview", opt_text_json(output_preview));
            },
            SpanKind::Custom { kind, attributes } => {
                w.put("type", crate::wire::string("custom"));
                w.put("kind", crate::wire::string(kind.as_str()));
                let copy = crate::json::clone_fields(attributes);
                proof {
                    crate::json::lemma_object_view(copy);
                }
                w.put("attributes", Json::Object(copy));
            },
        }
        assert(w.entries() =~= kind_entries(self@));
        w.finish()
    }

    /// The kind that an object on the wire stands for.
    pub fn from_json(j: &Json) -> (r: Option<SpanKind>)
        ensures
            match r {
                Some(k) => SpanKindView::from_json(j@) == Some(k@),
                None => SpanKindView::from_json(j@).is_none(),
            },
    {
        let t = match crate::wire::get_str(j, "type") {
            Some(t) => t,
            None => {
                return None;
            },
        };
        if crate::text::same_text(t, "fs_read") {
            let path = crate::wire::get_str(j, "path");
            let file_version = get_opt_str(j, "file_version");
            let bytes_read = crate::wire::get_u64(j, "bytes_read");
            match (path, file_version, bytes_read) {
                (Some(path), Some(file_version), Some(bytes_read)) => Some(
                    SpanKind::FsRead { path: path.to_owned(), file_version, bytes_read },
                ),
                _ => None,
            }
        } else if crate::text::same_text(t, "fs_write") {
            let path = crate::wire::get_str(j, "path");
            let file_version = crate::wire::get_str(j, "file_version");
            let bytes_written = crate::wire::get_u64(j, "bytes_written");
            match (path, file_version, bytes_written) {
                (Some(path), Some(file_version), Some(bytes_written)) => Some(
                    SpanKind::FsWrite {
                        path: path.to_owned(),
                        file_version: file_version.to_owned(),
                        bytes_written,
                    },
                ),
                _ => None,
            }
        } else if crate::text::same_text(t, "llm_call") {
            let model = crate::wire::get_str(j, "model");
            let provider = get_opt_str(j, "provider");
            let input_tokens = get_opt_u64(j, "input_tokens");
            let output_tokens = get_opt_u64(j, "output_tokens");
            let cost = get_opt_number(j, "cost");
            let input_preview = get_opt_str(j, "input_preview");
            let output_preview = get_opt_str(j, "output_preview");
            match (model, provider, input_tokens, output_tokens, cost, input_preview, output_preview) {
                (
                    Some(model),
                    Some(provider),
                    Some(input_tokens),
                    Some(output_tokens),
                    Some(cost),
                    Some(input_preview),
                    Some(output_preview),
                ) => Some(
                    SpanKind::LlmCall {
                        model: model.to_owned(),
                        provider,
                        input_tokens,
                        output_tokens,
                        cost,
                        input_preview,
                        output_preview,
                    },
                ),
                _ => None,
            }
        } else if crate::text::same_text(t, "custom") {
            let kind = crate::wire::get_str(j, "kind");
            let attributes = get_object(j, "attributes");
            match (kind, attributes) {
                (Some(kind), Some(attributes)) => Some(
                    SpanKind::Custom { kind: kind.to_owned(), attributes },
                ),
                _ => None,
            }
        } else {
            None
        }
    }
}

proof fn lemma_kind_names(k: SpanKindView)
    ensures
        names_distinct(kind_entries(k)),
{
    reveal_strlit("type");
    reveal_strlit("path");
    reveal_strlit("file_version");
    reveal_strlit("bytes_read");
    reveal_strlit("bytes_written");
    reveal_strlit("model");
    reveal_strlit("provider");
    reveal_strlit("input_tokens");
    reveal_strlit("output_tokens");
    reveal_strlit("cost");
    reveal_strlit("input_preview");
    reveal_strlit("output_preview");
    reveal_strlit("kind");
    reveal_strlit("attributes");
    lemma_differ("type"@, "path"@, 0);
    lemma_differ("type"@, "cost"@, 0);
    lemma_differ("type"@, "kind"@, 0);
    lemma_differ("input_preview"@, "output_tokens"@, 0);
    let e = kind_entries(k);
    match k {
        SpanKindView::FsRead { .. } => {
            assert(e.len() == 4);
            assert(e[0].0 == "type"@ && e[1].0 == "path"@ && e[2].0 == "file_version"@ && e[3].0
                == "bytes_read"@);
            assert forall|i: int, j: int|
                0 <= i < e.len() && 0 <= j < e.len() && i != j implies e[i].0 != e[j].0 by {
                lemma_pair(e, i, j);
            }
        },
        SpanKindView::FsWrite { .. } => {
            assert(e.len() == 4);
            assert(e[0].0 == "type"@ && e[1].0 == "path"@ && e[2].0 == "file_version"@ && e[3].0
                == "bytes_written"@);
            assert forall|i: int, j: int|
                0 <= i < e.len() && 0 <= j < e.len() && i != j implies e[i].0 != e[j].0 by {
                lemma_pair(e, i, j);
            }
        },
        SpanKindView::LlmCall { .. } => {
            assert(e.len() == 8);
            assert(e[0].0 == "type"@ && e[1].0 == "model"@ && e[2].0 == "provider"@ && e[3].0
                == "input_tokens"@ && e[4].0 == "output_tokens"@ && e[5].0 == "cost"@ && e[6].0
                == "input_preview"@ && e[7].0 == "output_preview"@);
            assert forall|i: int, j: int|
                0 <= i < e.len() && 0 <= j < e.len() && i != j implies e[i].0 != e[j].0 by {
                lemma_pair(e, i, j);
            }
        },
        SpanKindView::Custom { .. } => {
            assert(e.len() == 3);
            assert(e[0].0 == "type"@ && e[1].0 == "kind"@ && e[2].0 == "attributes"@);
            assert forall|i: int, j: int|
                0 <= i < e.len() && 0 <= j < e.len() && i != j implies e[i].0 != e[j].0 by {
                lemma_pair(e, i, j);
            }
        },
    }
}

/// Names the names of two entries, so that they can be told apart.
pub proof fn lemma_pair(e: Seq<(Seq<char>, Option<JsonView>)>, i: int, j: int)
    requires
        0 <= i < e.len(),
        0 <= j < e.len(),
    ensures
        e[i].0.len() != e[j].0.len() ==> e[i].0 != e[j].0,
        e[i].0.len() > 0 && e[j].0.len() > 0 && e[i].0[0] != e[j].0[0] ==> e[i].0 != e[j].0,
{
}

/// A kind comes back from the wire as it went.
pub proof fn lemma_kind_round_trip(k: SpanKindView)
    ensures
        SpanKindView::from_json(k.to_json()) == Some(k),
{
    lemma_kind_names(k);
    let e = kind_entries(k);
    let j = k.to_json();
    reveal_strlit("fs_read");
    reveal_strlit("fs_write");
    reveal_strlit("llm_call");
    reveal_strlit("custom");
    lemma_differ("fs_write"@, "fs_read"@, 0);
    lemma_differ("llm_call"@, "fs_read"@, 0);
    lemma_differ("llm_call"@, "fs_write"@, 0);
    lemma_differ("custom"@, "fs_read"@, 0);
    lemma_differ("custom"@, "fs_write"@, 0);
    lemma_differ("custom"@, "llm_call"@, 0);
    lemma_lookup_assembled(e, "type"@);
    assert(e[0].0 == "type"@);
    match k {
        SpanKindView::FsRead { path, file_version, bytes_read } => {
            lemma_lookup_assembled(e, "path"@);
            lemma_lookup_assembled(e, "file_version"@);
            lemma_lookup_assembled(e, "bytes_read"@);
            assert(e[1].0 == "path"@);
            assert(e[2].0 == "file_version"@);
            assert(e[3].0 == "bytes_read"@);
            lemma_count_round_trip(bytes_read);
        },
        SpanKindView::FsWrite { path, file_version, bytes_written } => {
            lemma_lookup_assembled(e, "path"@);
            lemma_lookup_assembled(e, "file_version"@);
            lemma_lookup_assembled(e, "bytes_written"@);
            assert(e[1].0 == "path"@);
            assert(e[2].0 == "file_version"@);
            assert(e[3].0 == "bytes_written"@);
            lemma_count_round_trip(bytes_written);
        },
        SpanKindView::LlmCall {
            model,
            provider,
            input_tokens,
            output_tokens,
            cost,
            input_preview,
            output_preview,
        } => {
            lemma_lookup_assembled(e, "model"@);
            lemma_lookup_assembled(e, "provider"@);
            lemma_lookup_assembled(e, "input_tokens"@);
            lemma_lookup_assembled(e, "output_tokens"@);
            lemma_lookup_assembled(e, "cost"@);
            lemma_lookup_assembled(e, "input_preview"@);
            lemma_lookup_assembled(e, "output_preview"@);
            assert(e[1].0 == "model"@);
            assert(e[2].0 == "provider"@);
            assert(e[3].0 == "input_tokens"@);
            assert(e[4].0 == "output_tokens"@);
            assert(e[5].0 == "cost"@);
            assert(e[6].0 == "input_preview"@);
            assert(e[7].0 == "output_preview"@);
            if let Some(n) = input_tokens {
                lemma_count_round_trip(n);
            }
            if let Some(n) = output_tokens {
                lemma_count_round_trip(n);
            }
        },
        SpanKindView::Custom { kind, attributes } => {
            lemma_lookup_assembled(e, "kind"@);
            lemma_lookup_assembled(e, "attributes"@);
            assert(e[1].0 == "kind"@);
            assert(e[2].0 == "attributes"@);
        },
    }
}

/// The entries of a span on the wire.  The organisation, the input and
/// the output are left out where the span has none; the parent and the end
/// are null where it has none.
pub open spec fn span_entries(s: SpanView) -> Seq<(Seq<char>, Option<JsonView>)> {
    seq![
        ("id"@, Some(JsonView::Str(uuid_text(s.id)))),
        ("trace_id"@, Some(JsonView::Str(uuid_text(s.trace_id)))),
        ("org_id"@, opt_id_string(s.org_id)),
        ("parent_id"@, Some(id_or_null(s.parent_id))),
        ("name"@, Some(JsonView::Str(s.name))),
        ("kind"@, Some(s.kind.to_json())),
        ("status"@, Some(s.status.to_json())),
        ("started_at"@, Some(JsonView::Str(rfc3339_text(s.started_at)))),
        ("ended_at"@, Some(time_or_null(s.ended_at))),
        ("input"@, s.input),
        ("output"@, s.output),
    ]
}

impl SpanView {
    /// The span on the wire.
    pub open spec fn to_json(self) -> JsonView {
        JsonView::Object(assemble(span_entries(self)))
    }

    /// The span that an object on the wire stands for; `None` where a
    /// field that a span needs is missing or of another type, or where
    /// the object gives an end to a span that runs, or none to a span
    /// that has ended.  A field that the object holds beyond those of a
    /// span is passed over.
    pub open spec fn from_json(j: JsonView) -> Option<SpanView> {
        match (
            id_at(j, "id"@),
            id_at(j, "trace_id"@),
            opt_id_at(j, "org_id"@),
            opt_id_at(j, "parent_id"@),
            str_at(j, "name"@),
            j.get("kind"@),
            j.get("status"@),
            nanos_at(j, "started_at"@),
            opt_time_at(j, "ended_at"@),
        ) {
            (
                Some(id),
                Some(trace_id),
                Some(org_id),
                Some(parent_id),
                Some(name),
                Some(kind),
                Some(status),
                Some(started_at),
                Some(ended_at),
            ) => match (SpanKindView::from_json(kind), SpanStatusView::from_json(status)) {
                (Some(kind), Some(status)) => checked(
                    SpanView {
                        id,
                        trace_id,
                        org_id,
                        parent_id,
                        name,
                        kind,
                        status,
                        started_at,
                        ended_at,
                        input: j.get("input"@),
                        output: j.get("output"@),
                    },
                ),
                _ => None,
            },
            _ => None,
        }
    }
}

/// The payload under `key`: whatever stands there.
pub fn get_payload(j: &Json, key: &str) -> (r: Option<Json>)
    ensures
        opt_json(r) == j@.get(key@),
{
    match j.get(key) {
        Some(v) => Some(v.clone()),
        None => None,
    }
}

impl Span {
    /// The span on the wire.  The span comes back from it as it went.
    pub fn to_json(&self) -> (j: Json)
        ensures
            j@ == self@.to_json(),
            SpanView::from_json(j@) == Some(self@),
    {
        let mut w = ObjectWriter::new();
        w.put("id", crate::wire::id_string(self.id()));
        w.put("trace_id", crate::wire::id_string(self.trace_id()));
        w.put_opt("org_id", opt_id_json(self.org_id()));
        w.put("parent_id", id_or_null_json(self.parent_id()));
        w.put("name", crate::wire::string(self.name()));
        w.put("kind", self.kind().to_json());
        w.put("status", self.status().to_json());
        w.put("started_at", crate::wire::time_string(&self.started_at()));
        w.put("ended_at", time_or_null_json(&self.ended_at()));
        let input = match self.input() {
            Some(v) => Some(v.clone()),
            None => None,
        };
        w.put_opt("input", input);
        let output = match self.output() {
            Some(v) => Some(v.clone()),
            None => None,
        };
        w.put_opt("output", output);
        assert(w.entries() =~= span_entries(self@));
        proof {
            use_type_invariant(self);
            lemma_span_round_trip(self@);
        }
        w.finish()
    }

    /// The span that an object on the wire stands for.
    pub fn from_json(j: &Json) -> (r: Option<Span>)
        ensures
            match r {
                Some(s) => SpanView::from_json(j@) == Some(s@),
                None => SpanView::from_json(j@).is_none(),
            },
    {
        let id = crate::wire::get_id(j, "id");
        let trace_id = crate::wire::get_id(j, "trace_id");
        let org_id = get_opt_id(j, "org_id");
        let parent_id = get_opt_id(j, "parent_id");
        let name = crate::wire::get_str(j, "name");
        let kind = j.get("kind");
        let status = j.get("status");
        let started_at = get_nanos(j, "started_at");
        let ended_at = get_opt_time(j, "ended_at");
        match (id, trace_id, org_id, parent_id, name, kind, status, started_at, ended_at) {
            (
                Some(id),
                Some(trace_id),
                Some(org_id),
                Some(parent_id),
                Some(name),
                Some(kind),
                Some(status),
                Some(started_at),
                Some(ended_at),
            ) => match (SpanKind::from_json(kind), SpanStatus::from_json(status)) {
                (Some(kind), Some(status)) => Span::from_parts(
                    id,
                    trace_id,
                    org_id,
                    parent_id,
                    name.to_owned(),
                    kind,
                    status,
                    started_at,
                    ended_at,
                    get_payload(j, "input"),
                    get_payload(j, "output"),
                ),
                _ => None,
            },
            _ => None,
        }
    }
}

proof fn lemma_span_names(s: SpanView)
    ensures
        names_distinct(span_entries(s)),
{
    reveal_strlit("id");
    reveal_strlit("trace_id");
    reveal_strlit("org_id");
    reveal_strlit("parent_id");
    reveal_strlit("name");
    reveal_strlit("kind");
    reveal_strlit("status");
    reveal_strlit("started_at");
    reveal_strlit("ended_at");
    reveal_strlit("input");
    reveal_strlit("output");
    lemma_differ("org_id"@, "output"@, 1);
    let e = span_entries(s);
    assert(e.len() == 11);
    assert(e[0].0 == "id"@ && e[1].0 == "trace_id"@ && e[2].0 == "org_id"@ && e[3].0
        == "parent_id"@ && e[4].0 == "name"@ && e[5].0 == "kind"@ && e[6].0 == "status"@ && e[7].0
        == "started_at"@ && e[8].0 == "ended_at"@ && e[9].0 == "input"@ && e[10].0 == "output"@);
    assert forall|i: int, j: int| 0 <= i < e.len() && 0 <= j < e.len() && i != j implies e[i].0
        != e[j].0 by {
        lemma_pair(e, i, j);
    }
}

/// A span that knows its end exactly when it has ended comes back from
/// the wire as it went, where its identifiers and its instants come back
/// from their texts.
pub proof fn lemma_span_round_trip(s: SpanView)
    requires
        s.consistent(),
        id_faithful(s.id),
        id_faithful(s.trace_id),
        opt_id_faithful(s.org_id),
        opt_id_faithful(s.parent_id),
        time_faithful(s.started_at),
        opt_time_faithful(s.ended_at),
    ensures
        SpanView::from_json(s.to_json()) == Some(s),
{
    lemma_span_names(s);
    lemma_kind_round_trip(s.kind);
    lemma_status_round_trip(s.status);
    let e = span_entries(s);
    assert(e[0].0 == "id"@ && e[1].0 == "trace_id"@ && e[2].0 == "org_id"@ && e[3].0
        == "parent_id"@ && e[4].0 == "name"@ && e[5].0 == "kind"@ && e[6].0 == "status"@ && e[7].0
        == "started_at"@ && e[8].0 == "ended_at"@ && e[9].0 == "input"@ && e[10].0 == "output"@);
    lemma_lookup_assembled(e, "id"@);
    lemma_lookup_assembled(e, "trace_id"@);
    lemma_lookup_assembled(e, "org_id"@);
    lemma_lookup_assembled(e, "parent_id"@);
    lemma_lookup_assembled(e, "name"@);
    lemma_lookup_assembled(e, "kind"@);
    lemma_lookup_assembled(e, "status"@);
    lemma_lookup_assembled(e, "started_at"@);
    lemma_lookup_assembled(e, "ended_at"@);
    lemma_lookup_assembled(e, "input"@);
    lemma_lookup_assembled(e, "output"@);
    let j = s.to_json();
    assert(j.get("id"@) == e[0].1);
    assert(j.get("trace_id"@) == e[1].1);
    assert(j.get("org_id"@) == e[2].1);
    assert(j.get("parent_id"@) == e[3].1);
    assert(j.get("name"@) == e[4].1);
    assert(j.get("kind"@) == e[5].1);
    assert(j.get("status"@) == e[6].1);
    assert(j.get("started_at"@) == e[7].1);
    assert(j.get("ended_at"@) == e[8].1);
    assert(j.get("input"@) == e[9].1);
    assert(j.get("output"@) == e[10].1);
}

} // verus!
