use crate::clock::rfc3339_text;
use crate::ids::uuid_text;
use crate::json::{items_view, Json, JsonView};
use crate::text::{decimal, texts_view};
use crate::trace::codec::{
    get_nanos, get_opt_id, get_opt_str, get_opt_time, id_faithful, lemma_pair, nanos_at, opt_id_at,
    opt_id_faithful, opt_id_json, opt_id_string, opt_str_at, opt_text_json, opt_time_at,
    opt_time_faithful, opt_time_json, opt_time_string, time_faithful,
};
use crate::trace::entities::{Dataset, DatasetView, FileVersion, FileVersionView, Trace, TraceView};
use crate::wire::{
    assemble, id_at, lemma_count_round_trip, lemma_differ, lemma_lookup_assembled, names_distinct,
    opt_string, str_at, u64_at, ObjectWriter,
};
use vstd::prelude::*;

verus! {

/// A list of texts as JSON strings.
pub open spec fn strings_json(texts: Seq<Seq<char>>) -> Seq<JsonView> {
    Seq::new(texts.len(), |i: int| JsonView::Str(texts[i]))
}

/// The texts that a list of JSON strings holds; `None` where an item is
/// no string.
pub open spec fn texts_of(items: Seq<JsonView>) -> Option<Seq<Seq<char>>>
    decreases items.len(),
{
    if items.len() == 0 {
        Some(Seq::empty())
    } else {
        match (texts_of(items.drop_last()), items.last().as_str()) {
            (Some(first), Some(s)) => Some(first.push(s)),
            _ => None,
        }
    }
}

/// The texts under `key` where a list may stand there: none where the
/// field is missing or null.
pub open spec fn texts_at(j: JsonView, key: Seq<char>) -> Option<Seq<Seq<char>>> {
    if crate::wire::absent(j, key) {
        Some(Seq::empty())
    } else {
        match j.get(key).unwrap().as_array() {
            Some(items) => texts_of(items),
            None => None,
        }
    }
}

/// A list of texts comes back from the wire as it went.
pub proof fn lemma_texts_round_trip(texts: Seq<Seq<char>>)
    ensures
        texts_of(strings_json(texts)) == Some(texts),
    decreases texts.len(),
{
    if texts.len() > 0 {
        lemma_texts_round_trip(texts.drop_last());
        let items = strings_json(texts);
        assert(items.drop_last() =~= strings_json(texts.drop_last()));
        assert(items.last() == JsonView::Str(texts.last()));
        assert(texts.drop_last().push(texts.last()) =~= texts);
    } else {
        assert(strings_json(texts) =~= Seq::empty());
        assert(texts =~= Seq::empty());
    }
}

proof fn lemma_texts_prefix(items: Seq<JsonView>, k: int)
    requires
        0 <= k <= items.len(),
        texts_of(items.take(k)).is_none(),
    ensures
        texts_of(items).is_none(),
    decreases items.len() - k,
{
    if k < items.len() {
        assert(items.take(k + 1).drop_last() =~= items.take(k));
        lemma_texts_prefix(items, k + 1);
    } else {
        assert(items.take(k) =~= items);
    }
}

pub(crate) fn strings_to_json(texts: &Vec<String>) -> (j: Json)
    ensures
        j@ == JsonView::Array(strings_json(texts_view(texts@))),
{
    let mut items: Vec<Json> = Vec::new();
    let mut i: usize = 0;
    while i < texts.len()
        invariant
            i <= texts.len(),
            items.len() == i,
            forall|k: int| 0 <= k < i ==> items[k]@ == JsonView::Str(texts[k]@),
        decreases texts.len() - i,
    {
        items.push(crate::wire::string(texts[i].as_str()));
        i = i + 1;
    }
    proof {
        crate::json::lemma_array_view(items);
        assert(items_view(items@) =~= strings_json(texts_view(texts@)));
    }
    Json::Array(items)
}

pub(crate) fn read_texts(items: &Vec<Json>) -> (r: Option<Vec<String>>)
    ensures
        match r {
            Some(v) => texts_of(items_view(items@)) == Some(texts_view(v@)),
            None => texts_of(items_view(items@)).is_none(),
        },
{
    let ghost all = items_view(items@);
    let mut r: Vec<String> = Vec::new();
    let mut i: usize = 0;
    assert(all.take(0) =~= Seq::empty());
    assert(texts_view(r@) =~= Seq::empty());
    while i < items.len()
        invariant
            i <= items.len(),
            all == items_view(items@),
            texts_of(all.take(i as int)) == Some(texts_view(r@)),
        decreases items.len() - i,
    {
        proof {
            assert(all.take(i + 1).drop_last() =~= all.take(i as int));
            assert(all.take(i + 1).last() == items[i as int]@);
        }
        match items[i].as_str() {
            Some(s) => {
                let ghost before = texts_view(r@);
                r.push(s.to_owned());
                assert(texts_view(r@) =~= before.push(s@));
            },
            None => {
                proof {
                    lemma_texts_prefix(all, i + 1);
                }
                return None;
            },
        }
        i = i + 1;
    }
    assert(all.take(items.len() as int) =~= all);
    Some(r)
}

fn get_texts(j: &Json, key: &str) -> (r: Option<Vec<String>>)
    ensures
        match r {
            Some(v) => texts_at(j@, key@) == Some(texts_view(v@)),
            None => texts_at(j@, key@).is_none(),
        },
{
    if crate::wire::is_absent(j, key) {
        let empty: Vec<String> = Vec::new();
        assert(texts_view(empty@) =~= Seq::empty());
        return Some(empty);
    }
    match j.get(key) {
        Some(v) => match v.as_array() {
            Some(items) => read_texts(items),
            None => None,
        },
        None => None,
    }
}

/// A list of tags as a JSON list of strings.
pub fn tags_to_json(tags: &Vec<String>) -> (j: Json)
    ensures
        j@ == JsonView::Array(strings_json(texts_view(tags@))),
{
    strings_to_json(tags)
}

/// The tags that a JSON list of strings holds; `None` for anything else.
pub fn tags_from_json(j: &Json) -> (r: Option<Vec<String>>)
    ensures
        match r {
            Some(v) => j@ matches JsonView::Array(items) && texts_of(items) == Some(
                texts_view(v@),
            ),
            None => !(j@ matches JsonView::Array(items) && texts_of(items).is_some()),
        },
{
    match j.as_array() {
        Some(items) => read_texts(items),
        None => None,
    }
}

/// The entries of a trace on the wire.
pub open spec fn trace_entries(t: TraceView) -> Seq<(Seq<char>, Option<JsonView>)> {
    seq![
        ("id"@, Some(JsonView::Str(uuid_text(t.id)))),
        ("org_id"@, opt_id_string(t.org_id)),
        ("name"@, opt_string(t.name)),
        ("tags"@, Some(JsonView::Array(strings_json(t.tags)))),
        ("started_at"@, Some(JsonView::Str(rfc3339_text(t.started_at)))),
        ("ended_at"@, opt_time_string(t.ended_at)),
        ("machine_id"@, opt_string(t.machine_id)),
    ]
}

impl TraceView {
    /// The trace on the wire.
    pub open spec fn to_json(self) -> JsonView {
        JsonView::Object(assemble(trace_entries(self)))
    }

    /// The trace that an object on the wire stands for.
    pub open spec fn from_json(j: JsonView) -> Option<TraceView> {
        match (
            id_at(j, "id"@),
            opt_id_at(j, "org_id"@),
            opt_str_at(j, "name"@),
            texts_at(j, "tags"@),
            nanos_at(j, "started_at"@),
            opt_time_at(j, "ended_at"@),
            opt_str_at(j, "machine_id"@),
        ) {
            (
                Some(id),
                Some(org_id),
                Some(name),
                Some(tags),
                Some(started_at),
                Some(ended_at),
                Some(machine_id),
            ) => Some(TraceView { id, org_id, name, tags, started_at, ended_at, machine_id }),
            _ => None,
        }
    }
}

proof fn lemma_trace_names(t: TraceView)
    ensures
        names_distinct(trace_entries(t)),
{
    reveal_strlit("id");
    reveal_strlit("org_id");
    reveal_strlit("name");
    reveal_strlit("tags");
    reveal_strlit("started_at");
    reveal_strlit("ended_at");
    reveal_strlit("machine_id");
    lemma_differ("started_at"@, "machine_id"@, 0);
    lemma_differ("name"@, "tags"@, 0);
    let e = trace_entries(t);
    assert(e.len() == 7);
    assert(e[0].0 == "id"@ && e[1].0 == "org_id"@ && e[2].0 == "name"@ && e[3].0 == "tags"@
        && e[4].0 == "started_at"@ && e[5].0 == "ended_at"@ && e[6].0 == "machine_id"@);
    assert forall|i: int, j: int| 0 <= i < e.len() && 0 <= j < e.len() && i != j implies e[i].0
        != e[j].0 by {
        lemma_pair(e, i, j);
    }
}

/// A trace comes back from the wire as it went, where its identifiers
/// and its instants come back from their texts.
pub proof fn lemma_trace_round_trip(t: TraceView)
    requires
        id_faithful(t.id),
        opt_id_faithful(t.org_id),
        time_faithful(t.started_at),
        opt_time_faithful(t.ended_at),
    ensures
        TraceView::from_json(t.to_json()) == Some(t),
{
    lemma_trace_names(t);
    lemma_texts_round_trip(t.tags);
    let e = trace_entries(t);
    assert(e[0].0 == "id"@ && e[1].0 == "org_id"@ && e[2].0 == "name"@ && e[3].0 == "tags"@
        && e[4].0 == "started_at"@ && e[5].0 == "ended_at"@ && e[6].0 == "machine_id"@);
    lemma_lookup_assembled(e, "id"@);
    lemma_lookup_assembled(e, "org_id"@);
    lemma_lookup_assembled(e, "name"@);
    lemma_lookup_assembled(e, "tags"@);
    lemma_lookup_assembled(e, "started_at"@);
    lemma_lookup_assembled(e, "ended_at"@);
    lemma_lookup_assembled(e, "machine_id"@);
    let j = t.to_json();
    assert(j.get("id"@) == e[0].1);
    assert(j.get("org_id"@) == e[1].1);
    assert(j.get("name"@) == e[2].1);
    assert(j.get("tags"@) == e[3].1);
    assert(j.get("started_at"@) == e[4].1);
    assert(j.get("ended_at"@) == e[5].1);
    assert(j.get("machine_id"@) == e[6].1);
}

impl Trace {
    /// The trace on the wire.  The trace comes back from it as it went.
    pub fn to_json(&self) -> (j: Json)
        ensures
            j@ == self@.to_json(),
            TraceView::from_json(j@) == Some(self@),
    {
        let mut w = ObjectWriter::new();
        w.put("id", crate::wire::id_string(self.id));
        w.put_opt("org_id", opt_id_json(self.org_id));
        w.put_opt("name", opt_text_json(&self.name));
        w.put("tags", strings_to_json(&self.tags));
        w.put("started_at", crate::wire::time_string(&self.started_at));
        w.put_opt("ended_at", opt_time_json(&self.ended_at));
        w.put_opt("machine_id", opt_text_json(&self.machine_id));
        assert(w.entries() =~= trace_entries(self@));
        proof {
            lemma_trace_round_trip(self@);
        }
        w.finish()
    }

    /// The trace that an object on the wire stands for.
    pub fn from_json(j: &Json) -> (r: Option<Trace>)
        ensures
            match r {
                Some(t) => TraceView::from_json(j@) == Some(t@),
                None => TraceView::from_json(j@).is_none(),
            },
    {
        let id = crate::wire::get_id(j, "id");
        let org_id = get_opt_id(j, "org_id");
        let name = get_opt_str(j, "name");
        let tags = get_texts(j, "tags");
        let started_at = get_nanos(j, "started_at");
        let ended_at = get_opt_time(j, "ended_at");
        let machine_id = get_opt_str(j, "machine_id");
        match (id, org_id, name, tags, started_at, ended_at, machine_id) {
            (
                Some(id),
                Some(org_id),
                Some(name),
                Some(tags),
                Some(started_at),
                Some(ended_at),
                Some(machine_id),
            ) => Some(Trace { id, org_id, name, tags, started_at, ended_at, machine_id }),
            _ => None,
        }
    }
}

/// The entries of a file version on the wire.
pub open spec fn file_entries(v: FileVersionView) -> Seq<(Seq<char>, Option<JsonView>)> {
    seq![
        ("hash"@, Some(JsonView::Str(v.hash))),
        ("path"@, Some(JsonView::Str(v.path))),
        ("size"@, Some(JsonView::Number(decimal(v.size as nat)))),
        ("created_at"@, Some(JsonView::Str(rfc3339_text(v.created_at)))),
        ("created_by_span"@, opt_id_string(v.created_by_span)),
    ]
}

impl FileVersionView {
    /// The file version on the wire.
    pub open spec fn to_json(self) -> JsonView {
        JsonView::Object(assemble(file_entries(self)))
    }

    /// The file version that an object on the wire stands for.
    pub open spec fn from_json(j: JsonView) -> Option<FileVersionView> {
        match (
            str_at(j, "hash"@),
            str_at(j, "path"@),
            u64_at(j, "size"@),
            nanos_at(j, "created_at"@),
            opt_id_at(j, "created_by_span"@),
        ) {
            (Some(hash), Some(path), Some(size), Some(created_at), Some(created_by_span)) => Some(
                FileVersionView { hash, path, size, created_at, created_by_span },
            ),
            _ => None,
        }
    }
}

proof fn lemma_file_names(v: FileVersionView)
    ensures
        names_distinct(file_entries(v)),
{
    reveal_strlit("hash");
    reveal_strlit("path");
    reveal_strlit("size");
    reveal_strlit("created_at");
    reveal_strlit("created_by_span");
    lemma_differ("hash"@, "path"@, 0);
    lemma_differ("hash"@, "size"@, 0);
    lemma_differ("path"@, "size"@, 0);
    let e = file_entries(v);
    assert(e.len() == 5);
    assert(e[0].0 == "hash"@ && e[1].0 == "path"@ && e[2].0 == "size"@ && e[3].0 == "created_at"@
        && e[4].0 == "created_by_span"@);
    assert forall|i: int, j: int| 0 <= i < e.len() && 0 <= j < e.len() && i != j implies e[i].0
        != e[j].0 by {
        lemma_pair(e, i, j);
    }
}

/// A file version comes back from the wire as it went.
pub proof fn lemma_file_round_trip(v: FileVersionView)
    requires
        time_faithful(v.created_at),
        opt_id_faithful(v.created_by_span),
    ensures
        FileVersionView::from_json(v.to_json()) == Some(v),
{
    lemma_file_names(v);
    lemma_count_round_trip(v.size);
    let e = file_entries(v);
    assert(e[0].0 == "hash"@ && e[1].0 == "path"@ && e[2].0 == "size"@ && e[3].0 == "created_at"@
        && e[4].0 == "created_by_span"@);
    lemma_lookup_assembled(e, "hash"@);
    lemma_lookup_assembled(e, "path"@);
    lemma_lookup_assembled(e, "size"@);
    lemma_lookup_assembled(e, "created_at"@);
    lemma_lookup_assembled(e, "created_by_span"@);
    let j = v.to_json();
    assert(j.get("hash"@) == e[0].1);
    assert(j.get("path"@) == e[1].1);
    assert(j.get("size"@) == e[2].1);
    assert(j.get("created_at"@) == e[3].1);
    assert(j.get("created_by_span"@) == e[4].1);
}

impl FileVersion {
    /// The file version on the wire.  It comes back from it as it went.
    pub fn to_json(&self) -> (j: Json)
        ensures
            j@ == self@.to_json(),
            FileVersionView::from_json(j@) == Some(self@),
    {
        let mut w = ObjectWriter::new();
        w.put("hash", crate::wire::string(self.hash.as_str()));
        w.put("path", crate::wire::string(self.path.as_str()));
        w.put("size", crate::wire::number(self.size));
        w.put("created_at", crate::wire::time_string(&self.created_at));
        w.put_opt("created_by_span", opt_id_json(self.created_by_span));
        assert(w.entries() =~= file_entries(self@));
        proof {
            lemma_file_round_trip(self@);
        }
        w.finish()
    }

    /// The file version that an object on the wire stands for.
    pub fn from_json(j: &Json) -> (r: Option<FileVersion>)
        ensures
            match r {
                Some(v) => FileVersionView::from_json(j@) == Some(v@),
                None => FileVersionView::from_json(j@).is_none(),
            },
    {
        let hash = crate::wire::get_str(j, "hash");
        let path = crate::wire::get_str(j, "path");
        let size = crate::wire::get_u64(j, "size");
        let created_at = get_nanos(j, "created_at");
        let created_by_span = get_opt_id(j, "created_by_span");
        match (hash, path, size, created_at, created_by_span) {
            (Some(hash), Some(path), Some(size), Some(created_at), Some(created_by_span)) => Some(
                FileVersion {
                    hash: hash.to_owned(),
                    path: path.to_owned(),
                    size,
                    created_at,
                    created_by_span,
                },
            ),
            _ => None,
        }
    }
}

/// The entries of a dataset on the wire.
pub open spec fn dataset_entries(d: DatasetView) -> Seq<(Seq<char>, Option<JsonView>)> {
    seq![
        ("id"@, Some(JsonView::Str(uuid_text(d.id)))),
        ("org_id"@, opt_id_string(d.org_id)),
        ("name"@, Some(JsonView::Str(d.name))),
        ("description"@, opt_string(d.description)),
        ("created_at"@, Some(JsonView::Str(rfc3339_text(d.created_at)))),
        ("updated_at"@, Some(JsonView::Str(rfc3339_text(d.updated_at)))),
    ]
}

impl DatasetView {
    /// The dataset on the wire.
    pub open spec fn to_json(self) -> JsonView {
        JsonView::Object(assemble(dataset_entries(self)))
    }

    /// The dataset that an object on the wire stands for.
    pub open spec fn from_json(j: JsonView) -> Option<DatasetView> {
        match (
            id_at(j, "id"@),
            opt_id_at(j, "org_id"@),
            str_at(j, "name"@),
            opt_str_at(j, "description"@),
            nanos_at(j, "created_at"@),
            nanos_at(j, "updated_at"@),
        ) {
            (
                Some(id),
                Some(org_id),
                Some(name),
                Some(description),
                Some(created_at),
                Some(updated_at),
            ) => Some(DatasetView { id, org_id, name, description, created_at, updated_at }),
            _ => None,
        }
    }
}

proof fn lemma_dataset_names(d: DatasetView)
    ensures
        names_distinct(dataset_entries(d)),
{
    reveal_strlit("id");
    reveal_strlit("org_id");
    reveal_strlit("name");
    reveal_strlit("description");
    reveal_strlit("created_at");
    reveal_strlit("updated_at");
    lemma_differ("created_at"@, "updated_at"@, 0);
    let e = dataset_entries(d);
    assert(e.len() == 6);
    assert(e[0].0 == "id"@ && e[1].0 == "org_id"@ && e[2].0 == "name"@ && e[3].0
        == "description"@ && e[4].0 == "created_at"@ && e[5].0 == "updated_at"@);
    assert forall|i: int, j: int| 0 <= i < e.len() && 0 <= j < e.len() && i != j implies e[i].0
        != e[j].0 by {
        lemma_pair(e, i, j);
    }
}

/// A dataset comes back from the wire as it went.
pub proof fn lemma_dataset_round_trip(d: DatasetView)
    requires
        id_faithful(d.id),
        opt_id_faithful(d.org_id),
        time_faithful(d.created_at),
        time_faithful(d.updated_at),
    ensures
        DatasetView::from_json(d.to_json()) == Some(d),
{
    lemma_dataset_names(d);
    let e = dataset_entries(d);
    assert(e[0].0 == "id"@ && e[1].0 == "org_id"@ && e[2].0 == "name"@ && e[3].0
        == "description"@ && e[4].0 == "created_at"@ && e[5].0 == "updated_at"@);
    lemma_lookup_assembled(e, "id"@);
    lemma_lookup_assembled(e, "org_id"@);
    lemma_lookup_assembled(e, "name"@);
    lemma_lookup_assembled(e, "description"@);
    lemma_lookup_assembled(e, "created_at"@);
    lemma_lookup_assembled(e, "updated_at"@);
    let j = d.to_json();
    assert(j.get("id"@) == e[0].1);
    assert(j.get("org_id"@) == e[1].1);
    assert(j.get("name"@) == e[2].1);
    assert(j.get("description"@) == e[3].1);
    assert(j.get("created_at"@) == e[4].1);
    assert(j.get("updated_at"@) == e[5].1);
}

impl Dataset {
    /// The dataset on the wire.  It comes back from it as it went.
    pub fn to_json(&self) -> (j: Json)
        ensures
            j@ == self@.to_json(),
            DatasetView::from_json(j@) == Some(self@),
    {
        let mut w = ObjectWriter::new();
        w.put("id", crate::wire::id_string(self.id));
        w.put_opt("org_id", opt_id_json(self.org_id));
        w.put("name", crate::wire::string(self.name.as_str()));
        w.put_opt("description", opt_text_json(&self.description));
        w.put("created_at", crate::wire::time_string(&self.created_at));
        w.put("updated_at", crate::wire::time_string(&self.updated_at));
        assert(w.entries() =~= dataset_entries(self@));
        proof {
            lemma_dataset_round_trip(self@);
        }
        w.finish()
    }

    /// The dataset that an object on the wire stands for.
    pub fn from_json(j: &Json) -> (r: Option<Dataset>)
        ensures
            match r {
                Some(d) => DatasetView::from_json(j@) == Some(d@),
                None => DatasetView::from_json(j@).is_none(),
            },
    {
        let id = crate::wire::get_id(j, "id");
        let org_id = get_opt_id(j, "org_id");
        let name = crate::wire::get_str(j, "name");
        let description = get_opt_str(j, "description");
        let created_at = get_nanos(j, "created_at");
        let updated_at = get_nanos(j, "updated_at");
        match (id, org_id, name, description, created_at, updated_at) {
            (
                Some(id),
                Some(org_id),
                Some(name),
                Some(description),
                Some(created_at),
                Some(updated_at),
            ) => Some(
                Dataset { id, org_id, name: name.to_owned(), description, created_at, updated_at },
            ),
            _ => None,
        }
    }
}

} // verus!
