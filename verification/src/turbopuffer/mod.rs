use crate::clock::{rfc3339_text, Timestamp};
use crate::ids::uuid_text;
use crate::json::{fields_view, items_view, Json, JsonView};
use crate::storage::error::StorageError;
use crate::storage::filter::{SpanFilter, SpanFilterView, TraceFilter};
use crate::text::{decimal, opt_text};
use vstd::prelude::*;

pub mod plan;
pub mod read;
pub mod rows;

verus! {

/// What can go wrong between the daemon and the row store.
#[derive(Debug, PartialEq)]
pub enum TurbopufferError {
    /// The request did not get through: the network failed.
    Http(String),
    /// The store answered with a status outside the 200s.
    Api { status: u16, message: String },
    Serialization(String),
    NotFound(String),
    Config(String),
}

impl TurbopufferError {
    /// The error in words.
    pub fn message(&self) -> (s: String)
        ensures
            s@ == match *self {
                TurbopufferError::Http(m) => "HTTP error: "@ + m@,
                TurbopufferError::Api { status, message } => "API error: "@ + decimal(
                    status as nat,
                ) + " - "@ + message@,
                TurbopufferError::Serialization(m) => "Serialization error: "@ + m@,
                TurbopufferError::NotFound(m) => "Not found: "@ + m@,
                TurbopufferError::Config(m) => "Configuration error: "@ + m@,
            },
    {
        match self {
            TurbopufferError::Http(m) => crate::text::concat("HTTP error: ", m.as_str()),
            TurbopufferError::Api { status, message } => {
                let head = crate::text::concat(
                    "API error: ",
                    crate::text::u64_to_string(*status as u64).as_str(),
                );
                crate::text::concat3(head.as_str(), " - ", message.as_str())
            },
            TurbopufferError::Serialization(m) => crate::text::concat(
                "Serialization error: ",
                m.as_str(),
            ),
            TurbopufferError::NotFound(m) => crate::text::concat("Not found: ", m.as_str()),
            TurbopufferError::Config(m) => crate::text::concat("Configuration error: ", m.as_str()),
        }
    }

    /// The error in the terms of every backend: a missing row is not
    /// found; a failure of the network is one of the network, with its
    /// message; a bad configuration is one of the configuration; anything
    /// else is one of the backend, in the words of this error.
    pub fn into_storage_error(self) -> (e: StorageError)
        ensures
            match self {
                TurbopufferError::NotFound(_) => e == StorageError::NotFound,
                TurbopufferError::Config(m) => e matches StorageError::Configuration(t) && t@
                    == m@,
                TurbopufferError::Http(m) => e matches StorageError::Network(t) && t@ == m@,
                TurbopufferError::Api { status, message } => e matches StorageError::Backend(t)
                    && t@ == "API error: "@ + decimal(status as nat) + " - "@ + message@,
                TurbopufferError::Serialization(m) => e matches StorageError::Backend(t) && t@
                    == "Serialization error: "@ + m@,
            },
    {
        match self {
            TurbopufferError::NotFound(_) => StorageError::NotFound,
            TurbopufferError::Config(m) => StorageError::Configuration(m),
            TurbopufferError::Http(m) => StorageError::Network(m),
            other => StorageError::Backend(other.message()),
        }
    }
}

/// The error that an answer of the row store means: none for a status in
/// the 200s, else the status with what the store said.
pub fn check_status(status: u16, body: String) -> (r: Result<(), TurbopufferError>)
    ensures
        (200 <= status < 300) ==> r.is_ok(),
        !(200 <= status < 300) ==> (r matches Err(TurbopufferError::Api { status: s, message })
            && s == status && message@ == body@),
{
    if 200 <= status && status < 300 {
        Ok(())
    } else {
        Err(TurbopufferError::Api { status, message: body })
    }
}

/// How the row store is reached.
#[derive(Debug, PartialEq)]
pub struct TurbopufferConfig {
    pub api_key: String,
    pub base_url: String,
    /// What the name of every collection of this tenant starts with.
    pub namespace: String,
    pub timeout_secs: u64,
}

/// Where the row store lies unless the configuration says otherwise.
pub const DEFAULT_BASE_URL: &'static str = "https://api.turbopuffer.com";

/// A request to the row store is given up after this many seconds unless
/// the configuration says otherwise.
pub const DEFAULT_TIMEOUT_SECS: u64 = 30;

/// A batch holds at most this many entities.
pub const MAX_BATCH: usize = 1000;

/// A query for spans, datapoints, queue items or file versions asks for
/// at most this many rows unless it says otherwise.
pub const DEFAULT_SPAN_LIMIT: usize = 10000;

/// A query for traces or datasets asks for at most this many rows unless
/// it says otherwise.
pub const DEFAULT_TRACE_LIMIT: usize = 1000;

impl TurbopufferConfig {
    pub fn new(api_key: String, namespace: String) -> (c: TurbopufferConfig)
        ensures
            c.api_key@ == api_key@,
            c.base_url@ == "https://api.turbopuffer.com"@,
            c.namespace@ == namespace@,
            c.timeout_secs == 30,
    {
        TurbopufferConfig {
            api_key,
            base_url: DEFAULT_BASE_URL.to_owned(),
            namespace,
            timeout_secs: DEFAULT_TIMEOUT_SECS,
        }
    }

    pub fn with_base_url(self, base_url: String) -> (c: TurbopufferConfig)
        ensures
            c.api_key@ == self.api_key@,
            c.base_url@ == base_url@,
            c.namespace@ == self.namespace@,
            c.timeout_secs == self.timeout_secs,
    {
        let mut c = self;
        c.base_url = base_url;
        c
    }

    pub fn with_timeout(self, timeout_secs: u64) -> (c: TurbopufferConfig)
        ensures
            c.api_key@ == self.api_key@,
            c.base_url@ == self.base_url@,
            c.namespace@ == self.namespace@,
            c.timeout_secs == timeout_secs,
    {
        let mut c = self;
        c.timeout_secs = timeout_secs;
        c
    }

    /// The configuration that the environment asks for: the key must be
    /// set; the namespace is `traceway`, the address the usual one and the
    /// timeout 30 seconds unless the environment says otherwise.
    pub fn from_values(
        api_key: Option<String>,
        namespace: Option<String>,
        base_url: Option<String>,
        timeout: Option<String>,
    ) -> (r: Result<TurbopufferConfig, TurbopufferError>)
        ensures
            match api_key {
                None => r matches Err(TurbopufferError::Config(m)) && m@
                    == "TURBOPUFFER_API_KEY not set"@,
                Some(key) => r matches Ok(c) && c.api_key@ == key@ && c.namespace@ == (
                match namespace {
                    Some(n) => n@,
                    None => "traceway"@,
                }) && c.base_url@ == (match base_url {
                    Some(u) => u@,
                    None => "https://api.turbopuffer.com"@,
                }) && c.timeout_secs == (match timeout {
                    Some(t) => match crate::json::text_u64(t@) {
                        Some(n) => n,
                        None => 30,
                    },
                    None => 30,
                }),
            },
    {
        let api_key = match api_key {
            Some(k) => k,
            None => {
                return Err(TurbopufferError::Config("TURBOPUFFER_API_KEY not set".to_owned()));
            },
        };
        let namespace = match namespace {
            Some(n) => n,
            None => "traceway".to_owned(),
        };
        let base_url = match base_url {
            Some(u) => u,
            None => DEFAULT_BASE_URL.to_owned(),
        };
        let timeout_secs = match timeout {
            Some(t) => match crate::json::parse_u64(&crate::text::to_chars(t.as_str())) {
                Some(n) => n,
                None => DEFAULT_TIMEOUT_SECS,
            },
            None => DEFAULT_TIMEOUT_SECS,
        };
        Ok(TurbopufferConfig { api_key, base_url, namespace, timeout_secs })
    }

    /// The configuration of one organisation: the same, with the
    /// namespace `tw_` and the identifier of the organisation.
    pub fn for_org(&self, org_id: &str) -> (c: TurbopufferConfig)
        ensures
            c.api_key@ == self.api_key@,
            c.base_url@ == self.base_url@,
            c.namespace@ == "tw_"@ + org_id@,
            c.timeout_secs == self.timeout_secs,
    {
        TurbopufferConfig {
            api_key: self.api_key.clone(),
            base_url: self.base_url.clone(),
            namespace: crate::text::concat("tw_", org_id),
            timeout_secs: self.timeout_secs,
        }
    }

    /// The name of a collection of this tenant: the namespace, an
    /// underscore, and the collection.
    pub fn namespace(&self, collection: &str) -> (r: String)
        ensures
            r@ == self.namespace@ + "_"@ + collection@,
    {
        crate::text::concat3(self.namespace.as_str(), "_", collection)
    }

    /// The path of the requests that write or delete rows of a
    /// collection.
    pub fn write_path(&self, collection: &str) -> (r: String)
        ensures
            r@ == "/v2/namespaces/"@ + (self.namespace@ + "_"@ + collection@),
    {
        crate::text::concat("/v2/namespaces/", self.namespace(collection).as_str())
    }

    /// The path of the requests that query a collection.
    pub fn query_path(&self, collection: &str) -> (r: String)
        ensures
            r@ == "/v2/namespaces/"@ + (self.namespace@ + "_"@ + collection@) + "/query"@,
    {
        crate::text::concat(self.write_path(collection).as_str(), "/query")
    }

    /// The address of a request: the address of the store and the path.
    pub fn url(&self, path: &str) -> (r: String)
        ensures
            r@ == self.base_url@ + path@,
    {
        crate::text::concat(self.base_url.as_str(), path)
    }

    /// The value of the header that says who asks.
    pub fn authorization(&self) -> (r: String)
        ensures
            r@ == "Bearer "@ + self.api_key@,
    {
        crate::text::concat("Bearer ", self.api_key.as_str())
    }
}

/// How a condition compares.
#[derive(Clone, Copy, Debug, PartialEq, Eq, Structural)]
pub enum FilterOp {
    Eq,
    Glob,
    Gte,
    Lte,
}

impl FilterOp {
    pub open spec fn spec_name(self) -> Seq<char> {
        match self {
            FilterOp::Eq => "Eq"@,
            FilterOp::Glob => "Glob"@,
            FilterOp::Gte => "Gte"@,
            FilterOp::Lte => "Lte"@,
        }
    }

    /// The name of the comparison in a request.
    pub fn name(&self) -> (r: &'static str)
        ensures
            r@ == self.spec_name(),
    {
        match self {
            FilterOp::Eq => "Eq",
            FilterOp::Glob => "Glob",
            FilterOp::Gte => "Gte",
            FilterOp::Lte => "Lte",
        }
    }
}

/// One condition on the rows: an attribute, a comparison and a value.
#[derive(Debug, PartialEq)]
pub struct Condition {
    pub attribute: String,
    pub op: FilterOp,
    pub value: String,
}

/// The mathematical value of a [`Condition`].
pub struct ConditionView {
    pub attribute: Seq<char>,
    pub op: FilterOp,
    pub value: Seq<char>,
}

impl View for Condition {
    type V = ConditionView;

    open spec fn view(&self) -> ConditionView {
        ConditionView { attribute: self.attribute@, op: self.op, value: self.value@ }
    }
}

/// The values of a list of conditions.
pub open spec fn conditions_view(v: Seq<Condition>) -> Seq<ConditionView> {
    Seq::new(v.len(), |i: int| v[i]@)
}

/// The condition that a field of a filter asks for, where the field is
/// set.
pub open spec fn condition_for(attribute: Seq<char>, op: FilterOp, value: Option<Seq<char>>) -> Seq<
    ConditionView,
> {
    match value {
        Some(v) => seq![ConditionView { attribute, op, value: v }],
        None => Seq::empty(),
    }
}

/// The pattern that matches every text that holds `part`.
pub open spec fn glob_around(part: Option<Seq<char>>) -> Option<Seq<char>> {
    match part {
        Some(p) => Some("*"@ + p + "*"@),
        None => None,
    }
}

/// The text of an optional instant.
pub open spec fn opt_rfc3339(t: Option<int>) -> Option<Seq<char>> {
    match t {
        Some(t) => Some(rfc3339_text(t)),
        None => None,
    }
}

/// The text of an optional identifier.
pub open spec fn opt_uuid(id: Option<u128>) -> Option<Seq<char>> {
    match id {
        Some(id) => Some(uuid_text(id)),
        None => None,
    }
}

/// The conditions that a filter of spans asks for: one for each field
/// that is set.  The range is written with `Gte` and `Lte`, and the part
/// of a name as a pattern with a star at either end.
pub open spec fn span_conditions(f: SpanFilterView) -> Seq<ConditionView> {
    condition_for("trace_id"@, FilterOp::Eq, opt_uuid(f.trace_id)) + condition_for(
        "status"@,
        FilterOp::Eq,
        f.status,
    ) + condition_for("kind"@, FilterOp::Eq, f.kind) + condition_for(
        "model"@,
        FilterOp::Eq,
        f.model,
    ) + condition_for("provider"@, FilterOp::Eq, f.provider) + condition_for(
        "path"@,
        FilterOp::Eq,
        f.path,
    ) + condition_for("name"@, FilterOp::Glob, glob_around(f.name_contains)) + condition_for(
        "started_at"@,
        FilterOp::Gte,
        opt_rfc3339(f.since),
    ) + condition_for("started_at"@, FilterOp::Lte, opt_rfc3339(f.until))
}

fn push_condition(out: &mut Vec<Condition>, attribute: &str, op: FilterOp, value: Option<String>)
    ensures
        conditions_view(final(out)@) == conditions_view(old(out)@) + condition_for(
            attribute@,
            op,
            opt_text(value),
        ),
{
    let ghost before = conditions_view(out@);
    match value {
        Some(v) => {
            out.push(Condition { attribute: attribute.to_owned(), op, value: v });
            assert(conditions_view(out@) =~= before + condition_for(
                attribute@,
                op,
                opt_text(value),
            ));
        },
        None => {
            assert(conditions_view(out@) =~= before + condition_for(
                attribute@,
                op,
                opt_text(value),
            ));
        },
    }
}

fn glob(part: &Option<String>) -> (r: Option<String>)
    ensures
        opt_text(r) == glob_around(opt_text(*part)),
{
    match part {
        Some(p) => Some(crate::text::concat3("*", p.as_str(), "*")),
        None => None,
    }
}

fn time_text(t: &Option<Timestamp>) -> (r: Option<String>)
    ensures
        opt_text(r) == opt_rfc3339(crate::trace::span::opt_time(*t)),
{
    match t {
        Some(t) => Some(crate::clock::to_rfc3339(t)),
        None => None,
    }
}

/// The conditions that a filter of spans asks for.
pub fn span_filter_conditions(filter: &SpanFilter) -> (r: Vec<Condition>)
    ensures
        conditions_view(r@) == span_conditions(filter@),
{
    let mut out: Vec<Condition> = Vec::new();
    assert(conditions_view(out@) =~= Seq::empty());
    let trace = match filter.trace_id {
        Some(id) => Some(crate::ids::id_to_string(id)),
        None => None,
    };
    push_condition(&mut out, "trace_id", FilterOp::Eq, trace);
    push_condition(&mut out, "status", FilterOp::Eq, crate::text::clone_opt_text(&filter.status));
    push_condition(&mut out, "kind", FilterOp::Eq, crate::text::clone_opt_text(&filter.kind));
    push_condition(&mut out, "model", FilterOp::Eq, crate::text::clone_opt_text(&filter.model));
    push_condition(
        &mut out,
        "provider",
        FilterOp::Eq,
        crate::text::clone_opt_text(&filter.provider),
    );
    push_condition(&mut out, "path", FilterOp::Eq, crate::text::clone_opt_text(&filter.path));
    push_condition(&mut out, "name", FilterOp::Glob, glob(&filter.name_contains));
    push_condition(&mut out, "started_at", FilterOp::Gte, time_text(&filter.since));
    push_condition(&mut out, "started_at", FilterOp::Lte, time_text(&filter.until));
    assert(conditions_view(out@) =~= span_conditions(filter@));
    out
}

/// The conditions that a filter of traces asks for.
pub open spec fn trace_conditions(
    name_contains: Option<Seq<char>>,
    since: Option<int>,
    until: Option<int>,
) -> Seq<ConditionView> {
    condition_for("name"@, FilterOp::Glob, glob_around(name_contains)) + condition_for(
        "started_at"@,
        FilterOp::Gte,
        opt_rfc3339(since),
    ) + condition_for("started_at"@, FilterOp::Lte, opt_rfc3339(until))
}

/// The conditions that a filter of traces asks for.
pub fn trace_filter_conditions(filter: &TraceFilter) -> (r: Vec<Condition>)
    ensures
        conditions_view(r@) == trace_conditions(
            opt_text(filter.name_contains),
            crate::trace::span::opt_time(filter.since),
            crate::trace::span::opt_time(filter.until),
        ),
{
    let mut out: Vec<Condition> = Vec::new();
    assert(conditions_view(out@) =~= Seq::empty());
    push_condition(&mut out, "name", FilterOp::Glob, glob(&filter.name_contains));
    push_condition(&mut out, "started_at", FilterOp::Gte, time_text(&filter.since));
    push_condition(&mut out, "started_at", FilterOp::Lte, time_text(&filter.until));
    assert(conditions_view(out@) =~= trace_conditions(
        opt_text(filter.name_contains),
        crate::trace::span::opt_time(filter.since),
        crate::trace::span::opt_time(filter.until),
    ));
    out
}

/// A condition as the row store reads it: the attribute, the comparison
/// and the value, in a list.
pub open spec fn triple(c: ConditionView) -> JsonView {
    JsonView::Array(seq![JsonView::Str(c.attribute), JsonView::Str(c.op.spec_name()), JsonView::Str(c.value)])
}

/// The conditions as the row store reads them.
pub open spec fn triples(conditions: Seq<ConditionView>) -> Seq<JsonView> {
    Seq::new(conditions.len(), |i: int| triple(conditions[i]))
}

/// The filter of a query: nothing where there is no condition; the
/// condition itself where there is one; else `And` over all of them.
pub open spec fn filter_expression(conditions: Seq<ConditionView>) -> Option<JsonView> {
    if conditions.len() == 0 {
        None
    } else if conditions.len() == 1 {
        Some(triple(conditions[0]))
    } else {
        Some(JsonView::Array(seq![JsonView::Str("And"@), JsonView::Array(triples(conditions))]))
    }
}

fn triple_of(c: &Condition) -> (j: Json)
    ensures
        j@ == triple(c@),
{
    let mut items: Vec<Json> = Vec::new();
    items.push(Json::Str(c.attribute.clone()));
    items.push(Json::Str(c.op.name().to_owned()));
    items.push(Json::Str(c.value.clone()));
    proof {
        crate::json::lemma_array_view(items);
        assert(items_view(items@) =~= triple(c@)->Array_0);
    }
    Json::Array(items)
}

/// The filter of a query over some conditions.
pub fn filter_json(conditions: &Vec<Condition>) -> (r: Option<Json>)
    ensures
        crate::json::opt_json(r) == filter_expression(conditions_view(conditions@)),
{
    if conditions.len() == 0 {
        None
    } else if conditions.len() == 1 {
        Some(triple_of(&conditions[0]))
    } else {
        let mut all: Vec<Json> = Vec::new();
        let mut i: usize = 0;
        while i < conditions.len()
            invariant
                i <= conditions.len(),
                all.len() == i,
                forall|k: int| 0 <= k < i ==> all[k]@ == triple(conditions[k]@),
            decreases conditions.len() - i,
        {
            all.push(triple_of(&conditions[i]));
            i = i + 1;
        }
        let mut items: Vec<Json> = Vec::new();
        items.push(Json::Str("And".to_owned()));
        proof {
            crate::json::lemma_array_view(all);
            assert(items_view(all@) =~= triples(conditions_view(conditions@)));
        }
        items.push(Json::Array(all));
        proof {
            crate::json::lemma_array_view(items);
            assert(items_view(items@) =~= seq![
                JsonView::Str("And"@),
                JsonView::Array(triples(conditions_view(conditions@))),
            ]);
        }
        Some(Json::Array(items))
    }
}

/// The body of a query: the rows in the order of their identifiers, which
/// is the order in which they were made; the filter, where there is one;
/// at most `limit` rows; with their attributes.
pub open spec fn query_body_of(filter: Option<JsonView>, limit: usize) -> JsonView {
    let rank = ("rank_by"@, JsonView::Array(seq![JsonView::Str("id"@), JsonView::Str("asc"@)]));
    let top = ("top_k"@, JsonView::Number(decimal(limit as nat)));
    let attributes = ("include_attributes"@, JsonView::Bool(true));
    match filter {
        Some(f) => JsonView::Object(seq![rank, ("filters"@, f), top, attributes]),
        None => JsonView::Object(seq![rank, top, attributes]),
    }
}

/// The body of a query.
pub fn query_body(filter: Option<Json>, limit: usize) -> (j: Json)
    ensures
        j@ == query_body_of(crate::json::opt_json(filter), limit),
{
    let mut rank: Vec<Json> = Vec::new();
    rank.push(Json::Str("id".to_owned()));
    rank.push(Json::Str("asc".to_owned()));
    proof {
        crate::json::lemma_array_view(rank);
        assert(items_view(rank@) =~= seq![JsonView::Str("id"@), JsonView::Str("asc"@)]);
    }
    let mut fields: Vec<(String, Json)> = Vec::new();
    fields.push(("rank_by".to_owned(), Json::Array(rank)));
    if let Some(f) = filter {
        fields.push(("filters".to_owned(), f));
    }
    fields.push(("top_k".to_owned(), Json::Number(crate::text::u64_to_string(limit as u64))));
    fields.push(("include_attributes".to_owned(), Json::Bool(true)));
    proof {
        crate::json::lemma_object_view(fields);
        assert(fields_view(fields@) =~= query_body_of(
            crate::json::opt_json(filter),
            limit,
        )->Object_0);
    }
    Json::Object(fields)
}

/// The body of a request that writes rows.
pub fn upsert_body(rows: Vec<Json>) -> (j: Json)
    ensures
        j@ == JsonView::Object(seq![("upsert_rows"@, JsonView::Array(items_view(rows@)))]),
{
    let mut fields: Vec<(String, Json)> = Vec::new();
    proof {
        crate::json::lemma_array_view(rows);
    }
    fields.push(("upsert_rows".to_owned(), Json::Array(rows)));
    proof {
        crate::json::lemma_object_view(fields);
        assert(fields_view(fields@) =~= seq![("upsert_rows"@, JsonView::Array(items_view(rows@)))]);
    }
    Json::Object(fields)
}

/// The identifiers as JSON strings.
pub open spec fn id_strings(ids: Seq<String>) -> Seq<JsonView> {
    Seq::new(ids.len(), |i: int| JsonView::Str(ids[i]@))
}

/// The body of a request that deletes rows by their identifiers.
pub fn delete_body(ids: &Vec<String>) -> (j: Json)
    ensures
        j@ == JsonView::Object(seq![("deletes"@, JsonView::Array(id_strings(ids@)))]),
{
    let mut items: Vec<Json> = Vec::new();
    let mut i: usize = 0;
    while i < ids.len()
        invariant
            i <= ids.len(),
            items.len() == i,
            forall|k: int| 0 <= k < i ==> items[k]@ == JsonView::Str(ids[k]@),
        decreases ids.len() - i,
    {
        items.push(Json::Str(ids[i].clone()));
        i = i + 1;
    }
    proof {
        crate::json::lemma_array_view(items);
        assert(items_view(items@) =~= id_strings(ids@));
    }
    let mut fields: Vec<(String, Json)> = Vec::new();
    fields.push(("deletes".to_owned(), Json::Array(items)));
    proof {
        crate::json::lemma_object_view(fields);
        assert(fields_view(fields@) =~= seq![("deletes"@, JsonView::Array(id_strings(ids@)))]);
    }
    Json::Object(fields)
}

/// How many requests a batch of `n` entities takes, at most a thousand
/// entities to a request.
pub open spec fn chunk_count(n: int) -> int {
    (n + MAX_BATCH - 1) / (MAX_BATCH as int)
}

/// The bounds of the chunks of a batch of `n` entities: each chunk holds
/// at most a thousand entities, the chunks follow one another, and
/// together they hold them all.
pub fn chunk_bounds(n: usize) -> (r: Vec<(usize, usize)>)
    ensures
        r.len() == chunk_count(n as int),
        forall|i: int|
            0 <= i < r.len() ==> (#[trigger] r[i]).0 == i * MAX_BATCH && r[i].0 < r[i].1 <= n
                && r[i].1 - r[i].0 <= MAX_BATCH,
        forall|i: int| 0 <= i < r.len() - 1 ==> (#[trigger] r[i]).1 == r[i + 1].0,
        r.len() > 0 ==> r[r.len() - 1].1 == n,
{
    let mut r: Vec<(usize, usize)> = Vec::new();
    let mut start: usize = 0;
    while start < n
        invariant
            start <= n,
            start < n ==> start == r.len() * MAX_BATCH,
            forall|i: int|
                0 <= i < r.len() ==> (#[trigger] r[i]).0 == i * MAX_BATCH && r[i].0 < r[i].1 <= n
                    && r[i].1 - r[i].0 <= MAX_BATCH,
            forall|i: int| 0 <= i < r.len() - 1 ==> (#[trigger] r[i]).1 == r[i + 1].0,
            r.len() > 0 ==> r[r.len() - 1].1 == start,
            r.len() == 0 ==> start == 0,
        decreases n - start,
    {
        let end = if n - start > MAX_BATCH {
            start + MAX_BATCH
        } else {
            n
        };
        r.push((start, end));
        start = end;
    }
    proof {
        let k = r.len() as int;
        if k > 0 {
            assert(r[k - 1].0 == (k - 1) * MAX_BATCH);
            assert(chunk_count(n as int) == k) by (nonlinear_arith)
                requires
                    n > (k - 1) * 1000,
                    n <= (k - 1) * 1000 + 1000,
                    chunk_count(n as int) == (n + 1000 - 1) / 1000,
            ;
        }
    }
    r
}

/// The entity that a row holds, as text or as a document: the field
/// `data` of the row, read as JSON where it is a string.
pub open spec fn row_data(row: JsonView) -> Option<JsonView> {
    match row.get("data"@) {
        Some(JsonView::Str(text)) => crate::json::json_parsed(vstd::utf8::encode_utf8(text)),
        Some(other) => Some(other),
        None => None,
    }
}

/// The entity that a row holds.
pub fn extract_data(row: &Json) -> (r: Option<Json>)
    ensures
        crate::json::opt_json(r) == row_data(row@),
{
    match row.get("data") {
        Some(d) => match d {
            Json::Str(text) => crate::json::parse(text.as_str().as_bytes()),
            other => Some(other.clone()),
        },
        None => None,
    }
}

} // verus!
