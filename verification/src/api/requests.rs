use crate::api::types::{
    ClaimRequest, CompleteSpanRequest, CreateDatapointRequest, CreateDatasetRequest,
    CreateSpanRequest, CreateTraceRequest, EnqueueRequest, ExportParams, ExportSpanRequest,
    FailSpanRequest, FileQueryParams, SpanQueryParams, SubmitRequest, UpdateDatasetRequest,
};
use crate::ids::{uuid_parsed, Id};
use crate::json::{items_view, opt_json, Json, JsonView};
use crate::clock::Timestamp;
use crate::text::{opt_text, same_text, texts_view};
use crate::trace::analytics::{AnalyticsFilter, AnalyticsMetric, AnalyticsQuery, GroupByField};
use crate::trace::codec::{
    get_opt_id, get_opt_str, get_opt_time, get_payload, opt_id_at, opt_str_at, opt_time_at,
};
use crate::trace::codec_entities::{tags_from_json, texts_of};
use crate::trace::entities::{DatapointKind, DatapointKindView};
use crate::trace::kind::{SpanKind, SpanKindView};
use crate::trace::span::opt_time;
use crate::wire::{absent, get_id, get_str, id_at, is_absent, str_at, time_named};
use vstd::prelude::*;

verus! {

/// The document under `key`, or none where the field is missing or null.
pub open spec fn payload_at(j: JsonView, key: Seq<char>) -> Option<JsonView> {
    if absent(j, key) {
        None
    } else {
        j.get(key)
    }
}

fn read_payload(j: &Json, key: &str) -> (r: Option<Json>)
    ensures
        opt_json(r) == payload_at(j@, key@),
{
    if is_absent(j, key) {
        None
    } else {
        get_payload(j, key)
    }
}

/// The kind of span that the object under `kind` stands for.
pub open spec fn span_kind_at(j: JsonView) -> Option<SpanKindView> {
    match j.get("kind"@) {
        Some(k) => SpanKindView::from_json(k),
        None => None,
    }
}

/// What the object under `kind` says that a datapoint holds.
pub open spec fn datapoint_kind_at(j: JsonView) -> Option<DatapointKindView> {
    match j.get("kind"@) {
        Some(k) => DatapointKindView::from_json(k),
        None => None,
    }
}

impl CreateSpanRequest {
    /// The request that a body stands for; `None` where the trace, the
    /// name or the kind is missing, or a field is of another type.
    pub fn from_json(j: &Json) -> (r: Option<CreateSpanRequest>)
        ensures
            match (
                id_at(j@, "trace_id"@),
                opt_id_at(j@, "parent_id"@),
                str_at(j@, "name"@),
                span_kind_at(j@),
            ) {
                (Some(trace_id), Some(parent_id), Some(name), Some(kind)) => r matches Some(q)
                    && q.trace_id == trace_id && q.parent_id == parent_id && q.name@ == name
                    && q.kind@ == kind && opt_json(q.input) == payload_at(j@, "input"@),
                _ => r.is_none(),
            },
    {
        let trace_id = get_id(j, "trace_id");
        let parent_id = get_opt_id(j, "parent_id");
        let name = get_str(j, "name");
        let kind = match j.get("kind") {
            Some(k) => SpanKind::from_json(k),
            None => None,
        };
        match (trace_id, parent_id, name, kind) {
            (Some(trace_id), Some(parent_id), Some(name), Some(kind)) => Some(
                CreateSpanRequest {
                    trace_id,
                    parent_id,
                    name: name.to_owned(),
                    kind,
                    input: read_payload(j, "input"),
                },
            ),
            _ => None,
        }
    }
}

impl CompleteSpanRequest {
    /// The request that a body stands for; `None` where it is no object.
    pub fn from_json(j: &Json) -> (r: Option<CompleteSpanRequest>)
        ensures
            j@ is Object ==> (r matches Some(q) && opt_json(q.output) == payload_at(
                j@,
                "output"@,
            )),
            !(j@ is Object) ==> r.is_none(),
    {
        if !j.is_object() {
            return None;
        }
        Some(CompleteSpanRequest { output: read_payload(j, "output") })
    }
}

impl FailSpanRequest {
    /// The request that a body stands for; `None` where it names no
    /// error.
    pub fn from_json(j: &Json) -> (r: Option<FailSpanRequest>)
        ensures
            match str_at(j@, "error"@) {
                Some(error) => r matches Some(q) && q.error@ == error,
                None => r.is_none(),
            },
    {
        match get_str(j, "error") {
            Some(error) => Some(FailSpanRequest { error: error.to_owned() }),
            None => None,
        }
    }
}

/// The texts under `key`: none where the field is missing or null.
pub open spec fn tags_at(j: JsonView, key: Seq<char>) -> Option<Seq<Seq<char>>> {
    if absent(j, key) {
        Some(Seq::empty())
    } else {
        match j.get(key) {
            Some(JsonView::Array(items)) => texts_of(items),
            _ => None,
        }
    }
}

fn read_tags(j: &Json, key: &str) -> (r: Option<Vec<String>>)
    ensures
        match r {
            Some(v) => tags_at(j@, key@) == Some(texts_view(v@)),
            None => tags_at(j@, key@).is_none(),
        },
{
    if is_absent(j, key) {
        let empty: Vec<String> = Vec::new();
        assert(texts_view(empty@) =~= Seq::empty());
        return Some(empty);
    }
    match j.get(key) {
        Some(v) => tags_from_json(v),
        None => None,
    }
}

impl CreateTraceRequest {
    /// The request that a body stands for; `None` where it is no object
    /// or a field is of another type.
    pub fn from_json(j: &Json) -> (r: Option<CreateTraceRequest>)
        ensures
            match (opt_str_at(j@, "name"@), tags_at(j@, "tags"@)) {
                (Some(name), Some(tags)) if j@ is Object => r matches Some(q) && opt_text(q.name)
                    == name && texts_view(q.tags@) == tags,
                _ => r.is_none(),
            },
    {
        if !j.is_object() {
            return None;
        }
        match (get_opt_str(j, "name"), read_tags(j, "tags")) {
            (Some(name), Some(tags)) => Some(CreateTraceRequest { name, tags }),
            _ => None,
        }
    }
}

impl CreateDatasetRequest {
    /// The request that a body stands for; `None` where the name is
    /// missing or a field is of another type.
    pub fn from_json(j: &Json) -> (r: Option<CreateDatasetRequest>)
        ensures
            match (str_at(j@, "name"@), opt_str_at(j@, "description"@)) {
                (Some(name), Some(description)) => r matches Some(q) && q.name@ == name
                    && opt_text(q.description) == description,
                _ => r.is_none(),
            },
    {
        match (get_str(j, "name"), get_opt_str(j, "description")) {
            (Some(name), Some(description)) => Some(
                CreateDatasetRequest { name: name.to_owned(), description },
            ),
            _ => None,
        }
    }
}

impl UpdateDatasetRequest {
    /// The request that a body stands for; `None` where it is no object
    /// or a field is of another type.
    pub fn from_json(j: &Json) -> (r: Option<UpdateDatasetRequest>)
        ensures
            match (opt_str_at(j@, "name"@), opt_str_at(j@, "description"@)) {
                (Some(name), Some(description)) if j@ is Object => r matches Some(q) && opt_text(
                    q.name,
                ) == name && opt_text(q.description) == description,
                _ => r.is_none(),
            },
    {
        if !j.is_object() {
            return None;
        }
        match (get_opt_str(j, "name"), get_opt_str(j, "description")) {
            (Some(name), Some(description)) => Some(UpdateDatasetRequest { name, description }),
            _ => None,
        }
    }
}

impl CreateDatapointRequest {
    /// The request that a body stands for; `None` where it does not say
    /// what the datapoint holds.
    pub fn from_json(j: &Json) -> (r: Option<CreateDatapointRequest>)
        ensures
            match datapoint_kind_at(j@) {
                Some(kind) => r matches Some(q) && q.kind@ == kind,
                None => r.is_none(),
            },
    {
        let kind = match j.get("kind") {
            Some(k) => DatapointKind::from_json(k),
            None => None,
        };
        match kind {
            Some(kind) => Some(CreateDatapointRequest { kind }),
            None => None,
        }
    }
}

impl ExportSpanRequest {
    /// The request that a body stands for; `None` where it names no
    /// span.
    pub fn from_json(j: &Json) -> (r: Option<ExportSpanRequest>)
        ensures
            match id_at(j@, "span_id"@) {
                Some(span_id) => r == Some(ExportSpanRequest { span_id }),
                None => r.is_none(),
            },
    {
        match get_id(j, "span_id") {
            Some(span_id) => Some(ExportSpanRequest { span_id }),
            None => None,
        }
    }
}

/// The identifiers that a list of JSON strings names; `None` where an
/// item is no string or names none.
pub open spec fn ids_of(items: Seq<JsonView>) -> Option<Seq<Id>>
    decreases items.len(),
{
    if items.len() == 0 {
        Some(Seq::empty())
    } else {
        match (ids_of(items.drop_last()), items.last()) {
            (Some(first), JsonView::Str(s)) => match uuid_parsed(s) {
                Some(id) => Some(first.push(id)),
                None => None,
            },
            _ => None,
        }
    }
}

proof fn lemma_ids_prefix(items: Seq<JsonView>, k: int)
    requires
        0 <= k <= items.len(),
        ids_of(items.take(k)).is_none(),
    ensures
        ids_of(items).is_none(),
    decreases items.len() - k,
{
    if k < items.len() {
        assert(items.take(k + 1).drop_last() =~= items.take(k));
        lemma_ids_prefix(items, k + 1);
    } else {
        assert(items.take(k) =~= items);
    }
}

fn read_ids(items: &Vec<Json>) -> (r: Option<Vec<Id>>)
    ensures
        match r {
            Some(v) => ids_of(items_view(items@)) == Some(v@),
            None => ids_of(items_view(items@)).is_none(),
        },
{
    let ghost all = items_view(items@);
    let mut r: Vec<Id> = Vec::new();
    let mut i: usize = 0;
    assert(all.take(0) =~= Seq::empty());
    while i < items.len()
        invariant
            i <= items.len(),
            all == items_view(items@),
            ids_of(all.take(i as int)) == Some(r@),
        decreases items.len() - i,
    {
        proof {
            assert(all.take(i + 1).drop_last() =~= all.take(i as int));
            assert(all.take(i + 1).last() == items[i as int]@);
        }
        let id = match items[i].as_str() {
            Some(s) => crate::ids::parse_id(s),
            None => None,
        };
        match id {
            Some(id) => {
                r.push(id);
            },
            None => {
                proof {
                    lemma_ids_prefix(all, i + 1);
                }
                return None;
            },
        }
        i = i + 1;
    }
    assert(all.take(items.len() as int) =~= all);
    Some(r)
}

impl EnqueueRequest {
    /// The request that a body stands for; `None` where it holds no list
    /// of identifiers.
    pub fn from_json(j: &Json) -> (r: Option<EnqueueRequest>)
        ensures
            match j@.get("datapoint_ids"@) {
                Some(JsonView::Array(items)) => match ids_of(items) {
                    Some(ids) => r matches Some(q) && q.datapoint_ids@ == ids,
                    None => r.is_none(),
                },
                _ => r.is_none(),
            },
    {
        let items = match j.get("datapoint_ids") {
            Some(v) => v.as_array(),
            None => None,
        };
        match items {
            Some(items) => match read_ids(items) {
                Some(datapoint_ids) => Some(EnqueueRequest { datapoint_ids }),
                None => None,
            },
            None => None,
        }
    }
}

impl ClaimRequest {
    /// The request that a body stands for; `None` where it does not say
    /// who claims.
    pub fn from_json(j: &Json) -> (r: Option<ClaimRequest>)
        ensures
            match str_at(j@, "claimed_by"@) {
                Some(claimed_by) => r matches Some(q) && q.claimed_by@ == claimed_by,
                None => r.is_none(),
            },
    {
        match get_str(j, "claimed_by") {
            Some(claimed_by) => Some(ClaimRequest { claimed_by: claimed_by.to_owned() }),
            None => None,
        }
    }
}

impl SubmitRequest {
    /// The request that a body stands for; `None` where it is no object.
    pub fn from_json(j: &Json) -> (r: Option<SubmitRequest>)
        ensures
            j@ is Object ==> (r matches Some(q) && opt_json(q.edited_data) == payload_at(
                j@,
                "edited_data"@,
            )),
            !(j@ is Object) ==> r.is_none(),
    {
        if !j.is_object() {
            return None;
        }
        Some(SubmitRequest { edited_data: read_payload(j, "edited_data") })
    }
}

impl AnalyticsMetric {
    /// The name of the number on the wire.
    pub open spec fn spec_name(self) -> Seq<char> {
        match self {
            AnalyticsMetric::TotalCost => "total_cost"@,
            AnalyticsMetric::TotalInputTokens => "total_input_tokens"@,
            AnalyticsMetric::TotalOutputTokens => "total_output_tokens"@,
            AnalyticsMetric::TotalTokens => "total_tokens"@,
            AnalyticsMetric::AvgLatencyMs => "avg_latency_ms"@,
            AnalyticsMetric::SpanCount => "span_count"@,
            AnalyticsMetric::ErrorCount => "error_count"@,
        }
    }

    /// The name of the number on the wire.
    pub fn name(&self) -> (r: &'static str)
        ensures
            r@ == self.spec_name(),
    {
        match self {
            AnalyticsMetric::TotalCost => "total_cost",
            AnalyticsMetric::TotalInputTokens => "total_input_tokens",
            AnalyticsMetric::TotalOutputTokens => "total_output_tokens",
            AnalyticsMetric::TotalTokens => "total_tokens",
            AnalyticsMetric::AvgLatencyMs => "avg_latency_ms",
            AnalyticsMetric::SpanCount => "span_count",
            AnalyticsMetric::ErrorCount => "error_count",
        }
    }

    /// The number that a name on the wire stands for.
    pub open spec fn spec_from_name(name: Seq<char>) -> Option<AnalyticsMetric> {
        if name == "total_cost"@ {
            Some(AnalyticsMetric::TotalCost)
        } else if name == "total_input_tokens"@ {
            Some(AnalyticsMetric::TotalInputTokens)
        } else if name == "total_output_tokens"@ {
            Some(AnalyticsMetric::TotalOutputTokens)
        } else if name == "total_tokens"@ {
            Some(AnalyticsMetric::TotalTokens)
        } else if name == "avg_latency_ms"@ {
            Some(AnalyticsMetric::AvgLatencyMs)
        } else if name == "span_count"@ {
            Some(AnalyticsMetric::SpanCount)
        } else if name == "error_count"@ {
            Some(AnalyticsMetric::ErrorCount)
        } else {
            None
        }
    }

    /// The number that a name on the wire stands for.
    pub fn from_name(name: &str) -> (r: Option<AnalyticsMetric>)
        ensures
            r == AnalyticsMetric::spec_from_name(name@),
    {
        if same_text(name, "total_cost") {
            Some(AnalyticsMetric::TotalCost)
        } else if same_text(name, "total_input_tokens") {
            Some(AnalyticsMetric::TotalInputTokens)
        } else if same_text(name, "total_output_tokens") {
            Some(AnalyticsMetric::TotalOutputTokens)
        } else if same_text(name, "total_tokens") {
            Some(AnalyticsMetric::TotalTokens)
        } else if same_text(name, "avg_latency_ms") {
            Some(AnalyticsMetric::AvgLatencyMs)
        } else if same_text(name, "span_count") {
            Some(AnalyticsMetric::SpanCount)
        } else if same_text(name, "error_count") {
            Some(AnalyticsMetric::ErrorCount)
        } else {
            None
        }
    }
}

impl GroupByField {
    /// The field that a name on the wire stands for.
    pub open spec fn spec_from_name(name: Seq<char>) -> Option<GroupByField> {
        if name == "model"@ {
            Some(GroupByField::Model)
        } else if name == "provider"@ {
            Some(GroupByField::Provider)
        } else if name == "kind"@ {
            Some(GroupByField::Kind)
        } else if name == "status"@ {
            Some(GroupByField::Status)
        } else if name == "trace"@ {
            Some(GroupByField::Trace)
        } else if name == "day"@ {
            Some(GroupByField::Day)
        } else if name == "hour"@ {
            Some(GroupByField::Hour)
        } else {
            None
        }
    }

    /// The field that a name on the wire stands for.
    pub fn from_name(name: &str) -> (r: Option<GroupByField>)
        ensures
            r == GroupByField::spec_from_name(name@),
    {
        if same_text(name, "model") {
            Some(GroupByField::Model)
        } else if same_text(name, "provider") {
            Some(GroupByField::Provider)
        } else if same_text(name, "kind") {
            Some(GroupByField::Kind)
        } else if same_text(name, "status") {
            Some(GroupByField::Status)
        } else if same_text(name, "trace") {
            Some(GroupByField::Trace)
        } else if same_text(name, "day") {
            Some(GroupByField::Day)
        } else if same_text(name, "hour") {
            Some(GroupByField::Hour)
        } else {
            None
        }
    }
}

/// Each number comes back from its name, and each field from its.
pub proof fn lemma_names_round_trip(m: AnalyticsMetric, g: GroupByField)
    ensures
        AnalyticsMetric::spec_from_name(m.spec_name()) == Some(m),
        GroupByField::spec_from_name(g.spec_name()) == Some(g),
{
    reveal_strlit("total_cost");
    reveal_strlit("total_input_tokens");
    reveal_strlit("total_output_tokens");
    reveal_strlit("total_tokens");
    reveal_strlit("avg_latency_ms");
    reveal_strlit("span_count");
    reveal_strlit("error_count");
    reveal_strlit("model");
    reveal_strlit("provider");
    reveal_strlit("kind");
    reveal_strlit("status");
    reveal_strlit("trace");
    reveal_strlit("day");
    reveal_strlit("hour");
    assert("total_cost"@.len() == 10);
    assert("total_input_tokens"@.len() == 18);
    assert("total_output_tokens"@.len() == 19);
    assert("total_tokens"@.len() == 12);
    assert("avg_latency_ms"@.len() == 14);
    assert("error_count"@.len() == 11);
    assert("span_count"@[0] == 's');
    assert("total_cost"@[0] == 't');
    assert("model"@[0] == 'm');
    assert("provider"@[0] == 'p');
    assert("kind"@[0] == 'k');
    assert("status"@[0] == 's');
    assert("trace"@[0] == 't');
    assert("day"@[0] == 'd');
    assert("hour"@[0] == 'h');
}

/// The numbers that a list of names asks for; `None` where an item is no
/// name of a number.
pub open spec fn metrics_of(items: Seq<JsonView>) -> Option<Seq<AnalyticsMetric>>
    decreases items.len(),
{
    if items.len() == 0 {
        Some(Seq::empty())
    } else {
        match (metrics_of(items.drop_last()), items.last()) {
            (Some(first), JsonView::Str(s)) => match AnalyticsMetric::spec_from_name(s) {
                Some(m) => Some(first.push(m)),
                None => None,
            },
            _ => None,
        }
    }
}

/// The fields that a list of names groups by; `None` where an item is no
/// name of a field.
pub open spec fn fields_of(items: Seq<JsonView>) -> Option<Seq<GroupByField>>
    decreases items.len(),
{
    if items.len() == 0 {
        Some(Seq::empty())
    } else {
        match (fields_of(items.drop_last()), items.last()) {
            (Some(first), JsonView::Str(s)) => match GroupByField::spec_from_name(s) {
                Some(g) => Some(first.push(g)),
                None => None,
            },
            _ => None,
        }
    }
}

proof fn lemma_metrics_prefix(items: Seq<JsonView>, k: int)
    requires
        0 <= k <= items.len(),
        metrics_of(items.take(k)).is_none(),
    ensures
        metrics_of(items).is_none(),
    decreases items.len() - k,
{
    if k < items.len() {
        assert(items.take(k + 1).drop_last() =~= items.take(k));
        lemma_metrics_prefix(items, k + 1);
    } else {
        assert(items.take(k) =~= items);
    }
}

proof fn lemma_fields_prefix(items: Seq<JsonView>, k: int)
    requires
        0 <= k <= items.len(),
        fields_of(items.take(k)).is_none(),
    ensures
        fields_of(items).is_none(),
    decreases items.len() - k,
{
    if k < items.len() {
        assert(items.take(k + 1).drop_last() =~= items.take(k));
        lemma_fields_prefix(items, k + 1);
    } else {
        assert(items.take(k) =~= items);
    }
}

fn read_metrics(items: &Vec<Json>) -> (r: Option<Vec<AnalyticsMetric>>)
    ensures
        match r {
            Some(v) => metrics_of(items_view(items@)) == Some(v@),
            None => metrics_of(items_view(items@)).is_none(),
        },
{
    let ghost all = items_view(items@);
    let mut r: Vec<AnalyticsMetric> = Vec::new();
    let mut i: usize = 0;
    assert(all.take(0) =~= Seq::empty());
    while i < items.len()
        invariant
            i <= items.len(),
            all == items_view(items@),
            metrics_of(all.take(i as int)) == Some(r@),
        decreases items.len() - i,
    {
        proof {
            assert(all.take(i + 1).drop_last() =~= all.take(i as int));
            assert(all.take(i + 1).last() == items[i as int]@);
        }
        let m = match items[i].as_str() {
            Some(s) => AnalyticsMetric::from_name(s),
            None => None,
        };
        match m {
            Some(m) => {
                r.push(m);
            },
            None => {
                proof {
                    lemma_metrics_prefix(all, i + 1);
                }
                return None;
            },
        }
        i = i + 1;
    }
    assert(all.take(items.len() as int) =~= all);
    Some(r)
}

fn read_fields(items: &Vec<Json>) -> (r: Option<Vec<GroupByField>>)
    ensures
        match r {
            Some(v) => fields_of(items_view(items@)) == Some(v@),
            None => fields_of(items_view(items@)).is_none(),
        },
{
    let ghost all = items_view(items@);
    let mut r: Vec<GroupByField> = Vec::new();
    let mut i: usize = 0;
    assert(all.take(0) =~= Seq::empty());
    while i < items.len()
        invariant
            i <= items.len(),
            all == items_view(items@),
            fields_of(all.take(i as int)) == Some(r@),
        decreases items.len() - i,
    {
        proof {
            assert(all.take(i + 1).drop_last() =~= all.take(i as int));
            assert(all.take(i + 1).last() == items[i as int]@);
        }
        let g = match items[i].as_str() {
            Some(s) => GroupByField::from_name(s),
            None => None,
        };
        match g {
            Some(g) => {
                r.push(g);
            },
            None => {
                proof {
                    lemma_fields_prefix(all, i + 1);
                }
                return None;
            },
        }
        i = i + 1;
    }
    assert(all.take(items.len() as int) =~= all);
    Some(r)
}

/// The mathematical value of an [`AnalyticsFilter`].
pub struct AnalyticsFilterView {
    pub kind: Option<Seq<char>>,
    pub model: Option<Seq<char>>,
    pub provider: Option<Seq<char>>,
    pub status: Option<Seq<char>>,
    pub since: Option<int>,
    pub until: Option<int>,
    pub trace_id: Option<Id>,
}

impl View for AnalyticsFilter {
    type V = AnalyticsFilterView;

    open spec fn view(&self) -> AnalyticsFilterView {
        AnalyticsFilterView {
            kind: opt_text(self.kind),
            model: opt_text(self.model),
            provider: opt_text(self.provider),
            status: opt_text(self.status),
            since: opt_time(self.since),
            until: opt_time(self.until),
            trace_id: self.trace_id,
        }
    }
}

/// The filter that an object stands for; `None` where a field is of
/// another type.  A field that is missing or null is not set.
pub open spec fn filter_of(j: JsonView) -> Option<AnalyticsFilterView> {
    match (
        opt_str_at(j, "kind"@),
        opt_str_at(j, "model"@),
        opt_str_at(j, "provider"@),
        opt_str_at(j, "status"@),
        opt_time_at(j, "since"@),
        opt_time_at(j, "until"@),
        opt_id_at(j, "trace_id"@),
    ) {
        (
            Some(kind),
            Some(model),
            Some(provider),
            Some(status),
            Some(since),
            Some(until),
            Some(trace_id),
        ) if j is Object => Some(
            AnalyticsFilterView { kind, model, provider, status, since, until, trace_id },
        ),
        _ => None,
    }
}

impl AnalyticsFilter {
    /// The filter that an object stands for.
    pub fn from_json(j: &Json) -> (r: Option<AnalyticsFilter>)
        ensures
            match r {
                Some(f) => filter_of(j@) == Some(f@),
                None => filter_of(j@).is_none(),
            },
    {
        if !j.is_object() {
            return None;
        }
        match (
            get_opt_str(j, "kind"),
            get_opt_str(j, "model"),
            get_opt_str(j, "provider"),
            get_opt_str(j, "status"),
            get_opt_time(j, "since"),
            get_opt_time(j, "until"),
            get_opt_id(j, "trace_id"),
        ) {
            (
                Some(kind),
                Some(model),
                Some(provider),
                Some(status),
                Some(since),
                Some(until),
                Some(trace_id),
            ) => Some(AnalyticsFilter { kind, model, provider, status, since, until, trace_id }),
            _ => None,
        }
    }
}

/// What a query for numbers asks for, as a body says it: the numbers,
/// the fields to group by, none where the body names none, and the
/// filter, which looks at every span where the body gives none.
pub open spec fn query_of(j: JsonView) -> Option<
    (Seq<AnalyticsMetric>, Seq<GroupByField>, AnalyticsFilterView),
> {
    let metrics = match j.get("metrics"@) {
        Some(JsonView::Array(items)) => metrics_of(items),
        _ => None,
    };
    let group_by = if absent(j, "group_by"@) {
        Some(Seq::empty())
    } else {
        match j.get("group_by"@) {
            Some(JsonView::Array(items)) => fields_of(items),
            _ => None,
        }
    };
    let filter = if absent(j, "filter"@) {
        Some(
            AnalyticsFilterView {
                kind: None,
                model: None,
                provider: None,
                status: None,
                since: None,
                until: None,
                trace_id: None,
            },
        )
    } else {
        filter_of(j.get("filter"@).unwrap())
    };
    match (metrics, group_by, filter) {
        (Some(m), Some(g), Some(f)) => Some((m, g, f)),
        _ => None,
    }
}

impl AnalyticsQuery {
    /// The query that a body stands for; `None` where it names no
    /// numbers, or a field is of another type.
    pub fn from_json(j: &Json) -> (r: Option<AnalyticsQuery>)
        ensures
            match r {
                Some(q) => query_of(j@) == Some((q.metrics@, q.group_by@, q.filter@)),
                None => query_of(j@).is_none(),
            },
    {
        let metrics = match j.get("metrics") {
            Some(v) => match v.as_array() {
                Some(items) => read_metrics(items),
                None => None,
            },
            None => None,
        };
        let group_by = if is_absent(j, "group_by") {
            Some(Vec::new())
        } else {
            match j.get("group_by") {
                Some(v) => match v.as_array() {
                    Some(items) => read_fields(items),
                    None => None,
                },
                None => None,
            }
        };
        let filter = if is_absent(j, "filter") {
            Some(AnalyticsFilter::new())
        } else {
            match j.get("filter") {
                Some(v) => AnalyticsFilter::from_json(v),
                None => None,
            }
        };
        match (metrics, group_by, filter) {
            (Some(metrics), Some(group_by), Some(filter)) => Some(
                AnalyticsQuery { metrics, group_by, filter },
            ),
            _ => None,
        }
    }
}

/// The value of the first pair of a query that is named `key`.
pub open spec fn value_of(pairs: Seq<(Seq<char>, Seq<char>)>, key: Seq<char>) -> Option<Seq<char>>
    decreases pairs.len(),
{
    if pairs.len() == 0 {
        None
    } else if pairs[0].0 == key {
        Some(pairs[0].1)
    } else {
        value_of(pairs.drop_first(), key)
    }
}

/// The values of a list of pairs of texts.
pub open spec fn text_pairs(pairs: Seq<(String, String)>) -> Seq<(Seq<char>, Seq<char>)> {
    Seq::new(pairs.len(), |i: int| (pairs[i].0@, pairs[i].1@))
}

/// The value of the first pair of a query that is named `key`.
pub fn find_value<'a>(pairs: &'a Vec<(String, String)>, key: &str) -> (r: Option<&'a str>)
    ensures
        match r {
            Some(s) => value_of(text_pairs(pairs@), key@) == Some(s@),
            None => value_of(text_pairs(pairs@), key@).is_none(),
        },
{
    let ghost all = text_pairs(pairs@);
    let mut i: usize = 0;
    assert(all.skip(0) =~= all);
    while i < pairs.len()
        invariant
            i <= pairs.len(),
            all == text_pairs(pairs@),
            value_of(all, key@) == value_of(all.skip(i as int), key@),
        decreases pairs.len() - i,
    {
        proof {
            assert(all.skip(i as int)[0] == all[i as int]);
            assert(all.skip(i as int).drop_first() =~= all.skip(i + 1));
        }
        if same_text(pairs[i].0.as_str(), key) {
            return Some(pairs[i].1.as_str());
        }
        i = i + 1;
    }
    assert(all.skip(i as int) =~= Seq::empty());
    None
}

/// The instant that a parameter of a query names: none where the
/// parameter is missing; `None` where its value names no instant.
pub open spec fn instant_of(pairs: Seq<(Seq<char>, Seq<char>)>, key: Seq<char>) -> Option<
    Option<int>,
> {
    match value_of(pairs, key) {
        None => Some(None),
        Some(s) => match time_named(s) {
            Some((secs, nanos)) => Some(Some(secs * 1_000_000_000 + nanos)),
            None => None,
        },
    }
}

/// The identifier that a parameter of a query names: none where the
/// parameter is missing; `None` where its value names no identifier.
pub open spec fn id_of(pairs: Seq<(Seq<char>, Seq<char>)>, key: Seq<char>) -> Option<Option<Id>> {
    match value_of(pairs, key) {
        None => Some(None),
        Some(s) => match uuid_parsed(s) {
            Some(id) => Some(Some(id)),
            None => None,
        },
    }
}

fn find_text(pairs: &Vec<(String, String)>, key: &str) -> (r: Option<String>)
    ensures
        opt_text(r) == value_of(text_pairs(pairs@), key@),
{
    match find_value(pairs, key) {
        Some(s) => Some(s.to_owned()),
        None => None,
    }
}

fn find_instant(pairs: &Vec<(String, String)>, key: &str) -> (r: Option<Option<Timestamp>>)
    ensures
        match r {
            Some(t) => instant_of(text_pairs(pairs@), key@) == Some(opt_time(t)),
            None => instant_of(text_pairs(pairs@), key@).is_none(),
        },
{
    match find_value(pairs, key) {
        None => Some(None),
        Some(s) => match crate::wire::read_time(s) {
            Some(t) => Some(Some(t)),
            None => None,
        },
    }
}

fn find_id(pairs: &Vec<(String, String)>, key: &str) -> (r: Option<Option<Id>>)
    ensures
        r == id_of(text_pairs(pairs@), key@),
{
    match find_value(pairs, key) {
        None => Some(None),
        Some(s) => match crate::ids::parse_id(s) {
            Some(id) => Some(Some(id)),
            None => None,
        },
    }
}

impl SpanQueryParams {
    /// The parameters that the pairs of a query give; `None` where an
    /// instant or the trace is named by a text that names none.
    pub fn from_pairs(pairs: &Vec<(String, String)>) -> (r: Option<SpanQueryParams>)
        ensures
            ({
                let p = text_pairs(pairs@);
                match (instant_of(p, "since"@), instant_of(p, "until"@), id_of(p, "trace_id"@)) {
                    (Some(since), Some(until), Some(trace_id)) => r matches Some(q) && {
                        &&& opt_text(q.kind) == value_of(p, "kind"@)
                        &&& opt_text(q.model) == value_of(p, "model"@)
                        &&& opt_text(q.provider) == value_of(p, "provider"@)
                        &&& opt_text(q.status) == value_of(p, "status"@)
                        &&& opt_time(q.since) == since
                        &&& opt_time(q.until) == until
                        &&& opt_text(q.name_contains) == value_of(p, "name_contains"@)
                        &&& opt_text(q.path) == value_of(p, "path"@)
                        &&& q.trace_id == trace_id
                    },
                    _ => r.is_none(),
                }
            }),
    {
        match (find_instant(pairs, "since"), find_instant(pairs, "until"), find_id(pairs, "trace_id")) {
            (Some(since), Some(until), Some(trace_id)) => Some(
                SpanQueryParams {
                    kind: find_text(pairs, "kind"),
                    model: find_text(pairs, "model"),
                    provider: find_text(pairs, "provider"),
                    status: find_text(pairs, "status"),
                    since,
                    until,
                    name_contains: find_text(pairs, "name_contains"),
                    path: find_text(pairs, "path"),
                    trace_id,
                },
            ),
            _ => None,
        }
    }
}

impl FileQueryParams {
    /// The parameters that the pairs of a query give; `None` where an
    /// instant is named by a text that names none.
    pub fn from_pairs(pairs: &Vec<(String, String)>) -> (r: Option<FileQueryParams>)
        ensures
            ({
                let p = text_pairs(pairs@);
                match (instant_of(p, "since"@), instant_of(p, "until"@)) {
                    (Some(since), Some(until)) => r matches Some(q) && {
                        &&& opt_text(q.path_prefix) == value_of(p, "path_prefix"@)
                        &&& opt_time(q.since) == since
                        &&& opt_time(q.until) == until
                    },
                    _ => r.is_none(),
                }
            }),
    {
        match (find_instant(pairs, "since"), find_instant(pairs, "until")) {
            (Some(since), Some(until)) => Some(
                FileQueryParams { path_prefix: find_text(pairs, "path_prefix"), since, until },
            ),
            _ => None,
        }
    }
}

impl ExportParams {
    /// The parameters that the pairs of a query give; `None` where the
    /// trace is named by a text that names none.
    pub fn from_pairs(pairs: &Vec<(String, String)>) -> (r: Option<ExportParams>)
        ensures
            match id_of(text_pairs(pairs@), "trace_id"@) {
                Some(trace_id) => r == Some(ExportParams { trace_id }),
                None => r.is_none(),
            },
    {
        match find_id(pairs, "trace_id") {
            Some(trace_id) => Some(ExportParams { trace_id }),
            None => None,
        }
    }
}

} // verus!
