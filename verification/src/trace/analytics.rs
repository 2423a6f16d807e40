use crate::clock::Timestamp;
use crate::text::texts_view;
use crate::trace::span::TraceId;
use vstd::prelude::*;

verus! {

/// A number that a query can ask for.
#[derive(Clone, Copy, Debug, PartialEq, Eq, Structural)]
pub enum AnalyticsMetric {
    TotalCost,
    TotalInputTokens,
    TotalOutputTokens,
    TotalTokens,
    AvgLatencyMs,
    SpanCount,
    ErrorCount,
}

/// A property of a span by which a query can group.
#[derive(Clone, Copy, Debug, PartialEq, Eq, Structural)]
pub enum GroupByField {
    Model,
    Provider,
    Kind,
    Status,
    Trace,
    Day,
    Hour,
}

impl GroupByField {
    /// The name of the field in a group key.
    pub open spec fn spec_name(self) -> Seq<char> {
        match self {
            GroupByField::Model => "model"@,
            GroupByField::Provider => "provider"@,
            GroupByField::Kind => "kind"@,
            GroupByField::Status => "status"@,
            GroupByField::Trace => "trace"@,
            GroupByField::Day => "day"@,
            GroupByField::Hour => "hour"@,
        }
    }

    /// The name of the field in a group key.
    pub fn name(&self) -> (r: &str)
        ensures
            r@ == self.spec_name(),
    {
        match self {
            GroupByField::Model => "model",
            GroupByField::Provider => "provider",
            GroupByField::Kind => "kind",
            GroupByField::Status => "status",
            GroupByField::Trace => "trace",
            GroupByField::Day => "day",
            GroupByField::Hour => "hour",
        }
    }
}

/// The spans that a query looks at.
#[derive(Debug, PartialEq)]
pub struct AnalyticsFilter {
    pub kind: Option<String>,
    pub model: Option<String>,
    pub provider: Option<String>,
    pub status: Option<String>,
    pub since: Option<Timestamp>,
    pub until: Option<Timestamp>,
    pub trace_id: Option<TraceId>,
}

impl AnalyticsFilter {
    /// The filter that looks at every span.
    pub fn new() -> (f: AnalyticsFilter)
        ensures
            f.kind.is_none(),
            f.model.is_none(),
            f.provider.is_none(),
            f.status.is_none(),
            f.since.is_none(),
            f.until.is_none(),
            f.trace_id.is_none(),
    {
        AnalyticsFilter {
            kind: None,
            model: None,
            provider: None,
            status: None,
            since: None,
            until: None,
            trace_id: None,
        }
    }
}

/// A question about the spans: which numbers, by which groups, of which
/// spans.
#[derive(Debug, PartialEq)]
pub struct AnalyticsQuery {
    pub metrics: Vec<AnalyticsMetric>,
    pub group_by: Vec<GroupByField>,
    pub filter: AnalyticsFilter,
}

/// What a mean latency is made of: the sum of the durations, in
/// milliseconds, and how many they are.  The mean is their quotient, and
/// zero where there is no duration.
#[derive(Clone, Copy, Debug, PartialEq, Eq, Structural)]
pub struct Latency {
    pub sum_ms: i128,
    pub count: u64,
}

/// The numbers that were asked for.  A cost is the sum of its terms, each
/// the decimal text of a number, in the order in which the spans were
/// looked at.
#[derive(Debug, PartialEq)]
pub struct MetricValues {
    pub total_cost: Option<Vec<String>>,
    pub total_input_tokens: Option<u64>,
    pub total_output_tokens: Option<u64>,
    pub total_tokens: Option<u64>,
    pub avg_latency_ms: Option<Latency>,
    pub span_count: Option<u64>,
    pub error_count: Option<u64>,
}

/// The mathematical value of a [`MetricValues`].
pub struct MetricValuesView {
    pub total_cost: Option<Seq<Seq<char>>>,
    pub total_input_tokens: Option<u64>,
    pub total_output_tokens: Option<u64>,
    pub total_tokens: Option<u64>,
    pub avg_latency_ms: Option<Latency>,
    pub span_count: Option<u64>,
    pub error_count: Option<u64>,
}

impl View for MetricValues {
    type V = MetricValuesView;

    open spec fn view(&self) -> MetricValuesView {
        MetricValuesView {
            total_cost: match self.total_cost {
                Some(terms) => Some(texts_view(terms@)),
                None => None,
            },
            total_input_tokens: self.total_input_tokens,
            total_output_tokens: self.total_output_tokens,
            total_tokens: self.total_tokens,
            avg_latency_ms: self.avg_latency_ms,
            span_count: self.span_count,
            error_count: self.error_count,
        }
    }
}

impl MetricValuesView {
    /// No number at all.
    pub open spec fn none() -> MetricValuesView {
        MetricValuesView {
            total_cost: None,
            total_input_tokens: None,
            total_output_tokens: None,
            total_tokens: None,
            avg_latency_ms: None,
            span_count: None,
            error_count: None,
        }
    }
}

/// The numbers of the spans that share the values of the grouping fields.
/// The key names each grouping field with its value, in the order of the
/// names of the fields.
#[derive(Debug, PartialEq)]
pub struct AnalyticsGroup {
    pub key: Vec<(String, String)>,
    pub metrics: MetricValues,
}

/// The answer to a query: the numbers of each group, and of all the
/// spans together.
#[derive(Debug, PartialEq)]
pub struct AnalyticsResponse {
    pub groups: Vec<AnalyticsGroup>,
    pub totals: MetricValues,
}

/// What the calls to one model cost.
#[derive(Debug, PartialEq)]
pub struct ModelCost {
    pub model: String,
    /// The terms of the cost, each the decimal text of a number.
    pub cost: Vec<String>,
    pub span_count: usize,
}

/// How many tokens the calls to one model took.
#[derive(Debug, PartialEq)]
pub struct ModelTokens {
    pub model: String,
    pub input_tokens: u64,
    pub output_tokens: u64,
    pub total_tokens: u64,
}

/// The numbers of a dashboard.
#[derive(Debug, PartialEq)]
pub struct AnalyticsSummary {
    pub total_traces: usize,
    pub total_spans: usize,
    pub total_llm_calls: usize,
    /// The terms of the cost, each the decimal text of a number.
    pub total_cost: Vec<String>,
    pub total_tokens: u64,
    pub avg_latency_ms: Latency,
    pub error_count: usize,
    pub models_used: Vec<String>,
    pub providers_used: Vec<String>,
    pub cost_by_model: Vec<ModelCost>,
    pub tokens_by_model: Vec<ModelTokens>,
}

} // verus!
