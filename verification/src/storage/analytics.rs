use crate::clock::{day_text, hour_text, MAX_SPAN_MS};
use crate::ids::uuid_text;
use crate::text::texts_view;
use crate::trace::analytics::{
    AnalyticsFilter, AnalyticsGroup, AnalyticsMetric, AnalyticsQuery, AnalyticsResponse,
    AnalyticsSummary, GroupByField, Latency, MetricValues, MetricValuesView, ModelCost,
    ModelTokens,
};
use crate::trace::kind::{add_tokens, token_sum, SpanStatus};
use crate::trace::span::{Span, SpanView};
use vstd::prelude::*;

verus! {

/// The numbers of some spans together.
#[derive(Debug, PartialEq)]
pub struct Totals {
    pub cost_terms: Vec<String>,
    pub input_tokens: u64,
    pub output_tokens: u64,
    pub total_tokens: u64,
    pub latency_sum_ms: i128,
    pub latency_count: u64,
    pub span_count: u64,
    pub error_count: u64,
}

/// The mathematical value of a [`Totals`].
pub struct TotalsView {
    pub cost_terms: Seq<Seq<char>>,
    pub input_tokens: u64,
    pub output_tokens: u64,
    pub total_tokens: u64,
    pub latency_sum_ms: int,
    pub latency_count: nat,
    pub span_count: nat,
    pub error_count: nat,
}

impl View for Totals {
    type V = TotalsView;

    open spec fn view(&self) -> TotalsView {
        TotalsView {
            cost_terms: texts_view(self.cost_terms@),
            input_tokens: self.input_tokens,
            output_tokens: self.output_tokens,
            total_tokens: self.total_tokens,
            latency_sum_ms: self.latency_sum_ms as int,
            latency_count: self.latency_count as nat,
            span_count: self.span_count as nat,
            error_count: self.error_count as nat,
        }
    }
}

impl TotalsView {
    /// The numbers of no span.
    pub open spec fn zero() -> TotalsView {
        TotalsView {
            cost_terms: Seq::empty(),
            input_tokens: 0,
            output_tokens: 0,
            total_tokens: 0,
            latency_sum_ms: 0,
            latency_count: 0,
            span_count: 0,
            error_count: 0,
        }
    }

    /// The numbers with one more span counted in: the span itself; an
    /// error where it failed; its duration where it has one; its cost and
    /// its tokens where it has them.  A sum of tokens stays at the largest
    /// count once it has reached it.
    pub open spec fn plus(self, s: SpanView) -> TotalsView {
        TotalsView {
            cost_terms: match s.kind.cost() {
                Some(c) => self.cost_terms.push(c),
                None => self.cost_terms,
            },
            input_tokens: match s.kind.input_tokens() {
                Some(t) => token_sum(self.input_tokens, t),
                None => self.input_tokens,
            },
            output_tokens: match s.kind.output_tokens() {
                Some(t) => token_sum(self.output_tokens, t),
                None => self.output_tokens,
            },
            total_tokens: match s.kind.total_tokens() {
                Some(t) => token_sum(self.total_tokens, t),
                None => self.total_tokens,
            },
            latency_sum_ms: match s.duration_ms() {
                Some(ms) => self.latency_sum_ms + ms,
                None => self.latency_sum_ms,
            },
            latency_count: match s.duration_ms() {
                Some(_) => self.latency_count + 1,
                None => self.latency_count,
            },
            span_count: self.span_count + 1,
            error_count: if s.status is Failed {
                self.error_count + 1
            } else {
                self.error_count
            },
        }
    }

    /// The numbers that were asked for, out of all of them.
    pub open spec fn metrics(self, requested: Seq<AnalyticsMetric>) -> MetricValuesView {
        MetricValuesView {
            total_cost: if requested.contains(AnalyticsMetric::TotalCost) {
                Some(self.cost_terms)
            } else {
                None
            },
            total_input_tokens: if requested.contains(AnalyticsMetric::TotalInputTokens) {
                Some(self.input_tokens)
            } else {
                None
            },
            total_output_tokens: if requested.contains(AnalyticsMetric::TotalOutputTokens) {
                Some(self.output_tokens)
            } else {
                None
            },
            total_tokens: if requested.contains(AnalyticsMetric::TotalTokens) {
                Some(self.total_tokens)
            } else {
                None
            },
            avg_latency_ms: if requested.contains(AnalyticsMetric::AvgLatencyMs) {
                Some(
                    Latency { sum_ms: self.latency_sum_ms as i128, count: self.latency_count as u64 },
                )
            } else {
                None
            },
            span_count: if requested.contains(AnalyticsMetric::SpanCount) {
                Some(self.span_count as u64)
            } else {
                None
            },
            error_count: if requested.contains(AnalyticsMetric::ErrorCount) {
                Some(self.error_count as u64)
            } else {
                None
            },
        }
    }

    /// The counts are those of at most `n` spans.
    pub open spec fn within(self, n: int) -> bool {
        &&& self.span_count <= n
        &&& self.error_count <= n
        &&& self.latency_count <= n
        &&& -n * MAX_SPAN_MS <= self.latency_sum_ms <= n * MAX_SPAN_MS
    }
}

/// The numbers of a list of spans together.
pub open spec fn totals_of(spans: Seq<SpanView>) -> TotalsView
    decreases spans.len(),
{
    if spans.len() == 0 {
        TotalsView::zero()
    } else {
        totals_of(spans.drop_last()).plus(spans.last())
    }
}

/// The values of a list of borrowed spans.
pub open spec fn spans_view(spans: Seq<&Span>) -> Seq<SpanView> {
    Seq::new(spans.len(), |i: int| spans[i]@)
}

impl Totals {
    /// The numbers of no span.
    pub fn new() -> (t: Totals)
        ensures
            t@ == TotalsView::zero(),
            t@.within(0),
    {
        let t = Totals {
            cost_terms: Vec::new(),
            input_tokens: 0,
            output_tokens: 0,
            total_tokens: 0,
            latency_sum_ms: 0,
            latency_count: 0,
            span_count: 0,
            error_count: 0,
        };
        assert(t@.cost_terms =~= Seq::empty());
        t
    }

    /// Counts one more span in.
    fn accumulate(&mut self, span: &Span, Ghost(n): Ghost<int>)
        requires
            old(self)@.within(n),
            0 <= n < usize::MAX,
        ensures
            final(self)@ == old(self)@.plus(span@),
            final(self)@.within(n + 1),
    {
        let ghost before = self@;
        assert(n * MAX_SPAN_MS + MAX_SPAN_MS == (n + 1) * MAX_SPAN_MS) by (nonlinear_arith);
        assert(n * MAX_SPAN_MS <= usize::MAX * MAX_SPAN_MS) by (nonlinear_arith)
            requires
                0 <= n < usize::MAX,
        ;
        self.span_count = self.span_count + 1;
        match span.status() {
            SpanStatus::Failed { .. } => {
                self.error_count = self.error_count + 1;
            },
            _ => {},
        }
        if let Some(ms) = span.duration_ms() {
            self.latency_sum_ms = self.latency_sum_ms + ms as i128;
            self.latency_count = self.latency_count + 1;
        }
        if let Some(c) = span.kind().cost() {
            self.cost_terms.push(c.to_owned());
            assert(texts_view(self.cost_terms@) =~= before.cost_terms.push(c@));
        }
        if let Some(t) = span.kind().input_tokens() {
            self.input_tokens = add_tokens(self.input_tokens, t);
        }
        if let Some(t) = span.kind().output_tokens() {
            self.output_tokens = add_tokens(self.output_tokens, t);
        }
        if let Some(t) = span.kind().total_tokens() {
            self.total_tokens = add_tokens(self.total_tokens, t);
        }
    }

    /// The numbers that were asked for, out of all of them.
    pub fn to_metrics(&self, requested: &Vec<AnalyticsMetric>) -> (mv: MetricValues)
        ensures
            mv@ == self@.metrics(requested@),
    {
        let mut mv = MetricValues {
            total_cost: None,
            total_input_tokens: None,
            total_output_tokens: None,
            total_tokens: None,
            avg_latency_ms: None,
            span_count: None,
            error_count: None,
        };
        let mut i: usize = 0;
        while i < requested.len()
            invariant
                i <= requested.len(),
                mv@ == self@.metrics(requested@.take(i as int)),
            decreases requested.len() - i,
        {
            let ghost seen = requested@.take(i as int);
            let ghost next = requested@.take(i + 1);
            proof {
                assert(next =~= seen.push(requested@[i as int]));
                assert forall|m: AnalyticsMetric| next.contains(m) <==> (seen.contains(m) || m
                    == requested@[i as int]) by {
                    if next.contains(m) {
                        let k = choose|k: int| 0 <= k < next.len() && next[k] == m;
                        if k < seen.len() {
                            assert(seen[k] == m);
                        }
                    }
                    if seen.contains(m) {
                        let k = choose|k: int| 0 <= k < seen.len() && seen[k] == m;
                        assert(next[k] == m);
                    }
                    if m == requested@[i as int] {
                        assert(next[i as int] == m);
                    }
                }
            }
            match requested[i] {
                AnalyticsMetric::TotalCost => {
                    mv.total_cost = Some(crate::text::clone_texts(&self.cost_terms));
                },
                AnalyticsMetric::TotalInputTokens => {
                    mv.total_input_tokens = Some(self.input_tokens);
                },
                AnalyticsMetric::TotalOutputTokens => {
                    mv.total_output_tokens = Some(self.output_tokens);
                },
                AnalyticsMetric::TotalTokens => {
                    mv.total_tokens = Some(self.total_tokens);
                },
                AnalyticsMetric::AvgLatencyMs => {
                    mv.avg_latency_ms = Some(
                        Latency { sum_ms: self.latency_sum_ms, count: self.latency_count },
                    );
                },
                AnalyticsMetric::SpanCount => {
                    mv.span_count = Some(self.span_count);
                },
                AnalyticsMetric::ErrorCount => {
                    mv.error_count = Some(self.error_count);
                },
            }
            i = i + 1;
        }
        assert(requested@.take(requested.len() as int) =~= requested@);
        mv
    }
}

/// The value of a grouping field for a span.  A span that is no call to a
/// model counts as of the model and provider `unknown`.
pub open spec fn field_value(s: SpanView, f: GroupByField) -> Seq<char> {
    match f {
        GroupByField::Model => match s.kind.model() {
            Some(m) => m,
            None => "unknown"@,
        },
        GroupByField::Provider => match s.kind.provider() {
            Some(p) => p,
            None => "unknown"@,
        },
        GroupByField::Kind => s.kind.kind_name(),
        GroupByField::Status => s.status.as_str(),
        GroupByField::Trace => uuid_text(s.trace_id),
        GroupByField::Day => day_text(s.started_at),
        GroupByField::Hour => hour_text(s.started_at),
    }
}

/// The entry of a group key for one field: its name and value where the
/// query groups by it, nothing where it does not.
pub open spec fn key_part(s: SpanView, fields: Seq<GroupByField>, f: GroupByField) -> Seq<
    (Seq<char>, Seq<char>),
> {
    if fields.contains(f) {
        seq![(f.spec_name(), field_value(s, f))]
    } else {
        Seq::empty()
    }
}

/// The group key of a span: each field that the query groups by with its
/// value, once, in the order of the names of the fields.
pub open spec fn group_key(s: SpanView, fields: Seq<GroupByField>) -> Seq<(Seq<char>, Seq<char>)> {
    key_part(s, fields, GroupByField::Day) + key_part(s, fields, GroupByField::Hour) + key_part(
        s,
        fields,
        GroupByField::Kind,
    ) + key_part(s, fields, GroupByField::Model) + key_part(s, fields, GroupByField::Provider)
        + key_part(s, fields, GroupByField::Status) + key_part(s, fields, GroupByField::Trace)
}

/// The spans of a list that have a given group key, in their order.
pub open spec fn of_group(
    spans: Seq<SpanView>,
    fields: Seq<GroupByField>,
    key: Seq<(Seq<char>, Seq<char>)>,
) -> Seq<SpanView>
    decreases spans.len(),
{
    if spans.len() == 0 {
        Seq::empty()
    } else if group_key(spans.last(), fields) == key {
        of_group(spans.drop_last(), fields, key).push(spans.last())
    } else {
        of_group(spans.drop_last(), fields, key)
    }
}

/// The characters of a list of pairs of strings.
pub open spec fn pairs_view(v: Seq<(String, String)>) -> Seq<(Seq<char>, Seq<char>)> {
    Seq::new(v.len(), |i: int| (v[i].0@, v[i].1@))
}

/// True when a query groups by the field `f`.
fn groups_by(fields: &Vec<GroupByField>, f: GroupByField) -> (r: bool)
    ensures
        r == fields@.contains(f),
{
    let mut i: usize = 0;
    while i < fields.len()
        invariant
            i <= fields.len(),
            forall|j: int| 0 <= j < i ==> fields@[j] != f,
        decreases fields.len() - i,
    {
        if fields[i] == f {
            return true;
        }
        i = i + 1;
    }
    false
}

/// The value of a grouping field for a span.
fn value_of(span: &Span, f: GroupByField) -> (r: String)
    ensures
        r@ == field_value(span@, f),
{
    match f {
        GroupByField::Model => match span.kind().model() {
            Some(m) => m.to_owned(),
            None => "unknown".to_owned(),
        },
        GroupByField::Provider => match span.kind().provider() {
            Some(p) => p.to_owned(),
            None => "unknown".to_owned(),
        },
        GroupByField::Kind => span.kind().kind_name().to_owned(),
        GroupByField::Status => span.status().as_str().to_owned(),
        GroupByField::Trace => crate::ids::id_to_string(span.trace_id()),
        GroupByField::Day => crate::clock::day_key(&span.started_at()),
        GroupByField::Hour => crate::clock::hour_key(&span.started_at()),
    }
}

/// Puts the entry of one field at the end of a group key.
fn push_part(key: &mut Vec<(String, String)>, span: &Span, fields: &Vec<GroupByField>, f: GroupByField)
    ensures
        pairs_view(final(key)@) == pairs_view(old(key)@) + key_part(span@, fields@, f),
{
    let ghost before = pairs_view(key@);
    if groups_by(fields, f) {
        key.push((f.name().to_owned(), value_of(span, f)));
        assert(pairs_view(key@) =~= before + key_part(span@, fields@, f));
    } else {
        assert(pairs_view(key@) =~= before + key_part(span@, fields@, f));
    }
}

/// The group key of a span.
pub fn key_of(span: &Span, fields: &Vec<GroupByField>) -> (key: Vec<(String, String)>)
    ensures
        pairs_view(key@) == group_key(span@, fields@),
{
    let mut key: Vec<(String, String)> = Vec::new();
    assert(pairs_view(key@) =~= Seq::empty());
    push_part(&mut key, span, fields, GroupByField::Day);
    push_part(&mut key, span, fields, GroupByField::Hour);
    push_part(&mut key, span, fields, GroupByField::Kind);
    push_part(&mut key, span, fields, GroupByField::Model);
    push_part(&mut key, span, fields, GroupByField::Provider);
    push_part(&mut key, span, fields, GroupByField::Status);
    push_part(&mut key, span, fields, GroupByField::Trace);
    assert(pairs_view(key@) =~= group_key(span@, fields@));
    key
}

/// True when two group keys hold the same names and values.
fn same_key(a: &Vec<(String, String)>, b: &Vec<(String, String)>) -> (r: bool)
    ensures
        r == (pairs_view(a@) == pairs_view(b@)),
{
    if a.len() != b.len() {
        assert(pairs_view(a@).len() != pairs_view(b@).len());
        return false;
    }
    let mut i: usize = 0;
    while i < a.len()
        invariant
            i <= a.len(),
            a.len() == b.len(),
            forall|j: int| 0 <= j < i ==> pairs_view(a@)[j] == pairs_view(b@)[j],
        decreases a.len() - i,
    {
        if !crate::text::same_text(a[i].0.as_str(), b[i].0.as_str()) || !crate::text::same_text(
            a[i].1.as_str(),
            b[i].1.as_str(),
        ) {
            assert(pairs_view(a@)[i as int] != pairs_view(b@)[i as int]);
            return false;
        }
        i = i + 1;
    }
    assert(pairs_view(a@) =~= pairs_view(b@));
    true
}

/// A copy of a group key.
fn clone_key(a: &Vec<(String, String)>) -> (r: Vec<(String, String)>)
    ensures
        pairs_view(r@) == pairs_view(a@),
{
    let mut r: Vec<(String, String)> = Vec::new();
    let mut i: usize = 0;
    while i < a.len()
        invariant
            i <= a.len(),
            r.len() == i,
            forall|j: int| 0 <= j < i ==> r[j].0@ == a[j].0@ && r[j].1@ == a[j].1@,
        decreases a.len() - i,
    {
        r.push((a[i].0.clone(), a[i].1.clone()));
        i = i + 1;
    }
    assert(pairs_view(r@) =~= pairs_view(a@));
    r
}

/// The position of a key among the keys of the groups.
fn find_key(keys: &Vec<Vec<(String, String)>>, key: &Vec<(String, String)>) -> (r: Option<usize>)
    ensures
        match r {
            Some(i) => i < keys.len() && pairs_view(keys[i as int]@) == pairs_view(key@),
            None => forall|i: int|
                0 <= i < keys.len() ==> pairs_view(#[trigger] keys[i]@) != pairs_view(key@),
        },
{
    let mut i: usize = 0;
    while i < keys.len()
        invariant
            i <= keys.len(),
            forall|j: int| 0 <= j < i ==> pairs_view(#[trigger] keys[j]@) != pairs_view(key@),
        decreases keys.len() - i,
    {
        if same_key(&keys[i], key) {
            return Some(i);
        }
        i = i + 1;
    }
    None
}

/// True when one of the keys is `key`.
pub open spec fn has_key(keys: Seq<Seq<(Seq<char>, Seq<char>)>>, key: Seq<(Seq<char>, Seq<char>)>) -> bool {
    exists|i: int| 0 <= i < keys.len() && #[trigger] keys[i] == key
}

/// True when one of the spans has the group key `key`.
pub open spec fn key_occurs(spans: Seq<SpanView>, fields: Seq<GroupByField>, key: Seq<(Seq<char>, Seq<char>)>) -> bool {
    exists|j: int| 0 <= j < spans.len() && group_key(#[trigger] spans[j], fields) == key
}

/// The keys of a list of groups.
pub open spec fn group_keys(groups: Seq<AnalyticsGroup>) -> Seq<Seq<(Seq<char>, Seq<char>)>> {
    Seq::new(groups.len(), |i: int| pairs_view(groups[i].key@))
}

/// The characters of a list of keys.
pub open spec fn keys_view(keys: Seq<Vec<(String, String)>>) -> Seq<Seq<(Seq<char>, Seq<char>)>> {
    Seq::new(keys.len(), |i: int| pairs_view(keys[i]@))
}

/// True when `r` answers `query` over the spans of a list: the totals are
/// of all the spans, each group is of the spans with its key, each key
/// that a span has names one group, and no group is empty.
pub open spec fn answers(r: AnalyticsResponse, spans: Seq<SpanView>, query: AnalyticsQuery) -> bool {
    &&& r.totals@ == totals_of(spans).metrics(query.metrics@)
    &&& query.group_by.len() == 0 ==> r.groups.len() == 0
    &&& forall|i: int|
        0 <= i < r.groups.len() ==> (#[trigger] r.groups[i]).metrics@ == totals_of(
            of_group(spans, query.group_by@, pairs_view(r.groups[i].key@)),
        ).metrics(query.metrics@)
    &&& group_keys(r.groups@).no_duplicates()
    &&& query.group_by.len() > 0 ==> forall|k: int|
        0 <= k < spans.len() ==> has_key(
            group_keys(r.groups@),
            group_key(#[trigger] spans[k], query.group_by@),
        )
    &&& forall|i: int|
        0 <= i < r.groups.len() ==> key_occurs(
            spans,
            query.group_by@,
            pairs_view((#[trigger] r.groups[i]).key@),
        )
}

/// Computes the numbers that a query asks for over a list of spans: for
/// all spans together, and, where the query groups, for each group of
/// spans with one group key.  Each key that a span has names one group,
/// and the groups stand in the order in which their keys first came.
pub fn compute_analytics(spans: &Vec<&Span>, query: &AnalyticsQuery) -> (r: AnalyticsResponse)
    ensures
        answers(r, spans_view(spans@), *query),
        totals_of(spans_view(spans@)).within(spans.len() as int),
        forall|i: int|
            0 <= i < r.groups.len() ==> totals_of(
                of_group(
                    spans_view(spans@),
                    query.group_by@,
                    pairs_view((#[trigger] r.groups[i]).key@),
                ),
            ).within(spans.len() as int),
{
    let ghost sv = spans_view(spans@);
    let ghost fields = query.group_by@;
    let grouping = query.group_by.len() > 0;
    let mut totals = Totals::new();
    let mut keys: Vec<Vec<(String, String)>> = Vec::new();
    let mut accs: Vec<Totals> = Vec::new();
    let mut k: usize = 0;
    assert(sv.take(0) =~= Seq::empty());
    while k < spans.len()
        invariant
            k <= spans.len(),
            sv == spans_view(spans@),
            fields == query.group_by@,
            grouping == (query.group_by.len() > 0),
            totals@ == totals_of(sv.take(k as int)),
            totals@.within(k as int),
            keys.len() == accs.len(),
            !grouping ==> keys.len() == 0,
            forall|i: int|
                0 <= i < accs.len() ==> (#[trigger] accs[i])@ == totals_of(
                    of_group(sv.take(k as int), fields, pairs_view(keys[i]@)),
                ) && accs[i]@.within(k as int),
            keys_view(keys@).no_duplicates(),
            grouping ==> forall|j: int|
                0 <= j < k ==> has_key(keys_view(keys@), group_key(#[trigger] sv[j], fields)),
            forall|i: int|
                0 <= i < keys.len() ==> key_occurs(
                    sv.take(k as int),
                    fields,
                    #[trigger] keys_view(keys@)[i],
                ),
        decreases spans.len() - k,
    {
        let span = spans[k];
        let ghost seen = sv.take(k as int);
        let ghost next = sv.take(k + 1);
        proof {
            assert(next.drop_last() =~= seen);
            assert(next.last() == span@);
            assert(next[k as int] == span@);
        }
        totals.accumulate(span, Ghost(k as int));
        let ghost old_keys = keys@;
        let ghost old_accs = accs@;
        let ghost old_kv = keys_view(keys@);
        if grouping {
            let key = key_of(span, &query.group_by);
            match find_key(&keys, &key) {
                Some(i) => {
                    let acc = &mut accs[i];
                    acc.accumulate(span, Ghost(k as int));
                    proof {
                        assert(next =~= seen.push(span@));
                        assert forall|g: int| 0 <= g < accs.len() implies (#[trigger] accs[g])@
                            == totals_of(of_group(next, fields, pairs_view(keys[g]@)))
                            && accs[g]@.within(k + 1) by {
                            lemma_group_step(seen, span@, fields, pairs_view(keys[g]@));
                            let grp = of_group(seen, fields, pairs_view(keys[g]@));
                            lemma_group_step(grp, span@, fields, pairs_view(keys[g]@));
                            if g != i {
                                assert(accs[g] == old_accs[g]);
                                assert(old_accs[g]@.within(k as int));
                                assert(old_kv[g] != old_kv[i as int]);
                                lemma_within_more(old_accs[g]@, k as int, k + 1);
                            } else {
                                assert(old_kv[g] == pairs_view(key@));
                            }
                        }
                        assert(old_kv[i as int] == group_key(sv[k as int], fields));
                    }
                },
                None => {
                    let mut acc = Totals::new();
                    acc.accumulate(span, Ghost(0));
                    proof {
                        assert forall|i: int| 0 <= i < old_kv.len() implies #[trigger] old_kv[i]
                            != pairs_view(key@) by {
                            assert(pairs_view(old_keys[i]@) != pairs_view(key@));
                        }
                        assert forall|j: int| 0 <= j < seen.len() implies has_key(
                            old_kv,
                            group_key(#[trigger] seen[j], fields),
                        ) by {
                            assert(seen[j] == sv[j]);
                        }
                        lemma_no_group_yet(seen, fields, pairs_view(key@), old_kv);
                    }
                    keys.push(key);
                    accs.push(acc);
                    proof {
                        let last = keys.len() - 1;
                        let kv = keys_view(keys@);
                        assert(kv =~= old_kv.push(pairs_view(key@)));
                        assert(next =~= seen.push(span@));
                        assert forall|g: int| 0 <= g < accs.len() implies (#[trigger] accs[g])@
                            == totals_of(of_group(next, fields, pairs_view(keys[g]@)))
                            && accs[g]@.within(k + 1) by {
                            lemma_group_step(seen, span@, fields, pairs_view(keys[g]@));
                            if g < last {
                                assert(accs[g] == old_accs[g]);
                                assert(keys[g] == old_keys[g]);
                                assert(old_accs[g]@.within(k as int));
                                assert(old_kv[g] != pairs_view(key@));
                                lemma_within_more(old_accs[g]@, k as int, k + 1);
                            } else {
                                assert(keys[g] == key);
                                lemma_group_step(Seq::empty(), span@, fields, pairs_view(key@));
                                assert(Seq::<SpanView>::empty().push(span@) =~= seq![span@]);
                                lemma_within_more(accs[g]@, 1, k + 1);
                            }
                        }
                        assert forall|j: int| 0 <= j < k + 1 implies has_key(
                            kv,
                            group_key(#[trigger] sv[j], fields),
                        ) by {
                            if j == k {
                                assert(kv[last] == group_key(sv[j], fields));
                            } else {
                                let g = choose|g: int|
                                    0 <= g < old_kv.len() && #[trigger] old_kv[g] == group_key(
                                        sv[j],
                                        fields,
                                    );
                                assert(kv[g] == old_kv[g]);
                            }
                        }
                    }
                },
            }
        }
        proof {
            let kv = keys_view(keys@);
            assert forall|g: int| 0 <= g < accs.len() implies (#[trigger] accs[g])@ == totals_of(
                of_group(next, fields, pairs_view(keys[g]@)),
            ) && accs[g]@.within(k + 1) by {
            }
            assert(keys_view(keys@).no_duplicates());
            assert forall|i: int| 0 <= i < keys.len() implies key_occurs(
                next,
                fields,
                #[trigger] kv[i],
            ) by {
                if i < old_kv.len() {
                    assert(kv[i] == old_kv[i]);
                    assert(key_occurs(seen, fields, old_kv[i]));
                    let j = choose|j: int|
                        0 <= j < seen.len() && group_key(#[trigger] seen[j], fields) == old_kv[i];
                    assert(next[j] == seen[j]);
                } else {
                    assert(group_key(next[k as int], fields) == kv[i]);
                }
            }
            if grouping {
                assert forall|j: int| 0 <= j < k + 1 implies has_key(
                    kv,
                    group_key(#[trigger] sv[j], fields),
                ) by {
                    if j < k {
                        if kv.len() == old_kv.len() {
                            assert(kv =~= old_kv);
                        }
                    } else {
                        if kv.len() == old_kv.len() {
                            assert(kv =~= old_kv);
                        }
                    }
                }
            }
        }
        k = k + 1;
    }
    assert(sv.take(spans.len() as int) =~= sv);
    let mut groups: Vec<AnalyticsGroup> = Vec::new();
    let mut g: usize = 0;
    while g < keys.len()
        invariant
            g <= keys.len(),
            keys.len() == accs.len(),
            groups.len() == g,
            forall|i: int|
                0 <= i < g ==> pairs_view((#[trigger] groups[i]).key@) == pairs_view(keys[i]@)
                    && groups[i].metrics@ == accs[i]@.metrics(query.metrics@),
        decreases keys.len() - g,
    {
        groups.push(
            AnalyticsGroup { key: clone_key(&keys[g]), metrics: accs[g].to_metrics(&query.metrics) },
        );
        g = g + 1;
    }
    let r = AnalyticsResponse { groups, totals: totals.to_metrics(&query.metrics) };
    proof {
        assert(group_keys(r.groups@) =~= keys_view(keys@));
        assert forall|i: int| 0 <= i < r.groups.len() implies key_occurs(
            spans_view(spans@),
            query.group_by@,
            pairs_view((#[trigger] r.groups[i]).key@),
        ) by {
            assert(keys_view(keys@)[i] == pairs_view(r.groups[i].key@));
        }
        assert forall|k: int| 0 <= k < spans.len() && grouping implies has_key(
            group_keys(r.groups@),
            group_key((#[trigger] spans[k])@, query.group_by@),
        ) by {
            assert(sv[k] == spans[k]@);
        }
    }
    r
}

/// One more span joins the group of its key and no other, and its
/// numbers join those of the spans before it.
proof fn lemma_group_step(
    seen: Seq<SpanView>,
    s: SpanView,
    fields: Seq<GroupByField>,
    key: Seq<(Seq<char>, Seq<char>)>,
)
    ensures
        of_group(seen.push(s), fields, key) == if group_key(s, fields) == key {
            of_group(seen, fields, key).push(s)
        } else {
            of_group(seen, fields, key)
        },
        totals_of(seen.push(s)) == totals_of(seen).plus(s),
{
    assert(seen.push(s).drop_last() =~= seen);
    assert(seen.push(s).last() == s);
}

proof fn lemma_within_more(t: TotalsView, a: int, b: int)
    requires
        t.within(a),
        0 <= a <= b,
    ensures
        t.within(b),
{
    assert(a * MAX_SPAN_MS <= b * MAX_SPAN_MS) by (nonlinear_arith)
        requires
            0 <= a <= b,
    ;
}

/// While no group has a key, no span that was looked at has it.
proof fn lemma_no_group_yet(
    seen: Seq<SpanView>,
    fields: Seq<GroupByField>,
    key: Seq<(Seq<char>, Seq<char>)>,
    keys: Seq<Seq<(Seq<char>, Seq<char>)>>,
)
    requires
        forall|j: int| 0 <= j < seen.len() ==> has_key(keys, group_key(#[trigger] seen[j], fields)),
        forall|i: int| 0 <= i < keys.len() ==> #[trigger] keys[i] != key,
    ensures
        of_group(seen, fields, key) == Seq::<SpanView>::empty(),
    decreases seen.len(),
{
    if seen.len() > 0 {
        let rest = seen.drop_last();
        assert forall|j: int| 0 <= j < rest.len() implies has_key(
            keys,
            group_key(#[trigger] rest[j], fields),
        ) by {
            assert(rest[j] == seen[j]);
        }
        lemma_no_group_yet(rest, fields, key, keys);
        let j = seen.len() - 1;
        assert(has_key(keys, group_key(seen[j], fields)));
    }
}

/// True for a span whose kind goes by the name of a call to a model.
pub open spec fn is_llm(s: SpanView) -> bool {
    s.kind.kind_name() == "llm_call"@
}

/// The calls to a model among a list of spans, in their order.
pub open spec fn llm_of(spans: Seq<SpanView>) -> Seq<SpanView>
    decreases spans.len(),
{
    if spans.len() == 0 {
        Seq::empty()
    } else if is_llm(spans.last()) {
        llm_of(spans.drop_last()).push(spans.last())
    } else {
        llm_of(spans.drop_last())
    }
}

/// The calls to a model that name their provider, among a list of spans.
pub open spec fn provided_of(spans: Seq<SpanView>) -> Seq<SpanView>
    decreases spans.len(),
{
    if spans.len() == 0 {
        Seq::empty()
    } else if is_llm(spans.last()) && spans.last().kind.provider().is_some() {
        provided_of(spans.drop_last()).push(spans.last())
    } else {
        provided_of(spans.drop_last())
    }
}

/// The key of the group of one model.
pub open spec fn model_key(model: Seq<char>) -> Seq<(Seq<char>, Seq<char>)> {
    seq![("model"@, model)]
}

/// The key of the group of one provider.
pub open spec fn provider_key(provider: Seq<char>) -> Seq<(Seq<char>, Seq<char>)> {
    seq![("provider"@, provider)]
}

/// The calls to one model among a list of spans.  A call that names no
/// model counts as a call to the model `unknown`.
pub open spec fn calls_to(spans: Seq<SpanView>, model: Seq<char>) -> Seq<SpanView> {
    of_group(llm_of(spans), seq![GroupByField::Model], model_key(model))
}

fn pick_llm<'a>(spans: &Vec<&'a Span>, named: bool) -> (r: Vec<&'a Span>)
    ensures
        spans_view(r@) == if named {
            provided_of(spans_view(spans@))
        } else {
            llm_of(spans_view(spans@))
        },
{
    let ghost sv = spans_view(spans@);
    let mut r: Vec<&Span> = Vec::new();
    let mut k: usize = 0;
    assert(sv.take(0) =~= Seq::empty());
    assert(spans_view(r@) =~= Seq::empty());
    while k < spans.len()
        invariant
            k <= spans.len(),
            sv == spans_view(spans@),
            spans_view(r@) == if named {
                provided_of(sv.take(k as int))
            } else {
                llm_of(sv.take(k as int))
            },
        decreases spans.len() - k,
    {
        let span = spans[k];
        proof {
            assert(sv.take(k + 1).drop_last() =~= sv.take(k as int));
            assert(sv.take(k + 1).last() == span@);
        }
        let llm = crate::text::same_text(span.kind().kind_name(), "llm_call");
        if llm && (!named || span.kind().provider().is_some()) {
            let ghost before = spans_view(r@);
            r.push(span);
            assert(spans_view(r@) =~= before.push(span@));
        }
        k = k + 1;
    }
    assert(sv.take(spans.len() as int) =~= sv);
    r
}

fn all_metrics() -> (v: Vec<AnalyticsMetric>)
    ensures
        v@ == query_metrics(),
{
    let mut v: Vec<AnalyticsMetric> = Vec::new();
    v.push(AnalyticsMetric::TotalCost);
    v.push(AnalyticsMetric::TotalInputTokens);
    v.push(AnalyticsMetric::TotalOutputTokens);
    v.push(AnalyticsMetric::TotalTokens);
    v.push(AnalyticsMetric::AvgLatencyMs);
    v.push(AnalyticsMetric::SpanCount);
    v.push(AnalyticsMetric::ErrorCount);
    assert(v@ =~= query_metrics());
    v
}

/// Every metric, each once.
pub open spec fn query_metrics() -> Seq<AnalyticsMetric> {
    seq![
        AnalyticsMetric::TotalCost,
        AnalyticsMetric::TotalInputTokens,
        AnalyticsMetric::TotalOutputTokens,
        AnalyticsMetric::TotalTokens,
        AnalyticsMetric::AvgLatencyMs,
        AnalyticsMetric::SpanCount,
        AnalyticsMetric::ErrorCount,
    ]
}

proof fn lemma_query_metrics(t: TotalsView)
    ensures
        t.metrics(query_metrics()) == (MetricValuesView {
            total_cost: Some(t.cost_terms),
            total_input_tokens: Some(t.input_tokens),
            total_output_tokens: Some(t.output_tokens),
            total_tokens: Some(t.total_tokens),
            avg_latency_ms: Some(
                Latency { sum_ms: t.latency_sum_ms as i128, count: t.latency_count as u64 },
            ),
            span_count: Some(t.span_count as u64),
            error_count: Some(t.error_count as u64),
        }),
{
    let q = query_metrics();
    assert(q[0] == AnalyticsMetric::TotalCost);
    assert(q[1] == AnalyticsMetric::TotalInputTokens);
    assert(q[2] == AnalyticsMetric::TotalOutputTokens);
    assert(q[3] == AnalyticsMetric::TotalTokens);
    assert(q[4] == AnalyticsMetric::AvgLatencyMs);
    assert(q[5] == AnalyticsMetric::SpanCount);
    assert(q[6] == AnalyticsMetric::ErrorCount);
}

fn query_by(field: Option<GroupByField>) -> (q: AnalyticsQuery)
    ensures
        q.metrics@ == query_metrics(),
        q.group_by@ == match field {
            Some(f) => seq![f],
            None => Seq::empty(),
        },
{
    let mut group_by: Vec<GroupByField> = Vec::new();
    if let Some(f) = field {
        group_by.push(f);
    }
    let q = AnalyticsQuery { metrics: all_metrics(), group_by, filter: AnalyticsFilter::new() };
    assert(q.group_by@ =~= match field {
        Some(f) => seq![f],
        None => Seq::empty(),
    });
    q
}

proof fn lemma_single_field_key(s: SpanView, f: GroupByField)
    ensures
        group_key(s, seq![f]) == seq![(f.spec_name(), field_value(s, f))],
{
    let fields = seq![f];
    assert(fields[0] == f);
    assert forall|g: GroupByField| fields.contains(g) <==> g == f by {
        if fields.contains(g) {
            let i = choose|i: int| 0 <= i < fields.len() && fields[i] == g;
        }
    }
    assert(group_key(s, fields) =~= seq![(f.spec_name(), field_value(s, f))]);
}

/// A list of spans counts as many spans as it holds.
pub proof fn lemma_span_count(spans: Seq<SpanView>)
    ensures
        totals_of(spans).span_count == spans.len(),
    decreases spans.len(),
{
    if spans.len() > 0 {
        lemma_span_count(spans.drop_last());
    }
}

/// A key that a span of a list has names a group that is not empty.
pub proof fn lemma_group_not_empty(
    spans: Seq<SpanView>,
    fields: Seq<GroupByField>,
    key: Seq<(Seq<char>, Seq<char>)>,
)
    requires
        key_occurs(spans, fields, key),
    ensures
        of_group(spans, fields, key).len() > 0,
    decreases spans.len(),
{
    let j = choose|j: int| 0 <= j < spans.len() && group_key(#[trigger] spans[j], fields) == key;
    if group_key(spans.last(), fields) != key {
        let rest = spans.drop_last();
        assert(rest[j] == spans[j]);
        lemma_group_not_empty(rest, fields, key);
    }
}

/// True when `r` sums up the spans of a list, with `trace_count` traces:
/// the numbers of all the spans, those of the calls to a model, and the
/// same for the calls to each model, the models in the order in which
/// they first came.
pub open spec fn summarises(r: AnalyticsSummary, spans: Seq<SpanView>, trace_count: usize) -> bool {
    &&& r.total_traces == trace_count
    &&& r.total_spans == spans.len()
    &&& r.error_count == totals_of(spans).error_count
    &&& r.avg_latency_ms.sum_ms == totals_of(spans).latency_sum_ms
    &&& r.avg_latency_ms.count == totals_of(spans).latency_count
    &&& r.total_llm_calls == totals_of(llm_of(spans)).span_count
    &&& texts_view(r.total_cost@) == totals_of(llm_of(spans)).cost_terms
    &&& r.total_tokens == totals_of(llm_of(spans)).total_tokens
    &&& r.cost_by_model.len() == r.models_used.len()
    &&& r.tokens_by_model.len() == r.models_used.len()
    &&& texts_view(r.models_used@).no_duplicates()
    &&& texts_view(r.providers_used@).no_duplicates()
    &&& forall|i: int|
        0 <= i < r.models_used.len() ==> {
            let t = totals_of(calls_to(spans, (#[trigger] r.models_used[i])@));
            &&& t.span_count > 0
            &&& r.cost_by_model[i].model@ == r.models_used[i]@
            &&& texts_view(r.cost_by_model[i].cost@) == t.cost_terms
            &&& r.cost_by_model[i].span_count == t.span_count
            &&& r.tokens_by_model[i].model@ == r.models_used[i]@
            &&& r.tokens_by_model[i].input_tokens == t.input_tokens
            &&& r.tokens_by_model[i].output_tokens == t.output_tokens
            &&& r.tokens_by_model[i].total_tokens == token_sum(t.input_tokens, t.output_tokens)
        }
    &&& forall|s: SpanView| #[trigger]
        llm_of(spans).contains(s) ==> texts_view(r.models_used@).contains(
            field_value(s, GroupByField::Model),
        )
    &&& forall|s: SpanView| #[trigger]
        provided_of(spans).contains(s) ==> texts_view(r.providers_used@).contains(
            field_value(s, GroupByField::Provider),
        )
    &&& forall|i: int|
        0 <= i < r.providers_used.len() ==> key_occurs(
            provided_of(spans),
            seq![GroupByField::Provider],
            provider_key((#[trigger] r.providers_used[i])@),
        )
}

/// Computes the numbers of a dashboard over a list of spans: the errors
/// and the latency of all of them; the count, the cost and the tokens of
/// the calls to a model; and the same for the calls to each model, the
/// models in the order in which they first came.
pub fn compute_summary(spans: &Vec<&Span>, trace_count: usize) -> (r: AnalyticsSummary)
    ensures
        summarises(r, spans_view(spans@), trace_count),
{
    let ghost sv = spans_view(spans@);
    let q_all = query_by(None);
    let q_model = query_by(Some(GroupByField::Model));
    let q_provider = query_by(Some(GroupByField::Provider));
    let all = compute_analytics(spans, &q_all);
    let llm = pick_llm(spans, false);
    let named = pick_llm(spans, true);
    let ghost lv = spans_view(llm@);
    let ghost nv = spans_view(named@);
    let calls = compute_analytics(&llm, &q_all);
    let by_model = compute_analytics(&llm, &q_model);
    let by_provider = compute_analytics(&named, &q_provider);
    let ghost model_fields = seq![GroupByField::Model];
    let ghost provider_fields = seq![GroupByField::Provider];

    let mut models_used: Vec<String> = Vec::new();
    let mut cost_by_model: Vec<ModelCost> = Vec::new();
    let mut tokens_by_model: Vec<ModelTokens> = Vec::new();
    let mut i: usize = 0;
    while i < by_model.groups.len()
        invariant
            i <= by_model.groups.len(),
            lv == llm_of(sv),
            lv == spans_view(llm@),
            model_fields == seq![GroupByField::Model],
            models_used.len() == i,
            cost_by_model.len() == i,
            tokens_by_model.len() == i,
            forall|g: int|
                0 <= g < by_model.groups.len() ==> (#[trigger] by_model.groups[g]).metrics@
                    == totals_of(
                    of_group(lv, model_fields, pairs_view(by_model.groups[g].key@)),
                ).metrics(query_metrics()),
            forall|g: int|
                0 <= g < by_model.groups.len() ==> key_occurs(
                    lv,
                    model_fields,
                    pairs_view((#[trigger] by_model.groups[g]).key@),
                ),
            forall|g: int|
                0 <= g < by_model.groups.len() ==> totals_of(
                    of_group(lv, model_fields, pairs_view((#[trigger] by_model.groups[g]).key@)),
                ).within(llm.len() as int),
            forall|g: int|
                0 <= g < i ==> pairs_view(by_model.groups[g].key@) == model_key(
                    (#[trigger] models_used[g])@,
                ),
            forall|g: int|
                0 <= g < i ==> {
                    let t = totals_of(calls_to(sv, (#[trigger] models_used[g])@));
                    &&& t.span_count > 0
                    &&& cost_by_model[g].model@ == models_used[g]@
                    &&& texts_view(cost_by_model[g].cost@) == t.cost_terms
                    &&& cost_by_model[g].span_count == t.span_count
                    &&& tokens_by_model[g].model@ == models_used[g]@
                    &&& tokens_by_model[g].input_tokens == t.input_tokens
                    &&& tokens_by_model[g].output_tokens == t.output_tokens
                    &&& tokens_by_model[g].total_tokens == token_sum(
                        t.input_tokens,
                        t.output_tokens,
                    )
                },
        decreases by_model.groups.len() - i,
    {
        let group = &by_model.groups[i];
        let ghost key = pairs_view(group.key@);
        let ghost t = totals_of(of_group(lv, model_fields, key));
        proof {
            assert(key_occurs(lv, model_fields, key));
            let j = choose|j: int|
                0 <= j < lv.len() && group_key(#[trigger] lv[j], model_fields) == key;
            lemma_single_field_key(lv[j], GroupByField::Model);
            lemma_group_not_empty(lv, model_fields, key);
            lemma_span_count(of_group(lv, model_fields, key));
            lemma_query_metrics(t);
            assert(t.within(llm.len() as int));
        }
        assert(group.key.len() == 1);
        let name = group.key[0].1.clone();
        let name2 = name.clone();
        let name3 = name.clone();
        proof {
            reveal_strlit("model");
            assert(key =~= model_key(name@));
        }
        let cost = match &group.metrics.total_cost {
            Some(terms) => crate::text::clone_texts(terms),
            None => Vec::new(),
        };
        let count = match group.metrics.span_count {
            Some(n) => n,
            None => 0,
        };
        let input_tokens = match group.metrics.total_input_tokens {
            Some(n) => n,
            None => 0,
        };
        let output_tokens = match group.metrics.total_output_tokens {
            Some(n) => n,
            None => 0,
        };
        assert(count == t.span_count);
        models_used.push(name);
        cost_by_model.push(ModelCost { model: name2, cost, span_count: count as usize });
        tokens_by_model.push(
            ModelTokens {
                model: name3,
                input_tokens,
                output_tokens,
                total_tokens: add_tokens(input_tokens, output_tokens),
            },
        );
        i = i + 1;
    }
    let mut providers_used: Vec<String> = Vec::new();
    let mut p: usize = 0;
    while p < by_provider.groups.len()
        invariant
            p <= by_provider.groups.len(),
            nv == spans_view(named@),
            provider_fields == seq![GroupByField::Provider],
            providers_used.len() == p,
            forall|g: int|
                0 <= g < by_provider.groups.len() ==> key_occurs(
                    nv,
                    provider_fields,
                    pairs_view((#[trigger] by_provider.groups[g]).key@),
                ),
            forall|g: int|
                0 <= g < p ==> pairs_view(by_provider.groups[g].key@) == provider_key(
                    (#[trigger] providers_used[g])@,
                ),
        decreases by_provider.groups.len() - p,
    {
        let group = &by_provider.groups[p];
        let ghost key = pairs_view(group.key@);
        proof {
            assert(key_occurs(nv, provider_fields, key));
            let j = choose|j: int|
                0 <= j < nv.len() && group_key(#[trigger] nv[j], provider_fields) == key;
            lemma_single_field_key(nv[j], GroupByField::Provider);
        }
        assert(group.key.len() == 1);
        let name = group.key[0].1.clone();
        proof {
            reveal_strlit("provider");
            assert(key =~= provider_key(name@));
        }
        providers_used.push(name);
        p = p + 1;
    }
    proof {
        lemma_query_metrics(totals_of(lv));
        lemma_query_metrics(totals_of(sv));
        lemma_span_count(lv);
    }
    let total_cost = match &calls.totals.total_cost {
        Some(terms) => crate::text::clone_texts(terms),
        None => Vec::new(),
    };
    let total_tokens = match calls.totals.total_tokens {
        Some(n) => n,
        None => 0,
    };
    let total_llm_calls = match calls.totals.span_count {
        Some(n) => n,
        None => 0,
    };
    let error_count = match all.totals.error_count {
        Some(n) => n,
        None => 0,
    };
    let avg_latency_ms = match all.totals.avg_latency_ms {
        Some(l) => l,
        None => Latency { sum_ms: 0, count: 0 },
    };
    assert(total_llm_calls == llm.len());
    assert(error_count <= spans.len());
    let r = AnalyticsSummary {
        total_traces: trace_count,
        total_spans: spans.len(),
        total_llm_calls: total_llm_calls as usize,
        total_cost,
        total_tokens,
        avg_latency_ms,
        error_count: error_count as usize,
        models_used,
        providers_used,
        cost_by_model,
        tokens_by_model,
    };
    proof {
        let names = texts_view(r.models_used@);
        let mk = group_keys(by_model.groups@);
        assert forall|a: int, b: int| 0 <= a < names.len() && 0 <= b < names.len() && a
            != b implies names[a] != names[b] by {
            assert(mk[a] == model_key(r.models_used[a]@));
            assert(mk[b] == model_key(r.models_used[b]@));
            if names[a] == names[b] {
                assert(mk[a] == mk[b]);
            }
        }
        let pnames = texts_view(r.providers_used@);
        let pk = group_keys(by_provider.groups@);
        assert forall|a: int, b: int| 0 <= a < pnames.len() && 0 <= b < pnames.len() && a
            != b implies pnames[a] != pnames[b] by {
            assert(pk[a] == provider_key(r.providers_used[a]@));
            assert(pk[b] == provider_key(r.providers_used[b]@));
            if pnames[a] == pnames[b] {
                assert(pk[a] == pk[b]);
            }
        }
        assert forall|s: SpanView| #[trigger] lv.contains(s) implies names.contains(
            field_value(s, GroupByField::Model),
        ) by {
            let k = choose|k: int| 0 <= k < lv.len() && lv[k] == s;
            assert(llm[k]@ == lv[k]);
            assert(has_key(mk, group_key(llm[k]@, model_fields)));
            let g = choose|g: int|
                0 <= g < mk.len() && #[trigger] mk[g] == group_key(llm[k]@, model_fields);
            lemma_single_field_key(s, GroupByField::Model);
            assert(mk[g] == model_key(r.models_used[g]@));
            assert(mk[g][0] == model_key(r.models_used[g]@)[0]);
            assert(names[g] == field_value(s, GroupByField::Model));
        }
        assert forall|s: SpanView| #[trigger] nv.contains(s) implies pnames.contains(
            field_value(s, GroupByField::Provider),
        ) by {
            let k = choose|k: int| 0 <= k < nv.len() && nv[k] == s;
            assert(named[k]@ == nv[k]);
            assert(has_key(pk, group_key(named[k]@, provider_fields)));
            let g = choose|g: int|
                0 <= g < pk.len() && #[trigger] pk[g] == group_key(named[k]@, provider_fields);
            lemma_single_field_key(s, GroupByField::Provider);
            assert(pk[g] == provider_key(r.providers_used[g]@));
            assert(pk[g][0] == provider_key(r.providers_used[g]@)[0]);
            assert(pnames[g] == field_value(s, GroupByField::Provider));
        }
    }
    r
}

} // verus!
