use crate::json::JsonView;
use crate::storage::filter::SpanFilterView;
use crate::storage::persistent::{spans_loaded, PersistentStoreView};
use crate::storage::store::{lemma_inserted_wf, SpanStoreView};
use crate::trace::kind::SpanKindView;
use crate::trace::span::{SpanBuilderView, SpanId, SpanView};
use vstd::prelude::*;

verus! {

/// A span with an end that is not before its start has a duration that
/// is not negative.
pub proof fn lemma_duration_not_negative(s: SpanView)
    requires
        s.ended_at.is_some(),
        s.started_at <= s.ended_at.unwrap(),
    ensures
        s.duration_ms().is_some(),
        s.duration_ms().unwrap() >= 0,
{
}

/// A span that started at `start` and ended at `end`, in whichever of the
/// three ways, has ended, knows its end, and, where the clock did not step
/// back in between, ended no earlier than it started and lasted no less
/// than nothing.
pub proof fn lemma_ended_span_times(
    b: SpanBuilderView,
    id: SpanId,
    start: int,
    end: int,
    output: Option<JsonView>,
    error: Seq<char>,
    kind: SpanKindView,
)
    requires
        start <= end,
    ensures
        ({
            let s = b.started(id, start);
            let done = s.completed(output, end);
            let failed = s.failed(error, end);
            let changed = s.completed_as(kind, output, end);
            &&& s.consistent() && !s.is_terminal()
            &&& done.is_terminal() && done.consistent() && done.started_at <= done.ended_at.unwrap()
                && done.duration_ms().unwrap() >= 0
            &&& failed.is_terminal() && failed.consistent() && failed.started_at
                <= failed.ended_at.unwrap() && failed.duration_ms().unwrap() >= 0
            &&& changed.is_terminal() && changed.consistent() && changed.started_at
                <= changed.ended_at.unwrap() && changed.duration_ms().unwrap() >= 0
        }),
{
}

/// Every span of a store whose indexes agree knows its end exactly when
/// it has ended, and keeps doing so through every transition.
pub proof fn lemma_stored_span_is_consistent(
    v: PersistentStoreView,
    id: SpanId,
    output: Option<JsonView>,
    error: Seq<char>,
    kind: SpanKindView,
    now: int,
)
    requires
        v.wf(),
        v.memory.spans.contains_key(id),
    ensures
        v.memory.spans[id].consistent(),
        v.memory.spans[id].ended_at.is_some() == v.memory.spans[id].is_terminal(),
        v.memory.spans[id].completed(output, now).consistent(),
        v.memory.spans[id].failed(error, now).consistent(),
        v.memory.spans[id].completed_as(kind, output, now).consistent(),
{
}

/// True when no stored span ended before it started.
pub open spec fn ends_in_order(v: SpanStoreView) -> bool {
    forall|id: SpanId| #[trigger]
        v.spans.contains_key(id) ==> (v.spans[id].ended_at matches Some(end)
            ==> v.spans[id].started_at <= end)
}

/// A store in which no span ended before it started stays so through
/// every transition at an instant that is not before the start of the
/// span, and through the start of every span: as long as the clock does
/// not step back, every stored span that has ended has a duration that is
/// not negative.
pub proof fn lemma_order_is_kept(
    v: PersistentStoreView,
    id: SpanId,
    output: Option<JsonView>,
    error: Seq<char>,
    kind: SpanKindView,
    now: int,
    b: SpanBuilderView,
    fresh: SpanId,
)
    requires
        v.wf(),
        ends_in_order(v.memory),
        v.can_end(id) ==> v.memory.spans[id].started_at <= now,
    ensures
        ends_in_order(v.span_completed(id, output, now).memory),
        ends_in_order(v.span_failed(id, error, now).memory),
        ends_in_order(v.span_completed_as(id, kind, output, now).memory),
        ends_in_order(v.with_span(b.started(fresh, now)).memory),
        forall|other: SpanId| #[trigger]
            v.memory.spans.contains_key(other) && v.memory.spans[other].ended_at.is_some()
                ==> v.memory.spans[other].duration_ms().unwrap() >= 0,
{
    let a = v.span_completed(id, output, now).memory;
    assert forall|x: SpanId| #[trigger] a.spans.contains_key(x) implies (a.spans[x].ended_at matches Some(
        end,
    ) ==> a.spans[x].started_at <= end) by {
        if x != id {
            assert(v.memory.spans.contains_key(x));
        }
    }
    let f = v.span_failed(id, error, now).memory;
    assert forall|x: SpanId| #[trigger] f.spans.contains_key(x) implies (f.spans[x].ended_at matches Some(
        end,
    ) ==> f.spans[x].started_at <= end) by {
        if x != id {
            assert(v.memory.spans.contains_key(x));
        }
    }
    let c = v.span_completed_as(id, kind, output, now).memory;
    assert forall|x: SpanId| #[trigger] c.spans.contains_key(x) implies (c.spans[x].ended_at matches Some(
        end,
    ) ==> c.spans[x].started_at <= end) by {
        if x != id {
            assert(v.memory.spans.contains_key(x));
        }
    }
    let n = v.with_span(b.started(fresh, now)).memory;
    assert forall|x: SpanId| #[trigger] n.spans.contains_key(x) implies (n.spans[x].ended_at matches Some(
        end,
    ) ==> n.spans[x].started_at <= end) by {
        if x != fresh {
            assert(v.memory.spans.contains_key(x));
        }
    }
}

/// A span that has ended stays as it is, whatever transition is asked of
/// it: it ends at most once.
pub proof fn lemma_ended_span_is_final(
    s: SpanView,
    output: Option<JsonView>,
    error: Seq<char>,
    kind: SpanKindView,
    now: int,
)
    requires
        s.is_terminal(),
    ensures
        s.completed(output, now) == s,
        s.failed(error, now) == s,
        s.completed_as(kind, output, now) == s,
{
}

/// Every transition of a running span ends it.
pub proof fn lemma_transition_ends(
    s: SpanView,
    output: Option<JsonView>,
    error: Seq<char>,
    kind: SpanKindView,
    now: int,
)
    ensures
        s.completed(output, now).is_terminal(),
        s.failed(error, now).is_terminal(),
        s.completed_as(kind, output, now).is_terminal(),
        s.completed(output, now).id == s.id,
        s.failed(error, now).id == s.id,
        s.completed_as(kind, output, now).id == s.id,
{
}

/// After the store has ended a span, in whichever way, it refuses every
/// further transition of that span: the store stays as it is, its kind
/// included, and the request is answered with nothing.
pub proof fn lemma_second_transition_refused(
    v: PersistentStoreView,
    id: SpanId,
    output: Option<JsonView>,
    error: Seq<char>,
    kind: SpanKindView,
    now: int,
    output2: Option<JsonView>,
    error2: Seq<char>,
    kind2: SpanKindView,
    later: int,
)
    requires
        v.wf(),
        v.can_end(id),
    ensures
        ({
            let a = v.span_completed(id, output, now);
            let b = v.span_failed(id, error, now);
            let c = v.span_completed_as(id, kind, output, now);
            &&& !a.can_end(id) && !b.can_end(id) && !c.can_end(id)
            &&& a.span_completed(id, output2, later) == a && a.span_failed(id, error2, later) == a
                && a.span_completed_as(id, kind2, output2, later) == a
            &&& b.span_completed(id, output2, later) == b && b.span_failed(id, error2, later) == b
                && b.span_completed_as(id, kind2, output2, later) == b
            &&& c.span_completed(id, output2, later) == c && c.span_failed(id, error2, later) == c
                && c.span_completed_as(id, kind2, output2, later) == c
        }),
{
}

/// A transition of a span leaves the lists of the traces as they are: a
/// span keeps its place in its trace when it ends.
pub proof fn lemma_transition_keeps_index(
    v: PersistentStoreView,
    id: SpanId,
    output: Option<JsonView>,
    now: int,
)
    requires
        v.wf(),
    ensures
        v.span_completed(id, output, now).memory.traces == v.memory.traces,
        v.span_completed(id, output, now).wf(),
{
    if v.can_end(id) {
        lemma_inserted_wf(v.memory, v.memory.spans[id].completed(output, now));
    }
}

/// True when no two spans of a list share an identifier.
pub open spec fn distinct_ids(spans: Seq<SpanView>) -> bool {
    forall|i: int, j: int| 0 <= i < j < spans.len() ==> spans[i].id != spans[j].id
}

/// A store that was filled from a list of spans with distinct identifiers
/// holds each span of the list under its identifier, and nothing else.
pub proof fn lemma_loaded_holds_the_list(spans: Seq<SpanView>)
    requires
        distinct_ids(spans),
    ensures
        forall|i: int|
            0 <= i < spans.len() ==> spans_loaded(spans).spans.contains_key(
                #[trigger] spans[i].id,
            ) && spans_loaded(spans).spans[spans[i].id] == spans[i],
        forall|id: SpanId|
            spans_loaded(spans).spans.contains_key(id) ==> exists|i: int|
                0 <= i < spans.len() && #[trigger] spans[i].id == id,
    decreases spans.len(),
{
    if spans.len() > 0 {
        let rest = spans.drop_last();
        lemma_loaded_holds_the_list(rest);
        let prev = spans_loaded(rest);
        let last = spans.last();
        assert(spans_loaded(spans).spans == prev.spans.insert(last.id, last));
        assert forall|i: int| 0 <= i < spans.len() implies spans_loaded(spans).spans.contains_key(
            #[trigger] spans[i].id,
        ) && spans_loaded(spans).spans[spans[i].id] == spans[i] by {
            if i < rest.len() {
                assert(rest[i] == spans[i]);
                assert(spans[i].id != spans[spans.len() - 1].id);
            }
        }
        assert forall|id: SpanId| spans_loaded(spans).spans.contains_key(id) implies exists|i: int|
            0 <= i < spans.len() && #[trigger] spans[i].id == id by {
            if id == last.id {
                assert(spans[spans.len() - 1].id == id);
            } else {
                let i = choose|i: int| 0 <= i < rest.len() && #[trigger] rest[i].id == id;
                assert(spans[i].id == id);
            }
        }
    }
}

/// What a filter finds does not depend on the order in which the spans
/// came: two stores filled from the same spans, each list with distinct
/// identifiers, hold the same spans, and every filter matches the same of
/// them.
pub proof fn lemma_filter_ignores_order(a: Seq<SpanView>, b: Seq<SpanView>, f: SpanFilterView)
    requires
        distinct_ids(a),
        distinct_ids(b),
        a.to_set() == b.to_set(),
    ensures
        spans_loaded(a).spans == spans_loaded(b).spans,
        spans_loaded(a).matching(f) == spans_loaded(b).matching(f),
{
    lemma_loaded_holds_the_list(a);
    lemma_loaded_holds_the_list(b);
    let ma = spans_loaded(a).spans;
    let mb = spans_loaded(b).spans;
    assert forall|id: SpanId| ma.contains_key(id) implies mb.contains_key(id) && mb[id] == ma[id] by {
        let i = choose|i: int| 0 <= i < a.len() && #[trigger] a[i].id == id;
        assert(a.to_set().contains(a[i]));
        assert(b.to_set().contains(a[i]));
        let j = choose|j: int| 0 <= j < b.len() && b[j] == a[i];
        assert(mb.contains_key(b[j].id));
    }
    assert forall|id: SpanId| mb.contains_key(id) implies ma.contains_key(id) by {
        let i = choose|i: int| 0 <= i < b.len() && #[trigger] b[i].id == id;
        assert(b.to_set().contains(b[i]));
        assert(a.to_set().contains(b[i]));
        let j = choose|j: int| 0 <= j < a.len() && a[j] == b[i];
        assert(ma.contains_key(a[j].id));
    }
    assert(ma =~= mb);
    assert(spans_loaded(a).matching(f) =~= spans_loaded(b).matching(f));
}

/// A filter with no field set matches every span.
pub proof fn lemma_empty_filter_matches_all(v: SpanStoreView, s: SpanView)
    ensures
        SpanFilterView::empty().matches(s),
        v.matching(SpanFilterView::empty()) == v.spans.dom(),
{
    assert(v.matching(SpanFilterView::empty()) =~= v.spans.dom());
}

} // verus!
