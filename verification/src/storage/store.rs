use crate::storage::filter::{SpanFilter, SpanFilterView};
use crate::trace::span::{Span, SpanId, SpanView, TraceId};
use std::collections::HashMap;
use vstd::prelude::*;
use vstd::std_specs::iter::IteratorSpec;

verus! {

broadcast use vstd::std_specs::hash::group_hash_axioms;

/// The spans in memory, found by their own identifier and by the trace
/// they belong to.
pub struct SpanStore {
    spans: HashMap<SpanId, Span>,
    traces: HashMap<TraceId, Vec<SpanId>>,
}

/// The mathematical value of a [`SpanStore`]: each stored span under its
/// identifier, and for each trace with spans the identifiers of its spans
/// in the order in which they came.
pub struct SpanStoreView {
    pub spans: Map<SpanId, SpanView>,
    pub traces: Map<TraceId, Seq<SpanId>>,
}

/// The values of the spans of a map.
pub open spec fn spans_view(m: Map<SpanId, Span>) -> Map<SpanId, SpanView> {
    Map::new(|id: SpanId| m.contains_key(id), |id: SpanId| m[id]@)
}

/// The lists of a map of traces.
pub open spec fn traces_view(m: Map<TraceId, Vec<SpanId>>) -> Map<TraceId, Seq<SpanId>> {
    Map::new(|t: TraceId| m.contains_key(t), |t: TraceId| m[t]@)
}

impl View for SpanStore {
    type V = SpanStoreView;

    closed spec fn view(&self) -> SpanStoreView {
        SpanStoreView { spans: spans_view(self.spans@), traces: traces_view(self.traces@) }
    }
}

/// `list` without the entry at position `i`, for a list that names nothing
/// twice: the rest names what `list` named but for that entry.
pub proof fn lemma_remove_at(list: Seq<SpanId>, i: int)
    requires
        list.no_duplicates(),
        0 <= i < list.len(),
    ensures
        list.remove(i).no_duplicates(),
        list.remove(i).len() == list.len() - 1,
        forall|x: SpanId| #[trigger]
            list.remove(i).contains(x) <==> (list.contains(x) && x != list[i]),
{
    let rest = list.remove(i);
    assert forall|a: int, b: int| 0 <= a < rest.len() && 0 <= b < rest.len() && a != b implies rest[a]
        != rest[b] by {
        let a0 = if a < i {
            a
        } else {
            a + 1
        };
        let b0 = if b < i {
            b
        } else {
            b + 1
        };
        assert(rest[a] == list[a0]);
        assert(rest[b] == list[b0]);
    }
    assert forall|x: SpanId| #[trigger] rest.contains(x) <==> (list.contains(x) && x != list[i]) by {
        if rest.contains(x) {
            let a = choose|a: int| 0 <= a < rest.len() && rest[a] == x;
            let a0 = if a < i {
                a
            } else {
                a + 1
            };
            assert(list[a0] == x);
        }
        if list.contains(x) && x != list[i] {
            let a0 = choose|a0: int| 0 <= a0 < list.len() && list[a0] == x;
            let a = if a0 < i {
                a0
            } else {
                a0 - 1
            };
            assert(rest[a] == x);
        }
    }
}

/// `list` without `id`, for a list that names nothing twice.
pub open spec fn without(list: Seq<SpanId>, id: SpanId) -> Seq<SpanId> {
    if list.contains(id) {
        list.remove(list.index_of(id))
    } else {
        list
    }
}

impl SpanStoreView {
    /// The store that holds nothing.
    pub open spec fn empty() -> SpanStoreView {
        SpanStoreView { spans: Map::empty(), traces: Map::empty() }
    }

    /// The two indexes agree: a span is stored under its own identifier,
    /// the list of a trace names exactly the stored spans of that trace,
    /// each once, and a trace without spans has no list.
    pub open spec fn wf(self) -> bool {
        &&& self.spans.dom().finite()
        &&& self.traces.dom().finite()
        &&& forall|id: SpanId| #[trigger]
            self.spans.contains_key(id) ==> self.spans[id].id == id && self.spans[id].consistent()
                && self.traces.contains_key(self.spans[id].trace_id)
                && self.traces[self.spans[id].trace_id].contains(id)
        &&& forall|t: TraceId| #[trigger]
            self.traces.contains_key(t) ==> self.traces[t].len() > 0
                && self.traces[t].no_duplicates()
        &&& forall|t: TraceId, i: int|
            self.traces.contains_key(t) && 0 <= i < self.traces[t].len()
                ==> self.spans.contains_key(#[trigger] self.traces[t][i])
                && self.spans[self.traces[t][i]].trace_id == t
    }

    /// The identifiers of the spans of a trace, in the order in which they
    /// came; empty for a trace without spans.
    pub open spec fn span_ids_of(self, t: TraceId) -> Seq<SpanId> {
        if self.traces.contains_key(t) {
            self.traces[t]
        } else {
            Seq::empty()
        }
    }

    /// The lists of the traces after the span `id` left its trace.
    pub open spec fn unlinked(self, id: SpanId) -> Map<TraceId, Seq<SpanId>> {
        if self.spans.contains_key(id) {
            let t = self.spans[id].trace_id;
            let rest = without(self.traces[t], id);
            if rest.len() == 0 {
                self.traces.remove(t)
            } else {
                self.traces.insert(t, rest)
            }
        } else {
            self.traces
        }
    }

    /// The store after `s` was put in.  A span that takes the place of one
    /// of the same trace keeps that one's position in the list of the
    /// trace; any other comes last in the list of its trace.
    pub open spec fn inserted(self, s: SpanView) -> SpanStoreView {
        if self.spans.contains_key(s.id) && self.spans[s.id].trace_id == s.trace_id {
            SpanStoreView { spans: self.spans.insert(s.id, s), traces: self.traces }
        } else {
            let base = self.unlinked(s.id);
            let list = if base.contains_key(s.trace_id) {
                base[s.trace_id].push(s.id)
            } else {
                seq![s.id]
            };
            SpanStoreView {
                spans: self.spans.insert(s.id, s),
                traces: base.insert(s.trace_id, list),
            }
        }
    }

    /// The store after the span `id` was taken out.
    pub open spec fn deleted(self, id: SpanId) -> SpanStoreView {
        SpanStoreView { spans: self.spans.remove(id), traces: self.unlinked(id) }
    }

    /// The store after a trace was taken out with all its spans.
    pub open spec fn without_trace(self, t: TraceId) -> SpanStoreView {
        SpanStoreView {
            spans: self.spans.remove_keys(self.span_ids_of(t).to_set()),
            traces: self.traces.remove(t),
        }
    }

    /// The identifiers of the stored spans that a filter matches.
    pub open spec fn matching(self, f: SpanFilterView) -> Set<SpanId> {
        Set::new(|id: SpanId| self.spans.contains_key(id) && f.matches(self.spans[id]))
    }

    /// The identifiers of the stored spans of a trace.
    pub open spec fn members(self, t: TraceId) -> Set<SpanId> {
        Set::new(|id: SpanId| self.spans.contains_key(id) && self.spans[id].trace_id == t)
    }
}

/// In a store whose indexes agree, the list of a trace names exactly the
/// stored spans whose trace it is, each once.
pub proof fn lemma_list_is_members(v: SpanStoreView, t: TraceId)
    requires
        v.wf(),
    ensures
        v.span_ids_of(t).to_set() == v.members(t),
        v.span_ids_of(t).no_duplicates(),
{
    let list = v.span_ids_of(t);
    assert forall|id: SpanId| list.to_set().contains(id) <==> v.members(t).contains(id) by {
        if list.to_set().contains(id) {
            let i = choose|i: int| 0 <= i < list.len() && list[i] == id;
            assert(v.spans.contains_key(v.traces[t][i]));
        }
        if v.members(t).contains(id) {
            assert(v.spans.contains_key(id));
        }
    }
    assert(list.to_set() =~= v.members(t));
}

proof fn lemma_without(list: Seq<SpanId>, id: SpanId)
    requires
        list.no_duplicates(),
    ensures
        without(list, id).no_duplicates(),
        forall|x: SpanId| #[trigger] without(list, id).contains(x) <==> (list.contains(x) && x != id),
        list.contains(id) ==> without(list, id).len() == list.len() - 1,
{
    if list.contains(id) {
        let i = list.index_of(id);
        lemma_remove_at(list, i);
    }
}

/// Taking a span out keeps the indexes in agreement.
pub proof fn lemma_deleted_wf(v: SpanStoreView, id: SpanId)
    requires
        v.wf(),
    ensures
        v.deleted(id).wf(),
{
    let w = v.deleted(id);
    if v.spans.contains_key(id) {
        let t = v.spans[id].trace_id;
        lemma_without(v.traces[t], id);
        let rest = without(v.traces[t], id);
        assert forall|x: SpanId| #[trigger] w.spans.contains_key(x) implies w.spans[x].id == x
            && w.traces.contains_key(w.spans[x].trace_id) && w.traces[w.spans[x].trace_id].contains(
            x,
        ) by {
            assert(v.spans.contains_key(x));
            if v.spans[x].trace_id == t {
                assert(rest.contains(x));
            }
        }
        assert forall|t2: TraceId, i: int|
            w.traces.contains_key(t2) && 0 <= i < w.traces[t2].len() implies w.spans.contains_key(
            #[trigger] w.traces[t2][i],
        ) && w.spans[w.traces[t2][i]].trace_id == t2 by {
            if t2 == t {
                assert(rest.contains(rest[i]));
                let j = choose|j: int| 0 <= j < v.traces[t].len() && v.traces[t][j] == rest[i];
                assert(v.spans.contains_key(v.traces[t][j]));
            } else {
                assert(v.spans.contains_key(v.traces[t2][i]));
            }
        }
    } else {
        assert(w.spans =~= v.spans);
        assert(w == v);
    }
}

/// Putting a span in that knows its end exactly when it has ended keeps
/// the indexes in agreement.
pub proof fn lemma_inserted_wf(v: SpanStoreView, s: SpanView)
    requires
        v.wf(),
        s.consistent(),
    ensures
        v.inserted(s).wf(),
{
    let w = v.inserted(s);
    if v.spans.contains_key(s.id) && v.spans[s.id].trace_id == s.trace_id {
        assert forall|t2: TraceId, i: int|
            w.traces.contains_key(t2) && 0 <= i < w.traces[t2].len() implies w.spans.contains_key(
            #[trigger] w.traces[t2][i],
        ) && w.spans[w.traces[t2][i]].trace_id == t2 by {
            assert(v.spans.contains_key(v.traces[t2][i]));
        }
    } else {
        lemma_deleted_wf(v, s.id);
        let d = v.deleted(s.id);
        let base = v.unlinked(s.id);
        assert(d.traces == base);
        let list = w.traces[s.trace_id];
        assert(!d.spans.contains_key(s.id));
        if base.contains_key(s.trace_id) {
            let prev = base[s.trace_id];
            assert(!prev.contains(s.id)) by {
                if prev.contains(s.id) {
                    let j = choose|j: int| 0 <= j < prev.len() && prev[j] == s.id;
                    assert(d.spans.contains_key(d.traces[s.trace_id][j]));
                }
            }
            assert(list.no_duplicates()) by {
                assert forall|a: int, b: int|
                    0 <= a < list.len() && 0 <= b < list.len() && a != b implies list[a]
                    != list[b] by {
                    if a < prev.len() {
                        assert(prev.contains(prev[a]));
                    }
                    if b < prev.len() {
                        assert(prev.contains(prev[b]));
                    }
                }
            }
            assert(list[prev.len() as int] == s.id);
        } else {
            assert(list[0] == s.id);
        }
        assert(list.contains(s.id));
        assert forall|x: SpanId| #[trigger] w.spans.contains_key(x) implies w.spans[x].id == x
            && w.traces.contains_key(w.spans[x].trace_id) && w.traces[w.spans[x].trace_id].contains(
            x,
        ) by {
            if x != s.id {
                assert(d.spans.contains_key(x));
                let tx = d.spans[x].trace_id;
                if tx == s.trace_id {
                    let prev = base[s.trace_id];
                    let j = choose|j: int| 0 <= j < prev.len() && prev[j] == x;
                    assert(list[j] == x);
                }
            }
        }
        assert forall|t2: TraceId, i: int|
            w.traces.contains_key(t2) && 0 <= i < w.traces[t2].len() implies w.spans.contains_key(
            #[trigger] w.traces[t2][i],
        ) && w.spans[w.traces[t2][i]].trace_id == t2 by {
            if t2 == s.trace_id {
                if base.contains_key(s.trace_id) && i < base[s.trace_id].len() {
                    assert(d.spans.contains_key(d.traces[t2][i]));
                }
            } else {
                assert(d.spans.contains_key(d.traces[t2][i]));
            }
        }
    }
}

/// Taking a trace out keeps the indexes in agreement.
pub proof fn lemma_without_trace_wf(v: SpanStoreView, t: TraceId)
    requires
        v.wf(),
    ensures
        v.without_trace(t).wf(),
{
    let w = v.without_trace(t);
    lemma_list_is_members(v, t);
    assert(w.spans.dom().subset_of(v.spans.dom()));
    vstd::set_lib::lemma_set_subset_finite(v.spans.dom(), w.spans.dom());
    assert forall|x: SpanId| #[trigger] w.spans.contains_key(x) implies w.spans[x].id == x
        && w.traces.contains_key(w.spans[x].trace_id) && w.traces[w.spans[x].trace_id].contains(
        x,
    ) by {
        assert(v.spans.contains_key(x));
        assert(!v.span_ids_of(t).to_set().contains(x));
        if v.spans[x].trace_id == t {
            assert(v.members(t).contains(x));
        }
    }
    assert forall|t2: TraceId, i: int|
        w.traces.contains_key(t2) && 0 <= i < w.traces[t2].len() implies w.spans.contains_key(
        #[trigger] w.traces[t2][i],
    ) && w.spans[w.traces[t2][i]].trace_id == t2 by {
        let x = v.traces[t2][i];
        assert(v.spans.contains_key(x));
        if v.span_ids_of(t).to_set().contains(x) {
            assert(v.members(t).contains(x));
        }
    }
}

/// Takes `id` out of the list of the trace `t`, and the list out of the
/// map where nothing is left in it.
fn unlink(traces: &mut HashMap<TraceId, Vec<SpanId>>, t: TraceId, id: SpanId)
    requires
        old(traces)@.contains_key(t),
        old(traces)@[t]@.no_duplicates(),
        old(traces)@[t]@.contains(id),
    ensures
        traces_view(final(traces)@) == ({
            let rest = without(old(traces)@[t]@, id);
            if rest.len() == 0 {
                traces_view(old(traces)@).remove(t)
            } else {
                traces_view(old(traces)@).insert(t, rest)
            }
        }),
{
    let ghost before = traces@;
    let taken = traces.remove(&t);
    match taken {
        Some(list) => {
            let mut list = list;
            let ghost full = list@;
            let mut i: usize = 0;
            while i < list.len() && list[i] != id
                invariant
                    i <= list.len(),
                    list@ == full,
                    full.contains(id),
                    forall|j: int| 0 <= j < i ==> full[j] != id,
                decreases list.len() - i,
            {
                i = i + 1;
            }
            assert(i < list.len()) by {
                let k = choose|k: int| 0 <= k < full.len() && full[k] == id;
                assert(k >= i);
            }
            proof {
                let k = full.index_of(id);
                assert(full[k] == id);
                assert(k == i as int);
            }
            list.remove(i);
            assert(list@ == without(full, id));
            if list.len() > 0 {
                traces.insert(t, list);
                assert(traces_view(traces@) =~= traces_view(before).insert(t, without(full, id)));
            } else {
                assert(traces_view(traces@) =~= traces_view(before).remove(t));
            }
        },
        None => {},
    }
}

impl SpanStore {
    /// The store that holds nothing.
    pub fn new() -> (s: SpanStore)
        ensures
            s@ == SpanStoreView::empty(),
            s@.wf(),
    {
        let s = SpanStore { spans: HashMap::new(), traces: HashMap::new() };
        assert(s@.spans =~= Map::empty());
        assert(s@.traces =~= Map::empty());
        s
    }

    /// Puts `span` in, in the place of the span of the same identifier
    /// where there is one, and returns its identifier.
    pub fn insert(&mut self, span: Span) -> (id: SpanId)
        requires
            old(self)@.wf(),
        ensures
            final(self)@ == old(self)@.inserted(span@),
            final(self)@.wf(),
            id == span@.id,
    {
        let id = span.id();
        let trace_id = span.trace_id();
        let ghost before = self@;
        let ghost old_spans = self.spans@;
        let ghost old_traces = self.traces@;
        proof {
            use_type_invariant(&span);
            lemma_inserted_wf(before, span@);
        }
        let same = match self.spans.get(&id) {
            Some(held) => Some(held.trace_id()),
            None => None,
        };
        match same {
            Some(t) => {
                assert(before.spans.contains_key(id));
                if t != trace_id {
                    unlink(&mut self.traces, t, id);
                    self.link(trace_id, id);
                }
            },
            None => {
                assert(!before.spans.contains_key(id));
                self.link(trace_id, id);
            },
        }
        self.spans.insert(id, span);
        assert(spans_view(self.spans@) =~= before.spans.insert(id, span@));
        id
    }

    /// Puts `id` last in the list of the trace `t`.
    fn link(&mut self, t: TraceId, id: SpanId)
        ensures
            final(self).spans == old(self).spans,
            traces_view(final(self).traces@) == ({
                let base = traces_view(old(self).traces@);
                base.insert(
                    t,
                    if base.contains_key(t) {
                        base[t].push(id)
                    } else {
                        seq![id]
                    },
                )
            }),
    {
        let ghost before = self.traces@;
        let taken = self.traces.remove(&t);
        let mut list = match taken {
            Some(list) => list,
            None => Vec::new(),
        };
        list.push(id);
        proof {
            if !before.contains_key(t) {
                assert(list@ =~= seq![id]);
            }
        }
        self.traces.insert(t, list);
        assert(traces_view(self.traces@) =~= traces_view(before).insert(
            t,
            if traces_view(before).contains_key(t) {
                traces_view(before)[t].push(id)
            } else {
                seq![id]
            },
        ));
    }

    /// The span `id`, if it is stored.  A stored span knows its end
    /// exactly when it has ended.
    pub fn get(&self, id: SpanId) -> (r: Option<&Span>)
        ensures
            match r {
                Some(s) => self@.spans.contains_key(id) && self@.spans[id] == s@
                    && s@.consistent(),
                None => !self@.spans.contains_key(id),
            },
    {
        let r = self.spans.get(&id);
        proof {
            if let Some(s) = r {
                use_type_invariant(s);
            }
        }
        r
    }

    /// Takes the span `id` out and returns it.
    pub fn remove(&mut self, id: SpanId) -> (r: Option<Span>)
        requires
            old(self)@.wf(),
        ensures
            final(self)@.wf(),
            match r {
                Some(s) => old(self)@.spans.contains_key(id) && old(self)@.spans[id] == s@
                    && final(self)@ == old(self)@.deleted(id),
                None => !old(self)@.spans.contains_key(id) && final(self)@ == old(self)@,
            },
    {
        let ghost before = self@;
        proof {
            lemma_deleted_wf(before, id);
        }
        match self.spans.remove(&id) {
            Some(span) => {
                unlink(&mut self.traces, span.trace_id(), id);
                assert(spans_view(self.spans@) =~= before.spans.remove(id));
                Some(span)
            },
            None => {
                assert(spans_view(self.spans@) =~= before.spans);
                None
            },
        }
    }

    /// Puts `span` in the place of the stored span of the same identifier;
    /// where there is none, `span` is put in as by [`SpanStore::insert`].
    pub fn replace(&mut self, span: Span)
        requires
            old(self)@.wf(),
        ensures
            final(self)@ == old(self)@.inserted(span@),
            final(self)@.wf(),
    {
        self.insert(span);
    }

    /// The identifiers of the spans of a trace, in the order in which they
    /// came: exactly the stored spans whose trace it is, each once.
    pub fn spans_for_trace(&self, trace_id: TraceId) -> (r: Vec<SpanId>)
        requires
            self@.wf(),
        ensures
            r@ == self@.span_ids_of(trace_id),
            r@.to_set() == self@.members(trace_id),
            r@.no_duplicates(),
    {
        proof {
            lemma_list_is_members(self@, trace_id);
        }
        match self.traces.get(&trace_id) {
            Some(list) => {
                let mut r: Vec<SpanId> = Vec::new();
                let mut i: usize = 0;
                while i < list.len()
                    invariant
                        i <= list.len(),
                        r@ == list@.subrange(0, i as int),
                    decreases list.len() - i,
                {
                    r.push(list[i]);
                    i = i + 1;
                }
                assert(r@ =~= list@);
                r
            },
            None => {
                let r: Vec<SpanId> = Vec::new();
                assert(r@ =~= Seq::empty());
                r
            },
        }
    }

    /// The traces that have spans, each once, in no particular order.
    pub fn trace_ids(&self) -> (r: Vec<TraceId>)
        ensures
            r@.to_set() == self@.traces.dom(),
            r@.no_duplicates(),
    {
        let mut r: Vec<TraceId> = Vec::new();
        let ghost all: Seq<TraceId> = self.traces.keys().remaining().unref();
        for k in it: self.traces.keys()
            invariant
                r@.len() == it.index(),
                forall|j: int| 0 <= j < r@.len() ==> r@[j] == *it.seq()[j],
                it.seq().unref().to_set() == self.traces@.dom(),
                it.seq().no_duplicates(),
                all == it.seq().unref(),
        {
            r.push(*k);
        }
        assert(r@ =~= all);
        assert(self@.traces.dom() =~= self.traces@.dom());
        r
    }

    /// Every stored span, each once, in no particular order.
    pub fn all_spans(&self) -> (r: Vec<&Span>)
        requires
            self@.wf(),
        ensures
            forall|i: int|
                0 <= i < r.len() ==> self@.spans.contains_key(#[trigger] r[i]@.id)
                    && self@.spans[r[i]@.id] == r[i]@,
            forall|id: SpanId|
                self@.spans.contains_key(id) ==> exists|i: int|
                    0 <= i < r.len() && #[trigger] r[i]@.id == id,
            forall|i: int, j: int| 0 <= i < j < r.len() ==> r[i]@.id != r[j]@.id,
            r.len() == self@.spans.dom().len(),
    {
        let mut r: Vec<&Span> = Vec::new();
        let ghost pairs = self.spans.iter().remaining();
        for pair in it: self.spans.iter()
            invariant
                self@.wf(),
                it.seq() == pairs,
                pairs == self.spans.iter().remaining(),
                pairs.no_duplicates(),
                r@.len() == it.index(),
                forall|j: int| 0 <= j < r@.len() ==> r@[j] == pairs[j].1,
        {
            r.push(pair.1);
        }
        proof {
            assert(self@.spans.dom() =~= self.spans@.dom());
            assert forall|i: int| 0 <= i < r.len() implies self@.spans.contains_key(
                #[trigger] r[i]@.id,
            ) && self@.spans[r[i]@.id] == r[i]@ by {
                assert(self.spans@.contains_key(*pairs[i].0));
                assert(self@.spans.contains_key(*pairs[i].0));
            }
            assert forall|id: SpanId| self@.spans.contains_key(id) implies exists|i: int|
                0 <= i < r.len() && #[trigger] r[i]@.id == id by {
                assert(self.spans@.contains_key(id));
                assert(pairs.contains((&id, &self.spans@[id])));
                let i = choose|i: int| 0 <= i < pairs.len() && pairs[i] == (&id, &self.spans@[id]);
                assert(r[i]@.id == id);
            }
            assert forall|i: int, j: int| 0 <= i < j < r.len() implies r[i]@.id != r[j]@.id by {
                assert(self.spans@.contains_key(*pairs[i].0));
                assert(self.spans@.contains_key(*pairs[j].0));
                assert(self@.spans.contains_key(*pairs[i].0));
                assert(self@.spans.contains_key(*pairs[j].0));
                if r[i]@.id == r[j]@.id {
                    assert(*pairs[i].0 == *pairs[j].0);
                    assert(pairs[i] == pairs[j]);
                }
            }
        }
        r
    }

    /// The number of stored spans.
    pub fn span_count(&self) -> (n: usize)
        ensures
            n == self@.spans.dom().len(),
    {
        assert(self@.spans.dom() =~= self.spans@.dom());
        self.spans.len()
    }

    /// The number of traces that have spans.
    pub fn trace_count(&self) -> (n: usize)
        ensures
            n == self@.traces.dom().len(),
    {
        assert(self@.traces.dom() =~= self.traces@.dom());
        self.traces.len()
    }

    /// Takes the span `id` out; true when it was stored.
    pub fn delete_span(&mut self, id: SpanId) -> (r: bool)
        requires
            old(self)@.wf(),
        ensures
            final(self)@.wf(),
            r == old(self)@.spans.contains_key(id),
            r ==> final(self)@ == old(self)@.deleted(id),
            !r ==> final(self)@ == old(self)@,
    {
        self.remove(id).is_some()
    }

    /// Takes a trace out with all its spans, and returns how many they
    /// were.
    pub fn delete_trace(&mut self, trace_id: TraceId) -> (n: usize)
        requires
            old(self)@.wf(),
        ensures
            final(self)@.wf(),
            final(self)@ == old(self)@.without_trace(trace_id),
            n == old(self)@.span_ids_of(trace_id).len(),
    {
        let ghost before = self@;
        let ghost old_spans = self.spans@;
        proof {
            lemma_without_trace_wf(before, trace_id);
        }
        match self.traces.remove(&trace_id) {
            Some(list) => {
                let n = list.len();
                let ghost rest_traces = self.traces@;
                let mut i: usize = 0;
                while i < list.len()
                    invariant
                        i <= list.len(),
                        self.traces@ == rest_traces,
                        self.spans@ =~= old_spans.remove_keys(list@.subrange(0, i as int).to_set()),
                    decreases list.len() - i,
                {
                    self.spans.remove(&list[i]);
                    proof {
                        let a = list@.subrange(0, i as int);
                        let b = list@.subrange(0, i + 1);
                        assert(b =~= a.push(list@[i as int]));
                        assert(b.to_set() =~= a.to_set().insert(list@[i as int])) by {
                            assert forall|x: SpanId| b.to_set().contains(x) <==> a.to_set().insert(
                                list@[i as int],
                            ).contains(x) by {
                                if b.to_set().contains(x) {
                                    let k = choose|k: int| 0 <= k < b.len() && b[k] == x;
                                    if k < a.len() {
                                        assert(a[k] == x);
                                    }
                                }
                                if a.to_set().contains(x) {
                                    let k = choose|k: int| 0 <= k < a.len() && a[k] == x;
                                    assert(b[k] == x);
                                }
                                if x == list@[i as int] {
                                    assert(b[i as int] == x);
                                }
                            }
                        }
                    }
                    i = i + 1;
                }
                assert(list@.subrange(0, list.len() as int) =~= list@);
                assert(spans_view(self.spans@) =~= before.spans.remove_keys(list@.to_set()));
                assert(traces_view(self.traces@) =~= before.traces.remove(trace_id));
                n
            },
            None => {
                assert(before.span_ids_of(trace_id).to_set() =~= Set::empty());
                assert(spans_view(self.spans@) =~= before.spans.remove_keys(Set::empty()));
                assert(traces_view(self.traces@) =~= before.traces.remove(trace_id));
                0
            },
        }
    }

    /// Takes everything out.
    pub fn clear(&mut self)
        ensures
            final(self)@ == SpanStoreView::empty(),
            final(self)@.wf(),
    {
        self.spans.clear();
        self.traces.clear();
        assert(self@.spans =~= Map::empty());
        assert(self@.traces =~= Map::empty());
    }

    /// The stored spans that `filter` matches: each of them once and no
    /// other, in no particular order.  The result depends on what is
    /// stored alone, not on the order in which it came.
    pub fn filter_spans(&self, filter: &SpanFilter) -> (r: Vec<&Span>)
        requires
            self@.wf(),
        ensures
            forall|i: int|
                0 <= i < r.len() ==> self@.matching(filter@).contains(#[trigger] r[i]@.id)
                    && self@.spans[r[i]@.id] == r[i]@,
            forall|id: SpanId|
                self@.matching(filter@).contains(id) ==> exists|i: int|
                    0 <= i < r.len() && #[trigger] r[i]@.id == id,
            forall|i: int, j: int| 0 <= i < j < r.len() ==> r[i]@.id != r[j]@.id,
    {
        let all = self.all_spans();
        let mut r: Vec<&Span> = Vec::new();
        let ghost mut picked: Seq<int> = Seq::empty();
        let mut k: usize = 0;
        while k < all.len()
            invariant
                k <= all.len(),
                picked.len() == r.len(),
                forall|i: int| 0 <= i < r.len() ==> 0 <= #[trigger] picked[i] < k && r[i] == all[picked[i]],
                forall|i: int, j: int| 0 <= i < j < r.len() ==> picked[i] < picked[j],
                forall|i: int| 0 <= i < r.len() ==> filter@.matches(#[trigger] r[i]@),
                forall|j: int|
                    0 <= j < k && filter@.matches(all[j]@) ==> exists|i: int|
                        0 <= i < r.len() && #[trigger] picked[i] == j,
            decreases all.len() - k,
        {
            let span = all[k];
            if filter.matches(span) {
                let ghost prev = picked;
                r.push(span);
                proof {
                    picked = picked.push(k as int);
                    assert forall|j: int|
                        0 <= j < k + 1 && filter@.matches(all[j]@) implies exists|i: int|
                        0 <= i < r.len() && #[trigger] picked[i] == j by {
                        if j < k {
                            let i = choose|i: int| 0 <= i < prev.len() && #[trigger] prev[i] == j;
                            assert(picked[i] == j);
                        } else {
                            assert(picked[r.len() - 1] == j);
                        }
                    }
                }
            }
            k = k + 1;
        }
        proof {
            assert forall|i: int| 0 <= i < r.len() implies self@.matching(filter@).contains(
                #[trigger] r[i]@.id,
            ) && self@.spans[r[i]@.id] == r[i]@ by {
                let j = picked[i];
                assert(self@.spans.contains_key(all[j]@.id));
            }
            assert forall|id: SpanId| self@.matching(filter@).contains(id) implies exists|i: int|
                0 <= i < r.len() && #[trigger] r[i]@.id == id by {
                let j = choose|j: int| 0 <= j < all.len() && #[trigger] all[j]@.id == id;
                assert(self@.spans.contains_key(all[j]@.id));
                let i = choose|i: int| 0 <= i < r.len() && #[trigger] picked[i] == j;
                assert(r[i]@.id == id);
            }
            assert forall|i: int, j: int| 0 <= i < j < r.len() implies r[i]@.id != r[j]@.id by {
                assert(picked[i] < picked[j]);
            }
        }
        r
    }
}

} // verus!
