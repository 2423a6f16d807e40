use crate::clock::{millis_between, Timestamp};
use crate::ids::Id;
use crate::json::{clone_opt, opt_json, Json, JsonView};
use crate::trace::kind::{SpanKind, SpanKindView, SpanStatus, SpanStatusView};
use vstd::prelude::*;

verus! {

pub type SpanId = Id;

pub type TraceId = Id;

pub type DatasetId = Id;

pub type DatapointId = Id;

pub type QueueItemId = Id;

pub type OrgId = Id;

/// One unit of work.  A span starts running; it ends once, completed or
/// failed, and does not change after that.
#[derive(Debug, PartialEq)]
pub struct Span {
    id: SpanId,
    trace_id: TraceId,
    org_id: Option<OrgId>,
    parent_id: Option<SpanId>,
    name: String,
    kind: SpanKind,
    status: SpanStatus,
    started_at: Timestamp,
    ended_at: Option<Timestamp>,
    input: Option<Json>,
    output: Option<Json>,
}

/// The mathematical value of a [`Span`]; instants are in nanoseconds since
/// the epoch.
pub struct SpanView {
    pub id: SpanId,
    pub trace_id: TraceId,
    pub org_id: Option<OrgId>,
    pub parent_id: Option<SpanId>,
    pub name: Seq<char>,
    pub kind: SpanKindView,
    pub status: SpanStatusView,
    pub started_at: int,
    pub ended_at: Option<int>,
    pub input: Option<JsonView>,
    pub output: Option<JsonView>,
}

/// The instant of an optional timestamp.
pub open spec fn opt_time(o: Option<Timestamp>) -> Option<int> {
    match o {
        Some(t) => Some(t@),
        None => None,
    }
}

impl View for Span {
    type V = SpanView;

    closed spec fn view(&self) -> SpanView {
        SpanView {
            id: self.id,
            trace_id: self.trace_id,
            org_id: self.org_id,
            parent_id: self.parent_id,
            name: self.name@,
            kind: self.kind@,
            status: self.status@,
            started_at: self.started_at@,
            ended_at: opt_time(self.ended_at),
            input: opt_json(self.input),
            output: opt_json(self.output),
        }
    }
}

impl SpanView {
    /// True when the span has ended.
    pub open spec fn is_terminal(self) -> bool {
        self.status.is_terminal()
    }

    /// The end of the span is known exactly when it has ended.
    pub open spec fn consistent(self) -> bool {
        self.ended_at.is_some() <==> self.is_terminal()
    }

    /// Whole milliseconds from start to end, for a span with an end.
    pub open spec fn duration_ms(self) -> Option<int> {
        match self.ended_at {
            Some(end) => Some(millis_between(self.started_at, end)),
            None => None,
        }
    }

    /// The span after it completed at `now` with `output`; the span itself
    /// where it had ended before.
    pub open spec fn completed(self, output: Option<JsonView>, now: int) -> SpanView {
        if self.is_terminal() {
            self
        } else {
            SpanView { status: SpanStatusView::Completed, ended_at: Some(now), output, ..self }
        }
    }

    /// The span after it failed at `now` with `error`; the span itself where
    /// it had ended before.
    pub open spec fn failed(self, error: Seq<char>, now: int) -> SpanView {
        if self.is_terminal() {
            self
        } else {
            SpanView { status: SpanStatusView::Failed { error }, ended_at: Some(now), ..self }
        }
    }

    /// The span after it completed at `now` as a span of another kind.  An
    /// `output` that is given replaces the span's own.
    pub open spec fn completed_as(
        self,
        kind: SpanKindView,
        output: Option<JsonView>,
        now: int,
    ) -> SpanView {
        if self.is_terminal() {
            self
        } else {
            SpanView {
                kind,
                status: SpanStatusView::Completed,
                ended_at: Some(now),
                output: if output.is_some() {
                    output
                } else {
                    self.output
                },
                ..self
            }
        }
    }
}

/// The span of some parts, where they give an end exactly to a span that
/// has ended.
pub open spec fn checked(parts: SpanView) -> Option<SpanView> {
    if parts.consistent() {
        Some(parts)
    } else {
        None
    }
}

impl Span {
    /// Every span knows its end exactly when it has ended.
    #[verifier::type_invariant]
    pub open spec fn well_formed(self) -> bool {
        self@.consistent()
    }

    /// A span of the given parts, as it was stored or sent; `None` where
    /// the parts give an end to a span that runs, or none to a span that
    /// has ended.
    pub fn from_parts(
        id: SpanId,
        trace_id: TraceId,
        org_id: Option<OrgId>,
        parent_id: Option<SpanId>,
        name: String,
        kind: SpanKind,
        status: SpanStatus,
        started_at: Timestamp,
        ended_at: Option<Timestamp>,
        input: Option<Json>,
        output: Option<Json>,
    ) -> (r: Option<Span>)
        ensures
            ({
                let parts = SpanView {
                    id,
                    trace_id,
                    org_id,
                    parent_id,
                    name: name@,
                    kind: kind@,
                    status: status@,
                    started_at: started_at@,
                    ended_at: opt_time(ended_at),
                    input: opt_json(input),
                    output: opt_json(output),
                };
                match r {
                    Some(s) => checked(parts) == Some(s@),
                    None => checked(parts).is_none(),
                }
            }),
    {
        if ended_at.is_some() != status.is_terminal() {
            return None;
        }
        Some(
            Span {
                id,
                trace_id,
                org_id,
                parent_id,
                name,
                kind,
                status,
                started_at,
                ended_at,
                input,
                output,
            },
        )
    }

    pub fn id(&self) -> (r: SpanId)
        ensures
            r == self@.id,
    {
        self.id
    }

    pub fn trace_id(&self) -> (r: TraceId)
        ensures
            r == self@.trace_id,
    {
        self.trace_id
    }

    pub fn org_id(&self) -> (r: Option<OrgId>)
        ensures
            r == self@.org_id,
    {
        self.org_id
    }

    pub fn parent_id(&self) -> (r: Option<SpanId>)
        ensures
            r == self@.parent_id,
    {
        self.parent_id
    }

    pub fn name(&self) -> (r: &str)
        ensures
            r@ == self@.name,
    {
        self.name.as_str()
    }

    pub fn kind(&self) -> (r: &SpanKind)
        ensures
            r@ == self@.kind,
    {
        &self.kind
    }

    /// The status of the span.  A span has ended exactly when it knows its
    /// end.
    pub fn status(&self) -> (r: &SpanStatus)
        ensures
            r@ == self@.status,
            r@.is_terminal() == self@.ended_at.is_some(),
            self@.consistent(),
    {
        proof {
            use_type_invariant(self);
        }
        &self.status
    }

    pub fn started_at(&self) -> (r: Timestamp)
        ensures
            r@ == self@.started_at,
    {
        self.started_at
    }

    /// The end of the span, which it knows exactly when it has ended.
    pub fn ended_at(&self) -> (r: Option<Timestamp>)
        ensures
            opt_time(r) == self@.ended_at,
            r.is_some() == self@.is_terminal(),
            self@.consistent(),
    {
        proof {
            use_type_invariant(self);
        }
        self.ended_at
    }

    pub fn input(&self) -> (r: Option<&Json>)
        ensures
            match r {
                Some(j) => self@.input == Some(j@),
                None => self@.input.is_none(),
            },
    {
        self.input.as_ref()
    }

    pub fn output(&self) -> (r: Option<&Json>)
        ensures
            match r {
                Some(j) => self@.output == Some(j@),
                None => self@.output.is_none(),
            },
    {
        self.output.as_ref()
    }

    /// Whole milliseconds from start to end, rounded toward zero; `None`
    /// while the span has no end.
    pub fn duration_ms(&self) -> (r: Option<i64>)
        ensures
            match r {
                Some(ms) => self@.duration_ms() == Some(ms as int) && -crate::clock::MAX_SPAN_MS
                    <= ms <= crate::clock::MAX_SPAN_MS,
                None => self@.duration_ms().is_none(),
            },
    {
        match self.ended_at {
            Some(end) => Some(self.started_at.millis_until(&end)),
            None => None,
        }
    }

    /// Ends a running span as completed at the instant `now`; a span that
    /// had ended comes back unchanged.
    pub fn complete_at(self, output: Option<Json>, now: Timestamp) -> (r: Span)
        ensures
            r@ == self@.completed(opt_json(output), now@),
    {
        if self.status.is_terminal() {
            return self;
        }
        Span {
            id: self.id,
            trace_id: self.trace_id,
            org_id: self.org_id,
            parent_id: self.parent_id,
            name: self.name,
            kind: self.kind,
            status: SpanStatus::Completed,
            started_at: self.started_at,
            ended_at: Some(now),
            input: self.input,
            output,
        }
    }

    /// Ends a running span as completed, now.
    pub fn complete(self, output: Option<Json>) -> (r: Span)
        ensures
            exists|now: int| r@ == self@.completed(opt_json(output), now),
    {
        let now = crate::clock::now();
        self.complete_at(output, now)
    }

    /// Ends a running span as failed at the instant `now`; a span that had
    /// ended comes back unchanged.
    pub fn fail_at(self, error: String, now: Timestamp) -> (r: Span)
        ensures
            r@ == self@.failed(error@, now@),
    {
        if self.status.is_terminal() {
            return self;
        }
        Span {
            id: self.id,
            trace_id: self.trace_id,
            org_id: self.org_id,
            parent_id: self.parent_id,
            name: self.name,
            kind: self.kind,
            status: SpanStatus::Failed { error },
            started_at: self.started_at,
            ended_at: Some(now),
            input: self.input,
            output: self.output,
        }
    }

    /// Ends a running span as failed, now.
    pub fn fail(self, error: String) -> (r: Span)
        ensures
            exists|now: int| r@ == self@.failed(error@, now),
    {
        let now = crate::clock::now();
        self.fail_at(error, now)
    }

    /// Ends a running span as completed at `now` and gives it the kind
    /// `kind`, which holds what was learned only at the end.  A span that
    /// had ended comes back unchanged, kind and all.
    pub fn complete_with_kind_at(
        self,
        kind: SpanKind,
        output: Option<Json>,
        now: Timestamp,
    ) -> (r: Span)
        ensures
            r@ == self@.completed_as(kind@, opt_json(output), now@),
    {
        if self.status.is_terminal() {
            return self;
        }
        let out = match output {
            Some(o) => Some(o),
            None => self.output,
        };
        Span {
            id: self.id,
            trace_id: self.trace_id,
            org_id: self.org_id,
            parent_id: self.parent_id,
            name: self.name,
            kind,
            status: SpanStatus::Completed,
            started_at: self.started_at,
            ended_at: Some(now),
            input: self.input,
            output: out,
        }
    }
}

impl Clone for Span {
    fn clone(&self) -> (r: Span)
        ensures
            r@ == self@,
    {
        proof {
            use_type_invariant(self);
        }
        let status = self.status.clone();
        Span {
            id: self.id,
            trace_id: self.trace_id,
            org_id: self.org_id,
            parent_id: self.parent_id,
            name: self.name.clone(),
            kind: self.kind.clone(),
            status,
            started_at: self.started_at,
            ended_at: self.ended_at,
            input: clone_opt(&self.input),
            output: clone_opt(&self.output),
        }
    }
}

/// Collects the parts of a span before it starts.
#[derive(Debug, PartialEq)]
pub struct SpanBuilder {
    trace_id: TraceId,
    org_id: Option<OrgId>,
    parent_id: Option<SpanId>,
    name: String,
    kind: SpanKind,
    input: Option<Json>,
}

/// The mathematical value of a [`SpanBuilder`].
pub struct SpanBuilderView {
    pub trace_id: TraceId,
    pub org_id: Option<OrgId>,
    pub parent_id: Option<SpanId>,
    pub name: Seq<char>,
    pub kind: SpanKindView,
    pub input: Option<JsonView>,
}

impl View for SpanBuilder {
    type V = SpanBuilderView;

    closed spec fn view(&self) -> SpanBuilderView {
        SpanBuilderView {
            trace_id: self.trace_id,
            org_id: self.org_id,
            parent_id: self.parent_id,
            name: self.name@,
            kind: self.kind@,
            input: opt_json(self.input),
        }
    }
}

impl SpanBuilderView {
    /// The running span that the builder makes with the identifier `id` at
    /// the instant `now`.
    pub open spec fn started(self, id: SpanId, now: int) -> SpanView {
        SpanView {
            id,
            trace_id: self.trace_id,
            org_id: self.org_id,
            parent_id: self.parent_id,
            name: self.name,
            kind: self.kind,
            status: SpanStatusView::Running,
            started_at: now,
            ended_at: None,
            input: self.input,
            output: None,
        }
    }
}

impl SpanBuilder {
    pub fn new(trace_id: TraceId, name: String, kind: SpanKind) -> (b: SpanBuilder)
        ensures
            b@ == (SpanBuilderView {
                trace_id,
                org_id: None,
                parent_id: None,
                name: name@,
                kind: kind@,
                input: None,
            }),
    {
        SpanBuilder { trace_id, org_id: None, parent_id: None, name, kind, input: None }
    }

    pub fn org(self, org_id: OrgId) -> (b: SpanBuilder)
        ensures
            b@ == (SpanBuilderView { org_id: Some(org_id), ..self@ }),
    {
        SpanBuilder {
            trace_id: self.trace_id,
            org_id: Some(org_id),
            parent_id: self.parent_id,
            name: self.name,
            kind: self.kind,
            input: self.input,
        }
    }

    pub fn parent(self, parent_id: SpanId) -> (b: SpanBuilder)
        ensures
            b@ == (SpanBuilderView { parent_id: Some(parent_id), ..self@ }),
    {
        SpanBuilder {
            trace_id: self.trace_id,
            org_id: self.org_id,
            parent_id: Some(parent_id),
            name: self.name,
            kind: self.kind,
            input: self.input,
        }
    }

    pub fn input(self, input: Json) -> (b: SpanBuilder)
        ensures
            b@ == (SpanBuilderView { input: Some(input@), ..self@ }),
    {
        SpanBuilder {
            trace_id: self.trace_id,
            org_id: self.org_id,
            parent_id: self.parent_id,
            name: self.name,
            kind: self.kind,
            input: Some(input),
        }
    }

    /// The running span with the identifier `id` that started at `now`.
    pub fn build_with(self, id: SpanId, now: Timestamp) -> (s: Span)
        ensures
            s@ == self@.started(id, now@),
    {
        Span {
            id,
            trace_id: self.trace_id,
            org_id: self.org_id,
            parent_id: self.parent_id,
            name: self.name,
            kind: self.kind,
            status: SpanStatus::Running,
            started_at: now,
            ended_at: None,
            input: self.input,
            output: None,
        }
    }

    /// A running span with a fresh identifier that starts now.
    pub fn build(self) -> (s: Span)
        ensures
            exists|id: SpanId, now: int| s@ == self@.started(id, now),
    {
        let id = crate::ids::fresh_id();
        let now = crate::clock::now();
        self.build_with(id, now)
    }
}

} // verus!
