use crate::clock::Timestamp;
use crate::text::{has_substring, opt_text};
use crate::trace::span::{opt_time, DatasetId, Span, SpanView, TraceId};
use crate::trace::entities::{FileVersion, FileVersionView};
use vstd::prelude::*;

verus! {

/// Which traces to list.  A field that is not set asks for nothing.
#[derive(Debug, PartialEq)]
pub struct TraceFilter {
    pub name_contains: Option<String>,
    pub tags: Option<Vec<String>>,
    pub since: Option<Timestamp>,
    pub until: Option<Timestamp>,
    pub limit: Option<usize>,
}

/// Which spans to list.  A span matches when it meets every field that is
/// set; a filter with no field set matches every span.
#[derive(Debug, PartialEq)]
pub struct SpanFilter {
    pub kind: Option<String>,
    pub model: Option<String>,
    pub provider: Option<String>,
    pub status: Option<String>,
    pub since: Option<Timestamp>,
    pub until: Option<Timestamp>,
    pub name_contains: Option<String>,
    pub path: Option<String>,
    pub trace_id: Option<TraceId>,
    pub limit: Option<usize>,
}

/// The mathematical value of a [`SpanFilter`].
pub struct SpanFilterView {
    pub kind: Option<Seq<char>>,
    pub model: Option<Seq<char>>,
    pub provider: Option<Seq<char>>,
    pub status: Option<Seq<char>>,
    pub since: Option<int>,
    pub until: Option<int>,
    pub name_contains: Option<Seq<char>>,
    pub path: Option<Seq<char>>,
    pub trace_id: Option<TraceId>,
    pub limit: Option<usize>,
}

impl View for SpanFilter {
    type V = SpanFilterView;

    open spec fn view(&self) -> SpanFilterView {
        SpanFilterView {
            kind: opt_text(self.kind),
            model: opt_text(self.model),
            provider: opt_text(self.provider),
            status: opt_text(self.status),
            since: opt_time(self.since),
            until: opt_time(self.until),
            name_contains: opt_text(self.name_contains),
            path: opt_text(self.path),
            trace_id: self.trace_id,
            limit: self.limit,
        }
    }
}

impl SpanFilterView {
    /// The filter with no field set.
    pub open spec fn empty() -> SpanFilterView {
        SpanFilterView {
            kind: None,
            model: None,
            provider: None,
            status: None,
            since: None,
            until: None,
            name_contains: None,
            path: None,
            trace_id: None,
            limit: None,
        }
    }

    /// True when `span` meets every field of the filter that is set.  The
    /// range of `since` and `until` is on the start of the span and holds
    /// both of its ends.
    pub open spec fn matches(self, span: SpanView) -> bool {
        &&& self.kind matches Some(k) ==> span.kind.kind_name() == k
        &&& self.model matches Some(m) ==> span.kind.model() == Some(m)
        &&& self.provider matches Some(p) ==> span.kind.provider() == Some(p)
        &&& self.status matches Some(s) ==> span.status.as_str() == s
        &&& self.since matches Some(t) ==> span.started_at >= t
        &&& self.until matches Some(t) ==> span.started_at <= t
        &&& self.name_contains matches Some(n) ==> has_substring(span.name, n)
        &&& self.path matches Some(p) ==> span.kind.path() == Some(p)
        &&& self.trace_id matches Some(t) ==> span.trace_id == t
    }
}

/// True when an optional text is the text `want`.
fn is_text(have: Option<&str>, want: &str) -> (r: bool)
    ensures
        r == (crate::text::opt_str(have) == Some(want@)),
{
    match have {
        Some(h) => crate::text::same_text(h, want),
        None => false,
    }
}

impl SpanFilter {
    /// The filter with no field set, which matches every span.
    pub fn new() -> (f: SpanFilter)
        ensures
            f@ == SpanFilterView::empty(),
    {
        SpanFilter {
            kind: None,
            model: None,
            provider: None,
            status: None,
            since: None,
            until: None,
            name_contains: None,
            path: None,
            trace_id: None,
            limit: None,
        }
    }

    /// True when `span` meets every field of the filter that is set.
    pub fn matches(&self, span: &Span) -> (r: bool)
        ensures
            r == self@.matches(span@),
    {
        if let Some(kind) = &self.kind {
            if !crate::text::same_text(span.kind().kind_name(), kind.as_str()) {
                return false;
            }
        }
        if let Some(model) = &self.model {
            if !is_text(span.kind().model(), model.as_str()) {
                return false;
            }
        }
        if let Some(provider) = &self.provider {
            if !is_text(span.kind().provider(), provider.as_str()) {
                return false;
            }
        }
        if let Some(status) = &self.status {
            if !crate::text::same_text(span.status().as_str(), status.as_str()) {
                return false;
            }
        }
        if let Some(since) = &self.since {
            if span.started_at().lt(since) {
                return false;
            }
        }
        if let Some(until) = &self.until {
            if until.lt(&span.started_at()) {
                return false;
            }
        }
        if let Some(name_contains) = &self.name_contains {
            if !crate::text::str_contains(span.name(), name_contains.as_str()) {
                return false;
            }
        }
        if let Some(path) = &self.path {
            if !is_text(span.kind().path(), path.as_str()) {
                return false;
            }
        }
        if let Some(trace_id) = self.trace_id {
            if span.trace_id() != trace_id {
                return false;
            }
        }
        true
    }
}

/// Which file versions to list.
#[derive(Debug, PartialEq)]
pub struct FileFilter {
    pub path_prefix: Option<String>,
    pub since: Option<Timestamp>,
    pub until: Option<Timestamp>,
    pub associated_trace: Option<TraceId>,
}

/// The mathematical value of a [`FileFilter`].
pub struct FileFilterView {
    pub path_prefix: Option<Seq<char>>,
    pub since: Option<int>,
    pub until: Option<int>,
    pub associated_trace: Option<TraceId>,
}

impl View for FileFilter {
    type V = FileFilterView;

    open spec fn view(&self) -> FileFilterView {
        FileFilterView {
            path_prefix: opt_text(self.path_prefix),
            since: opt_time(self.since),
            until: opt_time(self.until),
            associated_trace: self.associated_trace,
        }
    }
}

impl FileFilterView {
    /// True when the version lies under the path prefix and was made within
    /// the range, both ends included.
    pub open spec fn matches(self, version: FileVersionView) -> bool {
        &&& self.path_prefix matches Some(p) ==> p.is_prefix_of(version.path)
        &&& self.since matches Some(t) ==> version.created_at >= t
        &&& self.until matches Some(t) ==> version.created_at <= t
    }
}

impl FileFilter {
    /// The filter with no field set, which matches every version.
    pub fn new() -> (f: FileFilter)
        ensures
            f@ == (FileFilterView {
                path_prefix: None,
                since: None,
                until: None,
                associated_trace: None,
            }),
    {
        FileFilter { path_prefix: None, since: None, until: None, associated_trace: None }
    }

    /// True when `version` meets every field of the filter that is set.
    pub fn matches(&self, version: &FileVersion) -> (r: bool)
        ensures
            r == self@.matches(version@),
    {
        if let Some(prefix) = &self.path_prefix {
            if !crate::text::str_starts_with(version.path.as_str(), prefix.as_str()) {
                return false;
            }
        }
        if let Some(since) = &self.since {
            if version.created_at.lt(since) {
                return false;
            }
        }
        if let Some(until) = &self.until {
            if until.lt(&version.created_at) {
                return false;
            }
        }
        true
    }
}

/// Which datapoints to list.
#[derive(Debug, PartialEq)]
pub struct DatapointFilter {
    pub dataset_id: Option<DatasetId>,
    pub source: Option<String>,
    pub since: Option<Timestamp>,
    pub until: Option<Timestamp>,
    pub limit: Option<usize>,
}

impl TraceFilter {
    /// The filter with no field set.
    pub fn new() -> (f: TraceFilter)
        ensures
            f.name_contains.is_none(),
            f.tags.is_none(),
            f.since.is_none(),
            f.until.is_none(),
            f.limit.is_none(),
    {
        TraceFilter { name_contains: None, tags: None, since: None, until: None, limit: None }
    }
}

} // verus!
