use crate::json::{clone_fields, fields_view, Json, JsonView};
use crate::text::{clone_opt_text, opt_text};
use vstd::prelude::*;

verus! {

/// What a span did.
#[allow(inconsistent_fields)]
#[derive(Debug, PartialEq)]
pub enum SpanKind {
    FsRead { path: String, file_version: Option<String>, bytes_read: u64 },
    FsWrite { path: String, file_version: String, bytes_written: u64 },
    LlmCall {
        model: String,
        provider: Option<String>,
        input_tokens: Option<u64>,
        output_tokens: Option<u64>,
        /// The cost, as the decimal text of the number.
        cost: Option<String>,
        input_preview: Option<String>,
        output_preview: Option<String>,
    },
    Custom { kind: String, attributes: Vec<(String, Json)> },
}

/// The mathematical value of a [`SpanKind`].
#[allow(inconsistent_fields)]
pub enum SpanKindView {
    FsRead { path: Seq<char>, file_version: Option<Seq<char>>, bytes_read: u64 },
    FsWrite { path: Seq<char>, file_version: Seq<char>, bytes_written: u64 },
    LlmCall {
        model: Seq<char>,
        provider: Option<Seq<char>>,
        input_tokens: Option<u64>,
        output_tokens: Option<u64>,
        cost: Option<Seq<char>>,
        input_preview: Option<Seq<char>>,
        output_preview: Option<Seq<char>>,
    },
    Custom { kind: Seq<char>, attributes: Seq<(Seq<char>, JsonView)> },
}

impl View for SpanKind {
    type V = SpanKindView;

    open spec fn view(&self) -> SpanKindView {
        match self {
            SpanKind::FsRead { path, file_version, bytes_read } => SpanKindView::FsRead {
                path: path@,
                file_version: opt_text(*file_version),
                bytes_read: *bytes_read,
            },
            SpanKind::FsWrite { path, file_version, bytes_written } => SpanKindView::FsWrite {
                path: path@,
                file_version: file_version@,
                bytes_written: *bytes_written,
            },
            SpanKind::LlmCall {
                model,
                provider,
                input_tokens,
                output_tokens,
                cost,
                input_preview,
                output_preview,
            } => SpanKindView::LlmCall {
                model: model@,
                provider: opt_text(*provider),
                input_tokens: *input_tokens,
                output_tokens: *output_tokens,
                cost: opt_text(*cost),
                input_preview: opt_text(*input_preview),
                output_preview: opt_text(*output_preview),
            },
            SpanKind::Custom { kind, attributes } => SpanKindView::Custom {
                kind: kind@,
                attributes: fields_view(attributes@),
            },
        }
    }
}

/// The sum of two token counts, held at the largest count where it would
/// pass it.
pub open spec fn token_sum(a: u64, b: u64) -> u64 {
    if a + b > u64::MAX {
        u64::MAX
    } else {
        (a + b) as u64
    }
}

impl SpanKindView {
    /// The name of the kind: a fixed name for the three built-in kinds, and
    /// its own name for a custom kind.
    pub open spec fn kind_name(self) -> Seq<char> {
        match self {
            SpanKindView::FsRead { .. } => "fs_read"@,
            SpanKindView::FsWrite { .. } => "fs_write"@,
            SpanKindView::LlmCall { .. } => "llm_call"@,
            SpanKindView::Custom { kind, .. } => kind,
        }
    }

    pub open spec fn model(self) -> Option<Seq<char>> {
        match self {
            SpanKindView::LlmCall { model, .. } => Some(model),
            _ => None,
        }
    }

    pub open spec fn path(self) -> Option<Seq<char>> {
        match self {
            SpanKindView::FsRead { path, .. } => Some(path),
            SpanKindView::FsWrite { path, .. } => Some(path),
            _ => None,
        }
    }

    pub open spec fn provider(self) -> Option<Seq<char>> {
        match self {
            SpanKindView::LlmCall { provider, .. } => provider,
            _ => None,
        }
    }

    pub open spec fn input_tokens(self) -> Option<u64> {
        match self {
            SpanKindView::LlmCall { input_tokens, .. } => input_tokens,
            _ => None,
        }
    }

    pub open spec fn output_tokens(self) -> Option<u64> {
        match self {
            SpanKindView::LlmCall { output_tokens, .. } => output_tokens,
            _ => None,
        }
    }

    /// Input and output tokens together; the one that is known where only
    /// one is.
    pub open spec fn total_tokens(self) -> Option<u64> {
        match (self.input_tokens(), self.output_tokens()) {
            (Some(i), Some(o)) => Some(token_sum(i, o)),
            (Some(i), None) => Some(i),
            (None, Some(o)) => Some(o),
            (None, None) => None,
        }
    }

    pub open spec fn cost(self) -> Option<Seq<char>> {
        match self {
            SpanKindView::LlmCall { cost, .. } => cost,
            _ => None,
        }
    }
}

impl SpanKind {
    pub fn kind_name(&self) -> (r: &str)
        ensures
            r@ == self@.kind_name(),
    {
        match self {
            SpanKind::FsRead { .. } => "fs_read",
            SpanKind::FsWrite { .. } => "fs_write",
            SpanKind::LlmCall { .. } => "llm_call",
            SpanKind::Custom { kind, .. } => kind.as_str(),
        }
    }

    pub fn model(&self) -> (r: Option<&str>)
        ensures
            crate::text::opt_str(r) == self@.model(),
    {
        match self {
            SpanKind::LlmCall { model, .. } => Some(model.as_str()),
            _ => None,
        }
    }

    pub fn path(&self) -> (r: Option<&str>)
        ensures
            crate::text::opt_str(r) == self@.path(),
    {
        match self {
            SpanKind::FsRead { path, .. } => Some(path.as_str()),
            SpanKind::FsWrite { path, .. } => Some(path.as_str()),
            _ => None,
        }
    }

    pub fn provider(&self) -> (r: Option<&str>)
        ensures
            crate::text::opt_str(r) == self@.provider(),
    {
        match self {
            SpanKind::LlmCall { provider, .. } => match provider {
                Some(p) => Some(p.as_str()),
                None => None,
            },
            _ => None,
        }
    }

    pub fn input_tokens(&self) -> (r: Option<u64>)
        ensures
            r == self@.input_tokens(),
    {
        match self {
            SpanKind::LlmCall { input_tokens, .. } => *input_tokens,
            _ => None,
        }
    }

    pub fn output_tokens(&self) -> (r: Option<u64>)
        ensures
            r == self@.output_tokens(),
    {
        match self {
            SpanKind::LlmCall { output_tokens, .. } => *output_tokens,
            _ => None,
        }
    }

    pub fn total_tokens(&self) -> (r: Option<u64>)
        ensures
            r == self@.total_tokens(),
    {
        match (self.input_tokens(), self.output_tokens()) {
            (Some(i), Some(o)) => Some(add_tokens(i, o)),
            (Some(i), None) => Some(i),
            (None, Some(o)) => Some(o),
            (None, None) => None,
        }
    }

    /// The cost of a call to a model, as the decimal text of the number.
    pub fn cost(&self) -> (r: Option<&str>)
        ensures
            crate::text::opt_str(r) == self@.cost(),
    {
        match self {
            SpanKind::LlmCall { cost, .. } => match cost {
                Some(c) => Some(c.as_str()),
                None => None,
            },
            _ => None,
        }
    }
}

/// The sum of two token counts, held at the largest count where it would
/// pass it.
pub fn add_tokens(a: u64, b: u64) -> (r: u64)
    ensures
        r == token_sum(a, b),
{
    if a > u64::MAX - b {
        u64::MAX
    } else {
        a + b
    }
}

impl Clone for SpanKind {
    fn clone(&self) -> (r: SpanKind)
        ensures
            r@ == self@,
    {
        match self {
            SpanKind::FsRead { path, file_version, bytes_read } => SpanKind::FsRead {
                path: path.clone(),
                file_version: clone_opt_text(file_version),
                bytes_read: *bytes_read,
            },
            SpanKind::FsWrite { path, file_version, bytes_written } => SpanKind::FsWrite {
                path: path.clone(),
                file_version: file_version.clone(),
                bytes_written: *bytes_written,
            },
            SpanKind::LlmCall {
                model,
                provider,
                input_tokens,
                output_tokens,
                cost,
                input_preview,
                output_preview,
            } => SpanKind::LlmCall {
                model: model.clone(),
                provider: clone_opt_text(provider),
                input_tokens: *input_tokens,
                output_tokens: *output_tokens,
                cost: clone_opt_text(cost),
                input_preview: clone_opt_text(input_preview),
                output_preview: clone_opt_text(output_preview),
            },
            SpanKind::Custom { kind, attributes } => SpanKind::Custom {
                kind: kind.clone(),
                attributes: clone_fields(attributes),
            },
        }
    }
}

/// Where a span stands: at work, or ended well or badly.
#[derive(Debug, PartialEq)]
pub enum SpanStatus {
    Running,
    Completed,
    Failed { error: String },
}

/// The mathematical value of a [`SpanStatus`].
pub enum SpanStatusView {
    Running,
    Completed,
    Failed { error: Seq<char> },
}

impl View for SpanStatus {
    type V = SpanStatusView;

    open spec fn view(&self) -> SpanStatusView {
        match self {
            SpanStatus::Running => SpanStatusView::Running,
            SpanStatus::Completed => SpanStatusView::Completed,
            SpanStatus::Failed { error } => SpanStatusView::Failed { error: error@ },
        }
    }
}

impl SpanStatusView {
    /// The short name of the status.
    pub open spec fn as_str(self) -> Seq<char> {
        match self {
            SpanStatusView::Running => "running"@,
            SpanStatusView::Completed => "completed"@,
            SpanStatusView::Failed { .. } => "failed"@,
        }
    }

    /// True for a status that a span never leaves.
    pub open spec fn is_terminal(self) -> bool {
        !(self is Running)
    }
}

impl SpanStatus {
    pub fn as_str(&self) -> (r: &str)
        ensures
            r@ == self@.as_str(),
    {
        match self {
            SpanStatus::Running => "running",
            SpanStatus::Completed => "completed",
            SpanStatus::Failed { .. } => "failed",
        }
    }

    pub fn is_terminal(&self) -> (r: bool)
        ensures
            r == self@.is_terminal(),
    {
        match self {
            SpanStatus::Running => false,
            _ => true,
        }
    }
}

impl Clone for SpanStatus {
    fn clone(&self) -> (r: SpanStatus)
        ensures
            r@ == self@,
    {
        match self {
            SpanStatus::Running => SpanStatus::Running,
            SpanStatus::Completed => SpanStatus::Completed,
            SpanStatus::Failed { error } => SpanStatus::Failed { error: error.clone() },
        }
    }
}

} // verus!
