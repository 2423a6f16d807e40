use crate::clock::Timestamp;
use crate::ids::Id;
use crate::json::{json_parsed, json_text, opt_json, Json, JsonView};
use crate::storage::persistent::{PersistentStore, PersistentStoreView};
use crate::text::{decimal, has_substring, lossy_text, opt_str, opt_text, utf8_lossy};
use crate::trace::entities::{Trace, TraceView};
use crate::trace::kind::{SpanKind, SpanKindView};
use crate::trace::span::{Span, SpanBuilder, SpanBuilderView, SpanId};
use vstd::prelude::*;

verus! {

/// How much of the bodies the proxy keeps.
#[derive(Clone, Copy, Debug, PartialEq, Eq, Structural)]
pub enum CaptureMode {
    /// Nothing.
    Off,
    /// The first characters, at most this many.
    Preview(usize),
    /// All of it.
    Full,
}

impl Default for CaptureMode {
    fn default() -> (m: CaptureMode)
        ensures
            m == CaptureMode::Full,
    {
        CaptureMode::Full
    }
}

/// The proxy reads no request body past this many bytes: 10 MiB.
pub const MAX_BODY_BYTES: usize = 10_485_760;

/// A preview of a response holds at most this many characters.
pub const OUTPUT_PREVIEW_CHARS: usize = 500;

/// The provider that the address of a target gives away.
pub open spec fn provider_of(url: Seq<char>) -> Option<Seq<char>> {
    if has_substring(url, "localhost:11434"@) || has_substring(url, "ollama"@) {
        Some("ollama"@)
    } else if has_substring(url, "api.openai.com"@) {
        Some("openai"@)
    } else if has_substring(url, "api.anthropic.com"@) {
        Some("anthropic"@)
    } else {
        None
    }
}

/// The provider that the address of a target gives away.
pub fn detect_provider(url: &str) -> (r: Option<String>)
    ensures
        opt_text(r) == provider_of(url@),
{
    if crate::text::str_contains(url, "localhost:11434") || crate::text::str_contains(
        url,
        "ollama",
    ) {
        Some("ollama".to_owned())
    } else if crate::text::str_contains(url, "api.openai.com") {
        Some("openai".to_owned())
    } else if crate::text::str_contains(url, "api.anthropic.com") {
        Some("anthropic".to_owned())
    } else {
        None
    }
}

/// The model that a request body names.
pub open spec fn model_of(body: JsonView) -> Option<Seq<char>> {
    match body.get("model"@) {
        Some(m) => m.as_str(),
        None => None,
    }
}

/// The model that a request body names.
pub fn extract_model(body: &Json) -> (r: Option<String>)
    ensures
        opt_text(r) == model_of(body@),
{
    match body.get("model") {
        Some(m) => match m.as_str() {
            Some(s) => Some(s.to_owned()),
            None => None,
        },
        None => None,
    }
}

/// The count under `name` in an object.
pub open spec fn count_at(body: JsonView, name: Seq<char>) -> Option<u64> {
    match body.get(name) {
        Some(v) => v.as_u64(),
        None => None,
    }
}

/// The count under `name` in the object `usage` of a body.
pub open spec fn usage_count(body: JsonView, name: Seq<char>) -> Option<u64> {
    match body.get("usage"@) {
        Some(u) => count_at(u, name),
        None => None,
    }
}

/// The first of two counts that is known.
pub open spec fn or_count(a: Option<u64>, b: Option<u64>) -> Option<u64> {
    if a.is_some() {
        a
    } else {
        b
    }
}

/// The tokens that a response body counts, going in and coming out, as
/// each provider writes them.
pub open spec fn tokens_of(body: JsonView, provider: Option<Seq<char>>) -> (Option<u64>, Option<u64>) {
    if provider == Some("anthropic"@) {
        (usage_count(body, "input_tokens"@), usage_count(body, "output_tokens"@))
    } else if provider == Some("ollama"@) {
        (count_at(body, "prompt_eval_count"@), count_at(body, "eval_count"@))
    } else {
        (
            or_count(usage_count(body, "prompt_tokens"@), count_at(body, "prompt_eval_count"@)),
            or_count(usage_count(body, "completion_tokens"@), count_at(body, "eval_count"@)),
        )
    }
}

fn count(body: &Json, name: &str) -> (r: Option<u64>)
    ensures
        r == count_at(body@, name@),
{
    match body.get(name) {
        Some(v) => v.as_u64(),
        None => None,
    }
}

fn usage(body: &Json, name: &str) -> (r: Option<u64>)
    ensures
        r == usage_count(body@, name@),
{
    match body.get("usage") {
        Some(u) => count(u, name),
        None => None,
    }
}

fn or_else(a: Option<u64>, b: Option<u64>) -> (r: Option<u64>)
    ensures
        r == or_count(a, b),
{
    if a.is_some() {
        a
    } else {
        b
    }
}

fn is_provider(provider: Option<&str>, name: &str) -> (r: bool)
    ensures
        r == (opt_str(provider) == Some(name@)),
{
    match provider {
        Some(p) => crate::text::same_text(p, name),
        None => false,
    }
}

/// The tokens that a response body counts, going in and coming out.
pub fn extract_tokens(body: &Json, provider: Option<&str>) -> (r: (Option<u64>, Option<u64>))
    ensures
        r == tokens_of(body@, opt_str(provider)),
{
    if is_provider(provider, "anthropic") {
        (usage(body, "input_tokens"), usage(body, "output_tokens"))
    } else if is_provider(provider, "ollama") {
        (count(body, "prompt_eval_count"), count(body, "eval_count"))
    } else {
        (
            or_else(usage(body, "prompt_tokens"), count(body, "prompt_eval_count")),
            or_else(usage(body, "completion_tokens"), count(body, "eval_count")),
        )
    }
}

/// A text as it is shown in a preview: the text itself where it has at
/// most `max_chars` characters, else its first `max_chars` characters and
/// three dots.
pub open spec fn preview_of(s: Seq<char>, max_chars: int) -> Seq<char> {
    if s.len() <= max_chars {
        s
    } else {
        s.subrange(0, max_chars) + "..."@
    }
}

/// A text as it is shown in a preview.
pub fn preview_string(s: &str, max_chars: usize) -> (r: String)
    ensures
        r@ == preview_of(s@, max_chars as int),
{
    let chars = crate::text::to_chars(s);
    if chars.len() <= max_chars {
        s.to_owned()
    } else {
        let mut head = crate::text::slice(&chars, 0, max_chars);
        let dots = crate::text::to_chars("...");
        crate::text::append(&mut head, &dots);
        crate::text::from_chars(&head)
    }
}

/// The name of the span of a request: its method and its path.
pub fn span_name(method: &str, path: &str) -> (r: String)
    ensures
        r@ == method@ + " "@ + path@,
{
    crate::text::concat3(method, " ", path)
}

/// The address that a request is sent on to.
pub fn target_for(target_url: &str, path: &str) -> (r: String)
    ensures
        r@ == target_url@ + path@,
{
    crate::text::concat(target_url, path)
}

/// True for every header but `host`, whatever its case: the headers that
/// go on to the target.
pub open spec fn goes_on(name: Seq<char>) -> bool {
    !(name.len() == 4 && (name[0] == 'h' || name[0] == 'H') && (name[1] == 'o' || name[1] == 'O')
        && (name[2] == 's' || name[2] == 'S') && (name[3] == 't' || name[3] == 'T'))
}

/// True for a header that goes on to the target.
pub fn forwards_header(name: &str) -> (r: bool)
    ensures
        r == goes_on(name@),
{
    let n = crate::text::to_chars(name);
    !(n.len() == 4 && (n[0] == 'h' || n[0] == 'H') && (n[1] == 'o' || n[1] == 'O') && (n[2] == 's'
        || n[2] == 'S') && (n[3] == 't' || n[3] == 'T'))
}

/// What is kept of the text of a body as its preview.
pub open spec fn body_preview(text: Seq<char>, mode: CaptureMode) -> Option<Seq<char>> {
    match mode {
        CaptureMode::Off => None,
        CaptureMode::Preview(n) => Some(preview_of(text, n as int)),
        CaptureMode::Full => Some(text),
    }
}

/// The object that holds a preview of a document.
pub open spec fn preview_doc(doc: JsonView, max_chars: int) -> JsonView {
    JsonView::Object(seq![("preview"@, JsonView::Str(preview_of(json_text(doc), max_chars)))])
}

/// What is kept of a body as the payload of the span: nothing where
/// nothing is kept or the body is no JSON; the document where all is kept;
/// else an object with a preview of its text, of at most `max_chars`
/// characters.
pub open spec fn payload_of(doc: Option<JsonView>, mode: CaptureMode, max_chars: int) -> Option<JsonView> {
    match (mode, doc) {
        (CaptureMode::Off, _) => None,
        (_, None) => None,
        (CaptureMode::Preview(_), Some(d)) => Some(preview_doc(d, max_chars)),
        (CaptureMode::Full, Some(d)) => Some(d),
    }
}

fn preview_object(doc: &Json, max_chars: usize) -> (r: Json)
    ensures
        r@ == preview_doc(doc@, max_chars as int),
{
    let text = crate::json::to_text(doc);
    let mut fields: Vec<(String, Json)> = Vec::new();
    fields.push(("preview".to_owned(), Json::Str(preview_string(text.as_str(), max_chars))));
    proof {
        crate::json::lemma_object_view(fields);
        assert(crate::json::fields_view(fields@) =~= preview_doc(doc@, max_chars as int)->Object_0);
    }
    Json::Object(fields)
}

/// What is kept of a body as the payload of the span.
pub fn payload(doc: Option<Json>, mode: CaptureMode, max_chars: usize) -> (r: Option<Json>)
    ensures
        opt_json(r) == payload_of(opt_json(doc), mode, max_chars as int),
{
    match mode {
        CaptureMode::Off => None,
        CaptureMode::Preview(_) => match doc {
            Some(d) => Some(preview_object(&d, max_chars)),
            None => None,
        },
        CaptureMode::Full => doc,
    }
}

/// The kind of the span of a request that is about to go to its target:
/// a call to the model that the body names, or to a model `unknown`, with
/// the provider that the target gives away and the preview of the body;
/// the tokens are not known yet.
pub open spec fn call_kind(target_url: Seq<char>, body: Seq<u8>, mode: CaptureMode) -> SpanKindView {
    SpanKindView::LlmCall {
        model: match json_parsed(body) {
            Some(doc) => match model_of(doc) {
                Some(m) => m,
                None => "unknown"@,
            },
            None => "unknown"@,
        },
        provider: provider_of(target_url),
        input_tokens: None,
        output_tokens: None,
        cost: None,
        input_preview: body_preview(utf8_lossy(body), mode),
        output_preview: None,
    }
}

/// The payload of the span of a request: where previews are kept, a
/// preview of as many characters as the previews have.
pub open spec fn input_payload(body: Seq<u8>, mode: CaptureMode) -> Option<JsonView> {
    payload_of(
        json_parsed(body),
        mode,
        match mode {
            CaptureMode::Preview(n) => n as int,
            _ => 0,
        },
    )
}

/// The trace and the running span of a request that is about to go to its
/// target.
pub fn begin_at(
    method: &str,
    path: &str,
    target_url: &str,
    body: &[u8],
    mode: CaptureMode,
    trace_id: Id,
    span_id: SpanId,
    now: Timestamp,
) -> (r: (Trace, Span))
    ensures
        r.0@ == (TraceView {
            id: trace_id,
            org_id: None,
            name: Some(method@ + " "@ + path@),
            tags: Seq::empty(),
            started_at: now@,
            ended_at: None,
            machine_id: None,
        }),
        r.1@ == (SpanBuilderView {
            trace_id,
            org_id: None,
            parent_id: None,
            name: method@ + " "@ + path@,
            kind: call_kind(target_url@, body@, mode),
            input: input_payload(body@, mode),
        }).started(span_id, now@),
{
    let name = span_name(method, path);
    let doc = crate::json::parse(body);
    let model = match &doc {
        Some(d) => match extract_model(d) {
            Some(m) => m,
            None => "unknown".to_owned(),
        },
        None => "unknown".to_owned(),
    };
    let input_preview = match mode {
        CaptureMode::Off => None,
        CaptureMode::Preview(n) => Some(preview_string(lossy_text(body).as_str(), n)),
        CaptureMode::Full => Some(lossy_text(body)),
    };
    let kind = SpanKind::LlmCall {
        model,
        provider: detect_provider(target_url),
        input_tokens: None,
        output_tokens: None,
        cost: None,
        input_preview,
        output_preview: None,
    };
    let max_chars = match mode {
        CaptureMode::Preview(n) => n,
        _ => 0,
    };
    let input = payload(doc, mode, max_chars);
    let trace = Trace::new_with(Some(name.clone()), trace_id, now);
    let mut builder = SpanBuilder::new(trace_id, name, kind);
    if let Some(i) = input {
        builder = builder.input(i);
    }
    (trace, builder.build_with(span_id, now))
}

/// The trace and the running span of a request that is about to go to its
/// target, with fresh identifiers, started now.
pub fn begin(method: &str, path: &str, target_url: &str, body: &[u8], mode: CaptureMode) -> (r: (
    Trace,
    Span,
))
    ensures
        r.1@.trace_id == r.0@.id,
        r.1@.name == method@ + " "@ + path@,
        r.1@.kind == call_kind(target_url@, body@, mode),
        r.1@.input == input_payload(body@, mode),
        !r.1@.is_terminal(),
        r.1@.parent_id.is_none(),
{
    let trace_id = crate::ids::fresh_id();
    let span_id = crate::ids::fresh_id();
    let now = crate::clock::now();
    begin_at(method, path, target_url, body, mode, trace_id, span_id, now)
}

/// The kind of a call with its tokens known.  Any other kind stays as
/// it is.
pub open spec fn with_tokens(kind: SpanKindView, tokens: (Option<u64>, Option<u64>)) -> SpanKindView {
    match kind {
        SpanKindView::LlmCall {
            model,
            provider,
            input_tokens,
            output_tokens,
            cost,
            input_preview,
            output_preview,
        } => SpanKindView::LlmCall {
            model,
            provider,
            input_tokens: tokens.0,
            output_tokens: tokens.1,
            cost,
            input_preview,
            output_preview,
        },
        other => other,
    }
}

fn set_tokens(kind: &SpanKind, tokens: (Option<u64>, Option<u64>)) -> (r: SpanKind)
    ensures
        r@ == with_tokens(kind@, tokens),
{
    match kind {
        SpanKind::LlmCall {
            model,
            provider,
            input_tokens,
            output_tokens,
            cost,
            input_preview,
            output_preview,
        } => SpanKind::LlmCall {
            model: model.clone(),
            provider: crate::text::clone_opt_text(provider),
            input_tokens: tokens.0,
            output_tokens: tokens.1,
            cost: crate::text::clone_opt_text(cost),
            input_preview: crate::text::clone_opt_text(input_preview),
            output_preview: crate::text::clone_opt_text(output_preview),
        },
        _ => kind.clone(),
    }
}

/// The tokens that a response counts; none where it is no JSON.
pub open spec fn response_tokens(body: Seq<u8>, provider: Option<Seq<char>>) -> (Option<u64>, Option<u64>) {
    match json_parsed(body) {
        Some(doc) => tokens_of(doc, provider),
        None => (None, None),
    }
}

/// The message of the failure of a span whose target answered with a
/// status outside the 200s.
pub open spec fn http_failure(status: u16) -> Seq<char> {
    "HTTP "@ + decimal(status as nat)
}

/// The store after the target of the request of the span `id` answered
/// with `status` and `body` at `now`: the span completes with the tokens
/// that the body counts where the status is in the 200s, and fails with
/// the status otherwise; a span that is not stored, or that has ended,
/// stays as it is.
pub open spec fn answered(
    store: PersistentStoreView,
    id: SpanId,
    status: u16,
    body: Seq<u8>,
    mode: CaptureMode,
    now: int,
) -> PersistentStoreView {
    if !store.can_end(id) {
        store
    } else if 200 <= status < 300 {
        let kind = store.memory.spans[id].kind;
        store.span_completed_as(
            id,
            with_tokens(kind, response_tokens(body, kind.provider())),
            payload_of(json_parsed(body), mode, OUTPUT_PREVIEW_CHARS as int),
            now,
        )
    } else {
        store.span_failed(id, http_failure(status), now)
    }
}

/// Ends the span of a request after its target answered, at the instant
/// `now`, and returns the span as it ended.
pub fn finish_at(
    store: &mut PersistentStore,
    id: SpanId,
    status: u16,
    body: &[u8],
    mode: CaptureMode,
    now: Timestamp,
) -> (r: Option<Span>)
    requires
        old(store)@.wf(),
    ensures
        final(store)@.wf(),
        final(store)@ == answered(old(store)@, id, status, body@, mode, now@),
        r.is_some() == old(store)@.can_end(id),
        r.is_some() ==> final(store)@.memory.spans.contains_key(id) && r.unwrap()@
            == final(store)@.memory.spans[id],
{
    let kind = match store.get(id) {
        Some(span) => {
            if span.status().is_terminal() {
                return None;
            }
            span.kind().clone()
        },
        None => {
            return None;
        },
    };
    if 200 <= status && status < 300 {
        let doc = crate::json::parse(body);
        let tokens = match &doc {
            Some(d) => extract_tokens(d, kind.provider()),
            None => (None, None),
        };
        let output = payload(doc, mode, OUTPUT_PREVIEW_CHARS);
        let done = set_tokens(&kind, tokens);
        let r = store.complete_span_with_kind_at(id, done, output, now);
        proof {
            assert(store@.memory.spans.contains_key(id));
        }
        r
    } else {
        let message = crate::text::concat("HTTP ", crate::text::u64_to_string(status as u64).as_str());
        let r = store.fail_span_at(id, message, now);
        proof {
            assert(store@.memory.spans.contains_key(id));
        }
        r
    }
}

/// Ends the span of a request after its target answered, now.
pub fn finish(store: &mut PersistentStore, id: SpanId, status: u16, body: &[u8], mode: CaptureMode) -> (r:
    Option<Span>)
    requires
        old(store)@.wf(),
    ensures
        final(store)@.wf(),
        exists|now: int| final(store)@ == answered(old(store)@, id, status, body@, mode, now),
        r.is_some() == old(store)@.can_end(id),
        r.is_some() ==> final(store)@.memory.spans.contains_key(id) && r.unwrap()@
            == final(store)@.memory.spans[id],
{
    let now = crate::clock::now();
    finish_at(store, id, status, body, mode, now)
}

/// Why the proxy could not hand a request on, or its answer back.
#[derive(Debug, PartialEq)]
pub enum ProxyFailure {
    /// The body of the request is longer than the proxy reads.
    BodyTooLarge,
    /// The body of the request could not be read.
    BodyRead(String),
    /// The target did not answer in time.
    UpstreamTimeout,
    /// The target could not be reached.
    Upstream(String),
    /// The answer of the target could not be read.
    ResponseRead(String),
}

/// The error that the span of a request fails with.
pub open spec fn failure_text(failure: ProxyFailure) -> Seq<char> {
    match failure {
        ProxyFailure::BodyTooLarge => "Request body too large"@,
        ProxyFailure::BodyRead(m) => "Failed to read body: "@ + m@,
        ProxyFailure::UpstreamTimeout => "Request timed out"@,
        ProxyFailure::Upstream(m) => "Request failed: "@ + m@,
        ProxyFailure::ResponseRead(m) => "Failed to read response: "@ + m@,
    }
}

impl ProxyFailure {
    /// The status that the client is answered with: 413 for a body that is
    /// too large, 504 for a target that did not answer in time, 502 for
    /// every other failure.
    pub fn status_code(&self) -> (code: u16)
        ensures
            code == match *self {
                ProxyFailure::BodyTooLarge => 413u16,
                ProxyFailure::UpstreamTimeout => 504u16,
                _ => 502u16,
            },
    {
        match self {
            ProxyFailure::BodyTooLarge => 413,
            ProxyFailure::UpstreamTimeout => 504,
            _ => 502,
        }
    }

    /// The error that the span of the request fails with.
    pub fn span_error(&self) -> (s: String)
        ensures
            s@ == failure_text(*self),
    {
        match self {
            ProxyFailure::BodyTooLarge => "Request body too large".to_owned(),
            ProxyFailure::BodyRead(m) => crate::text::concat("Failed to read body: ", m.as_str()),
            ProxyFailure::UpstreamTimeout => "Request timed out".to_owned(),
            ProxyFailure::Upstream(m) => crate::text::concat("Request failed: ", m.as_str()),
            ProxyFailure::ResponseRead(m) => crate::text::concat(
                "Failed to read response: ",
                m.as_str(),
            ),
        }
    }
}

/// Fails the span of a request that could not be handed on, at the
/// instant `now`.
pub fn fail_at(store: &mut PersistentStore, id: SpanId, failure: &ProxyFailure, now: Timestamp) -> (r:
    Option<Span>)
    requires
        old(store)@.wf(),
    ensures
        final(store)@.wf(),
        r.is_some() == old(store)@.can_end(id),
        final(store)@ == old(store)@.span_failed(id, failure_text(*failure), now@),
        r.is_some() ==> final(store)@.memory.spans.contains_key(id) && r.unwrap()@
            == final(store)@.memory.spans[id],
{
    let r = store.fail_span_at(id, failure.span_error(), now);
    proof {
        if r.is_some() {
            assert(store@.memory.spans.contains_key(id));
        }
    }
    r
}

} // verus!
