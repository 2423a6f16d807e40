use traceway::clock::Timestamp;
use traceway::json::{self, Json};
use traceway::proxy::{
    begin, begin_at, detect_provider, extract_model, extract_tokens, fail_at, finish, finish_at,
    forwards_header, payload, preview_string, span_name, target_for, CaptureMode, ProxyFailure,
    MAX_BODY_BYTES, OUTPUT_PREVIEW_CHARS,
};
use traceway::storage::persistent::PersistentStore;
use traceway::trace::kind::{SpanKind, SpanStatus};

fn empty_store() -> PersistentStore {
    PersistentStore::from_loaded(vec![], vec![], vec![], vec![], vec![], vec![])
}

fn at(secs: i64) -> Timestamp {
    Timestamp::from_parts(secs, 0)
}

fn doc(text: &str) -> Json {
    json::parse(text.as_bytes()).unwrap()
}

#[test]
fn tokens_of_a_proxied_call() {
    let mut store = empty_store();
    let body = br#"{"model":"gpt-4o","messages":[]}"#;
    let (trace, span) = begin_at(
        "POST",
        "/v1/chat/completions",
        "https://api.openai.com",
        body,
        CaptureMode::Full,
        1,
        2,
        at(100),
    );
    assert_eq!(trace.id, 1);
    assert_eq!(trace.name, Some("POST /v1/chat/completions".to_string()));
    assert_eq!(span.name(), "POST /v1/chat/completions");
    assert_eq!(span.trace_id(), 1);
    assert_eq!(span.kind().model(), Some("gpt-4o"));
    assert_eq!(span.kind().provider(), Some("openai"));
    assert_eq!(span.kind().total_tokens(), None);
    assert_eq!(span.input(), Some(&doc(r#"{"model":"gpt-4o","messages":[]}"#)));
    store.save_trace(trace);
    store.insert(span);

    let answer = br#"{"usage":{"prompt_tokens":10,"completion_tokens":20}}"#;
    let done = finish_at(&mut store, 2, 200, answer, CaptureMode::Full, at(101)).unwrap();
    assert_eq!(done.status(), &SpanStatus::Completed);
    assert_eq!(done.kind().input_tokens(), Some(10));
    assert_eq!(done.kind().output_tokens(), Some(20));
    assert_eq!(done.kind().total_tokens(), Some(30));
    let stored = store.get(2).unwrap();
    assert_eq!(stored, &done);
    assert_eq!(stored.output(), Some(&doc(r#"{"usage":{"prompt_tokens":10,"completion_tokens":20}}"#)));
    assert_eq!(stored.duration_ms(), Some(1000));
    assert!(finish_at(&mut store, 2, 200, answer, CaptureMode::Full, at(102)).is_none());
    assert!(finish_at(&mut store, 404, 200, answer, CaptureMode::Full, at(102)).is_none());
}

#[test]
fn a_failed_call_keeps_its_status() {
    let mut store = empty_store();
    let (_, span) = begin_at("POST", "/x", "http://localhost:11434", b"not json", CaptureMode::Preview(3), 1, 2, at(1));
    assert_eq!(span.kind().model(), Some("unknown"));
    assert_eq!(span.kind().provider(), Some("ollama"));
    assert_eq!(span.input(), None);
    match span.kind() {
        SpanKind::LlmCall { input_preview, .. } => assert_eq!(input_preview.as_deref(), Some("not...")),
        other => panic!("{:?}", other),
    }
    store.insert(span);
    let failed = finish_at(&mut store, 2, 503, b"down", CaptureMode::Full, at(2)).unwrap();
    assert_eq!(failed.status(), &SpanStatus::Failed { error: "HTTP 503".to_string() });
    assert_eq!(failed.output(), None);

    let (_, other) = begin_at("GET", "/y", "http://x", b"", CaptureMode::Off, 1, 3, at(1));
    match other.kind() {
        SpanKind::LlmCall { input_preview, provider, .. } => {
            assert_eq!(input_preview, &None);
            assert_eq!(provider, &None);
        },
        k => panic!("{:?}", k),
    }
    store.insert(other);
    let e = fail_at(&mut store, 3, &ProxyFailure::Upstream("refused".to_string()), at(2)).unwrap();
    assert_eq!(e.status(), &SpanStatus::Failed { error: "Request failed: refused".to_string() });
    assert!(fail_at(&mut store, 3, &ProxyFailure::UpstreamTimeout, at(3)).is_none());
}

#[test]
fn capture_modes() {
    let mut store = empty_store();
    let body = br#"{"model":"m","prompt":"0123456789"}"#;
    let (_, span) = begin_at("POST", "/p", "http://t", body, CaptureMode::Preview(5), 1, 2, at(1));
    assert_eq!(span.input(), Some(&doc(r#"{"preview":"{\"mod..."}"#)));
    store.insert(span);
    let long = format!("{{\"text\":\"{}\"}}", "a".repeat(600));
    let done = finish_at(&mut store, 2, 201, long.as_bytes(), CaptureMode::Preview(5), at(2)).unwrap();
    let preview = done.output().unwrap().get("preview").unwrap().as_str().unwrap().to_string();
    assert_eq!(preview.chars().count(), OUTPUT_PREVIEW_CHARS + 3);
    assert!(preview.ends_with("..."));

    let (_, off) = begin_at("POST", "/p", "http://t", body, CaptureMode::Off, 1, 3, at(1));
    assert_eq!(off.input(), None);
    store.insert(off);
    let done = finish_at(&mut store, 3, 299, b"{}", CaptureMode::Off, at(2)).unwrap();
    assert_eq!(done.output(), None);
    assert_eq!(done.status(), &SpanStatus::Completed);

    assert_eq!(payload(Some(Json::Null), CaptureMode::Full, 0), Some(Json::Null));
    assert_eq!(payload(None, CaptureMode::Full, 0), None);
    assert_eq!(payload(Some(Json::Null), CaptureMode::Off, 9), None);
    assert_eq!(payload(Some(Json::Bool(true)), CaptureMode::Preview(1), 2), Some(doc(r#"{"preview":"tr..."}"#)));
    assert_eq!(CaptureMode::default(), CaptureMode::Full);
    assert_eq!(MAX_BODY_BYTES, 10 * 1024 * 1024);
}

#[test]
fn what_a_body_gives_away() {
    assert_eq!(detect_provider("http://localhost:11434/api"), Some("ollama".to_string()));
    assert_eq!(detect_provider("https://ollama.example.com"), Some("ollama".to_string()));
    assert_eq!(detect_provider("https://api.openai.com/v1"), Some("openai".to_string()));
    assert_eq!(detect_provider("https://api.anthropic.com"), Some("anthropic".to_string()));
    assert_eq!(detect_provider("https://example.com"), None);
    assert_eq!(extract_model(&doc(r#"{"model":"x"}"#)), Some("x".to_string()));
    assert_eq!(extract_model(&doc(r#"{"model":3}"#)), None);
    assert_eq!(extract_model(&doc(r#"[]"#)), None);

    let openai = doc(r#"{"usage":{"prompt_tokens":1,"completion_tokens":2}}"#);
    let anthropic = doc(r#"{"usage":{"input_tokens":3,"output_tokens":4}}"#);
    let ollama = doc(r#"{"prompt_eval_count":5,"eval_count":6}"#);
    assert_eq!(extract_tokens(&openai, Some("openai")), (Some(1), Some(2)));
    assert_eq!(extract_tokens(&openai, None), (Some(1), Some(2)));
    assert_eq!(extract_tokens(&openai, Some("anthropic")), (None, None));
    assert_eq!(extract_tokens(&anthropic, Some("anthropic")), (Some(3), Some(4)));
    assert_eq!(extract_tokens(&anthropic, Some("openai")), (None, None));
    assert_eq!(extract_tokens(&ollama, Some("ollama")), (Some(5), Some(6)));
    assert_eq!(extract_tokens(&ollama, None), (Some(5), Some(6)));
    assert_eq!(extract_tokens(&ollama, Some("anthropic")), (None, None));
    assert_eq!(extract_tokens(&doc(r#"{"usage":{"prompt_tokens":-1}}"#), None), (None, None));

    assert_eq!(preview_string("hello", 5), "hello");
    assert_eq!(preview_string("hello!", 5), "hello...");
    assert_eq!(preview_string("héllo wörld", 4), "héll...");
    assert_eq!(preview_string("", 0), "");
    assert_eq!(span_name("GET", "/a"), "GET /a");
    assert_eq!(target_for("http://t", "/a?b=1"), "http://t/a?b=1");
    assert!(!forwards_header("host"));
    assert!(!forwards_header("Host"));
    assert!(!forwards_header("HOST"));
    assert!(forwards_header("hosts"));
    assert!(forwards_header("content-type"));
}

#[test]
fn failures_of_the_proxy() {
    assert_eq!(ProxyFailure::BodyTooLarge.status_code(), 413);
    assert_eq!(ProxyFailure::UpstreamTimeout.status_code(), 504);
    assert_eq!(ProxyFailure::BodyRead("x".to_string()).status_code(), 502);
    assert_eq!(ProxyFailure::Upstream("x".to_string()).status_code(), 502);
    assert_eq!(ProxyFailure::ResponseRead("x".to_string()).status_code(), 502);
    assert_eq!(ProxyFailure::BodyTooLarge.span_error(), "Request body too large");
    assert_eq!(ProxyFailure::BodyRead("x".to_string()).span_error(), "Failed to read body: x");
    assert_eq!(ProxyFailure::UpstreamTimeout.span_error(), "Request timed out");
    assert_eq!(ProxyFailure::ResponseRead("x".to_string()).span_error(), "Failed to read response: x");
}

#[test]
fn fresh_calls_start_running() {
    let mut store = empty_store();
    let (trace, span) = begin("POST", "/v1/messages", "https://api.anthropic.com", b"{}", CaptureMode::Full);
    assert_eq!(span.trace_id(), trace.id);
    assert_eq!(span.status(), &SpanStatus::Running);
    let id = store.insert(span);
    let done = finish(&mut store, id, 200, br#"{"usage":{"input_tokens":7,"output_tokens":8}}"#, CaptureMode::Full)
        .unwrap();
    assert_eq!(done.kind().total_tokens(), Some(15));
    assert!(done.ended_at().is_some());
}
