use base64::Engine;
use hmac::Mac;
use traceway::api::auth_routes::{
    auth_features, auth_mode, clear_session_cookie, default_invite_role, default_scopes,
    generate_token, session_cookie, slug_from_name, token_from, token_hash,
};
use traceway::api::billing::{
    is_subscription_event, plan_after_event, plan_from_product, resolve_org_id,
    verify_webhook_signature, WebhookError,
};
use traceway::api::jobs::{due_at, new_job, queue_key, BackoffOptions, JobOptions, JobStatus};
use traceway::api::metrics::{Metrics, Timer};
use traceway::auth::email::{delivery, invite_email, reset_email, Email, EmailError, NoopEmailSender};
use traceway::auth::{Plan, Role, Scope};
use traceway::daemon::pid::{parse_pid, AcquireStep, PidFile, SignalOutcome};
use traceway::json::Json;
use traceway::text;

fn value_of(text: &str, name: &str) -> String {
    let start = format!("\n{} ", name);
    let at = text.find(&start).unwrap() + start.len();
    text[at..].lines().next().unwrap().to_string()
}

#[test]
fn metrics_in_the_text_of_prometheus() {
    let mut m = Metrics::new();
    let empty = m.export_prometheus();
    assert!(empty.starts_with(
        "# HELP llmfs_span_writes_total Total number of span write operations\n# TYPE llmfs_span_writes_total counter\nllmfs_span_writes_total 0\n"
    ));
    assert_eq!(value_of(&empty, "llmfs_span_write_latency_ms"), "0.000");
    assert_eq!(value_of(&empty, "llmfs_api_latency_ms"), "0.000");
    assert_eq!(value_of(&empty, "llmfs_error_rate"), "0.000000");

    m.record_span_write(1000);
    m.record_span_write(2001);
    m.record_span_read();
    m.record_trace_write();
    m.record_api_request(500, false);
    m.record_api_request(1500, true);
    m.record_api_request(2000, false);
    m.sse_connect();
    m.sse_connect();
    m.sse_disconnect();
    m.update_counts(7, 3);
    assert_eq!(m.span_writes_total, 2);
    assert_eq!(m.span_write_latency_sum_us, 3001);
    assert_eq!(m.api_errors_total, 1);
    assert_eq!(m.sse_connections_total, 2);
    assert_eq!(m.sse_connections_active, 1);
    let text = m.export_prometheus();
    assert_eq!(value_of(&text, "llmfs_span_writes_total"), "2");
    assert_eq!(value_of(&text, "llmfs_span_reads_total"), "1");
    assert_eq!(value_of(&text, "llmfs_trace_writes_total"), "1");
    assert_eq!(value_of(&text, "llmfs_api_requests_total"), "3");
    assert_eq!(value_of(&text, "llmfs_api_errors_total"), "1");
    assert_eq!(value_of(&text, "llmfs_sse_connections_total"), "2");
    assert_eq!(value_of(&text, "llmfs_sse_connections_active"), "1");
    assert_eq!(value_of(&text, "llmfs_span_count"), "7");
    assert_eq!(value_of(&text, "llmfs_trace_count"), "3");
    assert_eq!(value_of(&text, "llmfs_span_write_latency_ms"), "1.501");
    assert_eq!(value_of(&text, "llmfs_api_latency_ms"), "1.333");
    assert_eq!(value_of(&text, "llmfs_error_rate"), "0.333333");
    assert_eq!(text.lines().count(), 36);

    let mut w = Metrics::new();
    w.sse_disconnect();
    assert_eq!(w.sse_connections_active, u64::MAX);
    w.span_writes_total = u64::MAX;
    w.record_span_write(1);
    assert_eq!(w.span_writes_total, 0);
    let timer = Timer::start();
    assert!(timer.elapsed().as_secs() < 60);
}

fn signature(secret_bytes: &[u8], id: &str, timestamp: &str, body: &[u8]) -> String {
    let mut mac = hmac::Hmac::<sha2::Sha256>::new_from_slice(secret_bytes).unwrap();
    mac.update(format!("{}.{}.", id, timestamp).as_bytes());
    mac.update(body);
    base64::engine::general_purpose::STANDARD.encode(mac.finalize().into_bytes())
}

#[test]
fn webhooks_are_checked() {
    let key = b"0123456789abcdef";
    let secret = format!("whsec_{}", base64::engine::general_purpose::STANDARD.encode(key));
    let body = br#"{"type":"subscription.created"}"#;
    let good = format!("v1,{}", signature(key, "msg_1", "1000", body));
    let check = |id, ts, sig, secret: &str, now| verify_webhook_signature(body, id, ts, sig, secret, now);
    assert_eq!(check(Some("msg_1"), Some("1000"), Some(&good), &secret, 1000), Ok(()));
    assert_eq!(check(Some("msg_1"), Some("1000"), Some(&good), &secret, 1300), Ok(()));
    assert_eq!(check(Some("msg_1"), Some("1000"), Some(&good), &secret, 700), Ok(()));
    let several = format!("v1,AAAA v2,zzz {}", good);
    assert_eq!(check(Some("msg_1"), Some("1000"), Some(&several), &secret, 1000), Ok(()));
    assert_eq!(check(None, Some("1000"), Some(&good), &secret, 1000), Err(WebhookError::MissingId));
    assert_eq!(check(Some("msg_1"), None, Some(&good), &secret, 1000), Err(WebhookError::MissingTimestamp));
    assert_eq!(check(Some("msg_1"), Some("1000"), None, &secret, 1000), Err(WebhookError::MissingSignature));
    assert_eq!(check(None, None, None, &secret, 1000), Err(WebhookError::MissingId));
    assert_eq!(check(Some("msg_1"), Some("soon"), Some(&good), &secret, 1000), Err(WebhookError::InvalidTimestamp));
    assert_eq!(
        check(Some("msg_1"), Some("1000"), Some(&good), &secret, 1301),
        Err(WebhookError::TimestampOutOfTolerance)
    );
    assert_eq!(
        check(Some("msg_1"), Some("1000"), Some(&good), &secret, 699),
        Err(WebhookError::TimestampOutOfTolerance)
    );
    assert_eq!(check(Some("msg_1"), Some("1000"), Some(&good), "whsec_***", 1000), Err(WebhookError::InvalidSecret));
    assert_eq!(check(Some("msg_2"), Some("1000"), Some(&good), &secret, 1000), Err(WebhookError::InvalidSignature));
    let unversioned = signature(key, "msg_1", "1000", body);
    assert_eq!(check(Some("msg_1"), Some("1000"), Some(&unversioned), &secret, 1000), Err(WebhookError::InvalidSignature));
    let other = format!("v1,{}", signature(b"another key", "msg_1", "1000", body));
    assert_eq!(check(Some("msg_1"), Some("1000"), Some(&other), &secret, 1000), Err(WebhookError::InvalidSignature));
    assert_eq!(
        verify_webhook_signature(b"changed", Some("msg_1"), Some("1000"), Some(&good), &secret, 1000),
        Err(WebhookError::InvalidSignature)
    );
    for e in [
        WebhookError::MissingId,
        WebhookError::MissingTimestamp,
        WebhookError::MissingSignature,
        WebhookError::InvalidTimestamp,
        WebhookError::TimestampOutOfTolerance,
        WebhookError::InvalidSecret,
        WebhookError::InvalidSignature,
    ] {
        assert!(!e.message().is_empty());
    }
}

#[test]
fn plans_follow_subscriptions() {
    assert_eq!(plan_from_product(Some("pro"), "Enterprise"), Plan::Pro);
    assert_eq!(plan_from_product(Some("team"), ""), Plan::Team);
    assert_eq!(plan_from_product(Some("enterprise"), ""), Plan::Enterprise);
    assert_eq!(plan_from_product(Some("gold"), "Pro"), Plan::Free);
    assert_eq!(plan_from_product(None, "Traceway PRO"), Plan::Pro);
    assert_eq!(plan_from_product(None, "Team plan"), Plan::Team);
    assert_eq!(plan_from_product(None, "Enterprise (pro team)"), Plan::Enterprise);
    assert_eq!(plan_from_product(None, "Hobby"), Plan::Free);

    let after = |event, status, at_end| plan_after_event(event, status, at_end, Plan::Team, Plan::Pro);
    assert_eq!(after("subscription.created", "active", false), Plan::Team);
    assert_eq!(after("subscription.created", "incomplete", false), Plan::Pro);
    assert_eq!(after("subscription.active", "trialing", false), Plan::Team);
    assert_eq!(after("subscription.uncanceled", "active", true), Plan::Team);
    assert_eq!(after("subscription.updated", "active", false), Plan::Team);
    assert_eq!(after("subscription.updated", "canceled", false), Plan::Free);
    assert_eq!(after("subscription.updated", "canceled", true), Plan::Pro);
    assert_eq!(after("subscription.updated", "past_due", false), Plan::Pro);
    assert_eq!(after("subscription.revoked", "canceled", true), Plan::Free);
    assert_eq!(after("subscription.revoked", "active", true), Plan::Pro);
    assert_eq!(after("subscription.revoked", "active", false), Plan::Free);
    assert_eq!(after("subscription.canceled", "canceled", true), Plan::Pro);
    assert_eq!(after("subscription.canceled", "canceled", false), Plan::Free);
    assert_eq!(after("checkout.created", "active", false), Plan::Pro);
    assert!(is_subscription_event("subscription.updated"));
    assert!(!is_subscription_event("order.created"));

    let a = "00000000-0000-0000-0000-00000000000a";
    let b = "00000000-0000-0000-0000-00000000000b";
    assert_eq!(resolve_org_id(Some(a), Some(b), Some(b)), Some(10));
    assert_eq!(resolve_org_id(None, Some(b), Some(a)), Some(11));
    assert_eq!(resolve_org_id(None, None, Some(a)), Some(10));
    assert_eq!(resolve_org_id(Some("x"), Some(b), None), Some(11));
    assert_eq!(resolve_org_id(Some("x"), None, Some("y")), None);
    assert_eq!(resolve_org_id(None, None, None), None);
}

#[test]
fn jobs_of_the_queue() {
    assert_eq!(queue_key("emails", "wait"), "bull:emails:wait");
    assert_eq!(queue_key("", ""), "bull::");
    let opts = JobOptions::default();
    assert_eq!(opts.attempts, 0);
    assert_eq!(opts.delay, 0);
    assert_eq!(opts.backoff, None);
    assert!(!opts.remove_on_complete && !opts.remove_on_fail);
    assert_ne!(BackoffOptions::Fixed { delay: 1 }, BackoffOptions::Exponential { delay: 1 });
    assert_eq!(due_at(1000, &opts), None);
    let delayed = JobOptions { delay: 500, ..opts };
    assert_eq!(due_at(1000, &delayed), Some(1500));
    assert_eq!(due_at(i64::MAX, &delayed), Some(i64::MAX));
    assert_eq!(due_at(-1000, &JobOptions { delay: u64::MAX, ..opts }), Some(i64::MAX));
    let job = new_job("1".to_string(), "send".to_string(), Json::Null, delayed, 1000);
    assert_eq!((job.progress, job.delay, job.timestamp, job.attempts_made), (0, 500, 1000, 0));
    assert_eq!(job.opts, delayed);
    assert!(job.stacktrace.is_empty() && job.return_value.is_none());
    assert!(job.finished_on.is_none() && job.processed_on.is_none());
    assert_eq!(JobStatus::Waiting.list_name(), "wait");
    assert_eq!(JobStatus::Active.list_name(), "active");
    assert_eq!(JobStatus::Completed.list_name(), "completed");
    assert_eq!(JobStatus::Failed.list_name(), "failed");
    assert_eq!(JobStatus::Delayed.list_name(), "delayed");
    assert_eq!(JobStatus::Paused.list_name(), "paused");
}

#[test]
fn accounts_cookies_and_tokens() {
    assert_eq!(default_scopes(), Scope::default_sdk());
    assert_eq!(default_invite_role(), Role::Member);
    assert_eq!(session_cookie("tok"), "session=tok; HttpOnly; SameSite=Lax; Path=/; Max-Age=604800");
    assert_eq!(clear_session_cookie(), "session=; HttpOnly; SameSite=Lax; Path=/; Max-Age=0");
    assert_eq!(slug_from_name("Acme Corp"), "acme-corp");
    assert_eq!(slug_from_name("  Hello, World!  "), "hello--world");
    assert_eq!(slug_from_name("ÄB c"), "äb-c");
    assert_eq!(slug_from_name("---"), "");
    assert_eq!(slug_from_name(""), "");
    assert_eq!(token_hash("abc"), "ba7816bf8f01cfea414140de5dae2223b00361a396177a9cb410ff61f20015ad");
    let (token, hash) = token_from(&[0xfb, 0xff, 0xfe]);
    assert_eq!(token, "-__-");
    assert_eq!(hash, token_hash("-__-"));
    let (token, hash) = generate_token();
    assert_eq!(token.len(), 43);
    assert_eq!(hash, token_hash(&token));
    assert_ne!(generate_token().0, token);
    assert_eq!(auth_mode(true), "local");
    assert_eq!(auth_mode(false), "cloud");
    assert!(auth_features(true).is_empty());
    assert_eq!(auth_features(false), vec!["auth", "teams", "api_keys"]);
}

#[test]
fn letters() {
    let e = invite_email("a@b.c".to_string(), "Acme", "https://x/invite/t");
    assert_eq!(e.to, "a@b.c");
    assert_eq!(e.subject, "Join Acme on Traceway");
    assert_eq!(
        e.html,
        "<p>You've been invited to join <strong>Acme</strong> on Traceway.</p>\n<p><a href=\"https://x/invite/t\" style=\"display:inline-block;padding:12px 24px;background:#2563eb;color:#fff;text-decoration:none;border-radius:6px;\">Accept Invite</a></p>\n<p>This invite expires in 7 days.</p>\n<p style=\"color:#888;font-size:12px;\">If you didn't expect this, you can ignore this email.</p>"
    );
    let r = reset_email("a@b.c".to_string(), "https://x/reset-password?token=t");
    assert_eq!(r.subject, "Reset your Traceway password");
    assert_eq!(
        r.html,
        "<p>You requested a password reset for your Traceway account.</p>\n<p><a href=\"https://x/reset-password?token=t\" style=\"display:inline-block;padding:12px 24px;background:#2563eb;color:#fff;text-decoration:none;border-radius:6px;\">Reset Password</a></p>\n<p>This link expires in 1 hour.</p>\n<p style=\"color:#888;font-size:12px;\">If you didn't request this, you can ignore this email.</p>"
    );
    assert_eq!(delivery(200, "ok".to_string()), Ok(()));
    assert_eq!(delivery(299, "ok".to_string()), Ok(()));
    assert_eq!(delivery(300, "no".to_string()), Err(EmailError::Api { status: 300, message: "no".to_string() }));
    assert_eq!(delivery(199, "no".to_string()), Err(EmailError::Api { status: 199, message: "no".to_string() }));
    assert_eq!(EmailError::Api { status: 422, message: "bad".to_string() }.message(), "API error (422): bad");
    assert_eq!(EmailError::Http("down".to_string()).message(), "HTTP error: down");
    assert_eq!(EmailError::NotConfigured.message(), "Not configured");
    let letter = Email { to: "t".to_string(), subject: "s".to_string(), html: "h".to_string() };
    assert_eq!(NoopEmailSender.send(&letter), Ok(()));
}

#[test]
fn the_pid_file() {
    assert_eq!(parse_pid("1234"), Some(1234));
    assert_eq!(parse_pid(" 1234\n"), Some(1234));
    assert_eq!(parse_pid("+7"), Some(7));
    assert_eq!(parse_pid("4294967295"), Some(u32::MAX));
    assert_eq!(parse_pid("4294967296"), None);
    assert_eq!(parse_pid("99999999999999999999999"), None);
    assert_eq!(parse_pid("-1"), None);
    assert_eq!(parse_pid("12 34"), None);
    assert_eq!(parse_pid(""), None);
    assert_eq!(parse_pid("+"), None);
    assert_eq!(parse_pid("\u{a0}12\u{3000}"), Some(12));
    assert_eq!(parse_pid(&PidFile::contents(4321)), Some(4321));
    let file = PidFile::new("/run/daemon.pid".to_string());
    assert_eq!(file.acquire_step(None, false), AcquireStep::Write);
    assert_eq!(file.acquire_step(None, true), AcquireStep::Write);
    assert_eq!(file.acquire_step(Some(5), false), AcquireStep::ReplaceStale { pid: 5 });
    assert_eq!(
        file.acquire_step(Some(5), true),
        AcquireStep::Refuse {
            message: "daemon already running (pid 5). Stop it first or remove /run/daemon.pid".to_string()
        }
    );
    assert_eq!(PidFile::is_running(Some(5), true), Some(5));
    assert_eq!(PidFile::is_running(Some(5), false), None);
    assert_eq!(PidFile::is_running(None, true), None);
    assert!(PidFile::is_alive(SignalOutcome::Sent));
    assert!(PidFile::is_alive(SignalOutcome::NotPermitted));
    assert!(!PidFile::is_alive(SignalOutcome::Failed));
}

fn chars(s: &str) -> Vec<char> {
    s.chars().collect()
}

#[test]
fn texts() {
    assert_eq!(text::to_chars("héllo"), chars("héllo"));
    assert_eq!(text::from_chars(&chars("héllo")), "héllo");
    assert!(text::str_starts_with("abc", "ab"));
    assert!(text::str_starts_with("abc", ""));
    assert!(!text::str_starts_with("ab", "abc"));
    assert!(text::str_ends_with("abc", "bc"));
    assert!(!text::str_ends_with("abc", "ab"));
    assert!(text::str_contains("abcabc", "cab"));
    assert!(text::str_contains("abc", ""));
    assert!(!text::str_contains("abc", "abcd"));
    assert!(!text::str_contains("", "a"));
    assert_eq!(text::find_from(&chars("abcabc"), &chars("bc"), 2), Some(4));
    assert_eq!(text::find_from(&chars("abcabc"), &chars("bc"), 5), None);
    assert_eq!(text::find_char(&chars("a,b"), ',', 0), 1);
    assert_eq!(text::find_char(&chars("a,b"), ',', 2), 3);
    assert_eq!(text::split(&chars("a,b,,c"), ','), vec![chars("a"), chars("b"), chars(""), chars("c")]);
    assert_eq!(text::split(&chars(""), ','), vec![chars("")]);
    assert_eq!(text::trim(&chars(" \t a b \r\n")), chars("a b"));
    assert_eq!(text::trim(&chars("   ")), chars(""));
    assert_eq!(text::strip_prefix(&chars("token=x"), &chars("token=")), Some(chars("x")));
    assert_eq!(text::strip_prefix(&chars("x"), &chars("token=")), None);
    assert_eq!(text::u64_to_string(0), "0");
    assert_eq!(text::u64_to_string(u64::MAX), "18446744073709551615");
    assert_eq!(text::i64_to_string(i64::MIN), "-9223372036854775808");
    assert_eq!(text::i64_to_string(-5), "-5");
    assert_eq!(text::concat("a", "b"), "ab");
    assert_eq!(text::concat3("a", "b", "c"), "abc");
    assert!(text::same_text("a", "a") && !text::same_text("a", "b"));
}
