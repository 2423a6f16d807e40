use traceway::api::accounts::{
    accept_invite_at, api_key_created, api_key_response, auth_response, deleted, gate, invite_at,
    invite_response, invite_url, is_listed, login_check, may_delete_key, me_response,
    member_response, org_name_in_letter, org_response, reset_is_valid, reset_url, role_text,
    signup_at, signup_org_name, Refusal,
};
use traceway::api::auth_keys::auth_config_from_values;
use traceway::api::billing_flow::{
    organization_after, org_not_found, webhook_received, Subscription, WebhookStep,
};
use traceway::api::jobs::{JobCounts, JobOptions, JobStatus, MemoryJobQueue};
use traceway::api::types::{AcceptInviteRequest, CreateInviteRequest, SignupRequest};
use traceway::auth::api_key::generate_api_key;
use traceway::auth::context::AuthContext;
use traceway::auth::{Organization, Plan, Role, Scope, User};
use traceway::clock::Timestamp;
use traceway::daemon::ingest::{
    cheap_random, fails, span_count, synthetic_cost, synthetic_input, synthetic_output,
    synthetic_span, synthetic_tags, work_millis, FILE_PATHS, MODELS, PROVIDERS, SYNTHETIC_ERROR,
};
use traceway::daemon::supervise::{
    cannot_bind_message, first_setting, port_in_use_message, DaemonArgs, Supervisor,
    MAX_COMPONENT_RESTARTS, SHUTDOWN_TIMEOUT_SECS,
};
use traceway::json::{self, Json};
use traceway::text;
use traceway::trace::entities::{Dataset, Trace};
use traceway::trace::kind::SpanKind;
use traceway::trace::span::SpanBuilder;
use traceway::turbopuffer::read::{read_datasets, read_spans, read_traces, response_rows};
use traceway::turbopuffer::rows::{dataset_to_row, span_to_row, trace_to_row};

fn at(secs: i64) -> Timestamp {
    Timestamp::from_parts(secs, 0)
}

fn doc(text: &str) -> Json {
    json::parse(text.as_bytes()).unwrap()
}

#[test]
fn a_part_is_restarted_three_times() {
    let mut s = Supervisor::new();
    assert_eq!(s.on_failure(), Some(1));
    assert_eq!(s.on_failure(), Some(2));
    assert_eq!(s.on_failure(), Some(4));
    assert_eq!(s.restarts, MAX_COMPONENT_RESTARTS);
    assert_eq!(s.on_failure(), None);
    assert_eq!(s.on_failure(), None);
    let mut long = Supervisor { restarts: 0, backoff_secs: 16 };
    assert_eq!(long.on_failure(), Some(16));
    assert_eq!(long.backoff_secs, 30);
    assert_eq!(long.on_failure(), Some(30));
    assert_eq!(long.backoff_secs, 30);
    let mut edge = Supervisor { restarts: 0, backoff_secs: 15 };
    edge.on_failure();
    assert_eq!(edge.backoff_secs, 30);
    let mut under = Supervisor { restarts: 0, backoff_secs: 14 };
    under.on_failure();
    assert_eq!(under.backoff_secs, 28);
    assert_eq!(SHUTDOWN_TIMEOUT_SECS, 10);
}

#[test]
fn settings_and_messages_of_the_launcher() {
    assert_eq!(first_setting(Some("a".into()), Some("e".into()), "c".into()), "a");
    assert_eq!(first_setting(None, Some("e".into()), "c".into()), "e");
    assert_eq!(first_setting(None, None, "c".into()), "c");
    assert_eq!(
        port_in_use_message("127.0.0.1:3000"),
        "port 127.0.0.1:3000 is already in use. Another daemon may be running.\nCheck with: lsof -i :3000\nOr update the address in ~/.llmtrace/config.toml"
    );
    assert!(port_in_use_message("localhost").contains("lsof -i :localhost\n"));
    assert!(port_in_use_message("[::1]:").contains("lsof -i :\n"));
    assert_eq!(cannot_bind_message("a:1", "denied"), "cannot bind to a:1: denied");
    let args = DaemonArgs {
        api_addr: Some("a:1".into()),
        proxy_addr: None,
        target_url: Some("http://t".into()),
        db_path: None,
        log_level: Some("debug".into()),
        config: None,
        dev_ingest: true,
        dev_ingest_interval: 7,
    };
    assert_eq!(
        args.for_background(),
        vec![
            "--foreground", "--api-addr", "a:1", "--target-url", "http://t", "--log-level", "debug",
            "--dev-ingest", "--dev-ingest-interval", "7"
        ]
    );
    let bare = DaemonArgs {
        api_addr: None,
        proxy_addr: None,
        target_url: None,
        db_path: None,
        log_level: None,
        config: None,
        dev_ingest: false,
        dev_ingest_interval: 5,
    };
    assert_eq!(bare.for_background(), vec!["--foreground"]);
    let chars = |s: &str| s.chars().collect::<Vec<char>>();
    assert_eq!(text::after_last_char(&chars("/a/b.py"), '/'), chars("b.py"));
    assert_eq!(text::after_last_char(&chars("plain"), '/'), chars("plain"));
    assert_eq!(text::after_last_char(&chars("dir/"), '/'), chars(""));
    assert_eq!(text::after_last_char(&chars(""), '/'), chars(""));
    assert_eq!(text::hex16(0), "0000000000000000");
    assert_eq!(text::hex16(0xdead_beef), "00000000deadbeef");
    assert_eq!(text::hex16(u64::MAX), "ffffffffffffffff");
}

#[test]
fn made_up_spans_follow_the_seed() {
    let mut seed = 1u64;
    assert_eq!(cheap_random(&mut seed), 1082269761);
    let mut a = 42u64;
    let mut b = 42u64;
    for step in 0..200u64 {
        let (name, kind) = synthetic_span(&mut a, step);
        assert_eq!(synthetic_span(&mut b, step), (name.clone(), kind.clone()));
        match kind {
            SpanKind::LlmCall { model, provider, input_tokens, output_tokens, cost, .. } => {
                assert_eq!(name, format!("llm-call-{}", step));
                assert!(MODELS.contains(&model.as_str()));
                assert!(PROVIDERS.contains(&provider.unwrap().as_str()));
                let (i, o) = (input_tokens.unwrap(), output_tokens.unwrap());
                assert!((100..4100).contains(&i) && (50..2050).contains(&o));
                assert_eq!(cost, synthetic_cost(&model, i, o));
                assert_eq!(cost.is_some(), model.starts_with("gpt-4o"));
            }
            SpanKind::FsRead { path, bytes_read, file_version } => {
                assert!(FILE_PATHS.contains(&path.as_str()));
                assert_eq!(name, format!("read-{}", path.rsplit('/').next().unwrap()));
                assert!((256..65792).contains(&bytes_read));
                assert_eq!(file_version, None);
            }
            SpanKind::FsWrite { path, bytes_written, file_version } => {
                assert_eq!(name, format!("write-{}", path.rsplit('/').next().unwrap()));
                assert!((128..32896).contains(&bytes_written));
                assert_eq!(file_version.len(), 16);
                assert_eq!(file_version, format!("{:016x}", a));
            }
            SpanKind::Custom { kind, attributes } => {
                assert_eq!(name, format!("custom-step-{}", step));
                assert_eq!(kind, "tool_call");
                assert_eq!(attributes, vec![("iteration".to_string(), Json::Number(step.to_string()))]);
            }
        }
        assert_eq!(a, b);
    }
    let mut seed = 7u64;
    for _ in 0..50 {
        assert!((2..=6).contains(&span_count(&mut seed)));
        assert!((10..60).contains(&work_millis(&mut seed)));
        let before = seed;
        let failed = fails(&mut seed);
        let mut again = before;
        assert_eq!(failed, cheap_random(&mut again) % 100 < 10);
    }
    assert_eq!(synthetic_cost("gpt-4o", 1000, 100).as_deref(), Some("0.00650000"));
    assert_eq!(synthetic_cost("gpt-4o-mini", 1000, 100).as_deref(), Some("0.00019500"));
    assert_eq!(synthetic_cost("gpt-4o", 4099, 2049).unwrap().parse::<f64>().unwrap(), 0.05123);
    assert_eq!(synthetic_cost("llama3.1:8b", 1000, 100), None);
    assert_eq!(json::to_text(&synthetic_input(3)), r#"{"step":3,"synthetic":true}"#);
    assert_eq!(json::to_text(&synthetic_output()), r#"{"result":"ok","synthetic":true}"#);
    assert_eq!(synthetic_tags(), vec!["synthetic", "dev"]);
    assert_eq!(SYNTHETIC_ERROR, "synthetic error: something went wrong");
}

#[test]
fn answers_of_the_row_store_are_read() {
    let span = SpanBuilder::new(1, "n".to_string(), SpanKind::Custom { kind: "k".into(), attributes: vec![] })
        .build_with(2, at(3));
    let trace = Trace::new_with(Some("t".into()), 1, at(3));
    let dataset = Dataset::new_with("d".into(), None, 4, at(5));
    let answer = |rows: Vec<Json>| Json::Object(vec![("rows".to_string(), Json::Array(rows))]);
    let spans = answer(vec![
        span_to_row(&span),
        doc(r#"{"id":"x"}"#),
        doc(r#"{"id":"y","data":"not json"}"#),
        doc(r#"{"id":"z","data":{"name":"no span"}}"#),
        Json::Object(vec![("data".to_string(), span.to_json())]),
    ]);
    assert_eq!(response_rows(&spans).len(), 5);
    assert_eq!(read_spans(&spans), vec![span.clone(), span.clone()]);
    assert_eq!(read_traces(&answer(vec![trace_to_row(&trace)])), vec![trace]);
    assert_eq!(read_datasets(&answer(vec![dataset_to_row(&dataset)])), vec![dataset]);
    assert!(read_spans(&doc("{}")).is_empty());
    assert!(read_spans(&doc(r#"{"rows":3}"#)).is_empty());
    let loose = read_traces(&spans);
    assert_eq!(loose.len(), 2);
    assert_eq!((loose[0].id, loose[0].name.as_deref(), loose[0].started_at), (2, Some("n"), at(3)));
    assert!(read_datasets(&spans).is_empty());
    assert_eq!(span_to_row(&span).get("kind").unwrap().as_str(), Some("k"));
    assert_eq!(span_to_row(&span).get("model"), Some(&Json::Null));
}

fn webhook(event: &str, status: &str, org: &str) -> String {
    format!(
        r#"{{"type":"{}","data":{{"status":"{}","product":{{"name":"Traceway Pro","metadata":{{"traceway_plan":"team"}}}},
            "customer":{{"email":"a@b.c","external_id":null,"metadata":{{"org_id":"{}"}}}},"metadata":{{}}}}}}"#,
        event, status, org
    )
}

#[test]
fn webhooks_change_plans() {
    let org_id = "00000000-0000-0000-0000-00000000000a";
    let body = webhook("subscription.created", "active", org_id);
    let step = webhook_received(body.as_bytes(), None, None, None, None, 0, true);
    let subscription = match step {
        WebhookStep::LoadOrg { org_id, subscription } => {
            assert_eq!(org_id, 10);
            subscription
        }
        other => panic!("{:?}", other),
    };
    assert_eq!(subscription.event_type, "subscription.created");
    assert_eq!(subscription.status, "active");
    assert!(!subscription.cancel_at_period_end);
    assert_eq!(subscription.product_plan.as_deref(), Some("team"));
    assert_eq!(subscription.customer_email, "a@b.c");
    assert_eq!(subscription.external_id, None);
    assert_eq!(subscription.customer_org.as_deref(), Some(org_id));
    assert_eq!(subscription.plan(), Plan::Team);
    assert_eq!(subscription.org_id(), Some(10));

    let org = Organization::new_with("Acme".into(), "acme".into(), 10, at(1));
    let changed = organization_after(org, &subscription, at(9)).unwrap();
    assert_eq!(changed.plan, Plan::Team);
    assert_eq!(changed.updated_at, at(9));
    assert_eq!(changed.created_at, at(1));
    assert_eq!(changed.name, "Acme");
    assert_eq!(organization_after(changed, &subscription, at(10)), None);

    let reject = |status: u16, message: &str| WebhookStep::Reject { status, message: message.to_string() };
    assert_eq!(
        webhook_received(body.as_bytes(), None, None, None, Some("whsec_AAAA"), 0, true),
        reject(403, "Missing webhook-id header")
    );
    assert_eq!(
        webhook_received(body.as_bytes(), Some("i"), Some("0"), Some("v1,AAAA"), Some("whsec_AAAA"), 0, true),
        reject(403, "Invalid webhook signature")
    );
    assert_eq!(webhook_received(b"{", None, None, None, None, 0, true), reject(400, "Invalid payload"));
    assert_eq!(
        webhook_received(br#"{"type":"x","data":{}}"#, None, None, None, None, 0, true),
        reject(400, "Invalid payload")
    );
    let other = webhook("order.created", "active", org_id);
    assert_eq!(webhook_received(other.as_bytes(), None, None, None, None, 0, false), WebhookStep::Ignore);
    assert_eq!(
        webhook_received(body.as_bytes(), None, None, None, None, 0, false),
        reject(503, "Auth store not configured")
    );
    let nowhere = webhook("subscription.created", "active", "nobody");
    assert_eq!(
        webhook_received(nowhere.as_bytes(), None, None, None, None, 0, true),
        reject(400, "Cannot determine org_id from webhook data")
    );
    assert_eq!(org_not_found(10), "Org 00000000-0000-0000-0000-00000000000a not found");
    let flagged = doc(
        r#"{"type":"subscription.updated","data":{"status":"canceled","cancel_at_period_end":true,
            "product":{"name":"Pro"},"customer":{"email":"a@b.c"}}}"#,
    );
    let s = Subscription::from_json(&flagged).unwrap();
    assert!(s.cancel_at_period_end);
    assert_eq!(s.product_plan, None);
    assert_eq!(s.plan(), Plan::Pro);
    assert_eq!(s.org_id(), None);
    let wrong = doc(
        r#"{"type":"subscription.updated","data":{"status":"canceled","cancel_at_period_end":"yes",
            "product":{"name":"Pro"},"customer":{"email":"a@b.c"}}}"#,
    );
    assert_eq!(Subscription::from_json(&wrong), None);
}

#[test]
fn accounts_are_made_and_shown() {
    assert_eq!(gate(true, true), Err(Refusal::NotInLocalMode));
    assert_eq!(gate(true, false), Err(Refusal::NotInLocalMode));
    assert_eq!(gate(false, false), Err(Refusal::NoStore));
    assert_eq!(gate(false, true), Ok(()));
    assert_eq!(Refusal::NotInLocalMode.status_code(), 404);
    assert_eq!(Refusal::NoStore.status_code(), 503);
    assert_eq!(Refusal::EmailInUse.status_code(), 409);
    assert_eq!(Refusal::BadCredentials.status_code(), 401);
    assert_eq!(Refusal::InviteExpired.status_code(), 410);
    assert_eq!(Refusal::NotYourKey.status_code(), 403);
    assert_eq!(Refusal::InvalidKeyId.status_code(), 400);
    assert_eq!(Refusal::InviteExpired.message(), "Invite has expired");
    assert_eq!(Refusal::BadCredentials.message(), "Invalid email or password");

    assert_eq!(signup_org_name(None, "ann@example.com"), "ann's Org");
    assert_eq!(signup_org_name(None, "nobody"), "nobody's Org");
    assert_eq!(signup_org_name(None, "@x"), "'s Org");
    assert_eq!(signup_org_name(Some("Acme".into()), "ann@example.com"), "Acme");
    let request = || SignupRequest {
        email: "ann@example.com".into(),
        password: "secret".into(),
        name: Some("Ann".into()),
        org_name: None,
    };
    assert_eq!(signup_at(request(), true, "s".into(), 1, 2, at(3)), Err(Refusal::EmailInUse));
    let (org, user) = signup_at(request(), false, "anns-org".into(), 1, 2, at(3)).unwrap();
    assert_eq!((org.id, org.name.as_str(), org.slug.as_str(), org.plan), (1, "ann's Org", "anns-org", Plan::Free));
    assert_eq!((user.id, user.org_id, user.role), (2, 1, Role::Owner));
    assert_eq!(user.name.as_deref(), Some("Ann"));
    assert_eq!(user.created_at, at(3));
    let shown = auth_response(&user);
    assert_eq!(shown.user_id, "00000000-0000-0000-0000-000000000002");
    assert_eq!(shown.org_id, "00000000-0000-0000-0000-000000000001");
    assert_eq!(shown.role, "owner");
    assert_eq!(shown.email, "ann@example.com");
    assert_eq!(role_text(Role::ReadOnly), "readonly");
    assert_eq!(member_response(&user).role, "owner");
    assert_eq!(login_check(true, true), Ok(()));
    assert_eq!(login_check(true, false), Err(Refusal::BadCredentials));
    assert_eq!(login_check(false, true), Err(Refusal::BadCredentials));

    let local = AuthContext::local();
    let me = me_response(&local);
    assert!(me.is_local_mode);
    assert_eq!(me.user_id, None);
    assert_eq!(me.scopes, Scope::all());
    let here = org_response(&local, false, None).unwrap();
    assert_eq!((here.name.as_str(), here.slug.as_str(), here.plan.as_str()), ("Local", "local", "free"));
    let member = AuthContext::from_session(1, 2, Scope::all());
    assert_eq!(org_response(&member, false, Some(&org)), Err(Refusal::NoStore));
    assert_eq!(org_response(&member, true, None), Err(Refusal::OrgNotFound));
    assert_eq!(org_response(&member, true, Some(&org)).unwrap().plan, "free");
    assert_eq!(me_response(&member).user_id.as_deref(), Some("00000000-0000-0000-0000-000000000002"));

    let (generated, stored) = generate_api_key(1, "ci".into(), Scope::default_sdk()).unwrap();
    let listed = api_key_response(&stored);
    assert_eq!(listed.key_prefix, generated.key_prefix);
    assert_eq!(listed.last_used_at, None);
    assert_eq!(listed.scopes, Scope::default_sdk());
    let key = generated.key.clone();
    let created = api_key_created(generated, "ci".into(), Scope::default_sdk());
    assert_eq!(created.key, key);
    assert_eq!(created.name, "ci");
    assert_eq!(may_delete_key(Some(1), 1), Ok(()));
    assert_eq!(may_delete_key(Some(2), 1), Err(Refusal::NotYourKey));
    assert_eq!(may_delete_key(None, 1), Ok(()));
    assert_eq!(deleted(true, Refusal::KeyNotFound), Ok(()));
    assert_eq!(deleted(false, Refusal::KeyNotFound), Err(Refusal::KeyNotFound));
}

#[test]
fn invitations_and_new_passwords() {
    let member = AuthContext::from_session(1, 2, Scope::all());
    let key = AuthContext::from_api_key(1, Scope::all());
    let request = || CreateInviteRequest { email: "bob@example.com".into(), role: Role::Admin };
    assert_eq!(invite_at(&key, request(), false, 5, "h".into(), at(100)), Err(Refusal::ApiKeysCannotInvite));
    assert_eq!(invite_at(&member, request(), true, 5, "h".into(), at(100)), Err(Refusal::UserExists));
    let invite = invite_at(&member, request(), false, 5, "h".into(), at(100)).unwrap();
    assert_eq!((invite.id, invite.org_id, invite.invited_by, invite.role), (5, 1, 2, Role::Admin));
    assert_eq!(invite.expires_at, at(100 + 7 * 24 * 3600));
    assert_eq!(invite.created_at, at(100));
    assert_eq!(invite.token_hash, "h");
    let shown = invite_response(&invite);
    assert_eq!(shown.role, "admin");
    assert_eq!(shown.invited_by, "00000000-0000-0000-0000-000000000002");
    assert_eq!(shown.expires_at, "1970-01-08T00:01:40+00:00");
    assert!(is_listed(&invite, &at(604_799)));
    assert!(!is_listed(&invite, &at(604_900)));
    assert!(!is_listed(&invite, &at(100 + 604_800)));
    assert!(invite.is_open(&at(100 + 604_800)));

    let accept = || AcceptInviteRequest { token: "t".into(), password: "p".into(), name: None };
    assert_eq!(accept_invite_at(None, false, accept(), 9, at(200)), Err(Refusal::InvalidInviteToken));
    assert_eq!(
        accept_invite_at(Some(&invite), false, accept(), 9, at(100 + 604_801)),
        Err(Refusal::InviteExpired)
    );
    assert_eq!(accept_invite_at(Some(&invite), true, accept(), 9, at(200)), Err(Refusal::EmailInUse));
    let user = accept_invite_at(Some(&invite), false, accept(), 9, at(100 + 604_800)).unwrap();
    assert_eq!(user, User::new_with("bob@example.com".into(), 1, Role::Admin, 9, at(100 + 604_800)));

    let org = Organization::new_with("Acme".into(), "acme".into(), 1, at(1));
    assert_eq!(org_name_in_letter(Some(&org)), "Acme");
    assert_eq!(org_name_in_letter(None), "your team");
    assert_eq!(invite_url("https://app", "tok"), "https://app/accept-invite?token=tok");
    assert_eq!(reset_url("https://app", "tok"), "https://app/reset-password?token=tok");
    assert!(reset_is_valid(false, &at(10), &at(9)));
    assert!(!reset_is_valid(false, &at(10), &at(10)));
    assert!(!reset_is_valid(true, &at(10), &at(9)));
}

#[test]
fn the_queue_of_jobs_in_memory() {
    let mut q = MemoryJobQueue::new("emails");
    assert_eq!(q.get_counts(), JobCounts { waiting: 0, active: 0, completed: 0, failed: 0 });
    assert!(q.get_jobs(JobStatus::Waiting, 0, 10).is_empty());
    let delayed = JobOptions { delay: 500, ..JobOptions::default() };
    assert_eq!(q.add_at("send", Json::Null, Some(delayed), 1000), "1");
    assert_eq!(q.add_at("send", Json::Bool(true), None, 2000), "2");
    assert_eq!(q.add("later", Json::Null, None), "3");
    let first = q.get_job("1").unwrap();
    assert_eq!((first.name.as_str(), first.delay, first.timestamp, first.opts.delay), ("send", 0, 1000, 500));
    assert_eq!(q.get_job("2").unwrap().data, Json::Bool(true));
    assert!(q.get_job("3").unwrap().timestamp > 1_600_000_000_000);
    assert!(q.get_job("4").is_none());
    let ids = |jobs: Vec<&traceway::api::jobs::Job>| jobs.iter().map(|j| j.id.clone()).collect::<Vec<_>>();
    assert_eq!(ids(q.get_jobs(JobStatus::Waiting, 0, 1)), vec!["1", "2"]);
    assert_eq!(ids(q.get_jobs(JobStatus::Failed, 1, 9)), vec!["2", "3"]);
    assert_eq!(ids(q.get_jobs(JobStatus::Waiting, 2, 2)), vec!["3"]);
    assert!(q.get_jobs(JobStatus::Waiting, 3, 5).is_empty());
    assert_eq!(q.get_counts().waiting, 3);
}

#[test]
fn how_requests_are_let_in_follows_the_environment() {
    let local = auth_config_from_values(false, false, Some("s".into()), vec![1]);
    assert!(local.local_mode);
    assert!(local.jwt_secret.is_empty());
    let cloud = auth_config_from_values(true, false, Some("secret".into()), vec![1]);
    assert!(!cloud.local_mode);
    assert_eq!(cloud.jwt_secret, b"secret".to_vec());
    let backend = auth_config_from_values(false, true, None, vec![1, 2]);
    assert!(!backend.local_mode);
    assert_eq!(backend.jwt_secret, vec![1, 2]);
}

#[test]
fn the_tree_of_the_virtual_filesystem() {
    use_tree();
}

fn use_tree() {
    let root = traceway::memfs::tree::getattr(1).unwrap();
    assert_eq!(root, traceway::memfs::tree::dir_attr(1));
    assert_eq!((root.perm, root.nlink, root.blksize, root.size), (0o755, 2, 512, 0));
    assert_eq!(traceway::memfs::tree::getattr(2).unwrap().ino, 2);
    assert_eq!(traceway::memfs::tree::getattr(3), None);
    let file = traceway::memfs::tree::file_attr(100, 42);
    assert_eq!((file.perm, file.nlink, file.blocks, file.size), (0o444, 1, 1, 42));
    assert_eq!(traceway::memfs::tree::lookup(1, "traces"), Some(traceway::memfs::tree::dir_attr(2)));
    assert_eq!(traceway::memfs::tree::lookup(1, "Traces"), None);
    assert_eq!(traceway::memfs::tree::lookup(2, "traces"), None);
    let names = |ino, offset| {
        traceway::memfs::tree::readdir(ino, offset)
            .map(|v| v.into_iter().map(|e| (e.ino, e.next_offset, e.name)).collect::<Vec<_>>())
    };
    assert_eq!(
        names(1, 0),
        Some(vec![(1, 1, ".".to_string()), (1, 2, "..".to_string()), (2, 3, "traces".to_string())])
    );
    assert_eq!(names(1, 2), Some(vec![(2, 3, "traces".to_string())]));
    assert_eq!(names(1, 3), Some(vec![]));
    assert_eq!(names(1, 9), Some(vec![]));
    assert_eq!(names(1, -1), Some(vec![]));
    assert_eq!(names(2, 0), Some(vec![(2, 1, ".".to_string()), (1, 2, "..".to_string())]));
    assert_eq!(names(7, 0), None);
}

#[test]
fn letters_are_handed_in() {
    let sender = traceway::auth::email::ResendSender::from_values(Some("re_key".into()), None).unwrap();
    assert_eq!(sender.from, "Traceway <noreply@traceway.dev>");
    assert_eq!(sender.authorization(), "Bearer re_key");
    let letter = traceway::auth::email::Email { to: "a@b.c".into(), subject: "s".into(), html: "<p>h</p>".into() };
    assert_eq!(
        json::to_text(&sender.request_body(&letter)),
        r#"{"from":"Traceway <noreply@traceway.dev>","html":"<p>h</p>","subject":"s","to":["a@b.c"]}"#
    );
    assert_eq!(
        traceway::auth::email::ResendSender::from_values(None, Some("x".into())),
        Err(traceway::auth::email::EmailError::NotConfigured)
    );
    let other = traceway::auth::email::ResendSender::from_values(Some("k".into()), Some("Me <me@x>".into())).unwrap();
    assert_eq!(other, traceway::auth::email::ResendSender::new("k".into(), "Me <me@x>".into()));
}
