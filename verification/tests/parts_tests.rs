use traceway::api::events::{span_ended, SystemEvent};
use traceway::api::jobs::{BackoffOptions, Job, JobOptions, JobStatus};
use traceway::auth::api_key::hash_api_key;
use traceway::auth::context::{AuthContext, AuthError};
use traceway::auth::middleware::{
    outcome_of, prefix_to_look_up, token_to_read, who_asks, ApiKeyRecord, AuthConfig, Credential,
};
use traceway::auth::session::{create_session, verify_session};
use traceway::auth::Scope;
use traceway::clock::Timestamp;
use traceway::json::{self, Json};
use traceway::storage::persistent::BackendOp;
use traceway::trace::entities::{Dataset, Trace};
use traceway::trace::kind::SpanKind;
use traceway::trace::span::{Span, SpanBuilder};
use traceway::turbopuffer::plan::{content_question, remote_steps, row_ids, RemoteStep};
use traceway::turbopuffer::rows::{dataset_to_row, file_content_to_row, span_to_row};

fn at(secs: i64) -> Timestamp {
    Timestamp::from_parts(secs, 0)
}

fn doc(text: &str) -> Json {
    json::parse(text.as_bytes()).unwrap()
}

fn a_span() -> Span {
    let kind = SpanKind::Custom { kind: "tool".to_string(), attributes: Vec::new() };
    SpanBuilder::new(1, "n".to_string(), kind).build_with(2, at(10))
}

const ONE: &str = "00000000-0000-0000-0000-000000000001";

#[test]
fn a_content_that_is_held_is_not_written_again() {
    let op = BackendOp::SaveFileContent { hash: "abc".to_string(), content: vec![1, 2, 3] };
    assert_eq!(content_question(&op), Some(doc("[\"id\",\"Eq\",\"abc\"]")));
    assert_eq!(remote_steps(&op, Some(true)), vec![]);
    let write = vec![RemoteStep::Upsert {
        collection: "file_contents".to_string(),
        row: file_content_to_row("abc", &[1, 2, 3]),
    }];
    assert_eq!(remote_steps(&op, Some(false)), write);
    assert_eq!(remote_steps(&op, None), write);
}

#[test]
fn only_a_content_asks_before_it_is_written() {
    let span = a_span();
    assert_eq!(content_question(&BackendOp::SaveSpan(span.clone())), None);
    assert_eq!(content_question(&BackendOp::ClearSpans), None);
    assert_eq!(content_question(&BackendOp::DeleteDataset(1)), None);
    let steps = remote_steps(&BackendOp::SaveSpan(span.clone()), Some(true));
    assert_eq!(
        steps,
        vec![RemoteStep::Upsert { collection: "spans".to_string(), row: span_to_row(&span) }]
    );
    let dataset = Dataset::new_with("d".to_string(), None, 5, at(1));
    assert_eq!(
        remote_steps(&BackendOp::SaveDataset(dataset.clone()), None),
        vec![RemoteStep::Upsert { collection: "datasets".to_string(), row: dataset_to_row(&dataset) }]
    );
}

#[test]
fn a_dataset_goes_with_what_hangs_on_it() {
    let by_dataset = Some(doc(&format!("[\"dataset_id\",\"Eq\",\"{}\"]", ONE)));
    assert_eq!(
        remote_steps(&BackendOp::DeleteDataset(1), None),
        vec![
            RemoteStep::DeleteMatching { collection: "datapoints".to_string(), filter: by_dataset.clone() },
            RemoteStep::DeleteMatching { collection: "queue_items".to_string(), filter: by_dataset },
            RemoteStep::Delete { collection: "datasets".to_string(), ids: vec![ONE.to_string()] },
        ]
    );
    assert_eq!(
        remote_steps(&BackendOp::DeleteDatapoint(1), None),
        vec![
            RemoteStep::DeleteMatching {
                collection: "queue_items".to_string(),
                filter: Some(doc(&format!("[\"datapoint_id\",\"Eq\",\"{}\"]", ONE))),
            },
            RemoteStep::Delete { collection: "datapoints".to_string(), ids: vec![ONE.to_string()] },
        ]
    );
}

#[test]
fn deletions_of_spans_and_traces_on_the_row_store() {
    assert_eq!(
        remote_steps(&BackendOp::DeleteSpan(1), None),
        vec![RemoteStep::Delete { collection: "spans".to_string(), ids: vec![ONE.to_string()] }]
    );
    assert_eq!(
        remote_steps(&BackendOp::DeleteTrace(1), None),
        vec![RemoteStep::Delete { collection: "traces".to_string(), ids: vec![ONE.to_string()] }]
    );
    assert_eq!(
        remote_steps(&BackendOp::DeleteTraceSpans(1), None),
        vec![RemoteStep::DeleteMatching {
            collection: "spans".to_string(),
            filter: Some(doc(&format!("[\"trace_id\",\"Eq\",\"{}\"]", ONE))),
        }]
    );
    assert_eq!(
        remote_steps(&BackendOp::ClearSpans, None),
        vec![RemoteStep::DeleteMatching { collection: "spans".to_string(), filter: None }]
    );
}

#[test]
fn identifiers_of_the_rows_of_an_answer() {
    let answer = doc("{\"rows\":[{\"id\":\"a\",\"data\":\"x\"},{\"data\":\"y\"},{\"id\":7},{\"id\":\"b\"}]}");
    assert_eq!(row_ids(&answer), vec!["a".to_string(), "b".to_string()]);
    assert_eq!(row_ids(&doc("{\"rows\":[]}")), Vec::<String>::new());
    assert_eq!(row_ids(&doc("{}")), Vec::<String>::new());
    assert_eq!(row_ids(&doc("{\"rows\":\"none\"}")), Vec::<String>::new());
}

fn record_for(key: &str, expires_at: Option<Timestamp>) -> ApiKeyRecord {
    ApiKeyRecord {
        prefix: key[..16].to_string(),
        key_hash: hash_api_key(key).unwrap(),
        org_id: 77,
        scopes: Scope::default_sdk(),
        expires_at,
    }
}

#[test]
fn what_is_looked_up_and_read_for_a_credential() {
    let key: Result<Credential, AuthError> =
        Ok(Credential::ApiKey("tw_sk_0123456789abcdefghijklmnopqrstuv".to_string()));
    let short: Result<Credential, AuthError> = Ok(Credential::ApiKey("tw_sk_short".to_string()));
    let token: Result<Credential, AuthError> = Ok(Credential::Session("a.b.c".to_string()));
    let failed: Result<Credential, AuthError> = Err(AuthError::InvalidFormat);
    assert_eq!(prefix_to_look_up(&key), Some("tw_sk_0123456789".to_string()));
    assert_eq!(prefix_to_look_up(&short), None);
    assert_eq!(prefix_to_look_up(&token), None);
    assert_eq!(prefix_to_look_up(&failed), None);
    assert_eq!(token_to_read(&token), Some("a.b.c"));
    assert_eq!(token_to_read(&key), None);
    assert_eq!(token_to_read(&failed), None);
}

#[test]
fn outcome_of_each_kind_of_credential() {
    let good = "tw_sk_0123456789abcdefghijklmnopqrstuv";
    let tampered = "tw_sk_0123456789abcdefghijklmnopqrstuX";
    let now = at(1_700_000_000);
    let record = record_for(good, None);
    let unread = || Err(AuthError::MissingAuth);

    assert_eq!(
        outcome_of(Ok(Credential::ApiKey(good.to_string())), Some(&record), unread(), &now),
        Ok(AuthContext::from_api_key(77, Scope::default_sdk()))
    );
    assert_eq!(
        outcome_of(Ok(Credential::ApiKey(tampered.to_string())), Some(&record), unread(), &now),
        Err(AuthError::InvalidApiKey)
    );
    assert_eq!(
        outcome_of(Ok(Credential::ApiKey(good.to_string())), None, unread(), &now),
        Err(AuthError::InvalidApiKey)
    );
    assert_eq!(
        outcome_of(Ok(Credential::ApiKey("tw_sk_short".to_string())), Some(&record), unread(), &now),
        Err(AuthError::InvalidApiKey)
    );
    let expired = record_for(good, Some(at(1_000)));
    assert_eq!(
        outcome_of(Ok(Credential::ApiKey(good.to_string())), Some(&expired), unread(), &now),
        Err(AuthError::ExpiredApiKey)
    );
    assert_eq!(
        outcome_of(Err(AuthError::InvalidFormat), Some(&record), unread(), &now),
        Err(AuthError::InvalidFormat)
    );

    let secret = vec![7u8; 32];
    let token = create_session(10, 20, Scope::read_only(), &secret).unwrap();
    assert_eq!(
        outcome_of(
            Ok(Credential::Session(token.clone())),
            Some(&record),
            verify_session(&token, &secret),
            &now
        ),
        Ok(AuthContext::from_session(20, 10, Scope::read_only()))
    );
    assert_eq!(
        outcome_of(
            Ok(Credential::Session(token.clone())),
            None,
            verify_session(&token, &[1u8; 32]),
            &now
        ),
        Err(AuthError::InvalidSession)
    );
    assert_eq!(
        outcome_of(Ok(Credential::Session(token)), None, Err(AuthError::ExpiredSession), &now),
        Err(AuthError::ExpiredSession)
    );
}

#[test]
fn a_daemon_without_tenants_lets_everyone_in() {
    let local = AuthConfig::local();
    assert_eq!(who_asks(&local, vec![]), Ok(AuthContext::local()));
    assert_eq!(who_asks(&local, vec![Err(AuthError::InvalidApiKey)]), Ok(AuthContext::local()));
    assert_eq!(
        who_asks(&local, vec![Ok(AuthContext::from_api_key(1, vec![]))]),
        Ok(AuthContext::local())
    );
    let cloud = AuthConfig::cloud(vec![1, 2, 3]);
    assert_eq!(who_asks(&cloud, vec![]), Err(AuthError::MissingAuth));
    assert_eq!(
        who_asks(&cloud, vec![Err(AuthError::InvalidApiKey), Ok(AuthContext::from_api_key(1, vec![]))]),
        Ok(AuthContext::from_api_key(1, vec![]))
    );
    assert_eq!(
        who_asks(&cloud, vec![Err(AuthError::InvalidFormat), Err(AuthError::ExpiredSession)]),
        Err(AuthError::InvalidFormat)
    );
}

#[test]
fn events_are_read_back_from_the_wire() {
    let span = a_span();
    let trace = Trace::new_with(Some("t".to_string()), 9, at(3));
    let dataset = Dataset::new_with("d".to_string(), None, 5, at(1));
    let all = vec![
        SystemEvent::SpanCreated { span: span.clone() },
        SystemEvent::SpanCompleted { span: span.clone() },
        SystemEvent::SpanFailed { span },
        SystemEvent::TraceCreated { trace: trace.clone() },
        SystemEvent::TraceCompleted { trace },
        SystemEvent::SpanDeleted { span_id: 3 },
        SystemEvent::TraceDeleted { trace_id: 4 },
        SystemEvent::DatasetCreated { dataset },
        SystemEvent::DatasetDeleted { dataset_id: 6 },
        SystemEvent::Cleared,
    ];
    for event in all {
        let text = json::to_text(&event.to_json());
        assert_eq!(SystemEvent::from_json(&event.to_json()).as_ref(), Some(&event));
        assert_eq!(SystemEvent::from_message(text.as_bytes()), Some(event));
    }
}

#[test]
fn what_is_no_event_is_read_as_nothing() {
    assert_eq!(SystemEvent::from_message(b"not json"), None);
    assert_eq!(SystemEvent::from_message(b"{}"), None);
    assert_eq!(SystemEvent::from_message(b"{\"type\":\"unknown\"}"), None);
    assert_eq!(SystemEvent::from_message(b"{\"type\":\"span_created\"}"), None);
    assert_eq!(SystemEvent::from_message(b"{\"type\":\"span_deleted\",\"span_id\":\"x\"}"), None);
    assert_eq!(SystemEvent::from_message(b"{\"type\":7}"), None);
    assert_eq!(SystemEvent::from_message(b"{\"type\":\"cleared\"}"), Some(SystemEvent::Cleared));
    assert_eq!(
        SystemEvent::from_message(
            b"{\"type\":\"trace_deleted\",\"trace_id\":\"00000000-0000-0000-0000-000000000001\"}"
        ),
        Some(SystemEvent::TraceDeleted { trace_id: 1 })
    );
}

fn a_job() -> Job {
    Job {
        id: "7".to_string(),
        name: "embed".to_string(),
        data: doc("{\"span\":\"x\"}"),
        opts: JobOptions {
            attempts: 3,
            backoff: Some(BackoffOptions::Exponential { delay: 500 }),
            delay: 1_000,
            remove_on_complete: true,
            remove_on_fail: false,
            priority: 2,
        },
        progress: 40,
        delay: 1_000,
        timestamp: 1_700_000_000_123,
        attempts_made: 1,
        stacktrace: vec!["first".to_string(), "second".to_string()],
        return_value: Some(doc("{\"ok\":true}")),
        finished_on: Some(-5),
        processed_on: None,
    }
}

#[test]
fn a_job_on_the_wire() {
    let job = a_job();
    let j = job.to_json();
    assert_eq!(
        json::to_text(&j),
        "{\"attempts_made\":1,\"data\":{\"span\":\"x\"},\"delay\":1000,\"finished_on\":-5,\
         \"id\":\"7\",\"name\":\"embed\",\"opts\":{\"attempts\":3,\"backoff\":{\"delay\":500,\
         \"type\":\"exponential\"},\"delay\":1000,\"priority\":2,\"remove_on_complete\":true,\
         \"remove_on_fail\":false},\"processed_on\":null,\"progress\":40,\
         \"return_value\":{\"ok\":true},\"stacktrace\":[\"first\",\"second\"],\
         \"timestamp\":1700000000123}"
    );
    assert_eq!(Job::from_json(&j), Some(a_job()));
    assert_eq!(Job::from_bytes(json::to_text(&j).as_bytes()), Some(a_job()));
    assert_eq!(JobOptions::from_json(&job.opts.to_json()), Some(job.opts));
    let fixed = JobOptions { backoff: Some(BackoffOptions::Fixed { delay: 9 }), ..JobOptions::default() };
    assert_eq!(JobOptions::from_json(&fixed.to_json()), Some(fixed));
}

#[test]
fn a_job_without_what_it_did_so_far() {
    let read = Job::from_bytes(
        b"{\"id\":\"1\",\"name\":\"n\",\"data\":null,\"opts\":{},\"progress\":0,\"delay\":0,\"timestamp\":-1}",
    )
    .unwrap();
    assert_eq!(read.id, "1");
    assert_eq!(read.data, Json::Null);
    assert_eq!(read.opts, JobOptions::default());
    assert_eq!(read.timestamp, -1);
    assert_eq!(read.attempts_made, 0);
    assert_eq!(read.stacktrace, Vec::<String>::new());
    assert_eq!(read.return_value, None);
    assert_eq!(read.finished_on, None);
    assert_eq!(read.processed_on, None);
}

#[test]
fn what_is_no_job_is_read_as_nothing() {
    let whole = "{\"id\":\"1\",\"name\":\"n\",\"data\":1,\"opts\":{},\"progress\":0,\"delay\":0,\"timestamp\":5}";
    assert!(Job::from_bytes(whole.as_bytes()).is_some());
    for (from, to) in [
        ("\"id\":\"1\",", ""),
        ("\"name\":\"n\",", ""),
        ("\"data\":1,", ""),
        ("\"opts\":{},", ""),
        ("\"opts\":{}", "\"opts\":\"none\""),
        ("\"opts\":{}", "\"opts\":{\"attempts\":4294967296}"),
        ("\"opts\":{}", "\"opts\":{\"remove_on_fail\":1}"),
        ("\"opts\":{}", "\"opts\":{\"backoff\":{\"type\":\"linear\",\"delay\":1}}"),
        ("\"progress\":0", "\"progress\":256"),
        ("\"delay\":0", "\"delay\":-1"),
        ("\"timestamp\":5", "\"timestamp\":\"5\""),
        ("\"timestamp\":5", "\"timestamp\":5,\"stacktrace\":[1]"),
        ("\"timestamp\":5", "\"timestamp\":5,\"finished_on\":\"x\""),
    ] {
        assert!(whole.contains(from));
        assert_eq!(Job::from_bytes(whole.replace(from, to).as_bytes()), None, "{} -> {}", from, to);
    }
    assert_eq!(Job::from_bytes(b"not json"), None);
    let most = whole.replace("\"opts\":{}", "\"opts\":{\"attempts\":4294967295}");
    assert_eq!(Job::from_bytes(most.as_bytes()).unwrap().opts.attempts, u32::MAX);
    let full = whole.replace("\"progress\":0", "\"progress\":255");
    assert_eq!(Job::from_bytes(full.as_bytes()).unwrap().progress, 255);
}

#[test]
fn lists_and_sets_of_a_queue() {
    assert!(JobStatus::Waiting.in_list());
    assert!(JobStatus::Active.in_list());
    assert!(!JobStatus::Completed.in_list());
    assert!(!JobStatus::Failed.in_list());
    assert!(!JobStatus::Delayed.in_list());
    assert!(!JobStatus::Paused.in_list());
}

#[test]
fn the_event_of_a_span_that_has_ended() {
    let done = a_span().complete_at(None, at(11));
    let failed = a_span().fail_at("x".to_string(), at(11));
    assert_eq!(span_ended(done.clone()), SystemEvent::SpanCompleted { span: done });
    assert_eq!(span_ended(failed.clone()), SystemEvent::SpanFailed { span: failed });
}
