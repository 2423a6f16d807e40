use traceway::daemon::cloud::{parse_port, CloudConfig, CloudEnv, LogFormat, StorageBackendType};
use traceway::daemon::config::{resolve, Config};
use traceway::daemon::ingest::{cheap_random, pick, TRACE_NAMES};
use traceway::memfs::layout::{object_path, span_file_name, trace_dir_name};
use traceway::turbopuffer::{
    check_status, chunk_bounds, delete_body, extract_data, filter_json, query_body,
    span_filter_conditions, trace_filter_conditions, upsert_body, Condition, FilterOp,
    TurbopufferConfig, TurbopufferError,
};
use traceway::clock::Timestamp;
use traceway::json::{parse, to_text, Json};
use traceway::storage::error::StorageError;
use traceway::storage::filter::{SpanFilter, TraceFilter};

fn no_env() -> CloudEnv {
    CloudEnv {
        port: None,
        redis_url: None,
        turbopuffer_api_key: None,
        turbopuffer_namespace: None,
        storage_backend: None,
        metrics_enabled: None,
        log_format: None,
        fly_region: None,
        railway_region: None,
        aws_region: None,
        region: None,
        fly_alloc_id: None,
        railway_replica_id: None,
        hostname: None,
    }
}

#[test]
fn test_default_config() {
    let config = CloudConfig::from_values(no_env());
    assert_eq!(config.port, 3000);
    assert_eq!(config.storage_backend, StorageBackendType::Sqlite);
    assert!(!config.has_redis());
}

#[test]
fn object_path_fanout() {
    assert_eq!(object_path("abcdef0123456789"), "ab/cdef0123456789");
}

#[test]
fn object_path_short_hash() {
    assert_eq!(object_path("ab"), "ab");
}

#[test]
fn span_file_name_format() {
    let id = 0u128;
    assert_eq!(span_file_name(id), "00000000-0000-0000-0000-000000000000.json");
}

#[test]
fn trace_dir_name_format() {
    let id = 0u128;
    assert_eq!(trace_dir_name(id), "00000000-0000-0000-0000-000000000000");
}

#[test]
fn test_namespace() {
    let config = TurbopufferConfig::new("test_key".to_string(), "org123".to_string());
    assert_eq!(config.namespace("spans"), "org123_spans");
    assert_eq!(config.namespace("traces"), "org123_traces");
}

#[test]
fn test_config_builder() {
    let config = TurbopufferConfig::new("key".to_string(), "ns".to_string())
        .with_base_url("http://localhost:8080".to_string())
        .with_timeout(60);

    assert_eq!(config.base_url, "http://localhost:8080");
    assert_eq!(config.timeout_secs, 60);
}

#[test]
fn object_path_edges() {
    assert_eq!(object_path(""), "");
    assert_eq!(object_path("abc"), "abc");
    assert_eq!(object_path("abcd"), "ab/cd");
    assert_eq!(
        span_file_name(0x018f_0000_0000_7000_8000_0000_0000_0001),
        "018f0000-0000-7000-8000-000000000001.json"
    );
}

#[test]
fn cloud_config_from_values() {
    let env = CloudEnv {
        port: Some("8080".to_string()),
        redis_url: Some("redis://r".to_string()),
        turbopuffer_api_key: None,
        turbopuffer_namespace: Some("acme".to_string()),
        storage_backend: Some("TurboPuffer".to_string()),
        metrics_enabled: Some("TRUE".to_string()),
        log_format: Some("Pretty".to_string()),
        railway_region: Some("eu".to_string()),
        region: Some("zz".to_string()),
        hostname: Some("h1".to_string()),
        ..no_env()
    };
    let c = CloudConfig::from_values(env);
    assert_eq!(c.port, 8080);
    assert_eq!(c.bind_addr(), "0.0.0.0:8080");
    assert!(c.has_redis());
    assert!(!c.has_turbopuffer());
    assert_eq!(c.turbopuffer_namespace, "acme");
    assert_eq!(c.storage_backend, StorageBackendType::Turbopuffer);
    assert!(c.metrics_enabled);
    assert_eq!(c.log_format, LogFormat::Pretty);
    assert_eq!(c.region, Some("eu".to_string()));
    assert_eq!(c.instance_id, Some("h1".to_string()));
    assert_eq!(
        c.log_config(),
        vec!["STORAGE_BACKEND=turbopuffer but TURBOPUFFER_API_KEY is not set".to_string()]
    );
    let d = CloudConfig::from_values(no_env());
    assert_eq!(d.bind_addr(), "0.0.0.0:3000");
    assert_eq!(d.turbopuffer_namespace, "traceway");
    assert!(d.metrics_enabled);
    assert_eq!(d.log_format, LogFormat::Json);
    assert_eq!(
        d.log_config(),
        vec!["REDIS_URL not set - SSE events will be local-only (single instance)".to_string()]
    );
    let off = CloudConfig::from_values(CloudEnv {
        metrics_enabled: Some("no".to_string()),
        port: Some("70000".to_string()),
        ..no_env()
    });
    assert!(!off.metrics_enabled);
    assert_eq!(off.port, 3000);
    for (name, backend) in [
        ("remote", StorageBackendType::Turbopuffer),
        ("Remote", StorageBackendType::Turbopuffer),
        ("turbopuffer", StorageBackendType::Turbopuffer),
        ("sqlite", StorageBackendType::Sqlite),
        ("postgres", StorageBackendType::Sqlite),
    ] {
        let c = CloudConfig::from_values(CloudEnv { storage_backend: Some(name.to_string()), ..no_env() });
        assert_eq!(c.storage_backend, backend);
    }
}

#[test]
fn ports() {
    assert_eq!(parse_port("0"), Some(0));
    assert_eq!(parse_port("65535"), Some(65535));
    assert_eq!(parse_port("65536"), None);
    assert_eq!(parse_port("+80"), Some(80));
    assert_eq!(parse_port("-1"), None);
    assert_eq!(parse_port(""), None);
    assert_eq!(parse_port("80a"), None);
    assert_eq!(parse_port("99999999999999999999999"), None);
}

#[test]
fn config_defaults_and_paths() {
    let c = Config::default();
    assert_eq!(c.api.addr, "127.0.0.1:3000");
    assert_eq!(c.proxy.addr, "127.0.0.1:3001");
    assert_eq!(c.proxy.target, "http://localhost:11434");
    assert_eq!(c.proxy.capture_mode, "full");
    assert_eq!(c.logging.level, "info");
    assert_eq!(c.storage.db_path, None);
    assert_eq!(c.db_path("/home/u"), "/home/u/.llmtrace/traces.db");
    assert_eq!(Config::default_path("/home/u"), "/home/u/.llmtrace/config.toml");
    assert_eq!(Config::log_dir("/home/u"), "/home/u/.llmtrace/logs");
    assert_eq!(Config::pid_path("/home/u"), "/home/u/.llmtrace/daemon.pid");
    let mut custom = Config::default();
    custom.storage.db_path = Some("/tmp/x.db".to_string());
    assert_eq!(custom.db_path("/home/u"), "/tmp/x.db");
    assert_eq!(resolve(Some("a".to_string()), "b".to_string()), "a");
    assert_eq!(resolve(None, "b".to_string()), "b");
}

#[test]
fn xorshift_steps() {
    let mut seed = 1u64;
    assert_eq!(cheap_random(&mut seed), 1082269761);
    assert_eq!(seed, 1082269761);
    let second = cheap_random(&mut seed);
    assert_eq!(second, 1152992998833853505);
    let mut s = 42u64;
    let picked = pick(&TRACE_NAMES, &mut s);
    let mut t = 42u64;
    let n = cheap_random(&mut t);
    assert_eq!(picked, TRACE_NAMES[(n % 6) as usize]);
    assert_eq!(s, t);
}

#[test]
fn turbopuffer_config_and_paths() {
    let c = TurbopufferConfig::new("k".to_string(), "default".to_string());
    assert_eq!(c.base_url, "https://api.turbopuffer.com");
    assert_eq!(c.timeout_secs, 30);
    assert_eq!(c.write_path("spans"), "/v2/namespaces/default_spans");
    assert_eq!(c.query_path("spans"), "/v2/namespaces/default_spans/query");
    assert_eq!(c.url("/v2/x"), "https://api.turbopuffer.com/v2/x");
    assert_eq!(c.authorization(), "Bearer k");
    let org = c.for_org("018f");
    assert_eq!(org.namespace, "tw_018f");
    assert_eq!(org.namespace("traces"), "tw_018f_traces");
    let from = TurbopufferConfig::from_values(
        Some("key".to_string()),
        None,
        Some("http://l".to_string()),
        Some("45".to_string()),
    )
    .unwrap();
    assert_eq!(from.namespace, "traceway");
    assert_eq!(from.base_url, "http://l");
    assert_eq!(from.timeout_secs, 45);
    let bad = TurbopufferConfig::from_values(Some("key".to_string()), None, None, Some("x".to_string()));
    assert_eq!(bad.unwrap().timeout_secs, 30);
    assert_eq!(
        TurbopufferConfig::from_values(None, None, None, None),
        Err(TurbopufferError::Config("TURBOPUFFER_API_KEY not set".to_string()))
    );
}

#[test]
fn turbopuffer_errors_translate() {
    assert_eq!(
        TurbopufferError::NotFound("x".to_string()).into_storage_error(),
        StorageError::NotFound
    );
    assert_eq!(
        TurbopufferError::Http("down".to_string()).into_storage_error(),
        StorageError::Network("down".to_string())
    );
    assert_eq!(
        TurbopufferError::Config("c".to_string()).into_storage_error(),
        StorageError::Configuration("c".to_string())
    );
    assert_eq!(
        TurbopufferError::Api { status: 503, message: "busy".to_string() }.into_storage_error(),
        StorageError::Backend("API error: 503 - busy".to_string())
    );
    assert_eq!(
        TurbopufferError::Serialization("s".to_string()).into_storage_error(),
        StorageError::Backend("Serialization error: s".to_string())
    );
    assert_eq!(check_status(200, "ok".to_string()), Ok(()));
    assert_eq!(check_status(299, "ok".to_string()), Ok(()));
    assert_eq!(
        check_status(404, "gone".to_string()),
        Err(TurbopufferError::Api { status: 404, message: "gone".to_string() })
    );
    assert_eq!(StorageError::NotFound.status_code(), 404);
    assert_eq!(StorageError::Network("n".to_string()).status_code(), 502);
    assert_eq!(StorageError::Database("d".to_string()).status_code(), 500);
    assert_eq!(StorageError::Serialization("d".to_string()).status_code(), 500);
    assert_eq!(StorageError::Io("d".to_string()).status_code(), 500);
    assert_eq!(StorageError::Configuration("d".to_string()).status_code(), 500);
    assert_eq!(StorageError::Backend("d".to_string()).status_code(), 500);
    assert_eq!(StorageError::Backend("d".to_string()).message(), "backend error: d");
    assert_eq!(StorageError::NotFound.message(), "not found");
}

#[test]
fn filter_translation() {
    let empty = span_filter_conditions(&SpanFilter::new());
    assert!(empty.is_empty());
    assert_eq!(filter_json(&empty), None);

    let mut one = SpanFilter::new();
    one.status = Some("completed".to_string());
    let conditions = span_filter_conditions(&one);
    assert_eq!(
        conditions,
        vec![Condition {
            attribute: "status".to_string(),
            op: FilterOp::Eq,
            value: "completed".to_string()
        }]
    );
    assert_eq!(to_text(&filter_json(&conditions).unwrap()), r#"["status","Eq","completed"]"#);

    let mut many = SpanFilter::new();
    many.trace_id = Some(1);
    many.name_contains = Some("chat".to_string());
    many.since = Some(Timestamp::from_parts(0, 0));
    many.until = Some(Timestamp::from_parts(86_400, 0));
    let conditions = span_filter_conditions(&many);
    assert_eq!(conditions.len(), 4);
    assert_eq!(
        to_text(&filter_json(&conditions).unwrap()),
        concat_all(&[
            r#"["And",[["trace_id","Eq","00000000-0000-0000-0000-000000000001"],"#,
            r#"["name","Glob","*chat*"],"#,
            r#"["started_at","Gte","1970-01-01T00:00:00+00:00"],"#,
            r#"["started_at","Lte","1970-01-02T00:00:00+00:00"]]]"#,
        ])
    );

    let mut traces = TraceFilter::new();
    traces.name_contains = Some("x".to_string());
    assert_eq!(
        trace_filter_conditions(&traces),
        vec![Condition {
            attribute: "name".to_string(),
            op: FilterOp::Glob,
            value: "*x*".to_string()
        }]
    );
}

fn concat_all(parts: &[&str]) -> String {
    parts.concat()
}

#[test]
fn request_bodies() {
    assert_eq!(
        to_text(&query_body(None, 1000)),
        r#"{"include_attributes":true,"rank_by":["id","asc"],"top_k":1000}"#
    );
    let filter = Json::Array(vec![
        Json::Str("id".to_string()),
        Json::Str("Eq".to_string()),
        Json::Str("x".to_string()),
    ]);
    assert_eq!(
        to_text(&query_body(Some(filter), 1)),
        r#"{"filters":["id","Eq","x"],"include_attributes":true,"rank_by":["id","asc"],"top_k":1}"#
    );
    assert_eq!(
        to_text(&upsert_body(vec![Json::Object(vec![("id".to_string(), Json::Str("a".to_string()))])])),
        r#"{"upsert_rows":[{"id":"a"}]}"#
    );
    assert_eq!(
        to_text(&delete_body(&vec!["a".to_string(), "b".to_string()])),
        r#"{"deletes":["a","b"]}"#
    );
}

#[test]
fn batches_are_chunked_by_a_thousand() {
    assert_eq!(chunk_bounds(0), vec![]);
    assert_eq!(chunk_bounds(1), vec![(0, 1)]);
    assert_eq!(chunk_bounds(1000), vec![(0, 1000)]);
    assert_eq!(chunk_bounds(1001), vec![(0, 1000), (1000, 1001)]);
    assert_eq!(chunk_bounds(2500), vec![(0, 1000), (1000, 2000), (2000, 2500)]);
}

#[test]
fn row_data_is_read_from_text_or_object() {
    let as_text = parse(br#"{"id":"a","data":"{\"x\":1}"}"#).unwrap();
    assert_eq!(to_text(&extract_data(&as_text).unwrap()), r#"{"x":1}"#);
    let as_object = parse(br#"{"id":"a","data":{"x":2}}"#).unwrap();
    assert_eq!(to_text(&extract_data(&as_object).unwrap()), r#"{"x":2}"#);
    let broken = parse(br#"{"id":"a","data":"{"}"#).unwrap();
    assert_eq!(extract_data(&broken), None);
    let missing = parse(br#"{"id":"a"}"#).unwrap();
    assert_eq!(extract_data(&missing), None);
}
