use traceway::api::auth_keys::{accepted_env_keys, EnvApiKeyLookup, NoopApiKeyLookup};
use traceway::auth::api_key::{
    api_key_from, extract_prefix, generate_api_key, hash_api_key, is_api_key, verify_api_key,
};
use traceway::auth::context::{AuthContext, AuthError};
use traceway::auth::middleware::{
    bearer, candidates, check_api_key, check_session, extract_session_cookie,
    extract_token_from_query, lookup_prefix, resolve, ApiKeyRecord, AuthConfig, Credential,
};
use traceway::auth::session::{
    claims_for, create_session, create_session_at, generate_secret, session_of, verify_session,
    JwtOutcome, SessionClaims,
};
use traceway::auth::{
    plan_from_str, plan_to_str, role_from_str, role_to_str, Plan, Role, Scope,
};
use traceway::clock::Timestamp;
use traceway::ids::{fresh_id, id_to_string};
use traceway::json::Json;

#[test]
fn test_generate_and_verify() {
    let org_id = fresh_id();
    let (generated, stored) =
        generate_api_key(org_id, "Test Key".to_string(), Scope::default_sdk()).unwrap();

    assert!(generated.key.starts_with("tw_sk_"));
    assert!(is_api_key(&generated.key));
    assert!(verify_api_key(&generated.key, &stored.key_hash));
    assert!(!verify_api_key("wrong_key", &stored.key_hash));
}

#[test]
fn test_extract_prefix() {
    let key = "tw_sk_abc123xyz789abcdef";
    assert_eq!(extract_prefix(key), Some("tw_sk_abc123xyz7"));
}

#[test]
fn test_session_roundtrip() {
    let secret = generate_secret();
    let user_id = fresh_id();
    let org_id = fresh_id();
    let scopes = vec![Scope::TracesRead, Scope::TracesWrite];

    let token = create_session(user_id, org_id, scopes.clone(), &secret).unwrap();
    let parsed = verify_session(&token, &secret).unwrap();

    assert_eq!(parsed.user_id, user_id);
    assert_eq!(parsed.org_id, org_id);
    assert_eq!(parsed.scopes, scopes);
}

#[test]
fn test_invalid_secret() {
    let secret1 = generate_secret();
    let secret2 = generate_secret();
    let user_id = fresh_id();
    let org_id = fresh_id();

    let token = create_session(user_id, org_id, vec![], &secret1).unwrap();
    let result = verify_session(&token, &secret2);

    assert!(matches!(result, Err(AuthError::InvalidSession)));
}

#[test]
fn generated_key_has_the_documented_shape() {
    let (shown, kept) = generate_api_key(7, "k".to_string(), Scope::read_only()).unwrap();
    assert_eq!(shown.key.len(), 38);
    assert!(shown.key.len() >= 22);
    assert_eq!(shown.key_prefix, &shown.key[..16]);
    assert_eq!(kept.key_prefix, shown.key_prefix);
    assert_eq!(kept.org_id, 7);
    assert_eq!(kept.scopes, Scope::read_only());
    assert!(kept.expires_at.is_none());
    assert!(kept.last_used_at.is_none());
    assert!(!shown.key.contains('='));
}

#[test]
fn key_from_known_bytes_is_url_safe_base64() {
    let bytes = [0xfbu8; 24];
    let now = Timestamp::from_parts(1_700_000_000, 0);
    let (shown, kept) =
        api_key_from(1, "n".to_string(), Scope::all(), 9, &bytes, now).unwrap();
    assert_eq!(shown.key, "tw_sk_-_v7-_v7-_v7-_v7-_v7-_v7-_v7-_v7");
    assert_eq!(shown.key_prefix, "tw_sk_-_v7-_v7-_");
    assert_eq!(shown.id, 9);
    assert_eq!(kept.id, 9);
    assert_eq!(kept.created_at, now);
    assert!(verify_api_key(&shown.key, &kept.key_hash));
}

#[test]
fn hash_is_salted_and_verifies() {
    let a = hash_api_key("tw_sk_0123456789abcdefghij").unwrap();
    let b = hash_api_key("tw_sk_0123456789abcdefghij").unwrap();
    assert_ne!(a, b);
    assert_ne!(a, "tw_sk_0123456789abcdefghij");
    assert!(verify_api_key("tw_sk_0123456789abcdefghij", &a));
    assert!(verify_api_key("tw_sk_0123456789abcdefghij", &b));
    assert!(!verify_api_key("tw_sk_0123456789abcdefghiX", &a));
    assert!(!verify_api_key("tw_sk_0123456789abcdefghij", "not a hash"));
}

#[test]
fn api_key_form() {
    assert!(is_api_key("tw_sk_abc123xyz789abcdef"));
    assert!(!is_api_key("tw_sk_short"));
    assert!(!is_api_key("tw_sk_abcdefghijklmn"));
    assert!(!is_api_key("tw_sk_abcdefghijklmno"));
    assert!(is_api_key("tw_sk_abcdefghijklmnop"));
    assert_eq!("tw_sk_abcdefghijklmnop".len(), 22);
    assert_eq!(extract_prefix("tw_sk_abcdefghijklmno"), None);
    assert_eq!(extract_prefix("tw_sk_abcdefghijklmnop"), Some("tw_sk_abcdefghij"));
    assert!(!is_api_key("xx_sk_abc123xyz789abcdef"));
    assert_eq!(extract_prefix("tw_sk_short"), None);
    assert_eq!(extract_prefix("llmfs_sk_abc123xyz789abcdef"), None);
}

#[test]
fn roles_and_plans() {
    assert!(Role::Owner.can_write() && Role::Owner.can_admin() && Role::Owner.can_manage_org());
    assert!(Role::Admin.can_write() && Role::Admin.can_admin() && !Role::Admin.can_manage_org());
    assert!(Role::Member.can_write() && !Role::Member.can_admin());
    assert!(!Role::ReadOnly.can_write());
    assert_eq!(Plan::Free.spans_per_month(), 10_000);
    assert_eq!(Plan::Pro.spans_per_month(), 1_000_000);
    assert_eq!(Plan::Team.spans_per_month(), 10_000_000);
    assert_eq!(Plan::Enterprise.spans_per_month(), u64::MAX);
    assert_eq!(Plan::Free.max_team_members(), 1);
    assert_eq!(Plan::Pro.max_team_members(), 5);
    assert_eq!(Plan::Team.max_team_members(), 50);
    assert_eq!(Plan::Enterprise.max_team_members(), usize::MAX);
    assert_eq!(Plan::Free.retention_days(), 7);
    assert_eq!(Plan::Pro.retention_days(), 30);
    assert_eq!(Plan::Team.retention_days(), 90);
    assert_eq!(Plan::Enterprise.retention_days(), 365);
    assert_eq!(Plan::default(), Plan::Free);
    for role in [Role::Owner, Role::Admin, Role::Member, Role::ReadOnly] {
        assert_eq!(role_from_str(role_to_str(role)), role);
    }
    assert_eq!(role_from_str("nobody"), Role::ReadOnly);
    for plan in [Plan::Free, Plan::Pro, Plan::Team, Plan::Enterprise] {
        assert_eq!(plan_from_str(plan_to_str(plan)), plan);
    }
    assert_eq!(plan_from_str("gold"), Plan::Free);
}

#[test]
fn scopes_lists_and_names() {
    assert_eq!(Scope::all().len(), 6);
    assert_eq!(Scope::default_sdk().len(), 5);
    assert!(!Scope::default_sdk().contains(&Scope::Admin));
    assert_eq!(
        Scope::read_only(),
        vec![Scope::TracesRead, Scope::DatasetsRead, Scope::AnalyticsRead]
    );
    for scope in Scope::all() {
        assert_eq!(Scope::from_name(scope.as_str()), Some(scope));
    }
    assert_eq!(Scope::TracesWrite.as_str(), "traces_write");
    assert_eq!(Scope::from_name("root"), None);
}

#[test]
fn context_scopes_and_authorize() {
    let local = AuthContext::local();
    assert!(local.is_local_mode && !local.is_api_key);
    assert_eq!(local.org_id, 0);
    assert!(local.is_admin());
    let key = AuthContext::from_api_key(5, Scope::read_only());
    assert!(key.is_api_key && key.user_id.is_none());
    assert!(key.can_read_traces() && key.can_read_datasets() && key.can_read_analytics());
    assert!(!key.can_write_traces() && !key.can_write_datasets() && !key.is_admin());
    assert_eq!(key.authorize(&vec![Scope::TracesRead, Scope::AnalyticsRead]), Ok(()));
    assert_eq!(key.authorize(&vec![]), Ok(()));
    assert_eq!(
        key.authorize(&vec![Scope::TracesRead, Scope::DatasetsWrite, Scope::Admin]),
        Err(AuthError::InsufficientScope { required: Scope::DatasetsWrite })
    );
    let session = AuthContext::from_session(5, 6, Scope::all());
    assert_eq!(session.user_id, Some(6));
    assert_eq!(session.authorize(&Scope::all()), Ok(()));
    let empty_local = AuthContext { scopes: vec![], ..AuthContext::local() };
    assert_eq!(empty_local.authorize(&Scope::all()), Ok(()));
}

#[test]
fn auth_error_statuses_and_messages() {
    let unauthorized = [
        AuthError::MissingAuth,
        AuthError::InvalidFormat,
        AuthError::InvalidApiKey,
        AuthError::ExpiredApiKey,
        AuthError::InvalidSession,
        AuthError::ExpiredSession,
    ];
    for e in unauthorized {
        assert_eq!(e.status_code(), 401);
    }
    assert_eq!(AuthError::InsufficientScope { required: Scope::Admin }.status_code(), 403);
    assert_eq!(AuthError::OrgNotFound.status_code(), 404);
    assert_eq!(AuthError::UserNotFound.status_code(), 404);
    assert_eq!(AuthError::MissingAuth.message(), "missing authorization header");
    assert_eq!(
        AuthError::InsufficientScope { required: Scope::Admin }.message(),
        "insufficient permissions: requires admin"
    );
}

#[test]
fn cookie_and_query_extraction() {
    assert_eq!(extract_session_cookie("a=b; session=abc.def; c=d"), Some("abc.def".to_string()));
    assert_eq!(extract_session_cookie("session=first;session=second"), Some("first".to_string()));
    assert_eq!(extract_session_cookie("  session=x  "), Some("x".to_string()));
    assert_eq!(extract_session_cookie("a=b; sessions=1"), None);
    assert_eq!(extract_session_cookie(""), None);
    assert_eq!(extract_token_from_query("a=1&token=abc&b=2"), Some("abc".to_string()));
    assert_eq!(
        extract_token_from_query("token=a%20b%2Bc%3Dd%2Fe%5Ff"),
        Some("a b+c=d/e_f".to_string())
    );
    assert_eq!(extract_token_from_query("token=%2b%41%2"), Some("%2b%41%2".to_string()));
    assert_eq!(extract_token_from_query("token=&x=1"), Some("".to_string()));
    assert_eq!(extract_token_from_query("a=1&b=2"), None);
    assert_eq!(extract_token_from_query("xtoken=1"), None);
}

#[test]
fn bearer_and_candidates_order() {
    assert_eq!(bearer("Bearer tw_sk_abc"), Ok(Credential::ApiKey("tw_sk_abc".to_string())));
    assert_eq!(bearer("Bearer eyJ.x.y"), Ok(Credential::Session("eyJ.x.y".to_string())));
    assert_eq!(bearer("Basic abc"), Err(AuthError::InvalidFormat));
    assert_eq!(bearer("bearer abc"), Err(AuthError::InvalidFormat));
    let all = candidates(Some("Bearer tw_sk_k"), Some("session=s1"), Some("token=q1"));
    assert_eq!(
        all,
        vec![
            Ok(Credential::ApiKey("tw_sk_k".to_string())),
            Ok(Credential::Session("s1".to_string())),
            Ok(Credential::Session("q1".to_string())),
        ]
    );
    assert_eq!(candidates(None, None, None), vec![]);
    assert_eq!(candidates(None, Some("session="), None), vec![]);
    assert_eq!(candidates(Some("Digest x"), None, None), vec![Err(AuthError::InvalidFormat)]);
}

fn record_for(key: &str, expires_at: Option<Timestamp>) -> ApiKeyRecord {
    ApiKeyRecord {
        prefix: key[..16].to_string(),
        key_hash: hash_api_key(key).unwrap(),
        org_id: 77,
        scopes: Scope::default_sdk(),
        expires_at,
    }
}

#[test]
fn api_key_auth_scenario() {
    let good = "tw_sk_0123456789abcdefghijklmnopqrstuv";
    let tampered = "tw_sk_0123456789abcdefghijklmnopqrstuX";
    let now = Timestamp::from_parts(1_700_000_000, 0);
    let record = record_for(good, None);
    assert_eq!(lookup_prefix(good), Ok("tw_sk_0123456789".to_string()));
    assert_eq!(lookup_prefix(tampered), Ok("tw_sk_0123456789".to_string()));
    assert_eq!(lookup_prefix("tw_sk_short"), Err(AuthError::InvalidApiKey));

    let ok = check_api_key(good, Some(&record), &now).unwrap();
    assert_eq!(ok, AuthContext::from_api_key(77, Scope::default_sdk()));
    assert_eq!(ok.authorize(&vec![Scope::TracesRead]), Ok(()));

    let bad = check_api_key(tampered, Some(&record), &now);
    assert_eq!(bad, Err(AuthError::InvalidApiKey));
    assert_eq!(bad.unwrap_err().status_code(), 401);

    assert_eq!(check_api_key(good, None, &now), Err(AuthError::InvalidApiKey));

    let nothing = resolve(vec![]);
    assert_eq!(nothing, Err(AuthError::MissingAuth));
    assert_eq!(nothing.unwrap_err().status_code(), 401);

    let local = AuthConfig::local();
    assert!(local.local_mode);
    assert!(AuthConfig::default().local_mode);
    assert!(!AuthConfig::cloud(vec![1, 2, 3]).local_mode);
    assert_eq!(AuthConfig::cloud(vec![1, 2, 3]).jwt_secret, vec![1, 2, 3]);
}

#[test]
fn expired_api_key_is_reported_as_expired() {
    let key = "tw_sk_0123456789abcdefghijklmnopqrstuv";
    let expiry = Timestamp::from_parts(1_000, 0);
    let record = record_for(key, Some(expiry));
    let after = Timestamp::from_parts(1_000, 1);
    assert_eq!(check_api_key(key, Some(&record), &after), Err(AuthError::ExpiredApiKey));
    assert!(check_api_key(key, Some(&record), &expiry).is_ok());
}

#[test]
fn first_success_wins() {
    let a = AuthContext::from_api_key(1, vec![]);
    let b = AuthContext::from_session(2, 3, vec![]);
    assert_eq!(
        resolve(vec![Err(AuthError::InvalidApiKey), Ok(b), Ok(a)]),
        Ok(AuthContext::from_session(2, 3, vec![]))
    );
    assert_eq!(
        resolve(vec![Err(AuthError::InvalidFormat), Err(AuthError::ExpiredSession)]),
        Err(AuthError::InvalidFormat)
    );
}

#[test]
fn session_claims_and_expiry() {
    let now = Timestamp::from_parts(1_700_000_000, 123);
    let claims = claims_for(1, 2, vec![Scope::Admin], &now);
    assert_eq!(claims.sub, "00000000-0000-0000-0000-000000000001");
    assert_eq!(claims.org, "00000000-0000-0000-0000-000000000002");
    assert_eq!(claims.iat, 1_700_000_000);
    assert_eq!(claims.exp, 1_700_000_000 + 7 * 24 * 3600);
    let json = claims.to_json();
    assert_eq!(json.get("sub").unwrap().as_str(), Some("00000000-0000-0000-0000-000000000001"));
    assert_eq!(json.get("exp").unwrap().as_i64(), Some(1_700_604_800));
    assert_eq!(SessionClaims::from_json(&json), Some(claims));
    let session = SessionClaims::from_json(&json).unwrap().session().unwrap();
    assert_eq!(session.user_id, 1);
    assert_eq!(session.org_id, 2);
    assert_eq!(session.scopes, vec![Scope::Admin]);
    assert_eq!(session.expires_at, Timestamp::from_parts(1_700_604_800, 0));
}

#[test]
fn session_outcomes() {
    assert_eq!(session_of(JwtOutcome::Expired), Err(AuthError::ExpiredSession));
    assert_eq!(session_of(JwtOutcome::Invalid), Err(AuthError::InvalidSession));
    assert_eq!(session_of(JwtOutcome::Claims(Json::Null)), Err(AuthError::InvalidSession));
    let bad_user = SessionClaims {
        sub: "nobody".to_string(),
        org: id_to_string(2),
        scopes: vec![],
        iat: 0,
        exp: 10,
    };
    assert_eq!(session_of(JwtOutcome::Claims(bad_user.to_json())), Err(AuthError::InvalidSession));
    let unknown_scope = Json::Object(vec![
        ("sub".to_string(), Json::Str(id_to_string(1))),
        ("org".to_string(), Json::Str(id_to_string(2))),
        ("scopes".to_string(), Json::Array(vec![Json::Str("root".to_string())])),
        ("iat".to_string(), Json::Number("1".to_string())),
        ("exp".to_string(), Json::Number("2".to_string())),
    ]);
    assert_eq!(session_of(JwtOutcome::Claims(unknown_scope)), Err(AuthError::InvalidSession));
}

#[test]
fn expired_token_is_reported_as_expired() {
    let secret = vec![7u8; 32];
    let long_ago = Timestamp::from_parts(1_000_000_000, 0);
    let token = create_session_at(1, 2, vec![Scope::TracesRead], &secret, &long_ago).unwrap();
    assert_eq!(verify_session(&token, &secret), Err(AuthError::ExpiredSession));
    let config = AuthConfig::cloud(secret);
    assert_eq!(check_session(&token, &config), Err(AuthError::ExpiredSession));
    assert_eq!(check_session("garbage", &config), Err(AuthError::InvalidSession));
}

#[test]
fn tokens_are_a_function_of_claims_and_secret() {
    let secret = vec![9u8; 32];
    let now = Timestamp::from_parts(1_700_000_000, 0);
    let a = create_session_at(1, 2, vec![Scope::TracesRead], &secret, &now).unwrap();
    let b = create_session_at(1, 2, vec![Scope::TracesRead], &secret, &now).unwrap();
    let c = create_session_at(1, 3, vec![Scope::TracesRead], &secret, &now).unwrap();
    assert_eq!(a, b);
    assert_ne!(a, c);
    assert_eq!(a.split('.').count(), 3);
}

#[test]
fn session_from_a_fresh_token_gives_context() {
    let secret = generate_secret();
    assert_eq!(secret.len(), 32);
    let config = AuthConfig::cloud(secret.clone());
    let token = create_session(10, 20, Scope::read_only(), &secret).unwrap();
    let ctx = check_session(&token, &config).unwrap();
    assert_eq!(ctx, AuthContext::from_session(20, 10, Scope::read_only()));
}

#[test]
fn env_keys_are_parsed_and_looked_up() {
    let list = " tw_sk_aaaaaaaaaaaaaaaaaaaa , bad, ,tw_sk_short,tw_sk_bbbbbbbbbbbbbbbbbbbb";
    let keys = accepted_env_keys(Some(list), Some("tw_sk_cccccccccccccccccccc"));
    assert_eq!(
        keys,
        vec![
            "tw_sk_aaaaaaaaaaaaaaaaaaaa".to_string(),
            "tw_sk_bbbbbbbbbbbbbbbbbbbb".to_string(),
            "tw_sk_cccccccccccccccccccc".to_string(),
        ]
    );
    assert_eq!(accepted_env_keys(None, None), Vec::<String>::new());
    assert_eq!(accepted_env_keys(None, Some("nope")), Vec::<String>::new());
    let lookup = EnvApiKeyLookup::from_values(Some(list), None);
    assert!(lookup.has_keys());
    let found = lookup.lookup_api_key("tw_sk_bbbbbbbbbb").unwrap();
    assert_eq!(found.org_id, 0);
    assert_eq!(found.scopes, Scope::all());
    assert!(verify_api_key("tw_sk_bbbbbbbbbbbbbbbbbbbb", &found.key_hash));
    assert!(lookup.lookup_api_key("tw_sk_zzzzzzzzzz").is_none());
    assert!(!EnvApiKeyLookup::from_values(None, None).has_keys());
    assert!(NoopApiKeyLookup.lookup_api_key("tw_sk_bbbbbbbbbb").is_none());
}

#[test]
fn a_key_is_kept_under_the_hash_it_is_given() {
    let bytes = [7u8; 24];
    let now = Timestamp::from_parts(5, 0);
    let (shown, kept) = traceway::auth::api_key::api_key_with_hash(
        3,
        "ci".to_string(),
        Scope::read_only(),
        9,
        &bytes,
        "the hash".to_string(),
        now,
    );
    assert_eq!(shown.key, "tw_sk_BwcHBwcHBwcHBwcHBwcHBwcHBwcHBwcH");
    assert_eq!(shown.key_prefix, "tw_sk_BwcHBwcHBw");
    assert_eq!((shown.id, kept.id, kept.org_id), (9, 9, 3));
    assert_eq!(kept.name, "ci");
    assert_eq!(kept.key_prefix, shown.key_prefix);
    assert_eq!(kept.key_hash, "the hash");
    assert_eq!(kept.scopes, Scope::read_only());
    assert_eq!(kept.created_at, now);
    assert_eq!((kept.last_used_at, kept.expires_at), (None, None));
    let (again, hashed) = api_key_from(3, "ci".to_string(), Scope::read_only(), 9, &bytes, now).unwrap();
    assert_eq!(again, shown);
    assert!(verify_api_key(&shown.key, &hashed.key_hash));
    assert_eq!(hashed.key_prefix, kept.key_prefix);
}

#[test]
fn keys_without_a_hash_are_left_out() {
    let keys = vec![
        "tw_sk_aaaaaaaaaaaaaaaaaaaa".to_string(),
        "tw_sk_bbbbbbbbbbbbbbbbbbbb".to_string(),
        "tw_sk_cccccccccccccccccccc".to_string(),
    ];
    let hashes = vec![Some("h1".to_string()), None, Some("h3".to_string())];
    let lookup = EnvApiKeyLookup::from_hashes(&keys, &hashes);
    assert!(lookup.has_keys());
    let first = lookup.lookup_api_key("tw_sk_aaaaaaaaaa").unwrap();
    assert_eq!(first.key_hash, "h1");
    assert_eq!(first.org_id, 0);
    assert_eq!(first.scopes, Scope::all());
    assert_eq!(first.expires_at, None);
    assert!(lookup.lookup_api_key("tw_sk_bbbbbbbbbb").is_none());
    assert_eq!(lookup.lookup_api_key("tw_sk_cccccccccc").unwrap().key_hash, "h3");
    assert!(!EnvApiKeyLookup::from_hashes(&vec![], &vec![]).has_keys());
    let hashed = EnvApiKeyLookup::from_keys(&keys);
    for key in &keys {
        let record = hashed.lookup_api_key(&key[..16]).unwrap();
        assert!(verify_api_key(key, &record.key_hash));
    }
}

#[test]
fn fresh_identifiers_are_of_the_time_ordered_kind() {
    for _ in 0..50 {
        let id = fresh_id();
        assert_eq!((id >> 76) & 0xf, 7);
        assert_eq!((id >> 62) & 0x3, 2);
        assert_eq!(id_to_string(id).as_bytes()[14], b'7');
    }
}
