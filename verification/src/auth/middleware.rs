use crate::auth::api_key::{bcrypt_matches, verify_api_key};
use crate::auth::context::{AuthContext, AuthContextView, AuthError};
use crate::auth::session::{verify_session, SessionToken};
use crate::auth::{OrgId, Scope};
use crate::clock::Timestamp;
use crate::text::{opt_str, parts_view, split_on, stripped, trimmed};
use vstd::prelude::*;

verus! {

/// How requests are let in.
#[derive(Debug, PartialEq)]
pub struct AuthConfig {
    /// Where this is set, every request passes as the local context.
    pub local_mode: bool,
    /// The secret that signs the session tokens.
    pub jwt_secret: Vec<u8>,
}

impl AuthConfig {
    /// The configuration of a daemon without tenants.
    pub fn local() -> (c: AuthConfig)
        ensures
            c.local_mode,
            c.jwt_secret@ == Seq::<u8>::empty(),
    {
        AuthConfig { local_mode: true, jwt_secret: Vec::new() }
    }

    /// The configuration of a daemon with tenants.
    pub fn cloud(jwt_secret: Vec<u8>) -> (c: AuthConfig)
        ensures
            !c.local_mode,
            c.jwt_secret@ == jwt_secret@,
    {
        AuthConfig { local_mode: false, jwt_secret }
    }
}

impl Clone for AuthConfig {
    fn clone(&self) -> (c: AuthConfig)
        ensures
            c.local_mode == self.local_mode,
            c.jwt_secret@ == self.jwt_secret@,
    {
        AuthConfig { local_mode: self.local_mode, jwt_secret: self.jwt_secret.clone() }
    }
}

impl Default for AuthConfig {
    fn default() -> (c: AuthConfig)
        ensures
            c.local_mode,
            c.jwt_secret@ == Seq::<u8>::empty(),
    {
        AuthConfig::local()
    }
}

/// What a request shows to say who it is.
#[derive(Debug, PartialEq)]
pub enum Credential {
    ApiKey(String),
    Session(String),
}

/// The mathematical value of a [`Credential`].
pub enum CredentialView {
    ApiKey(Seq<char>),
    Session(Seq<char>),
}

impl View for Credential {
    type V = CredentialView;

    open spec fn view(&self) -> CredentialView {
        match self {
            Credential::ApiKey(k) => CredentialView::ApiKey(k@),
            Credential::Session(t) => CredentialView::Session(t@),
        }
    }
}

/// The value of the first part that, without the spaces around it, starts
/// with `name`: what follows `name` in it.
pub open spec fn first_named(parts: Seq<Seq<char>>, name: Seq<char>, trim: bool) -> Option<Seq<char>>
    decreases parts.len(),
{
    if parts.len() == 0 {
        None
    } else {
        let part = if trim {
            trimmed(parts[0])
        } else {
            parts[0]
        };
        match stripped(part, name) {
            Some(v) => Some(v),
            None => first_named(parts.drop_first(), name, trim),
        }
    }
}

/// The value of the session cookie in a `Cookie` header: of the cookies,
/// which semicolons part, the first that is named `session`.
pub open spec fn session_cookie_of(cookies: Seq<char>) -> Option<Seq<char>> {
    first_named(split_on(cookies, ';'), "session="@, true)
}

fn find_named(parts: &Vec<Vec<char>>, name: &str, trim: bool) -> (r: Option<Vec<char>>)
    ensures
        match r {
            Some(v) => first_named(parts_view(parts@), name@, trim) == Some(v@),
            None => first_named(parts_view(parts@), name@, trim).is_none(),
        },
{
    let pat = crate::text::to_chars(name);
    let ghost all = parts_view(parts@);
    let mut i: usize = 0;
    assert(all.skip(0) =~= all);
    while i < parts.len()
        invariant
            i <= parts.len(),
            all == parts_view(parts@),
            pat@ == name@,
            first_named(all, name@, trim) == first_named(all.skip(i as int), name@, trim),
        decreases parts.len() - i,
    {
        proof {
            let rest = all.skip(i as int);
            assert(rest[0] == parts[i as int]@);
            assert(rest.drop_first() =~= all.skip(i + 1));
        }
        let found = if trim {
            let part = crate::text::trim(&parts[i]);
            crate::text::strip_prefix(&part, &pat)
        } else {
            crate::text::strip_prefix(&parts[i], &pat)
        };
        if found.is_some() {
            return found;
        }
        i = i + 1;
    }
    None
}

/// The value of the session cookie in a `Cookie` header.
pub fn extract_session_cookie(cookies: &str) -> (r: Option<String>)
    ensures
        crate::text::opt_text(r) == session_cookie_of(cookies@),
{
    let chars = crate::text::to_chars(cookies);
    let parts = crate::text::split(&chars, ';');
    match find_named(&parts, "session=", true) {
        Some(v) => Some(crate::text::from_chars(&v)),
        None => None,
    }
}

/// What follows `%` in the five escapes that a token in a query is read
/// with, and the character each stands for.
pub open spec fn escape_at(s: Seq<char>) -> Option<char> {
    if s.len() >= 3 && s[0] == '%' {
        if s[1] == '2' && s[2] == '0' {
            Some(' ')
        } else if s[1] == '2' && s[2] == 'B' {
            Some('+')
        } else if s[1] == '3' && s[2] == 'D' {
            Some('=')
        } else if s[1] == '2' && s[2] == 'F' {
            Some('/')
        } else if s[1] == '5' && s[2] == 'F' {
            Some('_')
        } else {
            None
        }
    } else {
        None
    }
}

/// `s` with each of the escapes `%20`, `%2B`, `%3D`, `%2F` and `%5F`
/// turned into the character it stands for.
pub open spec fn unescaped(s: Seq<char>) -> Seq<char>
    decreases s.len(),
{
    if s.len() == 0 {
        s
    } else {
        match escape_at(s) {
            Some(c) => seq![c] + unescaped(s.skip(3)),
            None => seq![s[0]] + unescaped(s.drop_first()),
        }
    }
}

/// The token in a query string: of the parameters, which ampersands part,
/// the value of the first that is named `token`, with its escapes read.
pub open spec fn query_token_of(query: Seq<char>) -> Option<Seq<char>> {
    match first_named(split_on(query, '&'), "token="@, false) {
        Some(v) => Some(unescaped(v)),
        None => None,
    }
}

fn unescape(s: &Vec<char>) -> (r: Vec<char>)
    ensures
        r@ == unescaped(s@),
{
    let mut r: Vec<char> = Vec::new();
    let mut i: usize = 0;
    assert(s@.skip(0) =~= s@);
    while i < s.len()
        invariant
            i <= s.len(),
            r@ + unescaped(s@.skip(i as int)) == unescaped(s@),
        decreases s.len() - i,
    {
        let ghost rest = s@.skip(i as int);
        let ghost before = r@;
        proof {
            assert(rest[0] == s@[i as int]);
            if rest.len() >= 3 {
                assert(rest[1] == s@[i + 1]);
                assert(rest[2] == s@[i + 2]);
            }
        }
        let mut found: Option<char> = None;
        if s.len() - i >= 3 && s[i] == '%' {
            let a = s[i + 1];
            let b = s[i + 2];
            if a == '2' && b == '0' {
                found = Some(' ');
            } else if a == '2' && b == 'B' {
                found = Some('+');
            } else if a == '3' && b == 'D' {
                found = Some('=');
            } else if a == '2' && b == 'F' {
                found = Some('/');
            } else if a == '5' && b == 'F' {
                found = Some('_');
            }
        }
        assert(found == escape_at(rest));
        match found {
            Some(c) => {
                r.push(c);
                proof {
                    assert(rest.skip(3) =~= s@.skip(i + 3));
                    assert(before.push(c) + unescaped(s@.skip(i + 3)) =~= before + unescaped(rest));
                }
                i = i + 3;
            },
            None => {
                r.push(s[i]);
                proof {
                    assert(rest.drop_first() =~= s@.skip(i + 1));
                    assert(before.push(s@[i as int]) + unescaped(s@.skip(i + 1)) =~= before
                        + unescaped(rest));
                }
                i = i + 1;
            },
        }
    }
    assert(s@.skip(s.len() as int) =~= Seq::empty());
    assert(r@ + Seq::<char>::empty() =~= r@);
    r
}

/// The token in a query string, for a request that cannot set a header.
pub fn extract_token_from_query(query: &str) -> (r: Option<String>)
    ensures
        crate::text::opt_text(r) == query_token_of(query@),
{
    let chars = crate::text::to_chars(query);
    let parts = crate::text::split(&chars, '&');
    match find_named(&parts, "token=", false) {
        Some(v) => Some(crate::text::from_chars(&unescape(&v))),
        None => None,
    }
}

/// What an `Authorization` header shows: after `Bearer `, an API key
/// where the token starts as one, a session token otherwise.  A header
/// of another form shows nothing.
pub open spec fn bearer_of(header: Seq<char>) -> Result<CredentialView, AuthError> {
    match stripped(header, "Bearer "@) {
        Some(token) => if "tw_sk_"@.is_prefix_of(token) {
            Ok(CredentialView::ApiKey(token))
        } else {
            Ok(CredentialView::Session(token))
        },
        None => Err(AuthError::InvalidFormat),
    }
}

/// What an `Authorization` header shows.
pub fn bearer(header: &str) -> (r: Result<Credential, AuthError>)
    ensures
        match r {
            Ok(c) => bearer_of(header@) == Ok::<CredentialView, AuthError>(c@),
            Err(e) => bearer_of(header@) == Err::<CredentialView, AuthError>(e),
        },
{
    let chars = crate::text::to_chars(header);
    let pat = crate::text::to_chars("Bearer ");
    match crate::text::strip_prefix(&chars, &pat) {
        Some(token) => {
            let key = crate::text::to_chars("tw_sk_");
            let text = crate::text::from_chars(&token);
            if crate::text::starts_with(&token, &key) {
                Ok(Credential::ApiKey(text))
            } else {
                Ok(Credential::Session(text))
            }
        },
        None => Err(AuthError::InvalidFormat),
    }
}

/// What a request shows, in the order in which it counts: the
/// `Authorization` header; then the session cookie, where it is not
/// empty; then the token of the query.
pub open spec fn candidates_of(
    auth_header: Option<Seq<char>>,
    cookie_header: Option<Seq<char>>,
    query: Option<Seq<char>>,
) -> Seq<Result<CredentialView, AuthError>> {
    let a = match auth_header {
        Some(h) => seq![bearer_of(h)],
        None => Seq::empty(),
    };
    let b = match cookie_header {
        Some(c) => match session_cookie_of(c) {
            Some(v) => if v.len() > 0 {
                seq![Ok::<CredentialView, AuthError>(CredentialView::Session(v))]
            } else {
                Seq::empty()
            },
            None => Seq::empty(),
        },
        None => Seq::empty(),
    };
    let c = match query {
        Some(q) => match query_token_of(q) {
            Some(v) => seq![Ok::<CredentialView, AuthError>(CredentialView::Session(v))],
            None => Seq::empty(),
        },
        None => Seq::empty(),
    };
    a + b + c
}

/// The values of a list of candidates.
pub open spec fn candidates_view(v: Seq<Result<Credential, AuthError>>) -> Seq<
    Result<CredentialView, AuthError>,
> {
    Seq::new(
        v.len(),
        |i: int|
            match v[i] {
                Ok(c) => Ok(c@),
                Err(e) => Err(e),
            },
    )
}

/// What a request shows, in the order in which it counts.
pub fn candidates(auth_header: Option<&str>, cookie_header: Option<&str>, query: Option<&str>) -> (r:
    Vec<Result<Credential, AuthError>>)
    ensures
        candidates_view(r@) == candidates_of(
            opt_str(auth_header),
            opt_str(cookie_header),
            opt_str(query),
        ),
{
    let mut r: Vec<Result<Credential, AuthError>> = Vec::new();
    if let Some(h) = auth_header {
        r.push(bearer(h));
    }
    if let Some(c) = cookie_header {
        if let Some(v) = extract_session_cookie(c) {
            if v.as_str().unicode_len() > 0 {
                r.push(Ok(Credential::Session(v)));
            }
        }
    }
    if let Some(q) = query {
        if let Some(v) = extract_token_from_query(q) {
            r.push(Ok(Credential::Session(v)));
        }
    }
    assert(candidates_view(r@) =~= candidates_of(
        opt_str(auth_header),
        opt_str(cookie_header),
        opt_str(query),
    ));
    r
}

/// What is known of an API key where keys are looked up.
#[derive(Debug, PartialEq)]
pub struct ApiKeyRecord {
    pub prefix: String,
    pub key_hash: String,
    pub org_id: OrgId,
    pub scopes: Vec<Scope>,
    pub expires_at: Option<Timestamp>,
}

/// What comes of an API key, given what the lookup of its prefix found:
/// a key that was not found, or that the hash does not match, is invalid;
/// a key that was found and has expired is expired; any other key speaks
/// for its organisation with its scopes.
pub open spec fn key_outcome(
    key: Seq<char>,
    found: Option<ApiKeyRecord>,
    now: int,
) -> Result<AuthContextView, AuthError> {
    match found {
        None => Err(AuthError::InvalidApiKey),
        Some(record) => if record.expires_at.is_some() && record.expires_at.unwrap()@ < now {
            Err(AuthError::ExpiredApiKey)
        } else if !bcrypt_matches(key, record.key_hash@) {
            Err(AuthError::InvalidApiKey)
        } else {
            Ok(
                AuthContextView {
                    org_id: record.org_id,
                    user_id: None,
                    scopes: record.scopes@,
                    is_local_mode: false,
                    is_api_key: true,
                },
            )
        },
    }
}

/// The value of an outcome.
pub open spec fn outcome_view(r: Result<AuthContext, AuthError>) -> Result<
    AuthContextView,
    AuthError,
> {
    match r {
        Ok(c) => Ok(c@),
        Err(e) => Err(e),
    }
}

fn copy_scopes(scopes: &Vec<Scope>) -> (r: Vec<Scope>)
    ensures
        r@ == scopes@,
{
    let mut r: Vec<Scope> = Vec::new();
    let mut i: usize = 0;
    while i < scopes.len()
        invariant
            i <= scopes.len(),
            r@ == scopes@.subrange(0, i as int),
        decreases scopes.len() - i,
    {
        r.push(scopes[i]);
        i = i + 1;
    }
    assert(scopes@.subrange(0, scopes.len() as int) =~= scopes@);
    r
}

/// Decides on an API key, given what the lookup of its prefix found.
pub fn check_api_key(key: &str, found: Option<&ApiKeyRecord>, now: &Timestamp) -> (r: Result<
    AuthContext,
    AuthError,
>)
    ensures
        outcome_view(r) == key_outcome(
            key@,
            match found {
                Some(record) => Some(*record),
                None => None,
            },
            now@,
        ),
{
    match found {
        None => Err(AuthError::InvalidApiKey),
        Some(record) => {
            if let Some(expires) = &record.expires_at {
                if expires.lt(now) {
                    return Err(AuthError::ExpiredApiKey);
                }
            }
            if !verify_api_key(key, record.key_hash.as_str()) {
                return Err(AuthError::InvalidApiKey);
            }
            Ok(AuthContext::from_api_key(record.org_id, copy_scopes(&record.scopes)))
        },
    }
}

/// The prefix under which an API key is looked up: its first sixteen
/// characters.  A key that is shorter is invalid.
pub fn lookup_prefix(key: &str) -> (r: Result<String, AuthError>)
    ensures
        match r {
            Ok(p) => key@.len() >= 16 && p@ == key@.subrange(0, 16),
            Err(e) => key@.len() < 16 && e == AuthError::InvalidApiKey,
        },
{
    let chars = crate::text::to_chars(key);
    if chars.len() >= 16 {
        Ok(crate::text::from_chars(&crate::text::slice(&chars, 0, 16)))
    } else {
        Err(AuthError::InvalidApiKey)
    }
}

/// True when `r` is the context of the session `session`, or the failure
/// of reading it.
pub open spec fn context_of(
    session: Result<SessionToken, AuthError>,
    r: Result<AuthContext, AuthError>,
) -> bool {
    match session {
        Ok(s) => outcome_view(r) == Ok::<AuthContextView, AuthError>(
            AuthContextView {
                org_id: s.org_id,
                user_id: Some(s.user_id),
                scopes: s.scopes@,
                is_local_mode: false,
                is_api_key: false,
            },
        ),
        Err(e) => outcome_view(r) == Err::<AuthContextView, AuthError>(e),
    }
}

/// The context of a session token that was read.
pub fn session_context(session: Result<SessionToken, AuthError>) -> (r: Result<AuthContext, AuthError>)
    ensures
        context_of(session, r),
{
    match session {
        Ok(s) => Ok(AuthContext::from_session(s.org_id, s.user_id, s.scopes)),
        Err(e) => Err(e),
    }
}

/// Reads a session token and gives the context of its session: of what
/// some reading of the token means for the session.
pub fn check_session(token: &str, config: &AuthConfig) -> (r: Result<AuthContext, AuthError>)
    ensures
        exists|session: Result<SessionToken, AuthError>|
            crate::auth::session::read_of_a_token(session) && #[trigger] context_of(session, r),
        r matches Ok(c) ==> !c@.is_local_mode && !c@.is_api_key && c@.user_id.is_some(),
        r matches Err(e) ==> e == AuthError::ExpiredSession || e == AuthError::InvalidSession,
{
    let session = verify_session(token, config.jwt_secret.as_slice());
    let ghost read = session;
    let r = session_context(session);
    assert(context_of(read, r));
    r
}

/// What a list of outcomes comes to: the first that let the request in;
/// where none did, the first failure; where there is no outcome at all,
/// the failure that nothing was shown.
pub open spec fn first_success(outcomes: Seq<Result<AuthContextView, AuthError>>) -> Result<
    AuthContextView,
    AuthError,
>
    decreases outcomes.len(),
{
    if outcomes.len() == 0 {
        Err(AuthError::MissingAuth)
    } else {
        match outcomes[0] {
            Ok(c) => Ok(c),
            Err(e) => match first_success(outcomes.drop_first()) {
                Ok(c) => Ok(c),
                Err(_) => Err(e),
            },
        }
    }
}

/// The values of a list of outcomes.
pub open spec fn outcomes_view(v: Seq<Result<AuthContext, AuthError>>) -> Seq<
    Result<AuthContextView, AuthError>,
> {
    Seq::new(v.len(), |i: int| outcome_view(v[i]))
}

/// Decides on a request from the outcomes of what it showed, in order:
/// the first success wins.
pub fn resolve(outcomes: Vec<Result<AuthContext, AuthError>>) -> (r: Result<AuthContext, AuthError>)
    ensures
        outcome_view(r) == first_success(outcomes_view(outcomes@)),
{
    let ghost all = outcomes_view(outcomes@);
    let mut first_error: Option<AuthError> = None;
    let ghost mut n: int = 0;
    assert(all.skip(0) =~= all);
    for outcome in it: outcomes
        invariant
            n == it.index(),
            it.seq() == outcomes@,
            all == outcomes_view(outcomes@),
            0 <= n <= all.len(),
            forall|j: int| 0 <= j < n ==> all[j].is_err(),
            match first_error {
                Some(e) => n > 0 && all[0] == Err::<AuthContextView, AuthError>(e),
                None => n == 0,
            },
    {
        proof {
            assert(all[n] == outcome_view(outcome));
        }
        match outcome {
            Ok(c) => {
                proof {
                    lemma_first_success_at(all, n);
                }
                return Ok(c);
            },
            Err(e) => {
                if first_error.is_none() {
                    first_error = Some(e);
                }
            },
        }
        proof {
            n = n + 1;
        }
    }
    proof {
        lemma_all_failed(all);
    }
    match first_error {
        Some(e) => Err(e),
        None => Err(AuthError::MissingAuth),
    }
}

/// Where the outcome at `n` is the first success, it is what the list
/// comes to.
pub proof fn lemma_first_success_at(all: Seq<Result<AuthContextView, AuthError>>, n: int)
    requires
        0 <= n < all.len(),
        all[n].is_ok(),
        forall|j: int| 0 <= j < n ==> all[j].is_err(),
    ensures
        first_success(all) == all[n],
    decreases n,
{
    if n > 0 {
        let rest = all.drop_first();
        assert(rest[n - 1] == all[n]);
        assert forall|j: int| 0 <= j < n - 1 implies rest[j].is_err() by {
            assert(rest[j] == all[j + 1]);
        }
        lemma_first_success_at(rest, n - 1);
    }
}

/// Where every outcome is a failure, the list comes to the first of them.
pub proof fn lemma_all_failed(all: Seq<Result<AuthContextView, AuthError>>)
    requires
        forall|j: int| 0 <= j < all.len() ==> all[j].is_err(),
    ensures
        all.len() == 0 ==> first_success(all) == Err::<AuthContextView, AuthError>(
            AuthError::MissingAuth,
        ),
        all.len() > 0 ==> first_success(all) == all[0],
    decreases all.len(),
{
    if all.len() > 0 {
        let rest = all.drop_first();
        assert forall|j: int| 0 <= j < rest.len() implies rest[j].is_err() by {
            assert(rest[j] == all[j + 1]);
        }
        lemma_all_failed(rest);
    }
}

/// The prefix that is looked up for what a request showed: the first
/// sixteen characters of an API key that is long enough.  Nothing is
/// looked up for anything else.
pub open spec fn prefix_of(candidate: Result<CredentialView, AuthError>) -> Option<Seq<char>> {
    match candidate {
        Ok(CredentialView::ApiKey(key)) => if key.len() >= 16 {
            Some(key.subrange(0, 16))
        } else {
            None
        },
        _ => None,
    }
}

/// The prefix that is looked up for what a request showed.
pub fn prefix_to_look_up(candidate: &Result<Credential, AuthError>) -> (r: Option<String>)
    ensures
        crate::text::opt_text(r) == prefix_of(
            match *candidate {
                Ok(c) => Ok(c@),
                Err(e) => Err(e),
            },
        ),
{
    match candidate {
        Ok(Credential::ApiKey(key)) => match lookup_prefix(key.as_str()) {
            Ok(prefix) => Some(prefix),
            Err(_) => None,
        },
        _ => None,
    }
}

/// The session token that is read for what a request showed; none for
/// anything else.
pub fn token_to_read(candidate: &Result<Credential, AuthError>) -> (r: Option<&str>)
    ensures
        match *candidate {
            Ok(Credential::Session(token)) => r matches Some(t) && t@ == token@,
            _ => r.is_none(),
        },
{
    match candidate {
        Ok(Credential::Session(token)) => Some(token.as_str()),
        _ => None,
    }
}

/// What comes of one thing that a request showed, given what the lookup
/// of its prefix found and what the reading of its token gave.  What
/// could not be taken from the request fails as it failed there; an API
/// key that is too short to have a prefix is invalid, and any other is
/// held against what was found; a session token gives the context of its
/// session, or the failure of its reading.
pub open spec fn candidate_outcome(
    candidate: Result<CredentialView, AuthError>,
    found: Option<ApiKeyRecord>,
    session: Result<SessionToken, AuthError>,
    now: int,
) -> Result<AuthContextView, AuthError> {
    match candidate {
        Err(e) => Err(e),
        Ok(CredentialView::ApiKey(key)) => if key.len() < 16 {
            Err(AuthError::InvalidApiKey)
        } else {
            key_outcome(key, found, now)
        },
        Ok(CredentialView::Session(_)) => match session {
            Ok(s) => Ok(
                AuthContextView {
                    org_id: s.org_id,
                    user_id: Some(s.user_id),
                    scopes: s.scopes@,
                    is_local_mode: false,
                    is_api_key: false,
                },
            ),
            Err(e) => Err(e),
        },
    }
}

/// What comes of one thing that a request showed.
pub fn outcome_of(
    candidate: Result<Credential, AuthError>,
    found: Option<&ApiKeyRecord>,
    session: Result<SessionToken, AuthError>,
    now: &Timestamp,
) -> (r: Result<AuthContext, AuthError>)
    ensures
        outcome_view(r) == candidate_outcome(
            match candidate {
                Ok(c) => Ok(c@),
                Err(e) => Err(e),
            },
            match found {
                Some(record) => Some(*record),
                None => None,
            },
            session,
            now@,
        ),
{
    match candidate {
        Err(e) => Err(e),
        Ok(Credential::ApiKey(key)) => match lookup_prefix(key.as_str()) {
            Ok(_) => check_api_key(key.as_str(), found, now),
            Err(e) => Err(e),
        },
        Ok(Credential::Session(_)) => session_context(session),
    }
}

/// Who asks.  A daemon without tenants lets every request in as the
/// local context, whatever the request showed; any other decides from the
/// outcomes of what the request showed, in order: the first success wins.
pub fn who_asks(config: &AuthConfig, outcomes: Vec<Result<AuthContext, AuthError>>) -> (r: Result<
    AuthContext,
    AuthError,
>)
    ensures
        outcome_view(r) == if config.local_mode {
            Ok::<AuthContextView, AuthError>(
                AuthContextView {
                    org_id: crate::ids::NIL,
                    user_id: None,
                    scopes: Scope::spec_all(),
                    is_local_mode: true,
                    is_api_key: false,
                },
            )
        } else {
            first_success(outcomes_view(outcomes@))
        },
{
    if config.local_mode {
        Ok(AuthContext::local())
    } else {
        resolve(outcomes)
    }
}

} // verus!
