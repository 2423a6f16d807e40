use crate::auth::context::AuthError;
use crate::auth::{OrgId, Scope, UserId};
use crate::clock::{Timestamp, MAX_SECS, MIN_SECS};
use crate::ids::{uuid_parsed, uuid_text};
use crate::json::{items_view, Json, JsonView};
use crate::text::signed_decimal;
use vstd::prelude::*;

verus! {

/// What a session token states: the user, the organisation, the scopes,
/// and the seconds since the epoch at which it was issued and at which it
/// expires.
#[derive(Debug, PartialEq)]
pub struct SessionClaims {
    pub sub: String,
    pub org: String,
    pub scopes: Vec<Scope>,
    pub iat: i64,
    pub exp: i64,
}

/// The mathematical value of a [`SessionClaims`].
pub struct SessionClaimsView {
    pub sub: Seq<char>,
    pub org: Seq<char>,
    pub scopes: Seq<Scope>,
    pub iat: i64,
    pub exp: i64,
}

impl View for SessionClaims {
    type V = SessionClaimsView;

    open spec fn view(&self) -> SessionClaimsView {
        SessionClaimsView {
            sub: self.sub@,
            org: self.org@,
            scopes: self.scopes@,
            iat: self.iat,
            exp: self.exp,
        }
    }
}

/// A session that was read from its token.
#[derive(Debug, PartialEq)]
pub struct SessionToken {
    pub user_id: UserId,
    pub org_id: OrgId,
    pub scopes: Vec<Scope>,
    pub expires_at: Timestamp,
}

/// A session lasts this many days.
pub const SESSION_DURATION_DAYS: i64 = 7;

/// A session lasts this many seconds.
pub const SESSION_DURATION_SECS: i64 = 604_800;

/// The names of a list of scopes, as JSON strings.
pub open spec fn scope_names(scopes: Seq<Scope>) -> Seq<JsonView> {
    Seq::new(scopes.len(), |i: int| JsonView::Str(scopes[i].spec_as_str()))
}

/// The scopes that a list of JSON strings names; `None` where an item is
/// no string or names no scope.
pub open spec fn scopes_named(items: Seq<JsonView>) -> Option<Seq<Scope>>
    decreases items.len(),
{
    if items.len() == 0 {
        Some(Seq::empty())
    } else {
        match (scopes_named(items.drop_last()), items.last().as_str()) {
            (Some(first), Some(name)) => match Scope::spec_from_name(name) {
                Some(scope) => Some(first.push(scope)),
                None => None,
            },
            _ => None,
        }
    }
}

impl SessionClaimsView {
    /// The claims as a JSON object.
    pub open spec fn to_json(self) -> JsonView {
        JsonView::Object(
            seq![
                ("sub"@, JsonView::Str(self.sub)),
                ("org"@, JsonView::Str(self.org)),
                ("scopes"@, JsonView::Array(scope_names(self.scopes))),
                ("iat"@, JsonView::Number(signed_decimal(self.iat as int))),
                ("exp"@, JsonView::Number(signed_decimal(self.exp as int))),
            ],
        )
    }

    /// The claims that a JSON object states; `None` where one of the five
    /// is missing or of another type.
    pub open spec fn from_json(j: JsonView) -> Option<SessionClaimsView> {
        match (j.get("sub"@), j.get("org"@), j.get("scopes"@), j.get("iat"@), j.get("exp"@)) {
            (Some(sub), Some(org), Some(scopes), Some(iat), Some(exp)) => match (
                sub.as_str(),
                org.as_str(),
                scopes.as_array(),
                iat.as_i64(),
                exp.as_i64(),
            ) {
                (Some(sub), Some(org), Some(items), Some(iat), Some(exp)) => match scopes_named(
                    items,
                ) {
                    Some(scopes) => Some(SessionClaimsView { sub, org, scopes, iat, exp }),
                    None => None,
                },
                _ => None,
            },
            _ => None,
        }
    }

    /// The session that the claims state; `None` where the user or the
    /// organisation is no identifier, or the expiry no instant.
    pub open spec fn session(self) -> Option<(UserId, OrgId, Seq<Scope>, int)> {
        match (uuid_parsed(self.sub), uuid_parsed(self.org)) {
            (Some(user), Some(org)) => if MIN_SECS <= self.exp <= MAX_SECS {
                Some((user, org, self.scopes, self.exp as int))
            } else {
                None
            },
            _ => None,
        }
    }
}

/// The claims of a session that is issued at `now`, in seconds since the
/// epoch: it expires seven days later, and no later than the last instant
/// that can be written.
pub open spec fn claims_at(user_id: UserId, org_id: OrgId, scopes: Seq<Scope>, now: int) -> SessionClaimsView {
    SessionClaimsView {
        sub: uuid_text(user_id),
        org: uuid_text(org_id),
        scopes,
        iat: now as i64,
        exp: crate::clock::clamp(now + SESSION_DURATION_SECS, MIN_SECS as int, MAX_SECS as int) as i64,
    }
}

/// The token that signs a JSON object of claims with a secret by
/// HMAC-SHA256, as jsonwebtoken writes it; `None` where it writes none.
pub uninterp spec fn jwt_hs256(claims: JsonView, secret: Seq<u8>) -> Option<Seq<char>>;

/// What came of reading a token.
#[derive(Debug, PartialEq)]
pub enum JwtOutcome {
    /// The signature holds and the token has not expired: its claims.
    Claims(Json),
    /// The signature holds, and the token has expired.
    Expired,
    /// Anything else.
    Invalid,
}

/// `jsonwebtoken::encode` with the default header and a key made from the
/// secret: the token over the claims, signed by HMAC-SHA256.
#[verifier::external_body]
fn jwt_encode(claims: &Json, secret: &[u8]) -> (r: Option<String>)
    ensures
        crate::text::opt_text(r) == jwt_hs256(claims@, secret@),
{
    jsonwebtoken::encode(
        &jsonwebtoken::Header::default(),
        &crate::json::to_value(claims),
        &jsonwebtoken::EncodingKey::from_secret(secret),
    ).ok()
}

/// `jsonwebtoken::decode` with the default validation and a key made from
/// the secret.  Whether a token has expired depends on the clock, so
/// nothing is claimed of the outcome.
#[verifier::external_body]
fn jwt_decode(token: &str, secret: &[u8]) -> (r: JwtOutcome) {
    match jsonwebtoken::decode::<serde_json::Value>(
        token,
        &jsonwebtoken::DecodingKey::from_secret(secret),
        &jsonwebtoken::Validation::default(),
    ) {
        Ok(data) => JwtOutcome::Claims(crate::json::from_value(&data.claims)),
        Err(e) => match e.kind() {
            jsonwebtoken::errors::ErrorKind::ExpiredSignature => JwtOutcome::Expired,
            _ => JwtOutcome::Invalid,
        },
    }
}

fn scopes_to_json(scopes: &Vec<Scope>) -> (r: Vec<Json>)
    ensures
        items_view(r@) == scope_names(scopes@),
{
    let mut r: Vec<Json> = Vec::new();
    let mut i: usize = 0;
    while i < scopes.len()
        invariant
            i <= scopes.len(),
            r.len() == i,
            forall|k: int| 0 <= k < i ==> r[k]@ == JsonView::Str(scopes[k].spec_as_str()),
        decreases scopes.len() - i,
    {
        r.push(Json::Str(scopes[i].as_str().to_owned()));
        i = i + 1;
    }
    assert(items_view(r@) =~= scope_names(scopes@));
    r
}

fn scopes_from_json(items: &Vec<Json>) -> (r: Option<Vec<Scope>>)
    ensures
        match r {
            Some(v) => scopes_named(items_view(items@)) == Some(v@),
            None => scopes_named(items_view(items@)).is_none(),
        },
{
    let ghost all = items_view(items@);
    let mut r: Vec<Scope> = Vec::new();
    let mut i: usize = 0;
    assert(all.take(0) =~= Seq::empty());
    while i < items.len()
        invariant
            i <= items.len(),
            all == items_view(items@),
            scopes_named(all.take(i as int)) == Some(r@),
        decreases items.len() - i,
    {
        proof {
            assert(all.take(i + 1).drop_last() =~= all.take(i as int));
            assert(all.take(i + 1).last() == items[i as int]@);
        }
        let scope = match items[i].as_str() {
            Some(name) => Scope::from_name(name),
            None => None,
        };
        match scope {
            Some(s) => {
                r.push(s);
            },
            None => {
                proof {
                    lemma_scopes_named_prefix(all, i + 1);
                }
                return None;
            },
        }
        i = i + 1;
    }
    assert(all.take(items.len() as int) =~= all);
    Some(r)
}

proof fn lemma_scopes_named_prefix(items: Seq<JsonView>, k: int)
    requires
        0 <= k <= items.len(),
        scopes_named(items.take(k)).is_none(),
    ensures
        scopes_named(items).is_none(),
    decreases items.len() - k,
{
    if k < items.len() {
        assert(items.take(k + 1).drop_last() =~= items.take(k));
        lemma_scopes_named_prefix(items, k + 1);
    } else {
        assert(items.take(k) =~= items);
    }
}

impl SessionClaims {
    /// The claims as a JSON object.
    pub fn to_json(&self) -> (j: Json)
        ensures
            j@ == self@.to_json(),
    {
        let mut fields: Vec<(String, Json)> = Vec::new();
        fields.push(("sub".to_owned(), Json::Str(self.sub.clone())));
        fields.push(("org".to_owned(), Json::Str(self.org.clone())));
        let names = scopes_to_json(&self.scopes);
        proof {
            crate::json::lemma_array_view(names);
        }
        fields.push(("scopes".to_owned(), Json::Array(names)));
        fields.push(("iat".to_owned(), Json::Number(crate::text::i64_to_string(self.iat))));
        fields.push(("exp".to_owned(), Json::Number(crate::text::i64_to_string(self.exp))));
        proof {
            crate::json::lemma_object_view(fields);
            assert(crate::json::fields_view(fields@) =~= self@.to_json()->Object_0);
        }
        Json::Object(fields)
    }

    /// The claims that a JSON object states.
    pub fn from_json(j: &Json) -> (r: Option<SessionClaims>)
        ensures
            match r {
                Some(c) => SessionClaimsView::from_json(j@) == Some(c@),
                None => SessionClaimsView::from_json(j@).is_none(),
            },
    {
        let sub = match j.get("sub") {
            Some(v) => v,
            None => {
                return None;
            },
        };
        let org = match j.get("org") {
            Some(v) => v,
            None => {
                return None;
            },
        };
        let scopes = match j.get("scopes") {
            Some(v) => v,
            None => {
                return None;
            },
        };
        let iat = match j.get("iat") {
            Some(v) => v,
            None => {
                return None;
            },
        };
        let exp = match j.get("exp") {
            Some(v) => v,
            None => {
                return None;
            },
        };
        let sub = match sub.as_str() {
            Some(v) => v,
            None => {
                return None;
            },
        };
        let org = match org.as_str() {
            Some(v) => v,
            None => {
                return None;
            },
        };
        let items = match scopes.as_array() {
            Some(v) => v,
            None => {
                return None;
            },
        };
        let iat = match iat.as_i64() {
            Some(v) => v,
            None => {
                return None;
            },
        };
        let exp = match exp.as_i64() {
            Some(v) => v,
            None => {
                return None;
            },
        };
        let scopes = match scopes_from_json(items) {
            Some(v) => v,
            None => {
                return None;
            },
        };
        Some(SessionClaims { sub: sub.to_owned(), org: org.to_owned(), scopes, iat, exp })
    }

    /// The session that the claims state.  `InvalidSession` where the user
    /// or the organisation is no identifier, or the expiry no instant that
    /// can be written.
    pub fn session(self) -> (r: Result<SessionToken, AuthError>)
        ensures
            match r {
                Ok(t) => self@.session() == Some(
                    (t.user_id, t.org_id, t.scopes@, t.expires_at.spec_secs()),
                ) && t.expires_at.spec_subsec_nanos() == 0,
                Err(e) => e == AuthError::InvalidSession && self@.session().is_none(),
            },
    {
        let user_id = match crate::ids::parse_id(self.sub.as_str()) {
            Some(id) => id,
            None => {
                return Err(AuthError::InvalidSession);
            },
        };
        let org_id = match crate::ids::parse_id(self.org.as_str()) {
            Some(id) => id,
            None => {
                return Err(AuthError::InvalidSession);
            },
        };
        if self.exp < MIN_SECS || self.exp > MAX_SECS {
            return Err(AuthError::InvalidSession);
        }
        Ok(
            SessionToken {
                user_id,
                org_id,
                scopes: self.scopes,
                expires_at: Timestamp::from_parts(self.exp, 0),
            },
        )
    }
}

/// The claims of a session that is issued at `now`.
pub fn claims_for(user_id: UserId, org_id: OrgId, scopes: Vec<Scope>, now: &Timestamp) -> (c:
    SessionClaims)
    ensures
        c@ == claims_at(user_id, org_id, scopes@, now.spec_secs()),
{
    let exp = now.plus_seconds(SESSION_DURATION_SECS);
    SessionClaims {
        sub: crate::ids::id_to_string(user_id),
        org: crate::ids::id_to_string(org_id),
        scopes,
        iat: now.secs(),
        exp: exp.secs(),
    }
}

/// Makes the token of a session that is issued at `now`.
pub fn create_session_at(
    user_id: UserId,
    org_id: OrgId,
    scopes: Vec<Scope>,
    secret: &[u8],
    now: &Timestamp,
) -> (r: Result<String, AuthError>)
    ensures
        match r {
            Ok(token) => jwt_hs256(
                claims_at(user_id, org_id, scopes@, now.spec_secs()).to_json(),
                secret@,
            ) == Some(token@),
            Err(e) => e == AuthError::InvalidSession && jwt_hs256(
                claims_at(user_id, org_id, scopes@, now.spec_secs()).to_json(),
                secret@,
            ).is_none(),
        },
{
    let claims = claims_for(user_id, org_id, scopes, now);
    let json = claims.to_json();
    match jwt_encode(&json, secret) {
        Some(token) => Ok(token),
        None => Err(AuthError::InvalidSession),
    }
}

/// Makes the token of a session that is issued now and lasts seven days.
pub fn create_session(user_id: UserId, org_id: OrgId, scopes: Vec<Scope>, secret: &[u8]) -> (r:
    Result<String, AuthError>)
    ensures
        match r {
            Ok(token) => exists|now: int| issued_at(user_id, org_id, scopes@, secret@, now, token@),
            Err(e) => e == AuthError::InvalidSession && exists|now: int|
                refused_at(user_id, org_id, scopes@, secret@, now),
        },
{
    let now = crate::clock::now();
    let r = create_session_at(user_id, org_id, scopes, secret, &now);
    proof {
        if r.is_ok() {
            assert(issued_at(user_id, org_id, scopes@, secret@, now.spec_secs(), r.unwrap()@));
        } else {
            assert(refused_at(user_id, org_id, scopes@, secret@, now.spec_secs()));
        }
    }
    r
}

/// True when no token is written for the session that is issued at
/// `now`.
pub open spec fn refused_at(
    user_id: UserId,
    org_id: OrgId,
    scopes: Seq<Scope>,
    secret: Seq<u8>,
    now: int,
) -> bool {
    jwt_hs256(claims_at(user_id, org_id, scopes, now).to_json(), secret).is_none()
}

/// True when `token` is the token of the session that is issued at `now`.
pub open spec fn issued_at(
    user_id: UserId,
    org_id: OrgId,
    scopes: Seq<Scope>,
    secret: Seq<u8>,
    now: int,
    token: Seq<char>,
) -> bool {
    jwt_hs256(claims_at(user_id, org_id, scopes, now).to_json(), secret) == Some(token)
}

/// True when `r` is what the reading `outcome` of a token means for the
/// session: an expired token gives `ExpiredSession`; a token that cannot
/// be read, or whose claims state no session, gives `InvalidSession`; any
/// other token gives the session that its claims state.
pub open spec fn reads_as(outcome: JwtOutcome, r: Result<SessionToken, AuthError>) -> bool {
    match outcome {
        JwtOutcome::Expired => r == Err::<SessionToken, AuthError>(AuthError::ExpiredSession),
        JwtOutcome::Invalid => r == Err::<SessionToken, AuthError>(AuthError::InvalidSession),
        JwtOutcome::Claims(j) => match SessionClaimsView::from_json(j@) {
            Some(c) => match c.session() {
                Some(s) => r.is_ok() && s == (
                    r.unwrap().user_id,
                    r.unwrap().org_id,
                    r.unwrap().scopes@,
                    r.unwrap().expires_at.spec_secs(),
                ),
                None => r == Err::<SessionToken, AuthError>(AuthError::InvalidSession),
            },
            None => r == Err::<SessionToken, AuthError>(AuthError::InvalidSession),
        },
    }
}

/// True when `r` is what some reading of a token means for the session.
pub open spec fn read_of_a_token(r: Result<SessionToken, AuthError>) -> bool {
    exists|outcome: JwtOutcome| #[trigger] reads_as(outcome, r)
}

/// What the reading of a token means for the session.
pub fn session_of(outcome: JwtOutcome) -> (r: Result<SessionToken, AuthError>)
    ensures
        reads_as(outcome, r),
{
    match outcome {
        JwtOutcome::Expired => Err(AuthError::ExpiredSession),
        JwtOutcome::Invalid => Err(AuthError::InvalidSession),
        JwtOutcome::Claims(j) => match SessionClaims::from_json(&j) {
            Some(claims) => claims.session(),
            None => Err(AuthError::InvalidSession),
        },
    }
}

/// Reads a session token: checks its signature against the secret and
/// its expiry against the clock, and returns what the reading means for
/// the session.
pub fn verify_session(token: &str, secret: &[u8]) -> (r: Result<SessionToken, AuthError>)
    ensures
        read_of_a_token(r),
        r matches Err(e) ==> e == AuthError::ExpiredSession || e == AuthError::InvalidSession,
{
    let outcome = jwt_decode(token, secret);
    let ghost read = outcome;
    let r = session_of(outcome);
    assert(reads_as(read, r));
    r
}

/// A new secret for signing sessions: 32 bytes of chance.
pub fn generate_secret() -> (secret: Vec<u8>)
    ensures
        secret.len() == 32,
{
    crate::auth::api_key::random_bytes(32)
}

} // verus!
