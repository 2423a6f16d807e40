use crate::auth::{OrgId, Scope, UserId};
use vstd::prelude::*;

verus! {

/// Who asks: the organisation, the user where a session stands behind the
/// request, and the scopes that the request carries.  A daemon without
/// tenants gives every request the local context, which may do anything.
#[derive(Debug, PartialEq)]
pub struct AuthContext {
    pub org_id: OrgId,
    pub user_id: Option<UserId>,
    pub scopes: Vec<Scope>,
    pub is_local_mode: bool,
    pub is_api_key: bool,
}

/// The mathematical value of an [`AuthContext`].
pub struct AuthContextView {
    pub org_id: OrgId,
    pub user_id: Option<UserId>,
    pub scopes: Seq<Scope>,
    pub is_local_mode: bool,
    pub is_api_key: bool,
}

impl View for AuthContext {
    type V = AuthContextView;

    open spec fn view(&self) -> AuthContextView {
        AuthContextView {
            org_id: self.org_id,
            user_id: self.user_id,
            scopes: self.scopes@,
            is_local_mode: self.is_local_mode,
            is_api_key: self.is_api_key,
        }
    }
}

impl AuthContextView {
    /// True when the context carries the scope, as the local context
    /// carries every scope.
    pub open spec fn has_scope(self, scope: Scope) -> bool {
        self.is_local_mode || self.scopes.contains(scope)
    }

    /// True when the context carries every scope of a list.
    pub open spec fn has_all(self, required: Seq<Scope>) -> bool {
        forall|i: int| 0 <= i < required.len() ==> self.has_scope(#[trigger] required[i])
    }

    /// The first scope of a list that the context does not carry.
    pub open spec fn first_missing(self, required: Seq<Scope>) -> Option<Scope>
        decreases required.len(),
    {
        if required.len() == 0 {
            None
        } else if !self.has_scope(required[0]) {
            Some(required[0])
        } else {
            self.first_missing(required.drop_first())
        }
    }
}

/// Why a request was turned away.
#[derive(Clone, Copy, Debug, PartialEq, Eq, Structural)]
pub enum AuthError {
    MissingAuth,
    InvalidFormat,
    InvalidApiKey,
    ExpiredApiKey,
    InvalidSession,
    ExpiredSession,
    InsufficientScope { required: Scope },
    OrgNotFound,
    UserNotFound,
}

impl AuthError {
    /// The status that the request is answered with: 401 where the caller
    /// is not known, 403 where the caller may not do what it asks, 404
    /// where its organisation or user is gone.
    pub open spec fn spec_status_code(self) -> u16 {
        match self {
            AuthError::MissingAuth => 401,
            AuthError::InvalidFormat => 401,
            AuthError::InvalidApiKey => 401,
            AuthError::ExpiredApiKey => 401,
            AuthError::InvalidSession => 401,
            AuthError::ExpiredSession => 401,
            AuthError::InsufficientScope { .. } => 403,
            AuthError::OrgNotFound => 404,
            AuthError::UserNotFound => 404,
        }
    }

    pub fn status_code(&self) -> (code: u16)
        ensures
            code == self.spec_status_code(),
    {
        match self {
            AuthError::MissingAuth => 401,
            AuthError::InvalidFormat => 401,
            AuthError::InvalidApiKey => 401,
            AuthError::ExpiredApiKey => 401,
            AuthError::InvalidSession => 401,
            AuthError::ExpiredSession => 401,
            AuthError::InsufficientScope { .. } => 403,
            AuthError::OrgNotFound => 404,
            AuthError::UserNotFound => 404,
        }
    }

    /// The error in words.
    pub fn message(&self) -> (s: String)
        ensures
            s@ == match *self {
                AuthError::MissingAuth => "missing authorization header"@,
                AuthError::InvalidFormat => "invalid authorization header format"@,
                AuthError::InvalidApiKey => "invalid API key"@,
                AuthError::ExpiredApiKey => "API key expired"@,
                AuthError::InvalidSession => "invalid session"@,
                AuthError::ExpiredSession => "session expired"@,
                AuthError::InsufficientScope { required } => "insufficient permissions: requires "@
                    + required.spec_as_str(),
                AuthError::OrgNotFound => "organization not found"@,
                AuthError::UserNotFound => "user not found"@,
            },
    {
        match self {
            AuthError::MissingAuth => "missing authorization header".to_owned(),
            AuthError::InvalidFormat => "invalid authorization header format".to_owned(),
            AuthError::InvalidApiKey => "invalid API key".to_owned(),
            AuthError::ExpiredApiKey => "API key expired".to_owned(),
            AuthError::InvalidSession => "invalid session".to_owned(),
            AuthError::ExpiredSession => "session expired".to_owned(),
            AuthError::InsufficientScope { required } => crate::text::concat(
                "insufficient permissions: requires ",
                required.as_str(),
            ),
            AuthError::OrgNotFound => "organization not found".to_owned(),
            AuthError::UserNotFound => "user not found".to_owned(),
        }
    }
}

impl AuthContext {
    /// The context of a daemon without tenants: the nil organisation, no
    /// user, every scope.
    pub fn local() -> (c: AuthContext)
        ensures
            c@ == (AuthContextView {
                org_id: crate::ids::NIL,
                user_id: None,
                scopes: Scope::spec_all(),
                is_local_mode: true,
                is_api_key: false,
            }),
    {
        AuthContext {
            org_id: crate::ids::NIL,
            user_id: None,
            scopes: Scope::all(),
            is_local_mode: true,
            is_api_key: false,
        }
    }

    /// The context of a request that showed an API key.
    pub fn from_api_key(org_id: OrgId, scopes: Vec<Scope>) -> (c: AuthContext)
        ensures
            c@ == (AuthContextView {
                org_id,
                user_id: None,
                scopes: scopes@,
                is_local_mode: false,
                is_api_key: true,
            }),
    {
        AuthContext { org_id, user_id: None, scopes, is_local_mode: false, is_api_key: true }
    }

    /// The context of a request that showed a session.
    pub fn from_session(org_id: OrgId, user_id: UserId, scopes: Vec<Scope>) -> (c: AuthContext)
        ensures
            c@ == (AuthContextView {
                org_id,
                user_id: Some(user_id),
                scopes: scopes@,
                is_local_mode: false,
                is_api_key: false,
            }),
    {
        AuthContext {
            org_id,
            user_id: Some(user_id),
            scopes,
            is_local_mode: false,
            is_api_key: false,
        }
    }

    /// True when the context carries the scope.
    pub fn has_scope(&self, scope: Scope) -> (r: bool)
        ensures
            r == self@.has_scope(scope),
    {
        if self.is_local_mode {
            return true;
        }
        let mut i: usize = 0;
        while i < self.scopes.len()
            invariant
                i <= self.scopes.len(),
                forall|j: int| 0 <= j < i ==> self.scopes@[j] != scope,
            decreases self.scopes.len() - i,
        {
            if self.scopes[i] == scope {
                return true;
            }
            i = i + 1;
        }
        false
    }

    pub fn can_read_traces(&self) -> (r: bool)
        ensures
            r == self@.has_scope(Scope::TracesRead),
    {
        self.has_scope(Scope::TracesRead)
    }

    pub fn can_write_traces(&self) -> (r: bool)
        ensures
            r == self@.has_scope(Scope::TracesWrite),
    {
        self.has_scope(Scope::TracesWrite)
    }

    pub fn can_read_datasets(&self) -> (r: bool)
        ensures
            r == self@.has_scope(Scope::DatasetsRead),
    {
        self.has_scope(Scope::DatasetsRead)
    }

    pub fn can_write_datasets(&self) -> (r: bool)
        ensures
            r == self@.has_scope(Scope::DatasetsWrite),
    {
        self.has_scope(Scope::DatasetsWrite)
    }

    pub fn can_read_analytics(&self) -> (r: bool)
        ensures
            r == self@.has_scope(Scope::AnalyticsRead),
    {
        self.has_scope(Scope::AnalyticsRead)
    }

    pub fn is_admin(&self) -> (r: bool)
        ensures
            r == self@.has_scope(Scope::Admin),
    {
        self.has_scope(Scope::Admin)
    }

    /// Lets a request pass that needs the scopes `required`: it passes
    /// exactly when the context carries each of them; else it is turned
    /// away for the first of them that the context lacks.
    pub fn authorize(&self, required: &Vec<Scope>) -> (r: Result<(), AuthError>)
        ensures
            r.is_ok() == self@.has_all(required@),
            match self@.first_missing(required@) {
                Some(scope) => r == Err::<(), AuthError>(
                    AuthError::InsufficientScope { required: scope },
                ),
                None => r.is_ok(),
            },
    {
        let mut i: usize = 0;
        proof {
            assert(required@.skip(0) =~= required@);
        }
        while i < required.len()
            invariant
                i <= required.len(),
                forall|j: int| 0 <= j < i ==> self@.has_scope(#[trigger] required@[j]),
                self@.first_missing(required@) == self@.first_missing(required@.skip(i as int)),
            decreases required.len() - i,
        {
            proof {
                let rest = required@.skip(i as int);
                assert(rest[0] == required@[i as int]);
                assert(rest.drop_first() =~= required@.skip(i + 1));
            }
            if !self.has_scope(required[i]) {
                return Err(AuthError::InsufficientScope { required: required[i] });
            }
            i = i + 1;
        }
        Ok(())
    }
}

/// A request passes when the context carries every scope that it needs:
/// a context that carries the scopes `held` passes for any `required`
/// that lies within `held`.
pub proof fn lemma_scopes_are_monotone(c: AuthContextView, held: Seq<Scope>, required: Seq<Scope>)
    requires
        c.has_all(held),
        forall|i: int| 0 <= i < required.len() ==> held.contains(#[trigger] required[i]),
    ensures
        c.has_all(required),
        c.first_missing(required).is_none(),
{
    assert forall|i: int| 0 <= i < required.len() implies c.has_scope(#[trigger] required[i]) by {
        let k = choose|k: int| 0 <= k < held.len() && held[k] == required[i];
        assert(c.has_scope(held[k]));
    }
    lemma_none_missing(c, required);
}

/// Nothing is missing for a context that carries every scope of a list.
pub proof fn lemma_none_missing(c: AuthContextView, required: Seq<Scope>)
    requires
        c.has_all(required),
    ensures
        c.first_missing(required).is_none(),
    decreases required.len(),
{
    if required.len() > 0 {
        assert(c.has_scope(required[0]));
        let rest = required.drop_first();
        assert forall|i: int| 0 <= i < rest.len() implies c.has_scope(#[trigger] rest[i]) by {
            assert(rest[i] == required[i + 1]);
        }
        lemma_none_missing(c, rest);
    }
}

/// The local context passes for every list of scopes.
pub proof fn lemma_local_may_do_all(c: AuthContextView, required: Seq<Scope>)
    requires
        c.is_local_mode,
    ensures
        c.has_all(required),
{
}

} // verus!
