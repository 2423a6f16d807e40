use crate::api::types::{
    AcceptInviteRequest, ApiKeyCreatedResponse, ApiKeyResponse, AuthResponse, CreateInviteRequest,
    InviteResponse, MeResponse, MemberResponse, OrgResponse, SignupRequest,
};
use crate::auth::api_key::{ApiKey, GeneratedApiKey};
use crate::auth::context::AuthContext;
use crate::auth::{plan_name, Invite, OrgId, Organization, Plan, Role, Scope, User, UserId};
use crate::clock::{clamp, rfc3339_text, Timestamp, MAX_SECS, MIN_SECS};
use crate::ids::{uuid_text, Id};
use crate::text::{index_of_char, opt_text};
use vstd::prelude::*;

verus! {

/// Why a request about accounts is turned away.
#[derive(Clone, Copy, Debug, PartialEq, Eq, Structural)]
pub enum Refusal {
    NotInLocalMode,
    NoStore,
    EmailInUse,
    UserExists,
    BadCredentials,
    ApiKeysCannotInvite,
    InvalidKeyId,
    NotYourKey,
    KeyNotFound,
    InvalidInviteId,
    InviteNotFound,
    InvalidInviteToken,
    InviteExpired,
    OrgNotFound,
    InvalidResetToken,
    UserNotFound,
}

impl Refusal {
    /// The status that the client is answered with.
    pub fn status_code(&self) -> (code: u16)
        ensures
            code == match *self {
                Refusal::NotInLocalMode => 404u16,
                Refusal::NoStore => 503u16,
                Refusal::EmailInUse => 409u16,
                Refusal::UserExists => 409u16,
                Refusal::BadCredentials => 401u16,
                Refusal::ApiKeysCannotInvite => 403u16,
                Refusal::InvalidKeyId => 400u16,
                Refusal::NotYourKey => 403u16,
                Refusal::KeyNotFound => 404u16,
                Refusal::InvalidInviteId => 400u16,
                Refusal::InviteNotFound => 404u16,
                Refusal::InvalidInviteToken => 400u16,
                Refusal::InviteExpired => 410u16,
                Refusal::OrgNotFound => 404u16,
                Refusal::InvalidResetToken => 400u16,
                Refusal::UserNotFound => 404u16,
            },
    {
        match self {
            Refusal::NotInLocalMode => 404,
            Refusal::NoStore => 503,
            Refusal::EmailInUse => 409,
            Refusal::UserExists => 409,
            Refusal::BadCredentials => 401,
            Refusal::ApiKeysCannotInvite => 403,
            Refusal::InvalidKeyId => 400,
            Refusal::NotYourKey => 403,
            Refusal::KeyNotFound => 404,
            Refusal::InvalidInviteId => 400,
            Refusal::InviteNotFound => 404,
            Refusal::InvalidInviteToken => 400,
            Refusal::InviteExpired => 410,
            Refusal::OrgNotFound => 404,
            Refusal::InvalidResetToken => 400,
            Refusal::UserNotFound => 404,
        }
    }

    /// The reason in words.
    pub fn message(&self) -> (r: &'static str)
        ensures
            r@ == match *self {
                Refusal::NotInLocalMode => "Not available in local mode"@,
                Refusal::NoStore => "Auth store not configured"@,
                Refusal::EmailInUse => "Email already in use"@,
                Refusal::UserExists => "User already exists"@,
                Refusal::BadCredentials => "Invalid email or password"@,
                Refusal::ApiKeysCannotInvite => "API keys cannot send invites"@,
                Refusal::InvalidKeyId => "Invalid key ID"@,
                Refusal::NotYourKey => "Not your key"@,
                Refusal::KeyNotFound => "API key not found"@,
                Refusal::InvalidInviteId => "Invalid invite ID"@,
                Refusal::InviteNotFound => "Invite not found"@,
                Refusal::InvalidInviteToken => "Invalid or expired invite token"@,
                Refusal::InviteExpired => "Invite has expired"@,
                Refusal::OrgNotFound => "Organization not found"@,
                Refusal::InvalidResetToken => "Invalid or expired reset token"@,
                Refusal::UserNotFound => "User not found"@,
            },
    {
        match self {
            Refusal::NotInLocalMode => "Not available in local mode",
            Refusal::NoStore => "Auth store not configured",
            Refusal::EmailInUse => "Email already in use",
            Refusal::UserExists => "User already exists",
            Refusal::BadCredentials => "Invalid email or password",
            Refusal::ApiKeysCannotInvite => "API keys cannot send invites",
            Refusal::InvalidKeyId => "Invalid key ID",
            Refusal::NotYourKey => "Not your key",
            Refusal::KeyNotFound => "API key not found",
            Refusal::InvalidInviteId => "Invalid invite ID",
            Refusal::InviteNotFound => "Invite not found",
            Refusal::InvalidInviteToken => "Invalid or expired invite token",
            Refusal::InviteExpired => "Invite has expired",
            Refusal::OrgNotFound => "Organization not found",
            Refusal::InvalidResetToken => "Invalid or expired reset token",
            Refusal::UserNotFound => "User not found",
        }
    }
}

/// Lets a request about accounts in where the daemon has tenants and a
/// store of accounts: a daemon without tenants answers 404, one without
/// the store 503.
pub fn gate(local_mode: bool, store_configured: bool) -> (r: Result<(), Refusal>)
    ensures
        r == if local_mode {
            Err::<(), Refusal>(Refusal::NotInLocalMode)
        } else if !store_configured {
            Err::<(), Refusal>(Refusal::NoStore)
        } else {
            Ok::<(), Refusal>(())
        },
{
    if local_mode {
        Err(Refusal::NotInLocalMode)
    } else if !store_configured {
        Err(Refusal::NoStore)
    } else {
        Ok(())
    }
}

/// How a role is shown.
pub open spec fn role_label(role: Role) -> Seq<char> {
    match role {
        Role::Owner => "owner"@,
        Role::Admin => "admin"@,
        Role::Member => "member"@,
        Role::ReadOnly => "readonly"@,
    }
}

/// How a role is shown.
pub fn role_text(role: Role) -> (r: &'static str)
    ensures
        r@ == role_label(role),
{
    match role {
        Role::Owner => "owner",
        Role::Admin => "admin",
        Role::Member => "member",
        Role::ReadOnly => "readonly",
    }
}

/// The name of the organisation of someone who signs up without naming
/// one: what stands before the first `@` of the address, and `'s Org`.
pub open spec fn org_name_for(email: Seq<char>) -> Seq<char> {
    email.subrange(0, index_of_char(email, '@')) + "'s Org"@
}

/// The name of the organisation of someone who signs up.
pub fn signup_org_name(org_name: Option<String>, email: &str) -> (r: String)
    ensures
        r@ == match org_name {
            Some(n) => n@,
            None => org_name_for(email@),
        },
{
    match org_name {
        Some(n) => n,
        None => {
            let chars = crate::text::to_chars(email);
            let at = crate::text::find_char(&chars, '@', 0);
            assert(chars@.skip(0) =~= chars@);
            let local = crate::text::from_chars(&crate::text::slice(&chars, 0, at));
            crate::text::concat(local.as_str(), "'s Org")
        },
    }
}

/// The organisation and its owner that signing up makes, with the
/// identifiers `org_id` and `user_id`, at the instant `now`; nothing
/// where the address is in use.
pub fn signup_at(
    req: SignupRequest,
    email_in_use: bool,
    slug: String,
    org_id: OrgId,
    user_id: UserId,
    now: Timestamp,
) -> (r: Result<(Organization, User), Refusal>)
    ensures
        email_in_use ==> r == Err::<(Organization, User), Refusal>(Refusal::EmailInUse),
        !email_in_use ==> (r matches Ok((org, user)) && {
            &&& org.id == org_id
            &&& org.name@ == (match req.org_name {
                Some(n) => n@,
                None => org_name_for(req.email@),
            })
            &&& org.slug@ == slug@
            &&& org.plan == Plan::Free
            &&& org.created_at == now
            &&& org.updated_at == now
            &&& user.id == user_id
            &&& user.email@ == req.email@
            &&& opt_text(user.name) == opt_text(req.name)
            &&& user.org_id == org_id
            &&& user.role == Role::Owner
            &&& user.created_at == now
            &&& user.updated_at == now
        }),
{
    if email_in_use {
        return Err(Refusal::EmailInUse);
    }
    let name = signup_org_name(req.org_name, req.email.as_str());
    let org = Organization::new_with(name, slug, org_id, now);
    let mut user = User::new_with(req.email, org_id, Role::Owner, user_id, now);
    user.name = req.name;
    Ok((org, user))
}

/// What signing in comes to: 401 where the address is not known or the
/// password is not the one of the account.
pub fn login_check(user_found: bool, password_matches: bool) -> (r: Result<(), Refusal>)
    ensures
        r.is_ok() == (user_found && password_matches),
        r.is_err() ==> r == Err::<(), Refusal>(Refusal::BadCredentials),
{
    if user_found && password_matches {
        Ok(())
    } else {
        Err(Refusal::BadCredentials)
    }
}

/// What the client is told of the account that it signed into.
pub fn auth_response(user: &User) -> (r: AuthResponse)
    ensures
        r.user_id@ == uuid_text(user.id),
        r.org_id@ == uuid_text(user.org_id),
        r.email@ == user.email@,
        opt_text(r.name) == opt_text(user.name),
        r.role@ == role_label(user.role),
{
    AuthResponse {
        user_id: crate::ids::id_to_string(user.id),
        org_id: crate::ids::id_to_string(user.org_id),
        email: user.email.clone(),
        name: crate::text::clone_opt_text(&user.name),
        role: role_text(user.role).to_owned(),
    }
}

fn opt_id_text(id: Option<Id>) -> (r: Option<String>)
    ensures
        opt_text(r) == match id {
            Some(id) => Some(uuid_text(id)),
            None => None,
        },
{
    match id {
        Some(id) => Some(crate::ids::id_to_string(id)),
        None => None,
    }
}

fn clone_scopes(scopes: &Vec<Scope>) -> (r: Vec<Scope>)
    ensures
        r@ == scopes@,
{
    let mut r: Vec<Scope> = Vec::new();
    let mut i: usize = 0;
    while i < scopes.len()
        invariant
            i <= scopes.len(),
            r@ == scopes@.take(i as int),
        decreases scopes.len() - i,
    {
        r.push(scopes[i]);
        assert(scopes@.take(i + 1) =~= scopes@.take(i as int).push(scopes[i as int]));
        i = i + 1;
    }
    assert(scopes@.take(scopes.len() as int) =~= scopes@);
    r
}

/// What a client is told of who it is.
pub fn me_response(ctx: &AuthContext) -> (r: MeResponse)
    ensures
        r.org_id@ == uuid_text(ctx.org_id),
        opt_text(r.user_id) == (match ctx.user_id {
            Some(id) => Some(uuid_text(id)),
            None => None,
        }),
        r.scopes@ == ctx.scopes@,
        r.is_local_mode == ctx.is_local_mode,
{
    MeResponse {
        org_id: crate::ids::id_to_string(ctx.org_id),
        user_id: opt_id_text(ctx.user_id),
        scopes: clone_scopes(&ctx.scopes),
        is_local_mode: ctx.is_local_mode,
    }
}

/// What a client is told of its organisation: of the local one where the
/// daemon has no tenants; 503 where it has tenants and no store of
/// accounts; 404 where the organisation is not known.
pub fn org_response(ctx: &AuthContext, store_configured: bool, org: Option<&Organization>) -> (r: Result<
    OrgResponse,
    Refusal,
>)
    ensures
        ctx.is_local_mode ==> (r matches Ok(o) && o.id@ == uuid_text(ctx.org_id) && o.name@
            == "Local"@ && o.slug@ == "local"@ && o.plan@ == "free"@),
        !ctx.is_local_mode && !store_configured ==> r == Err::<OrgResponse, Refusal>(
            Refusal::NoStore,
        ),
        !ctx.is_local_mode && store_configured ==> (match org {
            Some(org) => r matches Ok(o) && o.id@ == uuid_text(org.id) && o.name@ == org.name@
                && o.slug@ == org.slug@ && o.plan@ == plan_name(org.plan),
            None => r == Err::<OrgResponse, Refusal>(Refusal::OrgNotFound),
        }),
{
    if ctx.is_local_mode {
        return Ok(
            OrgResponse {
                id: crate::ids::id_to_string(ctx.org_id),
                name: "Local".to_owned(),
                slug: "local".to_owned(),
                plan: "free".to_owned(),
            },
        );
    }
    if !store_configured {
        return Err(Refusal::NoStore);
    }
    match org {
        Some(org) => Ok(
            OrgResponse {
                id: crate::ids::id_to_string(org.id),
                name: org.name.clone(),
                slug: org.slug.clone(),
                plan: crate::auth::plan_to_str(org.plan).to_owned(),
            },
        ),
        None => Err(Refusal::OrgNotFound),
    }
}

/// What a client is told of a member of its organisation.
pub fn member_response(user: &User) -> (r: MemberResponse)
    ensures
        r.id@ == uuid_text(user.id),
        r.email@ == user.email@,
        opt_text(r.name) == opt_text(user.name),
        r.role@ == role_label(user.role),
{
    MemberResponse {
        id: crate::ids::id_to_string(user.id),
        email: user.email.clone(),
        name: crate::text::clone_opt_text(&user.name),
        role: role_text(user.role).to_owned(),
    }
}

/// What a client is told of an API key: never the key, nor its hash.
pub fn api_key_response(key: &ApiKey) -> (r: ApiKeyResponse)
    ensures
        r.id@ == uuid_text(key.id),
        r.name@ == key.name@,
        r.key_prefix@ == key.key_prefix@,
        r.scopes@ == key.scopes@,
        r.created_at@ == rfc3339_text(key.created_at@),
        opt_text(r.last_used_at) == (match key.last_used_at {
            Some(t) => Some(rfc3339_text(t@)),
            None => None,
        }),
{
    ApiKeyResponse {
        id: crate::ids::id_to_string(key.id),
        name: key.name.clone(),
        key_prefix: key.key_prefix.clone(),
        scopes: clone_scopes(&key.scopes),
        created_at: crate::clock::rfc3339(&key.created_at),
        last_used_at: match &key.last_used_at {
            Some(t) => Some(crate::clock::rfc3339(t)),
            None => None,
        },
    }
}

/// What the maker of an API key is told, this once: the key itself.
pub fn api_key_created(shown: GeneratedApiKey, name: String, scopes: Vec<Scope>) -> (r:
    ApiKeyCreatedResponse)
    ensures
        r.id@ == uuid_text(shown.id),
        r.key@ == shown.key@,
        r.name@ == name@,
        r.key_prefix@ == shown.key_prefix@,
        r.scopes@ == scopes@,
{
    ApiKeyCreatedResponse {
        id: crate::ids::id_to_string(shown.id),
        key: shown.key,
        name,
        key_prefix: shown.key_prefix,
        scopes,
    }
}

/// Whether a client may take an API key away: not the key of another
/// organisation.  A key that is not known may be asked for; taking it
/// away then finds nothing.
pub fn may_delete_key(key_org: Option<OrgId>, caller_org: OrgId) -> (r: Result<(), Refusal>)
    ensures
        r == match key_org {
            Some(org) if org != caller_org => Err::<(), Refusal>(Refusal::NotYourKey),
            _ => Ok::<(), Refusal>(()),
        },
{
    match key_org {
        Some(org) => if org != caller_org {
            Err(Refusal::NotYourKey)
        } else {
            Ok(())
        },
        None => Ok(()),
    }
}

/// What taking something away comes to: 404 with the reason where
/// nothing was there.
pub fn deleted(found: bool, missing: Refusal) -> (r: Result<(), Refusal>)
    ensures
        r == if found {
            Ok::<(), Refusal>(())
        } else {
            Err::<(), Refusal>(missing)
        },
{
    if found {
        Ok(())
    } else {
        Err(missing)
    }
}

/// An invitation is good for this many seconds: seven days.
pub const INVITE_SECS: i64 = 604_800;

/// A link for a new password is good for this many seconds: an hour.
pub const RESET_SECS: i64 = 3_600;

/// The invitation that a member sends at the instant `now`, under the
/// identifier `id`.  An API key invites nobody, and nobody is invited
/// whose address is in use.
pub fn invite_at(
    ctx: &AuthContext,
    req: CreateInviteRequest,
    email_in_use: bool,
    id: Id,
    token_hash: String,
    now: Timestamp,
) -> (r: Result<Invite, Refusal>)
    ensures
        ctx.user_id.is_none() ==> r == Err::<Invite, Refusal>(Refusal::ApiKeysCannotInvite),
        ctx.user_id.is_some() && email_in_use ==> r == Err::<Invite, Refusal>(Refusal::UserExists),
        ctx.user_id.is_some() && !email_in_use ==> (r matches Ok(invite) && {
            &&& invite.id == id
            &&& invite.org_id == ctx.org_id
            &&& invite.email@ == req.email@
            &&& invite.role == req.role
            &&& invite.invited_by == ctx.user_id.unwrap()
            &&& invite.token_hash@ == token_hash@
            &&& invite.expires_at.spec_secs() == clamp(
                now.spec_secs() + INVITE_SECS,
                MIN_SECS as int,
                MAX_SECS as int,
            )
            &&& invite.expires_at.spec_subsec_nanos() == now.spec_subsec_nanos()
            &&& invite.created_at == now
        }),
{
    let invited_by = match ctx.user_id {
        Some(id) => id,
        None => {
            return Err(Refusal::ApiKeysCannotInvite);
        },
    };
    if email_in_use {
        return Err(Refusal::UserExists);
    }
    Ok(
        Invite {
            id,
            org_id: ctx.org_id,
            email: req.email,
            role: req.role,
            invited_by,
            token_hash,
            expires_at: now.plus_seconds(INVITE_SECS),
            created_at: now,
        },
    )
}

/// The name of an organisation in a letter: `your team` where the
/// organisation is not known.
pub fn org_name_in_letter(org: Option<&Organization>) -> (r: String)
    ensures
        r@ == match org {
            Some(o) => o.name@,
            None => "your team"@,
        },
{
    match org {
        Some(o) => o.name.clone(),
        None => "your team".to_owned(),
    }
}

/// The address at which an invitation is taken up.
pub fn invite_url(app_url: &str, token: &str) -> (r: String)
    ensures
        r@ == app_url@ + "/accept-invite?token="@ + token@,
{
    crate::text::concat3(app_url, "/accept-invite?token=", token)
}

/// The address at which a new password is set.
pub fn reset_url(app_url: &str, token: &str) -> (r: String)
    ensures
        r@ == app_url@ + "/reset-password?token="@ + token@,
{
    crate::text::concat3(app_url, "/reset-password?token=", token)
}

/// What a client is told of an invitation: never its token.
pub fn invite_response(invite: &Invite) -> (r: InviteResponse)
    ensures
        r.id@ == uuid_text(invite.id),
        r.email@ == invite.email@,
        r.role@ == role_label(invite.role),
        r.invited_by@ == uuid_text(invite.invited_by),
        r.expires_at@ == rfc3339_text(invite.expires_at@),
        r.created_at@ == rfc3339_text(invite.created_at@),
{
    InviteResponse {
        id: crate::ids::id_to_string(invite.id),
        email: invite.email.clone(),
        role: role_text(invite.role).to_owned(),
        invited_by: crate::ids::id_to_string(invite.invited_by),
        expires_at: crate::clock::rfc3339(&invite.expires_at),
        created_at: crate::clock::rfc3339(&invite.created_at),
    }
}

/// True for an invitation that is listed at `now`: one that expires
/// later.
pub fn is_listed(invite: &Invite, now: &Timestamp) -> (r: bool)
    ensures
        r == (now@ < invite.expires_at@),
{
    now.lt(&invite.expires_at)
}

/// The member that taking up an invitation makes at the instant `now`,
/// under the identifier `user_id`: 400 where the token names no
/// invitation, 410 where the invitation expired before `now`, 409 where
/// the address is in use.
pub fn accept_invite_at(
    invite: Option<&Invite>,
    email_in_use: bool,
    req: AcceptInviteRequest,
    user_id: UserId,
    now: Timestamp,
) -> (r: Result<User, Refusal>)
    ensures
        match invite {
            None => r == Err::<User, Refusal>(Refusal::InvalidInviteToken),
            Some(invite) => if invite.expires_at@ < now@ {
                r == Err::<User, Refusal>(Refusal::InviteExpired)
            } else if email_in_use {
                r == Err::<User, Refusal>(Refusal::EmailInUse)
            } else {
                r matches Ok(user) && {
                    &&& user.id == user_id
                    &&& user.email@ == invite.email@
                    &&& opt_text(user.name) == opt_text(req.name)
                    &&& user.org_id == invite.org_id
                    &&& user.role == invite.role
                    &&& user.created_at == now
                    &&& user.updated_at == now
                }
            },
        },
{
    let invite = match invite {
        Some(invite) => invite,
        None => {
            return Err(Refusal::InvalidInviteToken);
        },
    };
    if invite.expires_at.lt(&now) {
        return Err(Refusal::InviteExpired);
    }
    if email_in_use {
        return Err(Refusal::EmailInUse);
    }
    let mut user = User::new_with(invite.email.clone(), invite.org_id, invite.role, user_id, now);
    user.name = req.name;
    Ok(user)
}

/// True while a link for a new password can be used: it was not used,
/// and it has not expired at `now`.
pub fn reset_is_valid(used: bool, expires_at: &Timestamp, now: &Timestamp) -> (r: bool)
    ensures
        r == (!used && now@ < expires_at@),
{
    !used && now.lt(expires_at)
}

} // verus!
