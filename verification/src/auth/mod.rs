use crate::clock::Timestamp;
use crate::ids::Id;
use vstd::prelude::*;

pub mod api_key;
pub mod context;
pub mod email;
pub mod middleware;
pub mod session;
pub mod store;

verus! {

pub type OrgId = Id;

pub type UserId = Id;

/// What a member of an organisation may do.
#[derive(Clone, Copy, Debug, PartialEq, Eq, Structural)]
pub enum Role {
    Owner,
    Admin,
    Member,
    ReadOnly,
}

impl Role {
    pub open spec fn spec_can_write(self) -> bool {
        self == Role::Owner || self == Role::Admin || self == Role::Member
    }

    pub open spec fn spec_can_admin(self) -> bool {
        self == Role::Owner || self == Role::Admin
    }

    pub open spec fn spec_can_manage_org(self) -> bool {
        self == Role::Owner
    }

    /// True for every role but the read-only one.
    pub fn can_write(&self) -> (r: bool)
        ensures
            r == self.spec_can_write(),
    {
        match self {
            Role::Owner | Role::Admin | Role::Member => true,
            Role::ReadOnly => false,
        }
    }

    /// True for owners and admins.
    pub fn can_admin(&self) -> (r: bool)
        ensures
            r == self.spec_can_admin(),
    {
        match self {
            Role::Owner | Role::Admin => true,
            _ => false,
        }
    }

    /// True for owners.
    pub fn can_manage_org(&self) -> (r: bool)
        ensures
            r == self.spec_can_manage_org(),
    {
        match self {
            Role::Owner => true,
            _ => false,
        }
    }
}

/// A role that may do more may do all that a lesser role may: whoever
/// manages the organisation administers it, and whoever administers it
/// writes.
pub proof fn lemma_roles_are_ordered(r: Role)
    ensures
        r.spec_can_manage_org() ==> r.spec_can_admin(),
        r.spec_can_admin() ==> r.spec_can_write(),
{
}

/// A permission that a session or a key carries.
#[derive(Clone, Copy, Debug, PartialEq, Eq, Hash, Structural)]
pub enum Scope {
    TracesRead,
    TracesWrite,
    DatasetsRead,
    DatasetsWrite,
    AnalyticsRead,
    Admin,
}

impl Scope {
    /// Every scope.
    pub open spec fn spec_all() -> Seq<Scope> {
        seq![
            Scope::TracesRead,
            Scope::TracesWrite,
            Scope::DatasetsRead,
            Scope::DatasetsWrite,
            Scope::AnalyticsRead,
            Scope::Admin,
        ]
    }

    /// The scopes of a key for an SDK: all but the administration.
    pub open spec fn spec_default_sdk() -> Seq<Scope> {
        seq![
            Scope::TracesRead,
            Scope::TracesWrite,
            Scope::DatasetsRead,
            Scope::DatasetsWrite,
            Scope::AnalyticsRead,
        ]
    }

    /// The scopes that only read.
    pub open spec fn spec_read_only() -> Seq<Scope> {
        seq![Scope::TracesRead, Scope::DatasetsRead, Scope::AnalyticsRead]
    }

    pub fn all() -> (v: Vec<Scope>)
        ensures
            v@ == Scope::spec_all(),
    {
        let mut v: Vec<Scope> = Vec::new();
        v.push(Scope::TracesRead);
        v.push(Scope::TracesWrite);
        v.push(Scope::DatasetsRead);
        v.push(Scope::DatasetsWrite);
        v.push(Scope::AnalyticsRead);
        v.push(Scope::Admin);
        assert(v@ =~= Scope::spec_all());
        v
    }

    pub fn default_sdk() -> (v: Vec<Scope>)
        ensures
            v@ == Scope::spec_default_sdk(),
    {
        let mut v: Vec<Scope> = Vec::new();
        v.push(Scope::TracesRead);
        v.push(Scope::TracesWrite);
        v.push(Scope::DatasetsRead);
        v.push(Scope::DatasetsWrite);
        v.push(Scope::AnalyticsRead);
        assert(v@ =~= Scope::spec_default_sdk());
        v
    }

    pub fn read_only() -> (v: Vec<Scope>)
        ensures
            v@ == Scope::spec_read_only(),
    {
        let mut v: Vec<Scope> = Vec::new();
        v.push(Scope::TracesRead);
        v.push(Scope::DatasetsRead);
        v.push(Scope::AnalyticsRead);
        assert(v@ =~= Scope::spec_read_only());
        v
    }

    /// The name of the scope on the wire.
    pub open spec fn spec_as_str(self) -> Seq<char> {
        match self {
            Scope::TracesRead => "traces_read"@,
            Scope::TracesWrite => "traces_write"@,
            Scope::DatasetsRead => "datasets_read"@,
            Scope::DatasetsWrite => "datasets_write"@,
            Scope::AnalyticsRead => "analytics_read"@,
            Scope::Admin => "admin"@,
        }
    }

    /// The scope that a name on the wire stands for.
    pub open spec fn spec_from_name(name: Seq<char>) -> Option<Scope> {
        if name == "traces_read"@ {
            Some(Scope::TracesRead)
        } else if name == "traces_write"@ {
            Some(Scope::TracesWrite)
        } else if name == "datasets_read"@ {
            Some(Scope::DatasetsRead)
        } else if name == "datasets_write"@ {
            Some(Scope::DatasetsWrite)
        } else if name == "analytics_read"@ {
            Some(Scope::AnalyticsRead)
        } else if name == "admin"@ {
            Some(Scope::Admin)
        } else {
            None
        }
    }

    /// The name of the scope on the wire.
    pub fn as_str(&self) -> (r: &str)
        ensures
            r@ == self.spec_as_str(),
    {
        match self {
            Scope::TracesRead => "traces_read",
            Scope::TracesWrite => "traces_write",
            Scope::DatasetsRead => "datasets_read",
            Scope::DatasetsWrite => "datasets_write",
            Scope::AnalyticsRead => "analytics_read",
            Scope::Admin => "admin",
        }
    }

    /// The scope that a name on the wire stands for.
    pub fn from_name(name: &str) -> (r: Option<Scope>)
        ensures
            r == Scope::spec_from_name(name@),
    {
        if crate::text::same_text(name, "traces_read") {
            Some(Scope::TracesRead)
        } else if crate::text::same_text(name, "traces_write") {
            Some(Scope::TracesWrite)
        } else if crate::text::same_text(name, "datasets_read") {
            Some(Scope::DatasetsRead)
        } else if crate::text::same_text(name, "datasets_write") {
            Some(Scope::DatasetsWrite)
        } else if crate::text::same_text(name, "analytics_read") {
            Some(Scope::AnalyticsRead)
        } else if crate::text::same_text(name, "admin") {
            Some(Scope::Admin)
        } else {
            None
        }
    }
}

/// The name of a scope stands for that scope.
pub proof fn lemma_scope_name_round_trip(s: Scope)
    ensures
        Scope::spec_from_name(s.spec_as_str()) == Some(s),
{
    reveal_strlit("traces_read");
    reveal_strlit("traces_write");
    reveal_strlit("datasets_read");
    reveal_strlit("datasets_write");
    reveal_strlit("analytics_read");
    reveal_strlit("admin");
    match s {
        Scope::TracesRead => {},
        Scope::TracesWrite => {
            assert("traces_write"@[7] != "traces_read"@[7]);
        },
        Scope::DatasetsRead => {
            assert("datasets_read"@[0] != "traces_read"@[0]);
            assert("datasets_read"@[0] != "traces_write"@[0]);
        },
        Scope::DatasetsWrite => {
            assert("datasets_write"@[0] != "traces_read"@[0]);
            assert("datasets_write"@[0] != "traces_write"@[0]);
            assert("datasets_write"@[9] != "datasets_read"@[9]);
        },
        Scope::AnalyticsRead => {
            assert("analytics_read"@[0] != "traces_read"@[0]);
            assert("analytics_read"@[0] != "traces_write"@[0]);
            assert("analytics_read"@[0] != "datasets_read"@[0]);
            assert("analytics_read"@[0] != "datasets_write"@[0]);
        },
        Scope::Admin => {
            assert("admin"@.len() != "traces_read"@.len());
            assert("admin"@.len() != "traces_write"@.len());
            assert("admin"@.len() != "datasets_read"@.len());
            assert("admin"@.len() != "datasets_write"@.len());
            assert("admin"@.len() != "analytics_read"@.len());
        },
    }
}

/// What an organisation pays for.
#[derive(Clone, Copy, Debug, PartialEq, Eq, Structural)]
pub enum Plan {
    Free,
    Pro,
    Team,
    Enterprise,
}

impl Plan {
    pub open spec fn spec_spans_per_month(self) -> u64 {
        match self {
            Plan::Free => 10_000,
            Plan::Pro => 1_000_000,
            Plan::Team => 10_000_000,
            Plan::Enterprise => u64::MAX,
        }
    }

    pub open spec fn spec_max_team_members(self) -> usize {
        match self {
            Plan::Free => 1,
            Plan::Pro => 5,
            Plan::Team => 50,
            Plan::Enterprise => usize::MAX,
        }
    }

    pub open spec fn spec_retention_days(self) -> u32 {
        match self {
            Plan::Free => 7,
            Plan::Pro => 30,
            Plan::Team => 90,
            Plan::Enterprise => 365,
        }
    }

    /// How many spans the plan takes in a month.
    pub fn spans_per_month(&self) -> (n: u64)
        ensures
            n == self.spec_spans_per_month(),
    {
        match self {
            Plan::Free => 10_000,
            Plan::Pro => 1_000_000,
            Plan::Team => 10_000_000,
            Plan::Enterprise => u64::MAX,
        }
    }

    /// How many members the plan allows.
    pub fn max_team_members(&self) -> (n: usize)
        ensures
            n == self.spec_max_team_members(),
    {
        match self {
            Plan::Free => 1,
            Plan::Pro => 5,
            Plan::Team => 50,
            Plan::Enterprise => usize::MAX,
        }
    }

    /// How many days the plan keeps data.
    pub fn retention_days(&self) -> (n: u32)
        ensures
            n == self.spec_retention_days(),
    {
        match self {
            Plan::Free => 7,
            Plan::Pro => 30,
            Plan::Team => 90,
            Plan::Enterprise => 365,
        }
    }
}

impl Default for Plan {
    fn default() -> (p: Plan)
        ensures
            p == Plan::Free,
    {
        Plan::Free
    }
}

/// A tenant.
#[derive(Debug, PartialEq)]
pub struct Organization {
    pub id: OrgId,
    pub name: String,
    pub slug: String,
    pub plan: Plan,
    pub created_at: Timestamp,
    pub updated_at: Timestamp,
}

impl Organization {
    /// The organisation `id` on the free plan, made at `now`.
    pub fn new_with(name: String, slug: String, id: OrgId, now: Timestamp) -> (o: Organization)
        ensures
            o.id == id,
            o.name@ == name@,
            o.slug@ == slug@,
            o.plan == Plan::Free,
            o.created_at == now,
            o.updated_at == now,
    {
        Organization { id, name, slug, plan: Plan::Free, created_at: now, updated_at: now }
    }

    /// An organisation with a fresh identifier on the free plan, made now.
    pub fn new(name: String, slug: String) -> (o: Organization)
        ensures
            o.name@ == name@,
            o.slug@ == slug@,
            o.plan == Plan::Free,
            o.created_at == o.updated_at,
    {
        let id = crate::ids::fresh_id();
        let now = crate::clock::now();
        Organization::new_with(name, slug, id, now)
    }

    /// The organisation that stands for a daemon without tenants: it has
    /// the nil identifier and is called `Local`.
    pub fn local() -> (o: Organization)
        ensures
            o.id == crate::ids::NIL,
            o.name@ == "Local"@,
            o.slug@ == "local"@,
            o.plan == Plan::Free,
    {
        let now = crate::clock::now();
        Organization {
            id: crate::ids::NIL,
            name: "Local".to_owned(),
            slug: "local".to_owned(),
            plan: Plan::Free,
            created_at: now,
            updated_at: now,
        }
    }
}

/// A member of an organisation.
#[derive(Debug, PartialEq)]
pub struct User {
    pub id: UserId,
    pub email: String,
    pub name: Option<String>,
    pub org_id: OrgId,
    pub role: Role,
    pub created_at: Timestamp,
    pub updated_at: Timestamp,
}

impl User {
    /// The user `id`, made at `now`.
    pub fn new_with(email: String, org_id: OrgId, role: Role, id: UserId, now: Timestamp) -> (u: User)
        ensures
            u.id == id,
            u.email@ == email@,
            u.name.is_none(),
            u.org_id == org_id,
            u.role == role,
            u.created_at == now,
            u.updated_at == now,
    {
        User { id, email, name: None, org_id, role, created_at: now, updated_at: now }
    }

    /// A user with a fresh identifier, made now.
    pub fn new(email: String, org_id: OrgId, role: Role) -> (u: User)
        ensures
            u.email@ == email@,
            u.name.is_none(),
            u.org_id == org_id,
            u.role == role,
            u.created_at == u.updated_at,
    {
        let id = crate::ids::fresh_id();
        let now = crate::clock::now();
        User::new_with(email, org_id, role, id, now)
    }
}

/// An invitation to join an organisation.
#[derive(Debug, PartialEq)]
pub struct Invite {
    pub id: Id,
    pub org_id: OrgId,
    pub email: String,
    pub role: Role,
    pub invited_by: UserId,
    pub token_hash: String,
    pub expires_at: Timestamp,
    pub created_at: Timestamp,
}

impl Invite {
    /// True while the invitation can be taken up: until the instant at
    /// which it expires, that instant included.
    pub fn is_open(&self, now: &Timestamp) -> (r: bool)
        ensures
            r == (now@ <= self.expires_at@),
    {
        now.le(&self.expires_at)
    }
}

/// The name under which a role is stored.
pub open spec fn role_name(role: Role) -> Seq<char> {
    match role {
        Role::Owner => "owner"@,
        Role::Admin => "admin"@,
        Role::Member => "member"@,
        Role::ReadOnly => "read_only"@,
    }
}

/// The role that a stored name stands for; a name that stands for none
/// counts as the role that only reads.
pub open spec fn role_of_name(s: Seq<char>) -> Role {
    if s == "owner"@ {
        Role::Owner
    } else if s == "admin"@ {
        Role::Admin
    } else if s == "member"@ {
        Role::Member
    } else {
        Role::ReadOnly
    }
}

/// The name under which a plan is stored.
pub open spec fn plan_name(plan: Plan) -> Seq<char> {
    match plan {
        Plan::Free => "free"@,
        Plan::Pro => "pro"@,
        Plan::Team => "team"@,
        Plan::Enterprise => "enterprise"@,
    }
}

/// The plan that a stored name stands for; a name that stands for none
/// counts as the free plan.
pub open spec fn plan_of_name(s: Seq<char>) -> Plan {
    if s == "pro"@ {
        Plan::Pro
    } else if s == "team"@ {
        Plan::Team
    } else if s == "enterprise"@ {
        Plan::Enterprise
    } else {
        Plan::Free
    }
}

pub fn role_to_str(role: Role) -> (r: &'static str)
    ensures
        r@ == role_name(role),
{
    match role {
        Role::Owner => "owner",
        Role::Admin => "admin",
        Role::Member => "member",
        Role::ReadOnly => "read_only",
    }
}

pub fn role_from_str(s: &str) -> (r: Role)
    ensures
        r == role_of_name(s@),
{
    if crate::text::same_text(s, "owner") {
        Role::Owner
    } else if crate::text::same_text(s, "admin") {
        Role::Admin
    } else if crate::text::same_text(s, "member") {
        Role::Member
    } else {
        Role::ReadOnly
    }
}

pub fn plan_to_str(plan: Plan) -> (r: &'static str)
    ensures
        r@ == plan_name(plan),
{
    match plan {
        Plan::Free => "free",
        Plan::Pro => "pro",
        Plan::Team => "team",
        Plan::Enterprise => "enterprise",
    }
}

pub fn plan_from_str(s: &str) -> (r: Plan)
    ensures
        r == plan_of_name(s@),
{
    if crate::text::same_text(s, "pro") {
        Plan::Pro
    } else if crate::text::same_text(s, "team") {
        Plan::Team
    } else if crate::text::same_text(s, "enterprise") {
        Plan::Enterprise
    } else {
        Plan::Free
    }
}

/// A role and a plan come back from the names they are stored under.
pub proof fn lemma_stored_names_round_trip(role: Role, plan: Plan)
    ensures
        role_of_name(role_name(role)) == role,
        plan_of_name(plan_name(plan)) == plan,
{
    reveal_strlit("owner");
    reveal_strlit("admin");
    reveal_strlit("member");
    reveal_strlit("read_only");
    reveal_strlit("free");
    reveal_strlit("pro");
    reveal_strlit("team");
    reveal_strlit("enterprise");
    assert("admin"@[0] != "owner"@[0]);
    assert("member"@.len() != "owner"@.len());
    assert("member"@.len() != "admin"@.len());
    assert("member"@.len() != "read_only"@.len());
    assert("read_only"@.len() != "owner"@.len());
    assert("free"@.len() != "pro"@.len());
    assert("free"@[0] != "team"@[0]);
    assert("free"@.len() != "enterprise"@.len());
    assert("team"@.len() != "pro"@.len());
    assert("enterprise"@.len() != "pro"@.len());
    assert("enterprise"@.len() != "team"@.len());
}

} // verus!
