//! Policies: who may do what to which resource.
use vstd::prelude::*;
use crate::time::Timestamp;
use crate::names::ParseError;
use crate::text::str_eq;

verus! {

/// The kinds of resource a policy can govern.
#[derive(Clone, Copy, Debug, PartialEq, Eq, Structural)]
pub enum PolicyTypes {
    ProjectPolicy,
    DashboardPolicy,
    PagePolicy,
    BlockPolicy,
}

impl PolicyTypes {
    /// The name under which this variant is stored and shown.
    pub open spec fn name(self) -> Seq<char> {
        match self {
            PolicyTypes::ProjectPolicy => "Project"@,
            PolicyTypes::DashboardPolicy => "Dashboard"@,
            PolicyTypes::PagePolicy => "Page"@,
            PolicyTypes::BlockPolicy => "Block"@,
        }
    }

    /// The variant that a stored name stands for, if any.
    pub open spec fn parse(s: Seq<char>) -> Option<PolicyTypes> {
        if s == "Project"@ {
            Some(PolicyTypes::ProjectPolicy)
        } else if s == "Dashboard"@ {
            Some(PolicyTypes::DashboardPolicy)
        } else if s == "Page"@ {
            Some(PolicyTypes::PagePolicy)
        } else if s == "Block"@ {
            Some(PolicyTypes::BlockPolicy)
        } else {
            None
        }
    }

    /// The name of this variant, as a static string.
    pub fn as_str(&self) -> (s: &'static str)
        ensures
            s@ == self.name(),
    {
        match self {
            PolicyTypes::ProjectPolicy => "Project",
            PolicyTypes::DashboardPolicy => "Dashboard",
            PolicyTypes::PagePolicy => "Page",
            PolicyTypes::BlockPolicy => "Block",
        }
    }

    /// The name of this variant, as an owned string (its `Display` form).
    pub fn to_string(&self) -> (s: String)
        ensures
            s@ == self.name(),
    {
        self.as_str().to_string()
    }

    /// Reads a variant from its exact name; any other text is refused.
    pub fn from_str(s: &str) -> (r: Result<PolicyTypes, ParseError>)
        ensures
            r matches Ok(t) ==> PolicyTypes::parse(s@) == Some(t),
            r is Err <==> PolicyTypes::parse(s@) is None,
    {
        if str_eq(s, "Project") {
            Ok(PolicyTypes::ProjectPolicy)
        } else if str_eq(s, "Dashboard") {
            Ok(PolicyTypes::DashboardPolicy)
        } else if str_eq(s, "Page") {
            Ok(PolicyTypes::PagePolicy)
        } else if str_eq(s, "Block") {
            Ok(PolicyTypes::BlockPolicy)
        } else {
            Err(ParseError::VariantNotFound)
        }
    }
}

/// Every variant of `PolicyTypes` is read back from its own name.
pub proof fn lemma_policy_types_names(t: PolicyTypes)
    ensures
        PolicyTypes::parse(t.name()) == Some(t),
        forall|s: Seq<char>| #[trigger] PolicyTypes::parse(s) == Some(t) ==> s == t.name(),
{
    reveal_strlit("Project");
    reveal_strlit("Dashboard");
    reveal_strlit("Page");
    reveal_strlit("Block");
    match t {
        PolicyTypes::ProjectPolicy => {
        },
        PolicyTypes::DashboardPolicy => {
            assert("Dashboard"@.len() != "Project"@.len());
        },
        PolicyTypes::PagePolicy => {
            assert("Page"@.len() != "Project"@.len());
            assert("Page"@.len() != "Dashboard"@.len());
        },
        PolicyTypes::BlockPolicy => {
            assert("Block"@.len() != "Project"@.len());
            assert("Block"@.len() != "Dashboard"@.len());
            assert("Block"@.len() != "Page"@.len());
        },
    }
}

/// Each variant of `PolicyTypes` is stored under its own name, and each of those names
/// reads back as that variant.
pub proof fn lemma_policy_types_stored_names()
    ensures
        PolicyTypes::ProjectPolicy.name() == "Project"@,
        PolicyTypes::DashboardPolicy.name() == "Dashboard"@,
        PolicyTypes::PagePolicy.name() == "Page"@,
        PolicyTypes::BlockPolicy.name() == "Block"@,
        PolicyTypes::parse("Project"@) == Some(PolicyTypes::ProjectPolicy),
        PolicyTypes::parse("Dashboard"@) == Some(PolicyTypes::DashboardPolicy),
        PolicyTypes::parse("Page"@) == Some(PolicyTypes::PagePolicy),
        PolicyTypes::parse("Block"@) == Some(PolicyTypes::BlockPolicy),
{
    lemma_policy_types_names(PolicyTypes::ProjectPolicy);
    lemma_policy_types_names(PolicyTypes::DashboardPolicy);
    lemma_policy_types_names(PolicyTypes::PagePolicy);
    lemma_policy_types_names(PolicyTypes::BlockPolicy);
}

/// The kinds of permission a policy can grant.
#[derive(Clone, Copy, Debug, PartialEq, Eq, Structural)]
pub enum PermissionTypes {
    DashboardPermission,
    PagePermission,
    BlockPermission,
    UserPermission,
}

impl PermissionTypes {
    /// The name under which this variant is stored and shown.
    pub open spec fn name(self) -> Seq<char> {
        match self {
            PermissionTypes::DashboardPermission => "Dashboard"@,
            PermissionTypes::PagePermission => "Page"@,
            PermissionTypes::BlockPermission => "Block"@,
            PermissionTypes::UserPermission => "User"@,
        }
    }

    /// The variant that a stored name stands for, if any.
    pub open spec fn parse(s: Seq<char>) -> Option<PermissionTypes> {
        if s == "Dashboard"@ {
            Some(PermissionTypes::DashboardPermission)
        } else if s == "Page"@ {
            Some(PermissionTypes::PagePermission)
        } else if s == "Block"@ {
            Some(PermissionTypes::BlockPermission)
        } else if s == "User"@ {
            Some(PermissionTypes::UserPermission)
        } else {
            None
        }
    }

    /// The name of this variant, as a static string.
    pub fn as_str(&self) -> (s: &'static str)
        ensures
            s@ == self.name(),
    {
        match self {
            PermissionTypes::DashboardPermission => "Dashboard",
            PermissionTypes::PagePermission => "Page",
            PermissionTypes::BlockPermission => "Block",
            PermissionTypes::UserPermission => "User",
        }
    }

    /// The name of this variant, as an owned string (its `Display` form).
    pub fn to_string(&self) -> (s: String)
        ensures
            s@ == self.name(),
    {
        self.as_str().to_string()
    }

    /// Reads a variant from its exact name; any other text is refused.
    pub fn from_str(s: &str) -> (r: Result<PermissionTypes, ParseError>)
        ensures
            r matches Ok(t) ==> PermissionTypes::parse(s@) == Some(t),
            r is Err <==> PermissionTypes::parse(s@) is None,
    {
        if str_eq(s, "Dashboard") {
            Ok(PermissionTypes::DashboardPermission)
        } else if str_eq(s, "Page") {
            Ok(PermissionTypes::PagePermission)
        } else if str_eq(s, "Block") {
            Ok(PermissionTypes::BlockPermission)
        } else if str_eq(s, "User") {
            Ok(PermissionTypes::UserPermission)
        } else {
            Err(ParseError::VariantNotFound)
        }
    }
}

/// Every variant of `PermissionTypes` is read back from its own name.
pub proof fn lemma_permission_types_names(t: PermissionTypes)
    ensures
        PermissionTypes::parse(t.name()) == Some(t),
        forall|s: Seq<char>| #[trigger] PermissionTypes::parse(s) == Some(t) ==> s == t.name(),
{
    reveal_strlit("Dashboard");
    reveal_strlit("Page");
    reveal_strlit("Block");
    reveal_strlit("User");
    match t {
        PermissionTypes::DashboardPermission => {
        },
        PermissionTypes::PagePermission => {
            assert("Page"@.len() != "Dashboard"@.len());
        },
        PermissionTypes::BlockPermission => {
            assert("Block"@.len() != "Dashboard"@.len());
            assert("Block"@.len() != "Page"@.len());
        },
        PermissionTypes::UserPermission => {
            assert("User"@.len() != "Dashboard"@.len());
            assert("User"@[0] != "Page"@[0]);
            assert("User"@.len() != "Block"@.len());
        },
    }
}

/// Each variant of `PermissionTypes` is stored under its own name, and each of those names
/// reads back as that variant.
pub proof fn lemma_permission_types_stored_names()
    ensures
        PermissionTypes::DashboardPermission.name() == "Dashboard"@,
        PermissionTypes::PagePermission.name() == "Page"@,
        PermissionTypes::BlockPermission.name() == "Block"@,
        PermissionTypes::UserPermission.name() == "User"@,
        PermissionTypes::parse("Dashboard"@) == Some(PermissionTypes::DashboardPermission),
        PermissionTypes::parse("Page"@) == Some(PermissionTypes::PagePermission),
        PermissionTypes::parse("Block"@) == Some(PermissionTypes::BlockPermission),
        PermissionTypes::parse("User"@) == Some(PermissionTypes::UserPermission),
{
    lemma_permission_types_names(PermissionTypes::DashboardPermission);
    lemma_permission_types_names(PermissionTypes::PagePermission);
    lemma_permission_types_names(PermissionTypes::BlockPermission);
    lemma_permission_types_names(PermissionTypes::UserPermission);
}

/// The operations a policy can grant.
#[derive(Clone, Copy, Debug, PartialEq, Eq, Structural)]
pub enum GrantTypes {
    All,
    Create,
    Read,
    Update,
    Delete,
}

impl GrantTypes {
    /// The name under which this variant is stored and shown.
    pub open spec fn name(self) -> Seq<char> {
        match self {
            GrantTypes::All => "All"@,
            GrantTypes::Create => "Create"@,
            GrantTypes::Read => "Read"@,
            GrantTypes::Update => "Update"@,
            GrantTypes::Delete => "Delete"@,
        }
    }

    /// The variant that a stored name stands for, if any.
    pub open spec fn parse(s: Seq<char>) -> Option<GrantTypes> {
        if s == "All"@ {
            Some(GrantTypes::All)
        } else if s == "Create"@ {
            Some(GrantTypes::Create)
        } else if s == "Read"@ {
            Some(GrantTypes::Read)
        } else if s == "Update"@ {
            Some(GrantTypes::Update)
        } else if s == "Delete"@ {
            Some(GrantTypes::Delete)
        } else {
            None
        }
    }

    /// The name of this variant, as a static string.
    pub fn as_str(&self) -> (s: &'static str)
        ensures
            s@ == self.name(),
    {
        match self {
            GrantTypes::All => "All",
            GrantTypes::Create => "Create",
            GrantTypes::Read => "Read",
            GrantTypes::Update => "Update",
            GrantTypes::Delete => "Delete",
        }
    }

    /// The name of this variant, as an owned string (its `Display` form).
    pub fn to_string(&self) -> (s: String)
        ensures
            s@ == self.name(),
    {
        self.as_str().to_string()
    }

    /// Reads a variant from its exact name; any other text is refused.
    pub fn from_str(s: &str) -> (r: Result<GrantTypes, ParseError>)
        ensures
            r matches Ok(t) ==> GrantTypes::parse(s@) == Some(t),
            r is Err <==> GrantTypes::parse(s@) is None,
    {
        if str_eq(s, "All") {
            Ok(GrantTypes::All)
        } else if str_eq(s, "Create") {
            Ok(GrantTypes::Create)
        } else if str_eq(s, "Read") {
            Ok(GrantTypes::Read)
        } else if str_eq(s, "Update") {
            Ok(GrantTypes::Update)
        } else if str_eq(s, "Delete") {
            Ok(GrantTypes::Delete)
        } else {
            Err(ParseError::VariantNotFound)
        }
    }
}

/// Every variant of `GrantTypes` is read back from its own name.
pub proof fn lemma_grant_types_names(t: GrantTypes)
    ensures
        GrantTypes::parse(t.name()) == Some(t),
        forall|s: Seq<char>| #[trigger] GrantTypes::parse(s) == Some(t) ==> s == t.name(),
{
    reveal_strlit("All");
    reveal_strlit("Create");
    reveal_strlit("Read");
    reveal_strlit("Update");
    reveal_strlit("Delete");
    match t {
        GrantTypes::All => {
        },
        GrantTypes::Create => {
            assert("Create"@.len() != "All"@.len());
        },
        GrantTypes::Read => {
            assert("Read"@.len() != "All"@.len());
            assert("Read"@.len() != "Create"@.len());
        },
        GrantTypes::Update => {
            assert("Update"@.len() != "All"@.len());
            assert("Update"@[0] != "Create"@[0]);
            assert("Update"@.len() != "Read"@.len());
        },
        GrantTypes::Delete => {
            assert("Delete"@.len() != "All"@.len());
            assert("Delete"@[0] != "Create"@[0]);
            assert("Delete"@.len() != "Read"@.len());
            assert("Delete"@[0] != "Update"@[0]);
        },
    }
}

/// Each variant of `GrantTypes` is stored under its own name, and each of those names
/// reads back as that variant.
pub proof fn lemma_grant_types_stored_names()
    ensures
        GrantTypes::All.name() == "All"@,
        GrantTypes::Create.name() == "Create"@,
        GrantTypes::Read.name() == "Read"@,
        GrantTypes::Update.name() == "Update"@,
        GrantTypes::Delete.name() == "Delete"@,
        GrantTypes::parse("All"@) == Some(GrantTypes::All),
        GrantTypes::parse("Create"@) == Some(GrantTypes::Create),
        GrantTypes::parse("Read"@) == Some(GrantTypes::Read),
        GrantTypes::parse("Update"@) == Some(GrantTypes::Update),
        GrantTypes::parse("Delete"@) == Some(GrantTypes::Delete),
{
    lemma_grant_types_names(GrantTypes::All);
    lemma_grant_types_names(GrantTypes::Create);
    lemma_grant_types_names(GrantTypes::Read);
    lemma_grant_types_names(GrantTypes::Update);
    lemma_grant_types_names(GrantTypes::Delete);
}

/// A policy. Timestamps are instants in UTC.
pub struct Policy {
    pub id: u128,
    pub resource_id: u128,
    pub policy_type: PolicyTypes,
    pub permission_type: PermissionTypes,
    pub grant_type: GrantTypes,
    pub user_ids: Vec<u128>,
    pub created_at: Timestamp,
    pub created_by: u128,
    pub updated_at: Timestamp,
    pub updated_by: u128,
}

/// A policy as the database hands it over, its kinds as text.
pub struct DBPolicy {
    pub id: u128,
    pub resource_id: u128,
    pub policy_type: String,
    pub permission_type: String,
    pub grant_type: String,
    pub user_ids: Vec<u128>,
    pub created_at: Timestamp,
    pub created_by: u128,
    pub updated_at: Timestamp,
    pub updated_by: u128,
}

/// A policy to be created.
pub struct NewPolicy {
    pub resource_id: u128,
    pub policy_type: PolicyTypes,
    pub permission_type: PermissionTypes,
    pub grant_type: GrantTypes,
    pub user_ids: Vec<u128>,
}

/// The input for granting users access to an existing resource.
pub struct UpdatePolicy {
    pub resource_id: u128,
    pub policy_type: PolicyTypes,
    pub permission_type: PermissionTypes,
    pub grant_type: GrantTypes,
    pub user_ids: Vec<u128>,
}

/// The input for asking whether a user holds a grant on a resource.
#[derive(Clone, Copy, Debug, PartialEq, Eq, Structural)]
pub struct UserPermissionInput {
    pub resource_id: u128,
    pub user_id: u128,
    pub grant_type: GrantTypes,
}

/// Whether all three kinds of a stored policy name variants.
pub open spec fn is_readable_policy(p: DBPolicy) -> bool {
    &&& PolicyTypes::parse(p.policy_type@) is Some
    &&& PermissionTypes::parse(p.permission_type@) is Some
    &&& GrantTypes::parse(p.grant_type@) is Some
}

/// `policy` is what the stored `db_policy` reads as.
pub open spec fn is_policy_of(policy: Policy, db_policy: DBPolicy) -> bool {
    &&& Some(policy.policy_type) == PolicyTypes::parse(db_policy.policy_type@)
    &&& Some(policy.permission_type) == PermissionTypes::parse(db_policy.permission_type@)
    &&& Some(policy.grant_type) == GrantTypes::parse(db_policy.grant_type@)
    &&& policy.id == db_policy.id
    &&& policy.resource_id == db_policy.resource_id
    &&& policy.user_ids == db_policy.user_ids
    &&& policy.created_at == db_policy.created_at
    &&& policy.created_by == db_policy.created_by
    &&& policy.updated_at == db_policy.updated_at
    &&& policy.updated_by == db_policy.updated_by
}

/// A policy read from a stored one keeps every field of the stored row, and
/// each of its kinds is the variant stored under that kind's name.
pub proof fn lemma_policy_read_keeps_fields(policy: Policy, db_policy: DBPolicy)
    requires
        is_policy_of(policy, db_policy),
    ensures
        policy.policy_type.name() == db_policy.policy_type@,
        policy.permission_type.name() == db_policy.permission_type@,
        policy.grant_type.name() == db_policy.grant_type@,
        policy.id == db_policy.id,
        policy.resource_id == db_policy.resource_id,
        policy.user_ids == db_policy.user_ids,
        policy.created_at == db_policy.created_at,
        policy.created_by == db_policy.created_by,
        policy.updated_at == db_policy.updated_at,
        policy.updated_by == db_policy.updated_by,
{
    lemma_policy_types_names(policy.policy_type);
    lemma_permission_types_names(policy.permission_type);
    lemma_grant_types_names(policy.grant_type);
}

impl Policy {
    /// Reads a stored policy. It is refused exactly when one of its three kinds
    /// names no variant.
    pub fn try_from(db_policy: DBPolicy) -> (r: Result<Policy, ParseError>)
        ensures
            r is Ok <==> is_readable_policy(db_policy),
            r matches Ok(p) ==> is_policy_of(p, db_policy),
    {
        let policy_type = PolicyTypes::from_str(db_policy.policy_type.as_str())?;
        let permission_type = PermissionTypes::from_str(db_policy.permission_type.as_str())?;
        let grant_type = GrantTypes::from_str(db_policy.grant_type.as_str())?;
        Ok(
            Policy {
                id: db_policy.id,
                resource_id: db_policy.resource_id,
                policy_type,
                permission_type,
                grant_type,
                user_ids: db_policy.user_ids,
                created_at: db_policy.created_at,
                created_by: db_policy.created_by,
                updated_at: db_policy.updated_at,
                updated_by: db_policy.updated_by,
            },
        )
    }

    /// Reads a list of stored policies, all readable, in order.
    pub fn all_from(db_policies: Vec<DBPolicy>) -> (r: Vec<Policy>)
        requires
            forall|i: int| 0 <= i < db_policies@.len() ==> is_readable_policy(#[trigger] db_policies@[i]),
        ensures
            r@.len() == db_policies@.len(),
            forall|i: int| 0 <= i < r@.len() ==> is_policy_of(#[trigger] r@[i], db_policies@[i]),
    {
        let mut r: Vec<Policy> = Vec::new();
        for db_policy in it: db_policies.into_iter()
            invariant
                it.seq() == db_policies@,
                forall|i: int| 0 <= i < db_policies@.len() ==> is_readable_policy(#[trigger] db_policies@[i]),
                r@.len() == it.index(),
                forall|i: int| 0 <= i < r@.len() ==> is_policy_of(#[trigger] r@[i], db_policies@[i]),
        {
            let ghost k = it.index();
            assert(is_readable_policy(db_policies@[k as int]));
            match Policy::try_from(db_policy) {
                Ok(p) => r.push(p),
                Err(_) => {
                    proof {
                        assert(false);
                    }
                },
            }
        }
        r
    }
}

} // verus!
