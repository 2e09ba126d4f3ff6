//! Roles and the permissions they grant.
use vstd::prelude::*;
use crate::time::Timestamp;
use crate::names::ParseError;
use crate::text::str_eq;

verus! {

/// The scopes a role can have.
#[derive(Clone, Copy, Debug, PartialEq, Eq, Structural)]
pub enum RoleTypes {
    System,
    Org,
    Portal,
}

impl RoleTypes {
    /// The name under which this variant is stored and shown.
    pub open spec fn name(self) -> Seq<char> {
        match self {
            RoleTypes::System => "System"@,
            RoleTypes::Org => "Org"@,
            RoleTypes::Portal => "Portal"@,
        }
    }

    /// The variant that a stored name stands for, if any.
    pub open spec fn parse(s: Seq<char>) -> Option<RoleTypes> {
        if s == "System"@ {
            Some(RoleTypes::System)
        } else if s == "Org"@ {
            Some(RoleTypes::Org)
        } else if s == "Portal"@ {
            Some(RoleTypes::Portal)
        } else {
            None
        }
    }

    /// The name of this variant, as a static string.
    pub fn as_str(&self) -> (s: &'static str)
        ensures
            s@ == self.name(),
    {
        match self {
            RoleTypes::System => "System",
            RoleTypes::Org => "Org",
            RoleTypes::Portal => "Portal",
        }
    }

    /// The name of this variant, as an owned string (its `Display` form).
    pub fn to_string(&self) -> (s: String)
        ensures
            s@ == self.name(),
    {
        self.as_str().to_string()
    }

    /// Reads a variant from its exact name; any other text is refused.
    pub fn from_str(s: &str) -> (r: Result<RoleTypes, ParseError>)
        ensures
            r matches Ok(t) ==> RoleTypes::parse(s@) == Some(t),
            r is Err <==> RoleTypes::parse(s@) is None,
    {
        if str_eq(s, "System") {
            Ok(RoleTypes::System)
        } else if str_eq(s, "Org") {
            Ok(RoleTypes::Org)
        } else if str_eq(s, "Portal") {
            Ok(RoleTypes::Portal)
        } else {
            Err(ParseError::VariantNotFound)
        }
    }
}

/// Every variant of `RoleTypes` is read back from its own name.
pub proof fn lemma_role_types_names(t: RoleTypes)
    ensures
        RoleTypes::parse(t.name()) == Some(t),
        forall|s: Seq<char>| #[trigger] RoleTypes::parse(s) == Some(t) ==> s == t.name(),
{
    reveal_strlit("System");
    reveal_strlit("Org");
    reveal_strlit("Portal");
    match t {
        RoleTypes::System => {
        },
        RoleTypes::Org => {
            assert("Org"@.len() != "System"@.len());
        },
        RoleTypes::Portal => {
            assert("Portal"@[0] != "System"@[0]);
            assert("Portal"@.len() != "Org"@.len());
        },
    }
}

/// Each variant of `RoleTypes` is stored under its own name, and each of those names
/// reads back as that variant.
pub proof fn lemma_role_types_stored_names()
    ensures
        RoleTypes::System.name() == "System"@,
        RoleTypes::Org.name() == "Org"@,
        RoleTypes::Portal.name() == "Portal"@,
        RoleTypes::parse("System"@) == Some(RoleTypes::System),
        RoleTypes::parse("Org"@) == Some(RoleTypes::Org),
        RoleTypes::parse("Portal"@) == Some(RoleTypes::Portal),
{
    lemma_role_types_names(RoleTypes::System);
    lemma_role_types_names(RoleTypes::Org);
    lemma_role_types_names(RoleTypes::Portal);
}

/// What a system role permits.
#[derive(Clone, Copy, Debug, PartialEq, Eq, Structural)]
pub struct SystemPermissions {
    pub create_org: bool,
    pub view_org: bool,
    pub edit_org: bool,
    pub delete_org: bool,
}

/// What an org role permits.
#[derive(Clone, Copy, Debug, PartialEq, Eq, Structural)]
pub struct OrgPermissions {
    pub create_portal: bool,
    pub view_all_portals: bool,
    pub view_member_portals: bool,
    pub edit_org: bool,
    pub delete_org: bool,
    pub add_org_user: bool,
    pub delete_org_user: bool,
    pub edit_org_users: bool,
}

/// What a portal role permits.
#[derive(Clone, Copy, Debug, PartialEq, Eq, Structural)]
pub struct PortalPermissions {
    pub view_portal: bool,
    pub edit_portal: bool,
}

/// The permissions of a role of unknown scope.
pub struct EmptyPermissions {
    pub role_type: String,
}

/// The permissions of a role, by scope.
pub enum RolePerms {
    System(SystemPermissions),
    Org(OrgPermissions),
    Portal(PortalPermissions),
    Empty(EmptyPermissions),
}

/// A role. Timestamps are instants in UTC.
pub struct Role {
    pub id: u128,
    pub role_type: RoleTypes,
    pub perms: RolePerms,
    pub created_at: Timestamp,
    pub created_by: u128,
    pub updated_at: Timestamp,
    pub updated_by: u128,
}

/// A role as the database hands it over: its scope as stored text and its
/// permissions decoded into the scope that text names.
pub struct DBRole {
    pub id: u128,
    pub role_type: String,
    pub perms: RolePerms,
    pub created_at: Timestamp,
    pub created_by: u128,
    pub updated_at: Timestamp,
    pub updated_by: u128,
}

/// The input for creating a role.
#[derive(Clone, Copy, Debug, PartialEq, Eq, Structural)]
pub struct NewRole {
    pub role_type: RoleTypes,
}

/// A role about to be stored, with its scope as text.
pub struct DBNewRole {
    pub role_type: String,
}

/// Whether `perms` are permissions of the scope `t`.
pub open spec fn is_perms_of_type(perms: RolePerms, t: RoleTypes) -> bool {
    match t {
        RoleTypes::System => perms is System,
        RoleTypes::Org => perms is Org,
        RoleTypes::Portal => perms is Portal,
    }
}

/// Whether a stored role can be read: its scope names a role type and its
/// permissions were decoded as that scope.
pub open spec fn is_readable_role(db_role: DBRole) -> bool {
    RoleTypes::parse(db_role.role_type@) matches Some(t) && is_perms_of_type(db_role.perms, t)
}

impl Role {
    /// Reads a stored role: its scope is parsed from the stored text and every
    /// other field carried over.
    pub fn from(db_role: DBRole) -> (r: Role)
        requires
            is_readable_role(db_role),
        ensures
            Some(r.role_type) == RoleTypes::parse(db_role.role_type@),
            r.perms == db_role.perms,
            r.id == db_role.id,
            r.created_at == db_role.created_at,
            r.created_by == db_role.created_by,
            r.updated_at == db_role.updated_at,
            r.updated_by == db_role.updated_by,
    {
        let role_type = match RoleTypes::from_str(db_role.role_type.as_str()) {
            Ok(t) => t,
            Err(_) => {
                proof {
                    assert(false);
                }
                RoleTypes::System
            },
        };
        Role {
            id: db_role.id,
            role_type,
            perms: db_role.perms,
            created_at: db_role.created_at,
            created_by: db_role.created_by,
            updated_at: db_role.updated_at,
            updated_by: db_role.updated_by,
        }
    }
}

impl NewRole {
    /// Reads a role about to be stored back into the input that describes it.
    pub fn from(db_new_role: DBNewRole) -> (r: NewRole)
        requires
            RoleTypes::parse(db_new_role.role_type@) is Some,
        ensures
            Some(r.role_type) == RoleTypes::parse(db_new_role.role_type@),
    {
        let role_type = match RoleTypes::from_str(db_new_role.role_type.as_str()) {
            Ok(t) => t,
            Err(_) => {
                proof {
                    assert(false);
                }
                RoleTypes::System
            },
        };
        NewRole { role_type }
    }

    /// The role about to be stored for this input: its scope as text.
    pub fn into_db(self) -> (r: DBNewRole)
        ensures
            r.role_type@ == self.role_type.name(),
    {
        DBNewRole { role_type: self.role_type.to_string() }
    }
}

} // verus!
