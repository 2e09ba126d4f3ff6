//! Portals: shared spaces of an org, with owners and vendors.
use vstd::prelude::*;
use crate::time::Timestamp;
use crate::ids::copy_ids;
use crate::schema::portalview::DBNewPortalView;
use crate::text::str_eq;

verus! {

/// A portal. Timestamps are instants in UTC.
pub struct Portal {
    pub id: u128,
    pub name: String,
    pub org_id: u128,
    pub owner_ids: Vec<u128>,
    pub vendor_ids: Vec<u128>,
    pub created_at: Timestamp,
    pub created_by: u128,
    pub updated_at: Timestamp,
    pub updated_by: u128,
}

/// A portal as the database hands it over.
pub struct DBPortal {
    pub id: u128,
    pub name: String,
    pub org_id: u128,
    pub owner_ids: Vec<u128>,
    pub vendor_ids: Vec<u128>,
    pub created_at: Timestamp,
    pub created_by: u128,
    pub updated_at: Timestamp,
    pub updated_by: u128,
}

/// The input for creating a portal.
pub struct NewPortal {
    pub name: String,
    pub org_id: u128,
    pub owner_ids: Vec<u128>,
    pub vendor_ids: Vec<u128>,
}

/// A portal about to be stored.
pub struct DBNewPortal {
    pub name: String,
    pub org_id: u128,
    pub owner_ids: Vec<u128>,
    pub vendor_ids: Vec<u128>,
}

/// The input for changing a portal.
pub struct UpdatePortal {
    pub id: u128,
    pub name: Option<String>,
    pub owner_ids: Option<Vec<u128>>,
    pub vendor_ids: Option<Vec<u128>>,
}

/// A change to a stored portal; absent fields stay as they are.
pub struct DBUpdatePortal {
    pub id: u128,
    pub name: Option<String>,
    pub owner_ids: Option<Vec<u128>>,
    pub vendor_ids: Option<Vec<u128>>,
}

/// The input for inviting someone to a portal, as an owner or as a vendor.
pub struct PortalInviteParams {
    pub portal_id: u128,
    pub user_email: String,
    pub egress: String,
}

/// The portal that a stored one reads as: every field carried over.
pub open spec fn portal_of(p: DBPortal) -> Portal {
    Portal {
        id: p.id,
        name: p.name,
        org_id: p.org_id,
        owner_ids: p.owner_ids,
        vendor_ids: p.vendor_ids,
        created_at: p.created_at,
        created_by: p.created_by,
        updated_at: p.updated_at,
        updated_by: p.updated_by,
    }
}

/// Reading a stored portal keeps every one of its fields as it was stored.
pub proof fn lemma_portal_of_keeps_fields(stored: DBPortal)
    ensures
        portal_of(stored).id == stored.id,
        portal_of(stored).name == stored.name,
        portal_of(stored).org_id == stored.org_id,
        portal_of(stored).owner_ids == stored.owner_ids,
        portal_of(stored).vendor_ids == stored.vendor_ids,
        portal_of(stored).created_at == stored.created_at,
        portal_of(stored).created_by == stored.created_by,
        portal_of(stored).updated_at == stored.updated_at,
        portal_of(stored).updated_by == stored.updated_by,
{
}

impl Portal {
    /// Reads a stored portal.
    pub fn from(db_portal: DBPortal) -> (p: Portal)
        ensures
            p == portal_of(db_portal),
            p.id == db_portal.id,
            p.name == db_portal.name,
            p.org_id == db_portal.org_id,
            p.owner_ids == db_portal.owner_ids,
            p.vendor_ids == db_portal.vendor_ids,
            p.created_at == db_portal.created_at,
            p.created_by == db_portal.created_by,
            p.updated_at == db_portal.updated_at,
            p.updated_by == db_portal.updated_by,
    {
        Portal {
            id: db_portal.id,
            name: db_portal.name,
            org_id: db_portal.org_id,
            owner_ids: db_portal.owner_ids,
            vendor_ids: db_portal.vendor_ids,
            created_at: db_portal.created_at,
            created_by: db_portal.created_by,
            updated_at: db_portal.updated_at,
            updated_by: db_portal.updated_by,
        }
    }

    pub fn id(&self) -> (r: u128)
        ensures
            r == self.id,
    {
        self.id
    }

    pub fn name(&self) -> (r: String)
        ensures
            r == self.name,
    {
        self.name.clone()
    }

    pub fn org_id(&self) -> (r: u128)
        ensures
            r == self.org_id,
    {
        self.org_id
    }

    pub fn owner_ids(&self) -> (r: Vec<u128>)
        ensures
            r@ == self.owner_ids@,
    {
        copy_ids(&self.owner_ids)
    }

    pub fn vendor_ids(&self) -> (r: Vec<u128>)
        ensures
            r@ == self.vendor_ids@,
    {
        copy_ids(&self.vendor_ids)
    }

    pub fn created_at(&self) -> (r: Timestamp)
        ensures
            r == self.created_at,
    {
        self.created_at
    }

    pub fn created_by(&self) -> (r: u128)
        ensures
            r == self.created_by,
    {
        self.created_by
    }

    pub fn updated_at(&self) -> (r: Timestamp)
        ensures
            r == self.updated_at,
    {
        self.updated_at
    }

    pub fn updated_by(&self) -> (r: u128)
        ensures
            r == self.updated_by,
    {
        self.updated_by
    }
}

impl NewPortal {
    /// Reads a portal about to be stored back into the input that describes it.
    pub fn from(db_new_portal: DBNewPortal) -> (p: NewPortal)
        ensures
            p.name == db_new_portal.name,
            p.org_id == db_new_portal.org_id,
            p.owner_ids == db_new_portal.owner_ids,
            p.vendor_ids == db_new_portal.vendor_ids,
    {
        NewPortal {
            org_id: db_new_portal.org_id,
            name: db_new_portal.name,
            owner_ids: db_new_portal.owner_ids,
            vendor_ids: db_new_portal.vendor_ids,
        }
    }
}

/// An invitation whose role is neither `owner` nor `vendor`.
#[derive(Clone, Copy, Debug, PartialEq, Eq, Structural)]
pub enum InviteError {
    EgressNeitherOwnerNorVendor,
}

impl InviteError {
    /// The message the refusal is reported with.
    pub fn message(&self) -> (s: String)
        ensures
            s@ == "portal_invite_params.egress is neither owner or vendor"@,
    {
        "portal_invite_params.egress is neither owner or vendor".to_string()
    }
}

/// `u` appends `user_id` to the owners of `portal` and changes nothing else.
pub open spec fn adds_owner(u: DBUpdatePortal, portal: DBPortal, user_id: u128) -> bool {
    &&& u.id == portal.id
    &&& u.name is None
    &&& u.vendor_ids is None
    &&& u.owner_ids matches Some(ids) && ids@ == portal.owner_ids@.push(user_id)
}

/// `u` appends `user_id` to the vendors of `portal` and changes nothing else.
pub open spec fn adds_vendor(u: DBUpdatePortal, portal: DBPortal, user_id: u128) -> bool {
    &&& u.id == portal.id
    &&& u.name is None
    &&& u.owner_ids is None
    &&& u.vendor_ids matches Some(ids) && ids@ == portal.vendor_ids@.push(user_id)
}

/// An owner invitation puts the user last among the owners, after every
/// existing owner, and leaves the vendors alone; a vendor invitation does the
/// same for the vendors.
pub proof fn lemma_invite_lands_in_its_list(u: DBUpdatePortal, portal: DBPortal, user_id: u128)
    ensures
        adds_owner(u, portal, user_id) ==> ({
            let ids = u.owner_ids->0@;
            &&& ids.len() == portal.owner_ids@.len() + 1
            &&& ids.last() == user_id
            &&& forall|i: int| 0 <= i < portal.owner_ids@.len() ==> #[trigger] ids[i] == portal.owner_ids@[i]
            &&& u.vendor_ids is None
            &&& u.id == portal.id
        }),
        adds_vendor(u, portal, user_id) ==> ({
            let ids = u.vendor_ids->0@;
            &&& ids.len() == portal.vendor_ids@.len() + 1
            &&& ids.last() == user_id
            &&& forall|i: int| 0 <= i < portal.vendor_ids@.len() ==> #[trigger] ids[i] == portal.vendor_ids@[i]
            &&& u.owner_ids is None
            &&& u.id == portal.id
        }),
{
}

/// The change that adds an invited user to a portal: with role `owner` the user
/// is appended to the owners, with role `vendor` to the vendors, and only that
/// list is changed. Any other role is refused.
pub fn portal_update_for_invite(portal: DBPortal, user_id: u128, egress: &str) -> (r: Result<
    DBUpdatePortal,
    InviteError,
>)
    ensures
        egress@ == "owner"@ ==> (r matches Ok(u) && adds_owner(u, portal, user_id)),
        egress@ == "vendor"@ ==> (r matches Ok(u) && adds_vendor(u, portal, user_id)),
        egress@ != "owner"@ && egress@ != "vendor"@ ==> r == Err::<DBUpdatePortal, InviteError>(
            InviteError::EgressNeitherOwnerNorVendor,
        ),
{
    proof {
        reveal_strlit("owner");
        reveal_strlit("vendor");
        assert("owner"@.len() != "vendor"@.len());
    }
    if str_eq(egress, "owner") {
        let mut owner_ids = portal.owner_ids;
        owner_ids.push(user_id);
        Ok(DBUpdatePortal { id: portal.id, name: None, owner_ids: Some(owner_ids), vendor_ids: None })
    } else if str_eq(egress, "vendor") {
        let mut vendor_ids = portal.vendor_ids;
        vendor_ids.push(user_id);
        Ok(DBUpdatePortal { id: portal.id, name: None, owner_ids: None, vendor_ids: Some(vendor_ids) })
    } else {
        Err(InviteError::EgressNeitherOwnerNorVendor)
    }
}

/// The views every new portal starts with: a private `owner` view named
/// `Default Owner View`, then a private `vendor` view named `Default Vendor View`.
pub fn default_portal_views(portal_id: u128) -> (views: Vec<DBNewPortalView>)
    ensures
        views@.len() == 2,
        views@[0].portal_id == portal_id,
        views@[0].name@ == "Default Owner View"@,
        views@[0].egress@ == "owner"@,
        views@[0].access@ == "private"@,
        views@[1].portal_id == portal_id,
        views@[1].name@ == "Default Vendor View"@,
        views@[1].egress@ == "vendor"@,
        views@[1].access@ == "private"@,
{
    let mut views: Vec<DBNewPortalView> = Vec::new();
    views.push(
        DBNewPortalView {
            portal_id,
            name: "Default Owner View".to_string(),
            egress: "owner".to_string(),
            access: "private".to_string(),
        },
    );
    views.push(
        DBNewPortalView {
            portal_id,
            name: "Default Vendor View".to_string(),
            egress: "vendor".to_string(),
            access: "private".to_string(),
        },
    );
    views
}

} // verus!
