//! Portal views: how a portal is shown to its owners or to its vendors.
use vstd::prelude::*;
use crate::time::Timestamp;

verus! {

/// A view of a portal. Timestamps are instants in UTC.
pub struct PortalView {
    pub id: u128,
    pub portal_id: u128,
    pub name: String,
    pub egress: String,
    pub access: String,
    pub created_at: Timestamp,
    pub created_by: u128,
    pub updated_at: Timestamp,
    pub updated_by: u128,
}

/// A portal view as the database hands it over.
pub struct DBPortalView {
    pub id: u128,
    pub portal_id: u128,
    pub name: String,
    pub egress: String,
    pub access: String,
    pub created_at: Timestamp,
    pub created_by: u128,
    pub updated_at: Timestamp,
    pub updated_by: u128,
}

/// A portal view about to be stored.
pub struct DBNewPortalView {
    pub portal_id: u128,
    pub name: String,
    pub egress: String,
    pub access: String,
}

/// The portal view that a stored one reads as: every field carried over.
pub open spec fn portal_view_of(v: DBPortalView) -> PortalView {
    PortalView {
        id: v.id,
        portal_id: v.portal_id,
        name: v.name,
        egress: v.egress,
        access: v.access,
        created_at: v.created_at,
        created_by: v.created_by,
        updated_at: v.updated_at,
        updated_by: v.updated_by,
    }
}

/// Reading a stored portal view keeps every one of its fields as it was stored.
pub proof fn lemma_portal_view_of_keeps_fields(stored: DBPortalView)
    ensures
        portal_view_of(stored).id == stored.id,
        portal_view_of(stored).portal_id == stored.portal_id,
        portal_view_of(stored).name == stored.name,
        portal_view_of(stored).egress == stored.egress,
        portal_view_of(stored).access == stored.access,
        portal_view_of(stored).created_at == stored.created_at,
        portal_view_of(stored).created_by == stored.created_by,
        portal_view_of(stored).updated_at == stored.updated_at,
        portal_view_of(stored).updated_by == stored.updated_by,
{
}

impl PortalView {
    /// Reads a stored portal view.
    pub fn from(db_portalview: DBPortalView) -> (v: PortalView)
        ensures
            v == portal_view_of(db_portalview),
            v.id == db_portalview.id,
            v.portal_id == db_portalview.portal_id,
            v.name == db_portalview.name,
            v.egress == db_portalview.egress,
            v.access == db_portalview.access,
            v.created_at == db_portalview.created_at,
            v.created_by == db_portalview.created_by,
            v.updated_at == db_portalview.updated_at,
            v.updated_by == db_portalview.updated_by,
    {
        PortalView {
            id: db_portalview.id,
            portal_id: db_portalview.portal_id,
            name: db_portalview.name,
            egress: db_portalview.egress,
            access: db_portalview.access,
            created_at: db_portalview.created_at,
            created_by: db_portalview.created_by,
            updated_at: db_portalview.updated_at,
            updated_by: db_portalview.updated_by,
        }
    }

    pub fn id(&self) -> (r: u128)
        ensures
            r == self.id,
    {
        self.id
    }

    pub fn portal_id(&self) -> (r: u128)
        ensures
            r == self.portal_id,
    {
        self.portal_id
    }

    pub fn name(&self) -> (r: String)
        ensures
            r == self.name,
    {
        self.name.clone()
    }

    pub fn egress(&self) -> (r: String)
        ensures
            r == self.egress,
    {
        self.egress.clone()
    }

    pub fn access(&self) -> (r: String)
        ensures
            r == self.access,
    {
        self.access.clone()
    }

    pub fn created_at(&self) -> (r: Timestamp)
        ensures
            r == self.created_at,
    {
        self.created_at
    }

    pub fn created_by(&self) -> (r: u128)
        ensures
            r == self.created_by,
    {
        self.created_by
    }

    pub fn updated_at(&self) -> (r: Timestamp)
        ensures
            r == self.updated_at,
    {
        self.updated_at
    }

    pub fn updated_by(&self) -> (r: u128)
        ensures
            r == self.updated_by,
    {
        self.updated_by
    }
}

} // verus!
