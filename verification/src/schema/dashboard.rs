//! Dashboards: the pages of a project, in tab order.
use vstd::prelude::*;
use crate::time::Timestamp;

verus! {

/// A dashboard. Timestamps are instants in UTC.
pub struct Dashboard {
    pub id: u128,
    pub name: String,
    pub project_id: u128,
    pub page_ids: Vec<u128>,
    pub created_at: Timestamp,
    pub created_by: u128,
    pub updated_at: Timestamp,
    pub updated_by: u128,
}

/// A dashboard as the database hands it over.
pub struct DBDashboard {
    pub id: u128,
    pub name: String,
    pub project_id: u128,
    pub page_ids: Vec<u128>,
    pub created_at: Timestamp,
    pub created_by: u128,
    pub updated_at: Timestamp,
    pub updated_by: u128,
}

/// The input for creating a dashboard.
pub struct NewDashboard {
    pub name: String,
    pub project_id: u128,
}

/// A dashboard about to be stored.
pub struct DBNewDashboard {
    pub name: String,
    pub project_id: u128,
}

/// The input for changing a dashboard.
pub struct UpdateDashboard {
    pub id: u128,
    pub name: Option<String>,
    pub project_id: Option<u128>,
    pub page_ids: Option<Vec<u128>>,
}

/// A change to a stored dashboard.
pub struct DBUpdateDashboard {
    pub id: u128,
    pub name: Option<String>,
    pub project_id: Option<u128>,
    pub page_ids: Option<Vec<u128>>,
}

/// The dashboard that a stored one reads as: every field carried over.
pub open spec fn dashboard_of(d: DBDashboard) -> Dashboard {
    Dashboard {
        id: d.id,
        name: d.name,
        project_id: d.project_id,
        page_ids: d.page_ids,
        created_at: d.created_at,
        created_by: d.created_by,
        updated_at: d.updated_at,
        updated_by: d.updated_by,
    }
}

/// Reading a stored dashboard keeps every one of its fields as it was stored.
pub proof fn lemma_dashboard_of_keeps_fields(stored: DBDashboard)
    ensures
        dashboard_of(stored).id == stored.id,
        dashboard_of(stored).name == stored.name,
        dashboard_of(stored).project_id == stored.project_id,
        dashboard_of(stored).page_ids == stored.page_ids,
        dashboard_of(stored).created_at == stored.created_at,
        dashboard_of(stored).created_by == stored.created_by,
        dashboard_of(stored).updated_at == stored.updated_at,
        dashboard_of(stored).updated_by == stored.updated_by,
{
}

impl Dashboard {
    /// Reads a stored dashboard.
    pub fn from(dashboard: DBDashboard) -> (d: Dashboard)
        ensures
            d == dashboard_of(dashboard),
            d.id == dashboard.id,
            d.name == dashboard.name,
            d.project_id == dashboard.project_id,
            d.page_ids == dashboard.page_ids,
            d.created_at == dashboard.created_at,
            d.created_by == dashboard.created_by,
            d.updated_at == dashboard.updated_at,
            d.updated_by == dashboard.updated_by,
    {
        Dashboard {
            id: dashboard.id,
            name: dashboard.name,
            page_ids: dashboard.page_ids,
            project_id: dashboard.project_id,
            created_at: dashboard.created_at,
            created_by: dashboard.created_by,
            updated_at: dashboard.updated_at,
            updated_by: dashboard.updated_by,
        }
    }
}

impl NewDashboard {
    /// Reads a dashboard about to be stored back into the input that describes it.
    pub fn from(db_new_dashboard: DBNewDashboard) -> (d: NewDashboard)
        ensures
            d.name == db_new_dashboard.name,
            d.project_id == db_new_dashboard.project_id,
    {
        NewDashboard { name: db_new_dashboard.name, project_id: db_new_dashboard.project_id }
    }
}

impl UpdateDashboard {
    /// Reads a change to a stored dashboard back into the input that describes it.
    pub fn from(db_update_dashboard: DBUpdateDashboard) -> (d: UpdateDashboard)
        ensures
            d.id == db_update_dashboard.id,
            d.name == db_update_dashboard.name,
            d.project_id == db_update_dashboard.project_id,
            d.page_ids == db_update_dashboard.page_ids,
    {
        UpdateDashboard {
            id: db_update_dashboard.id,
            name: db_update_dashboard.name,
            project_id: db_update_dashboard.project_id,
            page_ids: db_update_dashboard.page_ids,
        }
    }
}

} // verus!
