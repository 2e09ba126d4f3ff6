//! Projects: the users who share them and the dashboards they hold.
use vstd::prelude::*;
use crate::time::Timestamp;
use crate::loaders::dashboard_loader::DashboardsByProject;
use crate::schema::dashboard::Dashboard;

verus! {

/// A project. Timestamps are instants in UTC.
pub struct Project {
    pub id: u128,
    pub name: String,
    pub user_ids: Vec<u128>,
    pub created_at: Timestamp,
    pub created_by: u128,
    pub updated_at: Timestamp,
    pub updated_by: u128,
}

/// A project as the database hands it over.
pub struct DBProject {
    pub id: u128,
    pub name: String,
    pub user_ids: Vec<u128>,
    pub created_at: Timestamp,
    pub created_by: u128,
    pub updated_at: Timestamp,
    pub updated_by: u128,
}

/// The input for creating a project.
pub struct NewProject {
    pub name: String,
}

/// A project about to be stored.
pub struct DBNewProject {
    pub name: String,
}

/// The project that a stored one reads as: every field carried over.
pub open spec fn project_of(p: DBProject) -> Project {
    Project {
        id: p.id,
        name: p.name,
        user_ids: p.user_ids,
        created_at: p.created_at,
        created_by: p.created_by,
        updated_at: p.updated_at,
        updated_by: p.updated_by,
    }
}

/// Reading a stored project keeps every one of its fields as it was stored.
pub proof fn lemma_project_of_keeps_fields(stored: DBProject)
    ensures
        project_of(stored).id == stored.id,
        project_of(stored).name == stored.name,
        project_of(stored).user_ids == stored.user_ids,
        project_of(stored).created_at == stored.created_at,
        project_of(stored).created_by == stored.created_by,
        project_of(stored).updated_at == stored.updated_at,
        project_of(stored).updated_by == stored.updated_by,
{
}

impl Project {
    /// Reads a stored project.
    pub fn from(project: DBProject) -> (p: Project)
        ensures
            p == project_of(project),
            p.id == project.id,
            p.name == project.name,
            p.user_ids == project.user_ids,
            p.created_at == project.created_at,
            p.created_by == project.created_by,
            p.updated_at == project.updated_at,
            p.updated_by == project.updated_by,
    {
        Project {
            id: project.id,
            name: project.name,
            user_ids: project.user_ids,
            created_at: project.created_at,
            created_by: project.created_by,
            updated_at: project.updated_at,
            updated_by: project.updated_by,
        }
    }

    /// This project's dashboards, out of what the dashboard loader returned for
    /// it: the list loaded under its identifier, or none when nothing was.
    pub fn dashboards(&self, loaded: DashboardsByProject) -> (r: Vec<Dashboard>)
        ensures
            loaded@.contains_key(self.id) ==> r@ == loaded@[self.id]@,
            !loaded@.contains_key(self.id) ==> r@.len() == 0,
    {
        broadcast use vstd::std_specs::hash::group_hash_axioms;

        let mut loaded = loaded;
        match loaded.remove(&self.id) {
            Some(dashboards) => dashboards,
            None => Vec::new(),
        }
    }

    pub fn id(&self) -> (r: u128)
        ensures
            r == self.id,
    {
        self.id
    }

    pub fn name(&self) -> (r: &str)
        ensures
            r@ == self.name@,
    {
        self.name.as_str()
    }

    pub fn user_ids(&self) -> (r: &Vec<u128>)
        ensures
            r == &self.user_ids,
    {
        &self.user_ids
    }

    pub fn created_at(&self) -> (r: Timestamp)
        ensures
            r == self.created_at,
    {
        self.created_at
    }

    pub fn created_by(&self) -> (r: u128)
        ensures
            r == self.created_by,
    {
        self.created_by
    }

    pub fn updated_at(&self) -> (r: Timestamp)
        ensures
            r == self.updated_at,
    {
        self.updated_at
    }

    pub fn updated_by(&self) -> (r: u128)
        ensures
            r == self.updated_by,
    {
        self.updated_by
    }
}

impl NewProject {
    /// Reads a project about to be stored back into the input that describes it.
    pub fn from(db_new_project: DBNewProject) -> (p: NewProject)
        ensures
            p.name == db_new_project.name,
    {
        NewProject { name: db_new_project.name }
    }
}

/// Adding a user to a project that added nothing.
#[derive(Clone, Copy, Debug, PartialEq, Eq, Structural)]
pub enum ProjectError {
    UserNotAdded,
}

impl ProjectError {
    /// The message the error is reported with.
    pub fn message(&self) -> (s: String)
        ensures
            s@ == "User not added to project"@,
    {
        "User not added to project".to_string()
    }
}

/// Whether adding a user to a project took effect: it did when at least one
/// membership was added.
pub fn confirm_user_added(users_added_count: u64) -> (r: Result<(), ProjectError>)
    ensures
        r is Ok <==> users_added_count > 0,
        r is Err ==> r == Err::<(), ProjectError>(ProjectError::UserNotAdded),
{
    if users_added_count == 0 {
        Err(ProjectError::UserNotAdded)
    } else {
        Ok(())
    }
}

} // verus!
