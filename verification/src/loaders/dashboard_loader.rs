use vstd::prelude::*;
use std::collections::HashMap;
use itertools::Itertools;
use crate::schema::dashboard::{dashboard_of, Dashboard, DBDashboard};

verus! {

/// Dashboards by the identifier of their project.
pub type DashboardsByProject = HashMap<u128, Vec<Dashboard>>;

/// The dashboards of `s` that belong to project `project_id`, in order.
pub open spec fn dashboards_in_project(s: Seq<Dashboard>, project_id: u128) -> Seq<Dashboard>
    decreases s.len(),
{
    if s.len() == 0 {
        Seq::empty()
    } else {
        let rest = dashboards_in_project(s.drop_last(), project_id);
        if s.last().project_id == project_id {
            rest.push(s.last())
        } else {
            rest
        }
    }
}

/// Whether some dashboard of `s` belongs to project `project_id`.
pub open spec fn in_some_project(s: Seq<Dashboard>, project_id: u128) -> bool {
    exists|i: int| 0 <= i < s.len() && s[i].project_id == project_id
}

/// Groups dashboards by project with `itertools::Itertools::into_group_map`:
/// the keys are exactly the projects that occur, and each project's list holds
/// its dashboards in the order they came.
#[verifier::external_body]
fn group_by_project(dashboards: Vec<Dashboard>) -> (m: DashboardsByProject)
    ensures
        forall|k: u128| #[trigger] m@.contains_key(k) <==> in_some_project(dashboards@, k),
        forall|k: u128| m@.contains_key(k) ==> #[trigger] m@[k]@ == dashboards_in_project(dashboards@, k),
{
    dashboards.into_iter().map(|d| (d.project_id, d)).into_group_map()
}

/// The dashboards a stored list reads as, in order.
pub open spec fn dashboards_of(s: Seq<DBDashboard>) -> Seq<Dashboard> {
    s.map_values(|d: DBDashboard| dashboard_of(d))
}

/// The batch loader of dashboards by project. The database it queries stays
/// with the caller; what it does with the query's answer is `load_dashboards`.
pub struct DashboardBatcher;

impl DashboardBatcher {
    /// Loads the dashboards of many projects at once from what one query returned:
    /// every requested project, and every project that occurs, maps to its
    /// dashboards in the order the query returned them (an empty list for a
    /// requested project without dashboards).
    pub fn load_dashboards(db_dashboards: Vec<DBDashboard>, project_ids: &Vec<u128>) -> (m: DashboardsByProject)
        ensures
            forall|k: u128|
                #![trigger m@.contains_key(k)]
                m@.contains_key(k) <==> (project_ids@.contains(k) || in_some_project(dashboards_of(db_dashboards@), k)),
            forall|k: u128|
                #![trigger m@[k]]
                m@.contains_key(k) ==> m@[k]@ == dashboards_in_project(dashboards_of(db_dashboards@), k),
    {
        broadcast use vstd::std_specs::hash::group_hash_axioms;

        let ghost all = dashboards_of(db_dashboards@);
        let mut dashboards: Vec<Dashboard> = Vec::new();
        for db_dashboard in it: db_dashboards.into_iter()
            invariant
                it.seq() == db_dashboards@,
                dashboards@ == dashboards_of(db_dashboards@.take(it.index() as int)),
        {
            proof {
                assert(db_dashboards@.take(it.index() + 1) =~= db_dashboards@.take(it.index() as int).push(
                    db_dashboard,
                ));
            }
            dashboards.push(Dashboard::from(db_dashboard));
            proof {
                assert(dashboards@ =~= dashboards_of(db_dashboards@.take(it.index() + 1)));
            }
        }
        assert(db_dashboards@.take(db_dashboards@.len() as int) =~= db_dashboards@);
        assert(dashboards@ == all);
        let mut m = group_by_project(dashboards);
        let mut i: usize = 0;
        while i < project_ids.len()
            invariant
                i <= project_ids@.len(),
                forall|k: u128|
                    #![trigger m@.contains_key(k)]
                    m@.contains_key(k) <==> (project_ids@.take(i as int).contains(k) || in_some_project(all, k)),
                forall|k: u128| #![trigger m@[k]] m@.contains_key(k) ==> m@[k]@ == dashboards_in_project(all, k),
            decreases project_ids@.len() - i,
        {
            let project_id = project_ids[i];
            if !m.contains_key(&project_id) {
                proof {
                    lemma_no_dashboards_in_project(all, project_id);
                }
                m.insert(project_id, Vec::new());
            }
            proof {
                assert forall|k: u128| #[trigger] project_ids@.take(i + 1).contains(k) <==> (project_ids@.take(
                    i as int,
                ).contains(k) || k == project_id) by {
                    let before = project_ids@.take(i as int);
                    let after = project_ids@.take(i + 1);
                    assert(after =~= before.push(project_id));
                    if after.contains(k) {
                        let j = choose|j: int| 0 <= j < after.len() && after[j] == k;
                        if j < i {
                            assert(before[j] == k);
                        }
                    }
                    if before.contains(k) {
                        let j = choose|j: int| 0 <= j < before.len() && before[j] == k;
                        assert(after[j] == k);
                    }
                    if k == project_id {
                        assert(after[i as int] == k);
                    }
                }
            }
            i = i + 1;
        }
        proof {
            assert(project_ids@.take(project_ids@.len() as int) =~= project_ids@);
        }
        m
    }
}

/// A project no dashboard belongs to has no dashboards.
pub proof fn lemma_no_dashboards_in_project(s: Seq<Dashboard>, project_id: u128)
    requires
        !in_some_project(s, project_id),
    ensures
        dashboards_in_project(s, project_id) == Seq::<Dashboard>::empty(),
    decreases s.len(),
{
    if s.len() > 0 {
        assert(s.last() == s[s.len() - 1]);
        assert forall|j: int| 0 <= j < s.drop_last().len() implies s.drop_last()[j].project_id != project_id by {
            assert(s.drop_last()[j] == s[j]);
        }
        lemma_no_dashboards_in_project(s.drop_last(), project_id);
    }
}

/// Every dashboard loaded for project `k` is a stored row of that project,
/// carried over field by field.
pub proof fn lemma_loaded_dashboards_are_stored_rows(s: Seq<DBDashboard>, k: u128, j: int)
    requires
        0 <= j < dashboards_in_project(dashboards_of(s), k).len(),
    ensures
        exists|i: int|
            0 <= i < s.len() && #[trigger] s[i].project_id == k && {
                let d = dashboards_in_project(dashboards_of(s), k)[j];
                &&& d.id == s[i].id
                &&& d.name == s[i].name
                &&& d.project_id == s[i].project_id
                &&& d.page_ids == s[i].page_ids
                &&& d.created_at == s[i].created_at
                &&& d.created_by == s[i].created_by
                &&& d.updated_at == s[i].updated_at
                &&& d.updated_by == s[i].updated_by
            },
    decreases s.len(),
{
    let t = dashboards_of(s);
    assert(t.drop_last() =~= dashboards_of(s.drop_last()));
    let rest = dashboards_in_project(t.drop_last(), k);
    let last = s.len() - 1;
    if t.last().project_id == k && j == rest.len() {
        assert(t.last() == dashboard_of(s[last]));
        assert(s[last].project_id == k);
    } else {
        lemma_loaded_dashboards_are_stored_rows(s.drop_last(), k, j);
        let i = choose|i: int|
            0 <= i < s.drop_last().len() && #[trigger] s.drop_last()[i].project_id == k && {
                let d = dashboards_in_project(dashboards_of(s.drop_last()), k)[j];
                &&& d.id == s.drop_last()[i].id
                &&& d.name == s.drop_last()[i].name
                &&& d.project_id == s.drop_last()[i].project_id
                &&& d.page_ids == s.drop_last()[i].page_ids
                &&& d.created_at == s.drop_last()[i].created_at
                &&& d.created_by == s.drop_last()[i].created_by
                &&& d.updated_at == s.drop_last()[i].updated_at
                &&& d.updated_by == s.drop_last()[i].updated_by
            };
        assert(s.drop_last()[i] == s[i]);
        assert(s[i].project_id == k);
    }
}

} // verus!
