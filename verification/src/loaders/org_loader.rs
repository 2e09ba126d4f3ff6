use vstd::prelude::*;
use std::collections::HashMap;
use crate::schema::org::{org_of, DBOrg, Org};

verus! {

/// Orgs by their identifier.
pub type OrgsById = HashMap<u128, Org>;

/// The batch loader of orgs. The database it queries stays with the caller;
/// what it does with the query's answer is `load_orgs`.
pub struct OrgBatcher;

/// The orgs of `s` by identifier: where an identifier occurs more than once,
/// the last org with it is kept.
pub open spec fn orgs_by_id(s: Seq<DBOrg>) -> Map<u128, Org>
    decreases s.len(),
{
    if s.len() == 0 {
        Map::empty()
    } else {
        orgs_by_id(s.drop_last()).insert(s.last().id, org_of(s.last()))
    }
}

impl OrgBatcher {
    /// Indexes the orgs one query returned by their identifier.
    pub fn load_orgs(orgs: Vec<DBOrg>) -> (m: OrgsById)
        ensures
            m@ == orgs_by_id(orgs@),
    {
        broadcast use vstd::std_specs::hash::group_hash_axioms;

        let mut m: OrgsById = HashMap::new();
        for org in it: orgs.into_iter()
            invariant
                it.seq() == orgs@,
                m@ == orgs_by_id(orgs@.take(it.index() as int)),
        {
            proof {
                assert(orgs@.take(it.index() + 1).drop_last() =~= orgs@.take(it.index() as int));
            }
            let o = Org::from(org);
            let k = o.id;
            m.insert(k, o);
        }
        proof {
            assert(orgs@.take(orgs@.len() as int) =~= orgs@);
        }
        m
    }
}

/// Every loaded org can be found by its identifier, and an identifier that no
/// loaded org has finds nothing.
pub proof fn lemma_orgs_found_by_id(s: Seq<DBOrg>, id: u128)
    ensures
        orgs_by_id(s).contains_key(id) <==> exists|i: int| 0 <= i < s.len() && s[i].id == id,
    decreases s.len(),
{
    if s.len() > 0 {
        lemma_orgs_found_by_id(s.drop_last(), id);
        if exists|i: int| 0 <= i < s.drop_last().len() && s.drop_last()[i].id == id {
            let i = choose|i: int| 0 <= i < s.drop_last().len() && s.drop_last()[i].id == id;
            assert(s[i].id == id);
        }
        if exists|i: int| 0 <= i < s.len() && s[i].id == id {
            let i = choose|i: int| 0 <= i < s.len() && s[i].id == id;
            if i < s.len() - 1 {
                assert(s.drop_last()[i].id == id);
            }
        }
    }
}

/// The org loaded under identifier `k` is the last stored row with that
/// identifier, carried over field by field.
pub proof fn lemma_loaded_org_is_last_row(s: Seq<DBOrg>, k: u128)
    requires
        orgs_by_id(s).contains_key(k),
    ensures
        exists|i: int|
            0 <= i < s.len() && #[trigger] s[i].id == k && (forall|j: int| i < j < s.len() ==> s[j].id != k) && {
                let o = orgs_by_id(s)[k];
                &&& o.id == s[i].id
                &&& o.name == s[i].name
                &&& o.created_at == s[i].created_at
                &&& o.created_by == s[i].created_by
                &&& o.updated_at == s[i].updated_at
                &&& o.updated_by == s[i].updated_by
            },
    decreases s.len(),
{
    let last = s.len() - 1;
    if s[last].id == k {
        assert(s.last() == s[last]);
    } else {
        lemma_loaded_org_is_last_row(s.drop_last(), k);
        let p = s.drop_last();
        let i = choose|i: int|
            0 <= i < p.len() && #[trigger] p[i].id == k && (forall|j: int| i < j < p.len() ==> p[j].id != k) && {
                let o = orgs_by_id(p)[k];
                &&& o.id == p[i].id
                &&& o.name == p[i].name
                &&& o.created_at == p[i].created_at
                &&& o.created_by == p[i].created_by
                &&& o.updated_at == p[i].updated_at
                &&& o.updated_by == p[i].updated_by
            };
        assert(p[i] == s[i]);
        assert forall|j: int| i < j < s.len() implies s[j].id != k by {
            if j < last {
                assert(p[j] == s[j]);
            }
        }
    }
}

} // verus!
