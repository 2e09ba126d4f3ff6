//! Orgs: the organisations that own portals.
use vstd::prelude::*;
use crate::time::Timestamp;

verus! {

/// An org. Timestamps are instants in UTC.
pub struct Org {
    pub id: u128,
    pub name: String,
    pub created_at: Timestamp,
    pub created_by: u128,
    pub updated_at: Timestamp,
    pub updated_by: u128,
}

/// An org as the database hands it over.
pub struct DBOrg {
    pub id: u128,
    pub name: String,
    pub created_at: Timestamp,
    pub created_by: u128,
    pub updated_at: Timestamp,
    pub updated_by: u128,
}

/// The input for creating an org.
pub struct NewOrg {
    pub name: String,
}

/// An org about to be stored.
pub struct DBNewOrg {
    pub name: String,
}

/// The org that a stored one reads as: every field carried over.
pub open spec fn org_of(o: DBOrg) -> Org {
    Org {
        id: o.id,
        name: o.name,
        created_at: o.created_at,
        created_by: o.created_by,
        updated_at: o.updated_at,
        updated_by: o.updated_by,
    }
}

/// Reading a stored org keeps every one of its fields as it was stored.
pub proof fn lemma_org_of_keeps_fields(stored: DBOrg)
    ensures
        org_of(stored).id == stored.id,
        org_of(stored).name == stored.name,
        org_of(stored).created_at == stored.created_at,
        org_of(stored).created_by == stored.created_by,
        org_of(stored).updated_at == stored.updated_at,
        org_of(stored).updated_by == stored.updated_by,
{
}

impl Org {
    /// Reads a stored org.
    pub fn from(org: DBOrg) -> (o: Org)
        ensures
            o == org_of(org),
            o.id == org.id,
            o.name == org.name,
            o.created_at == org.created_at,
            o.created_by == org.created_by,
            o.updated_at == org.updated_at,
            o.updated_by == org.updated_by,
    {
        Org {
            id: org.id,
            name: org.name,
            created_at: org.created_at,
            created_by: org.created_by,
            updated_at: org.updated_at,
            updated_by: org.updated_by,
        }
    }
}

impl NewOrg {
    /// The org about to be stored for this input.
    pub fn into_db(self) -> (o: DBNewOrg)
        ensures
            o.name == self.name,
    {
        DBNewOrg { name: self.name }
    }
}

/// The orgs of `s` whose identifier is in `ids`, in order.
pub open spec fn orgs_among(s: Seq<(u128, Org)>, ids: Seq<u128>) -> Seq<Org>
    decreases s.len(),
{
    if s.len() == 0 {
        Seq::empty()
    } else {
        let rest = orgs_among(s.drop_last(), ids);
        if ids.contains(s.last().0) {
            rest.push(s.last().1)
        } else {
            rest
        }
    }
}

/// The orgs of a user: of the orgs loaded by identifier, those whose identifier
/// is among the user's orgs, in the order they were loaded.
pub fn user_orgs(orgs_by_id: Vec<(u128, Org)>, user_org_ids: &Vec<u128>) -> (orgs: Vec<Org>)
    ensures
        orgs@ == orgs_among(orgs_by_id@, user_org_ids@),
{
    let mut orgs: Vec<Org> = Vec::new();
    for entry in it: orgs_by_id.into_iter()
        invariant
            it.seq() == orgs_by_id@,
            orgs@ == orgs_among(orgs_by_id@.take(it.index() as int), user_org_ids@),
    {
        proof {
            assert(orgs_by_id@.take(it.index() + 1).drop_last() =~= orgs_by_id@.take(it.index() as int));
        }
        let (id, org) = entry;
        let mut found = false;
        let mut j: usize = 0;
        while j < user_org_ids.len()
            invariant
                j <= user_org_ids@.len(),
                found <==> user_org_ids@.take(j as int).contains(id),
            decreases user_org_ids@.len() - j,
        {
            proof {
                let before = user_org_ids@.take(j as int);
                let after = user_org_ids@.take(j + 1);
                assert(after =~= before.push(user_org_ids@[j as int]));
                if after.contains(id) {
                    let k = choose|k: int| 0 <= k < after.len() && after[k] == id;
                    if k < j {
                        assert(before[k] == id);
                    }
                }
                if before.contains(id) {
                    let k = choose|k: int| 0 <= k < before.len() && before[k] == id;
                    assert(after[k] == id);
                }
                if user_org_ids@[j as int] == id {
                    assert(after[j as int] == id);
                }
            }
            if user_org_ids[j] == id {
                found = true;
            }
            j = j + 1;
        }
        assert(user_org_ids@.take(user_org_ids@.len() as int) =~= user_org_ids@);
        if found {
            orgs.push(org);
        }
    }
    proof {
        assert(orgs_by_id@.take(orgs_by_id@.len() as int) =~= orgs_by_id@);
    }
    orgs
}

} // verus!
