//! Identifiers. Every identifier of the data model is a 128-bit UUID, held as
//! the `u128` whose big-endian bytes are the UUID's bytes.
use vstd::prelude::*;

verus! {

/// Whether an identifier carries the marks of a random (version 4, RFC 4122
/// variant) UUID: version nibble 4 and variant bits `10`.
pub open spec fn is_random_uuid(id: u128) -> bool {
    &&& (id >> 76u128) & 15u128 == 4u128
    &&& (id >> 62u128) & 3u128 == 2u128
}

/// A fresh random identifier, from `uuid::Uuid::new_v4`. Its 122 random bits are
/// not stated; what holds of every outcome is that the version and variant
/// bits are those of a random UUID.
#[verifier::external_body]
pub(crate) fn new_uuid() -> (id: u128)
    ensures
        is_random_uuid(id),
{
    uuid::Uuid::new_v4().as_u128()
}

/// A copy of a list of identifiers.
pub fn copy_ids(ids: &Vec<u128>) -> (r: Vec<u128>)
    ensures
        r@ == ids@,
{
    let mut r: Vec<u128> = Vec::new();
    let mut i: usize = 0;
    while i < ids.len()
        invariant
            i <= ids@.len(),
            r@ == ids@.take(i as int),
        decreases ids@.len() - i,
    {
        r.push(ids[i]);
        assert(ids@.take(i + 1) =~= ids@.take(i as int).push(ids@[i as int]));
        i = i + 1;
    }
    assert(ids@.take(ids@.len() as int) =~= ids@);
    r
}

} // verus!
