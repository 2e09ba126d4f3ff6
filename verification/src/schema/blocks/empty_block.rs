use vstd::prelude::*;

verus! {

/// The content of a block with nothing in it.
pub struct EmptyBlock {
    pub block_type: String,
}

} // verus!
