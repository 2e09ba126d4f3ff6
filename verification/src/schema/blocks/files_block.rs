use vstd::prelude::*;

verus! {

/// The content of a files block: the files it lists.
pub struct FilesBlock {
    pub id: u128,
    pub files: Vec<u128>,
}

} // verus!
