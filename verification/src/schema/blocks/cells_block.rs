use vstd::prelude::*;

verus! {

/// The content of a cells block.
#[derive(Clone, Copy, Debug, PartialEq, Eq, Structural)]
pub struct CellsBlock {
    pub id: u128,
}

} // verus!
