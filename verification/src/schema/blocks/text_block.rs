use vstd::prelude::*;

verus! {

/// The content of a text block.
pub struct TextBlock {
    pub id: u128,
    pub text: String,
}

} // verus!
