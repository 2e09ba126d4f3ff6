//! What reading a stored name can fail with.
use vstd::prelude::*;

verus! {

/// A stored name that matches none of an enumeration's variants.
#[derive(Clone, Copy, Debug, PartialEq, Eq, Structural)]
pub enum ParseError {
    VariantNotFound,
}

} // verus!
