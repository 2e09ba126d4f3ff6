//! The contents a cell can hold.
use vstd::prelude::*;

verus! {

/// A cell holding plain text.
pub struct BasicTextCell {
    pub text: String,
}

/// A cell of a kind the server does not know.
pub struct EmptyCell {
    pub cell_type: String,
}

/// A cell whose value comes from a Google Sheets integration.
pub struct GoogleSheetsCell {
    pub integration_id: u128,
    pub value: String,
}

/// A cell holding text written by a portal's owner.
pub struct OwnerTextCell {
    pub text: String,
}

} // verus!
