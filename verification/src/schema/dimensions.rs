//! The data each kind of dimension carries.
use vstd::prelude::*;

verus! {

/// The data of a BasicTableColumn dimension.
#[derive(Clone, Copy, Debug, PartialEq, Eq, Structural)]
pub struct BasicTableColumnDimension {
    pub empty: bool,
}

/// The data of a BasicTableRow dimension.
#[derive(Clone, Copy, Debug, PartialEq, Eq, Structural)]
pub struct BasicTableRowDimension {
    pub empty: bool,
}

/// The data of a Empty dimension.
#[derive(Clone, Copy, Debug, PartialEq, Eq, Structural)]
pub struct EmptyDimension {
    pub empty: bool,
}

/// The data of a GoogleSheetsColumn dimension.
#[derive(Clone, Copy, Debug, PartialEq, Eq, Structural)]
pub struct GoogleSheetsColumnDimension {
    pub empty: bool,
}

/// The data of a GoogleSheets dimension.
#[derive(Clone, Copy, Debug, PartialEq, Eq, Structural)]
pub struct GoogleSheetsDimension {
    pub empty: bool,
}

/// The data of a GoogleSheetsRow dimension.
#[derive(Clone, Copy, Debug, PartialEq, Eq, Structural)]
pub struct GoogleSheetsRowDimension {
    pub empty: bool,
}

/// The data of a OwnerText dimension.
#[derive(Clone, Copy, Debug, PartialEq, Eq, Structural)]
pub struct OwnerTextDimension {
    pub empty: bool,
}

/// The data of a PortalMember dimension.
#[derive(Clone, Copy, Debug, PartialEq, Eq, Structural)]
pub struct PortalMemberDimension {
    pub user_id: u128,
}

} // verus!
