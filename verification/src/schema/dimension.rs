//! Dimensions: the axes along which the cells of a portal are placed.
use vstd::prelude::*;
use crate::time::Timestamp;
use crate::names::ParseError;
use crate::schema::dimensions::{
    BasicTableColumnDimension, BasicTableRowDimension, EmptyDimension, GoogleSheetsColumnDimension,
    GoogleSheetsRowDimension, OwnerTextDimension, PortalMemberDimension,
};
use crate::text::str_eq;

verus! {

/// The kinds of dimension along which cells are placed.
#[derive(Clone, Copy, Debug, PartialEq, Eq, Structural)]
pub enum DimensionTypes {
    PortalMember,
    BasicTableRow,
    BasicTableColumn,
    OwnerText,
    GoogleSheetsRow,
    GoogleSheetsColumn,
    Empty,
}

impl DimensionTypes {
    /// The name under which this variant is stored and shown.
    pub open spec fn name(self) -> Seq<char> {
        match self {
            DimensionTypes::PortalMember => "PortalMember"@,
            DimensionTypes::BasicTableRow => "BasicTableRow"@,
            DimensionTypes::BasicTableColumn => "BasicTableColumn"@,
            DimensionTypes::OwnerText => "OwnerText"@,
            DimensionTypes::GoogleSheetsRow => "GoogleSheetsRow"@,
            DimensionTypes::GoogleSheetsColumn => "GoogleSheetsColumn"@,
            DimensionTypes::Empty => "Empty"@,
        }
    }

    /// The variant that a stored name stands for, if any.
    pub open spec fn parse(s: Seq<char>) -> Option<DimensionTypes> {
        if s == "PortalMember"@ {
            Some(DimensionTypes::PortalMember)
        } else if s == "BasicTableRow"@ {
            Some(DimensionTypes::BasicTableRow)
        } else if s == "BasicTableColumn"@ {
            Some(DimensionTypes::BasicTableColumn)
        } else if s == "OwnerText"@ {
            Some(DimensionTypes::OwnerText)
        } else if s == "GoogleSheetsRow"@ {
            Some(DimensionTypes::GoogleSheetsRow)
        } else if s == "GoogleSheetsColumn"@ {
            Some(DimensionTypes::GoogleSheetsColumn)
        } else if s == "Empty"@ {
            Some(DimensionTypes::Empty)
        } else {
            None
        }
    }

    /// The name of this variant, as a static string.
    pub fn as_str(&self) -> (s: &'static str)
        ensures
            s@ == self.name(),
    {
        match self {
            DimensionTypes::PortalMember => "PortalMember",
            DimensionTypes::BasicTableRow => "BasicTableRow",
            DimensionTypes::BasicTableColumn => "BasicTableColumn",
            DimensionTypes::OwnerText => "OwnerText",
            DimensionTypes::GoogleSheetsRow => "GoogleSheetsRow",
            DimensionTypes::GoogleSheetsColumn => "GoogleSheetsColumn",
            DimensionTypes::Empty => "Empty",
        }
    }

    /// The name of this variant, as an owned string (its `Display` form).
    pub fn to_string(&self) -> (s: String)
        ensures
            s@ == self.name(),
    {
        self.as_str().to_string()
    }

    /// Reads a variant from its exact name; any other text is refused.
    pub fn from_str(s: &str) -> (r: Result<DimensionTypes, ParseError>)
        ensures
            r matches Ok(t) ==> DimensionTypes::parse(s@) == Some(t),
            r is Err <==> DimensionTypes::parse(s@) is None,
    {
        if str_eq(s, "PortalMember") {
            Ok(DimensionTypes::PortalMember)
        } else if str_eq(s, "BasicTableRow") {
            Ok(DimensionTypes::BasicTableRow)
        } else if str_eq(s, "BasicTableColumn") {
            Ok(DimensionTypes::BasicTableColumn)
        } else if str_eq(s, "OwnerText") {
            Ok(DimensionTypes::OwnerText)
        } else if str_eq(s, "GoogleSheetsRow") {
            Ok(DimensionTypes::GoogleSheetsRow)
        } else if str_eq(s, "GoogleSheetsColumn") {
            Ok(DimensionTypes::GoogleSheetsColumn)
        } else if str_eq(s, "Empty") {
            Ok(DimensionTypes::Empty)
        } else {
            Err(ParseError::VariantNotFound)
        }
    }
}

/// Every variant of `DimensionTypes` is read back from its own name.
pub proof fn lemma_dimension_types_names(t: DimensionTypes)
    ensures
        DimensionTypes::parse(t.name()) == Some(t),
        forall|s: Seq<char>| #[trigger] DimensionTypes::parse(s) == Some(t) ==> s == t.name(),
{
    reveal_strlit("PortalMember");
    reveal_strlit("BasicTableRow");
    reveal_strlit("BasicTableColumn");
    reveal_strlit("OwnerText");
    reveal_strlit("GoogleSheetsRow");
    reveal_strlit("GoogleSheetsColumn");
    reveal_strlit("Empty");
    match t {
        DimensionTypes::PortalMember => {
        },
        DimensionTypes::BasicTableRow => {
            assert("BasicTableRow"@.len() != "PortalMember"@.len());
        },
        DimensionTypes::BasicTableColumn => {
            assert("BasicTableColumn"@.len() != "PortalMember"@.len());
            assert("BasicTableColumn"@.len() != "BasicTableRow"@.len());
        },
        DimensionTypes::OwnerText => {
            assert("OwnerText"@.len() != "PortalMember"@.len());
            assert("OwnerText"@.len() != "BasicTableRow"@.len());
            assert("OwnerText"@.len() != "BasicTableColumn"@.len());
        },
        DimensionTypes::GoogleSheetsRow => {
            assert("GoogleSheetsRow"@.len() != "PortalMember"@.len());
            assert("GoogleSheetsRow"@.len() != "BasicTableRow"@.len());
            assert("GoogleSheetsRow"@.len() != "BasicTableColumn"@.len());
            assert("GoogleSheetsRow"@.len() != "OwnerText"@.len());
        },
        DimensionTypes::GoogleSheetsColumn => {
            assert("GoogleSheetsColumn"@.len() != "PortalMember"@.len());
            assert("GoogleSheetsColumn"@.len() != "BasicTableRow"@.len());
            assert("GoogleSheetsColumn"@.len() != "BasicTableColumn"@.len());
            assert("GoogleSheetsColumn"@.len() != "OwnerText"@.len());
            assert("GoogleSheetsColumn"@.len() != "GoogleSheetsRow"@.len());
        },
        DimensionTypes::Empty => {
            assert("Empty"@.len() != "PortalMember"@.len());
            assert("Empty"@.len() != "BasicTableRow"@.len());
            assert("Empty"@.len() != "BasicTableColumn"@.len());
            assert("Empty"@.len() != "OwnerText"@.len());
            assert("Empty"@.len() != "GoogleSheetsRow"@.len());
            assert("Empty"@.len() != "GoogleSheetsColumn"@.len());
        },
    }
}

/// Each variant of `DimensionTypes` is stored under its own name, and each of those names
/// reads back as that variant.
pub proof fn lemma_dimension_types_stored_names()
    ensures
        DimensionTypes::PortalMember.name() == "PortalMember"@,
        DimensionTypes::BasicTableRow.name() == "BasicTableRow"@,
        DimensionTypes::BasicTableColumn.name() == "BasicTableColumn"@,
        DimensionTypes::OwnerText.name() == "OwnerText"@,
        DimensionTypes::GoogleSheetsRow.name() == "GoogleSheetsRow"@,
        DimensionTypes::GoogleSheetsColumn.name() == "GoogleSheetsColumn"@,
        DimensionTypes::Empty.name() == "Empty"@,
        DimensionTypes::parse("PortalMember"@) == Some(DimensionTypes::PortalMember),
        DimensionTypes::parse("BasicTableRow"@) == Some(DimensionTypes::BasicTableRow),
        DimensionTypes::parse("BasicTableColumn"@) == Some(DimensionTypes::BasicTableColumn),
        DimensionTypes::parse("OwnerText"@) == Some(DimensionTypes::OwnerText),
        DimensionTypes::parse("GoogleSheetsRow"@) == Some(DimensionTypes::GoogleSheetsRow),
        DimensionTypes::parse("GoogleSheetsColumn"@) == Some(DimensionTypes::GoogleSheetsColumn),
        DimensionTypes::parse("Empty"@) == Some(DimensionTypes::Empty),
{
    lemma_dimension_types_names(DimensionTypes::PortalMember);
    lemma_dimension_types_names(DimensionTypes::BasicTableRow);
    lemma_dimension_types_names(DimensionTypes::BasicTableColumn);
    lemma_dimension_types_names(DimensionTypes::OwnerText);
    lemma_dimension_types_names(DimensionTypes::GoogleSheetsRow);
    lemma_dimension_types_names(DimensionTypes::GoogleSheetsColumn);
    lemma_dimension_types_names(DimensionTypes::Empty);
}

/// The data of a dimension, by kind.
#[derive(Clone, Copy, Debug, PartialEq, Eq, Structural)]
pub enum GQLDimensions {
    BasicTableRow(BasicTableRowDimension),
    BasicTableColumn(BasicTableColumnDimension),
    PortalMember(PortalMemberDimension),
    OwnerText(OwnerTextDimension),
    GoogleSheetsRow(GoogleSheetsRowDimension),
    GoogleSheetsColumn(GoogleSheetsColumnDimension),
    Empty(EmptyDimension),
}

/// A dimension. Timestamps are instants in UTC.
pub struct Dimension {
    pub id: u128,
    pub portal_id: u128,
    pub name: String,
    pub dimension_type: DimensionTypes,
    pub dimension_data: GQLDimensions,
    pub created_at: Timestamp,
    pub created_by: u128,
    pub updated_at: Timestamp,
    pub updated_by: u128,
}

/// A dimension as the database hands it over: its kind as stored text and its
/// data decoded into the kind that text names.
pub struct DBDimension {
    pub id: u128,
    pub portal_id: u128,
    pub name: String,
    pub dimension_type: String,
    pub dimension_data: GQLDimensions,
    pub created_at: Timestamp,
    pub created_by: u128,
    pub updated_at: Timestamp,
    pub updated_by: u128,
}

/// The input for creating a dimension; its data is JSON text.
pub struct NewDimension {
    pub portal_id: u128,
    pub name: String,
    pub dimension_type: DimensionTypes,
    pub dimension_data: String,
}

/// Whether `data` is data of the kind `t`.
pub open spec fn is_dimension_data_of_type(data: GQLDimensions, t: DimensionTypes) -> bool {
    match t {
        DimensionTypes::PortalMember => data is PortalMember,
        DimensionTypes::BasicTableRow => data is BasicTableRow,
        DimensionTypes::BasicTableColumn => data is BasicTableColumn,
        DimensionTypes::OwnerText => data is OwnerText,
        DimensionTypes::GoogleSheetsRow => data is GoogleSheetsRow,
        DimensionTypes::GoogleSheetsColumn => data is GoogleSheetsColumn,
        DimensionTypes::Empty => data is Empty,
    }
}

/// Whether a stored dimension can be read: its kind names a dimension type and
/// its data was decoded as that kind.
pub open spec fn is_readable_dimension(db_dimension: DBDimension) -> bool {
    DimensionTypes::parse(db_dimension.dimension_type@) matches Some(t) && is_dimension_data_of_type(
        db_dimension.dimension_data,
        t,
    )
}

impl Dimension {
    /// Reads a stored dimension: its kind is parsed from the stored text and every
    /// other field carried over.
    pub fn from(db_dimension: DBDimension) -> (d: Dimension)
        requires
            is_readable_dimension(db_dimension),
        ensures
            Some(d.dimension_type) == DimensionTypes::parse(db_dimension.dimension_type@),
            d.dimension_data == db_dimension.dimension_data,
            d.id == db_dimension.id,
            d.portal_id == db_dimension.portal_id,
            d.name == db_dimension.name,
            d.created_at == db_dimension.created_at,
            d.created_by == db_dimension.created_by,
            d.updated_at == db_dimension.updated_at,
            d.updated_by == db_dimension.updated_by,
    {
        let dimension_type = match DimensionTypes::from_str(db_dimension.dimension_type.as_str()) {
            Ok(t) => t,
            Err(_) => {
                proof {
                    assert(false);
                }
                DimensionTypes::Empty
            },
        };
        Dimension {
            id: db_dimension.id,
            portal_id: db_dimension.portal_id,
            name: db_dimension.name,
            dimension_type,
            dimension_data: db_dimension.dimension_data,
            created_at: db_dimension.created_at,
            created_by: db_dimension.created_by,
            updated_at: db_dimension.updated_at,
            updated_by: db_dimension.updated_by,
        }
    }
}

} // verus!
