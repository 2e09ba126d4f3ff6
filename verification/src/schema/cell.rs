//! Cells: values placed along dimensions of a portal.
use vstd::prelude::*;
use crate::time::Timestamp;
use crate::names::ParseError;
use crate::schema::cells::{BasicTextCell, EmptyCell, GoogleSheetsCell, OwnerTextCell};
use crate::text::str_eq;

verus! {

/// The kinds of cell.
#[derive(Clone, Copy, Debug, PartialEq, Eq, Structural)]
pub enum CellTypes {
    BasicText,
    OwnerText,
    GoogleSheets,
}

impl CellTypes {
    /// The name under which this variant is stored and shown.
    pub open spec fn name(self) -> Seq<char> {
        match self {
            CellTypes::BasicText => "BasicText"@,
            CellTypes::OwnerText => "OwnerText"@,
            CellTypes::GoogleSheets => "GoogleSheets"@,
        }
    }

    /// The variant that a stored name stands for, if any.
    pub open spec fn parse(s: Seq<char>) -> Option<CellTypes> {
        if s == "BasicText"@ {
            Some(CellTypes::BasicText)
        } else if s == "OwnerText"@ {
            Some(CellTypes::OwnerText)
        } else if s == "GoogleSheets"@ {
            Some(CellTypes::GoogleSheets)
        } else {
            None
        }
    }

    /// The name of this variant, as a static string.
    pub fn as_str(&self) -> (s: &'static str)
        ensures
            s@ == self.name(),
    {
        match self {
            CellTypes::BasicText => "BasicText",
            CellTypes::OwnerText => "OwnerText",
            CellTypes::GoogleSheets => "GoogleSheets",
        }
    }

    /// The name of this variant, as an owned string (its `Display` form).
    pub fn to_string(&self) -> (s: String)
        ensures
            s@ == self.name(),
    {
        self.as_str().to_string()
    }

    /// Reads a variant from its exact name; any other text is refused.
    pub fn from_str(s: &str) -> (r: Result<CellTypes, ParseError>)
        ensures
            r matches Ok(t) ==> CellTypes::parse(s@) == Some(t),
            r is Err <==> CellTypes::parse(s@) is None,
    {
        if str_eq(s, "BasicText") {
            Ok(CellTypes::BasicText)
        } else if str_eq(s, "OwnerText") {
            Ok(CellTypes::OwnerText)
        } else if str_eq(s, "GoogleSheets") {
            Ok(CellTypes::GoogleSheets)
        } else {
            Err(ParseError::VariantNotFound)
        }
    }
}

/// Every variant of `CellTypes` is read back from its own name.
pub proof fn lemma_cell_types_names(t: CellTypes)
    ensures
        CellTypes::parse(t.name()) == Some(t),
        forall|s: Seq<char>| #[trigger] CellTypes::parse(s) == Some(t) ==> s == t.name(),
{
    reveal_strlit("BasicText");
    reveal_strlit("OwnerText");
    reveal_strlit("GoogleSheets");
    match t {
        CellTypes::BasicText => {
        },
        CellTypes::OwnerText => {
            assert("OwnerText"@[0] != "BasicText"@[0]);
        },
        CellTypes::GoogleSheets => {
            assert("GoogleSheets"@.len() != "BasicText"@.len());
            assert("GoogleSheets"@.len() != "OwnerText"@.len());
        },
    }
}

/// Each variant of `CellTypes` is stored under its own name, and each of those names
/// reads back as that variant.
pub proof fn lemma_cell_types_stored_names()
    ensures
        CellTypes::BasicText.name() == "BasicText"@,
        CellTypes::OwnerText.name() == "OwnerText"@,
        CellTypes::GoogleSheets.name() == "GoogleSheets"@,
        CellTypes::parse("BasicText"@) == Some(CellTypes::BasicText),
        CellTypes::parse("OwnerText"@) == Some(CellTypes::OwnerText),
        CellTypes::parse("GoogleSheets"@) == Some(CellTypes::GoogleSheets),
{
    lemma_cell_types_names(CellTypes::BasicText);
    lemma_cell_types_names(CellTypes::OwnerText);
    lemma_cell_types_names(CellTypes::GoogleSheets);
}

/// The content of a cell, by kind.
pub enum GQLCells {
    BasicTextCell(BasicTextCell),
    OwnerTextCell(OwnerTextCell),
    GoogleSheetsCell(GoogleSheetsCell),
    Empty(EmptyCell),
}

/// A cell. Timestamps are instants in UTC.
pub struct Cell {
    pub id: u128,
    pub portal_id: u128,
    pub cell_type: CellTypes,
    pub dimensions: Vec<u128>,
    pub cell_data: GQLCells,
    pub created_at: Timestamp,
    pub created_by: u128,
    pub updated_at: Timestamp,
    pub updated_by: u128,
}

/// A cell as the database hands it over: its kind as stored text and its content
/// decoded into the kind that text names.
pub struct DBCell {
    pub id: u128,
    pub portal_id: u128,
    pub cell_type: String,
    pub dimensions: Vec<u128>,
    pub cell_data: GQLCells,
    pub created_at: Timestamp,
    pub created_by: u128,
    pub updated_at: Timestamp,
    pub updated_by: u128,
}

/// The input for creating a cell; its content is JSON text.
pub struct NewCell {
    pub portal_id: u128,
    pub dimensions: Vec<u128>,
    pub cell_type: CellTypes,
    pub cell_data: String,
}

/// The input for changing a cell; its content, when given, is JSON text.
pub struct UpdateCell {
    pub id: u128,
    pub dimensions: Option<Vec<u128>>,
    pub cell_type: CellTypes,
    pub cell_data: Option<String>,
}

/// Whether `data` is content of the kind `t`.
pub open spec fn is_cell_data_of_type(data: GQLCells, t: CellTypes) -> bool {
    match t {
        CellTypes::BasicText => data is BasicTextCell,
        CellTypes::OwnerText => data is OwnerTextCell,
        CellTypes::GoogleSheets => data is GoogleSheetsCell,
    }
}

/// Whether a stored cell can be read: its kind names a cell type and its content
/// was decoded as that kind.
pub open spec fn is_readable_cell(db_cell: DBCell) -> bool {
    CellTypes::parse(db_cell.cell_type@) matches Some(t) && is_cell_data_of_type(db_cell.cell_data, t)
}

impl Cell {
    /// Reads a stored cell: its kind is parsed from the stored text and every
    /// other field carried over.
    pub fn from(db_cell: DBCell) -> (c: Cell)
        requires
            is_readable_cell(db_cell),
        ensures
            Some(c.cell_type) == CellTypes::parse(db_cell.cell_type@),
            c.cell_data == db_cell.cell_data,
            c.id == db_cell.id,
            c.portal_id == db_cell.portal_id,
            c.dimensions == db_cell.dimensions,
            c.created_at == db_cell.created_at,
            c.created_by == db_cell.created_by,
            c.updated_at == db_cell.updated_at,
            c.updated_by == db_cell.updated_by,
    {
        let cell_type = match CellTypes::from_str(db_cell.cell_type.as_str()) {
            Ok(t) => t,
            Err(_) => {
                proof {
                    assert(false);
                }
                CellTypes::BasicText
            },
        };
        Cell {
            id: db_cell.id,
            portal_id: db_cell.portal_id,
            cell_type,
            dimensions: db_cell.dimensions,
            cell_data: db_cell.cell_data,
            created_at: db_cell.created_at,
            created_by: db_cell.created_by,
            updated_at: db_cell.updated_at,
            updated_by: db_cell.updated_by,
        }
    }
}

} // verus!
