//! Integrations: connections from a portal to outside data services.
use vstd::prelude::*;
use crate::names::ParseError;
use crate::text::str_eq;

verus! {

/// The services a portal can be integrated with.
#[derive(Clone, Copy, Debug, PartialEq, Eq, Structural)]
pub enum IntegrationTypes {
    GoogleSheets,
}

impl IntegrationTypes {
    /// The name under which this variant is stored and shown.
    pub open spec fn name(self) -> Seq<char> {
        match self {
            IntegrationTypes::GoogleSheets => "GoogleSheets"@,
        }
    }

    /// The variant that a stored name stands for, if any.
    pub open spec fn parse(s: Seq<char>) -> Option<IntegrationTypes> {
        if s == "GoogleSheets"@ {
            Some(IntegrationTypes::GoogleSheets)
        } else {
            None
        }
    }

    /// The name of this variant, as a static string.
    pub fn as_str(&self) -> (s: &'static str)
        ensures
            s@ == self.name(),
    {
        match self {
            IntegrationTypes::GoogleSheets => "GoogleSheets",
        }
    }

    /// The name of this variant, as an owned string (its `Display` form).
    pub fn to_string(&self) -> (s: String)
        ensures
            s@ == self.name(),
    {
        self.as_str().to_string()
    }

    /// Reads a variant from its exact name; any other text is refused.
    pub fn from_str(s: &str) -> (r: Result<IntegrationTypes, ParseError>)
        ensures
            r matches Ok(t) ==> IntegrationTypes::parse(s@) == Some(t),
            r is Err <==> IntegrationTypes::parse(s@) is None,
    {
        if str_eq(s, "GoogleSheets") {
            Ok(IntegrationTypes::GoogleSheets)
        } else {
            Err(ParseError::VariantNotFound)
        }
    }
}

/// Every variant of `IntegrationTypes` is read back from its own name.
pub proof fn lemma_integration_types_names(t: IntegrationTypes)
    ensures
        IntegrationTypes::parse(t.name()) == Some(t),
        forall|s: Seq<char>| #[trigger] IntegrationTypes::parse(s) == Some(t) ==> s == t.name(),
{
    reveal_strlit("GoogleSheets");
    match t {
        IntegrationTypes::GoogleSheets => {
        },
    }
}

/// Each variant of `IntegrationTypes` is stored under its own name, and each of those names
/// reads back as that variant.
pub proof fn lemma_integration_types_stored_names()
    ensures
        IntegrationTypes::GoogleSheets.name() == "GoogleSheets"@,
        IntegrationTypes::parse("GoogleSheets"@) == Some(IntegrationTypes::GoogleSheets),
{
    lemma_integration_types_names(IntegrationTypes::GoogleSheets);
}

/// The settings of a Google Sheets integration, as given by a client.
pub struct GoogleSheetsIntegrationInput {
    pub sheet_url: String,
    pub sheet_name: String,
}

/// The settings of a Google Sheets integration.
pub struct GoogleSheetsIntegration {
    pub sheet_url: String,
    pub sheet_name: String,
    pub row_dimensions: Vec<String>,
    pub col_dimensions: Vec<String>,
}

/// The settings of an integration, by service.
pub enum IntegrationData {
    GoogleSheets(GoogleSheetsIntegration),
}

/// An integration of a portal.
pub struct Integration {
    pub id: u128,
    pub name: String,
    pub portal_id: u128,
    pub integration_type: IntegrationTypes,
    pub integration_data: IntegrationData,
}

/// An integration as the database hands it over: its service as text and its
/// settings decoded.
pub struct DBIntegration {
    pub id: u128,
    pub name: String,
    pub portal_id: u128,
    pub integration_type: String,
    pub integration_data: GoogleSheetsIntegration,
}

/// The input for creating an integration.
pub struct NewIntegration {
    pub portal_id: u128,
    pub name: String,
    pub integration_type: IntegrationTypes,
    pub integration_data: GoogleSheetsIntegrationInput,
}

/// An integration about to be stored: its service as text, and its settings
/// (which the database keeps as JSON).
pub struct DBNewIntegration {
    pub portal_id: u128,
    pub name: String,
    pub integration_type: String,
    pub integration_data: GoogleSheetsIntegration,
}

impl Integration {
    /// Reads a stored integration: its service is parsed from the stored text and
    /// its settings taken as those of a Google Sheets integration.
    pub fn from(db_integration: DBIntegration) -> (i: Integration)
        requires
            IntegrationTypes::parse(db_integration.integration_type@) is Some,
        ensures
            Some(i.integration_type) == IntegrationTypes::parse(db_integration.integration_type@),
            i.integration_data == IntegrationData::GoogleSheets(db_integration.integration_data),
            i.id == db_integration.id,
            i.name == db_integration.name,
            i.portal_id == db_integration.portal_id,
    {
        let integration_type = match IntegrationTypes::from_str(db_integration.integration_type.as_str()) {
            Ok(t) => t,
            Err(_) => {
                proof {
                    assert(false);
                }
                IntegrationTypes::GoogleSheets
            },
        };
        Integration {
            portal_id: db_integration.portal_id,
            id: db_integration.id,
            name: db_integration.name,
            integration_type,
            integration_data: IntegrationData::GoogleSheets(db_integration.integration_data),
        }
    }

    /// The value of a cell of the integrated data, picked by its dimensions. No
    /// data is fetched: the answer is the fixed text `stubbed out`.
    pub fn fetch_value(&self, _dims: Vec<String>) -> (v: String)
        ensures
            v@ == "stubbed out"@,
    {
        "stubbed out".to_string()
    }
}

impl NewIntegration {
    /// The integration to store for this input: its service as text, and the
    /// sheet it names with no row or column dimensions yet.
    pub fn into_db(self) -> (i: DBNewIntegration)
        ensures
            i.portal_id == self.portal_id,
            i.name == self.name,
            i.integration_type@ == self.integration_type.name(),
            i.integration_data.sheet_url == self.integration_data.sheet_url,
            i.integration_data.sheet_name == self.integration_data.sheet_name,
            i.integration_data.row_dimensions@.len() == 0,
            i.integration_data.col_dimensions@.len() == 0,
    {
        let integration_type = self.integration_type.to_string();
        let google_sheets_data = GoogleSheetsIntegration {
            sheet_url: self.integration_data.sheet_url,
            sheet_name: self.integration_data.sheet_name,
            row_dimensions: Vec::new(),
            col_dimensions: Vec::new(),
        };
        DBNewIntegration {
            portal_id: self.portal_id,
            name: self.name,
            integration_type,
            integration_data: google_sheets_data,
        }
    }
}

} // verus!
