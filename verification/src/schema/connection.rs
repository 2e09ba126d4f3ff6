//! Connections: links from a block to the sources of its content.
use vstd::prelude::*;
use crate::time::Timestamp;
use crate::names::ParseError;
use crate::text::str_eq;

verus! {

/// What a connection can lead to.
#[derive(Clone, Copy, Debug, PartialEq, Eq, Structural)]
pub enum ConnectionDestinationTypes {
    Block,
}

impl ConnectionDestinationTypes {
    /// The name under which this variant is stored and shown.
    pub open spec fn name(self) -> Seq<char> {
        match self {
            ConnectionDestinationTypes::Block => "Block"@,
        }
    }

    /// The variant that a stored name stands for, if any.
    pub open spec fn parse(s: Seq<char>) -> Option<ConnectionDestinationTypes> {
        if s == "Block"@ {
            Some(ConnectionDestinationTypes::Block)
        } else {
            None
        }
    }

    /// The name of this variant, as a static string.
    pub fn as_str(&self) -> (s: &'static str)
        ensures
            s@ == self.name(),
    {
        match self {
            ConnectionDestinationTypes::Block => "Block",
        }
    }

    /// The name of this variant, as an owned string (its `Display` form).
    pub fn to_string(&self) -> (s: String)
        ensures
            s@ == self.name(),
    {
        self.as_str().to_string()
    }

    /// Reads a variant from its exact name; any other text is refused.
    pub fn from_str(s: &str) -> (r: Result<ConnectionDestinationTypes, ParseError>)
        ensures
            r matches Ok(t) ==> ConnectionDestinationTypes::parse(s@) == Some(t),
            r is Err <==> ConnectionDestinationTypes::parse(s@) is None,
    {
        if str_eq(s, "Block") {
            Ok(ConnectionDestinationTypes::Block)
        } else {
            Err(ParseError::VariantNotFound)
        }
    }
}

/// Every variant of `ConnectionDestinationTypes` is read back from its own name.
pub proof fn lemma_connection_destination_types_names(t: ConnectionDestinationTypes)
    ensures
        ConnectionDestinationTypes::parse(t.name()) == Some(t),
        forall|s: Seq<char>| #[trigger] ConnectionDestinationTypes::parse(s) == Some(t) ==> s == t.name(),
{
    reveal_strlit("Block");
    match t {
        ConnectionDestinationTypes::Block => {
        },
    }
}

/// Each variant of `ConnectionDestinationTypes` is stored under its own name, and each of those names
/// reads back as that variant.
pub proof fn lemma_connection_destination_types_stored_names()
    ensures
        ConnectionDestinationTypes::Block.name() == "Block"@,
        ConnectionDestinationTypes::parse("Block"@) == Some(ConnectionDestinationTypes::Block),
{
    lemma_connection_destination_types_names(ConnectionDestinationTypes::Block);
}

/// A connection. Timestamps are instants in UTC.
pub struct Connection {
    pub id: u128,
    pub name: String,
    pub block_id: u128,
    pub source_id: Option<u128>,
    pub sourcequery_id: Option<u128>,
    pub destination_id: Option<u128>,
    pub destination_type: Option<ConnectionDestinationTypes>,
    pub created_at: Timestamp,
    pub created_by: u128,
    pub updated_at: Timestamp,
    pub updated_by: u128,
}

/// A connection as the database hands it over, its destination kind as text.
pub struct DBConnection {
    pub id: u128,
    pub name: String,
    pub block_id: u128,
    pub source_id: Option<u128>,
    pub sourcequery_id: Option<u128>,
    pub destination_id: Option<u128>,
    pub destination_type: Option<String>,
    pub created_at: Timestamp,
    pub created_by: u128,
    pub updated_at: Timestamp,
    pub updated_by: u128,
}

/// The input for creating a connection.
pub struct NewConnection {
    pub name: String,
    pub block_id: u128,
    pub source_id: Option<u128>,
    pub sourcequery_id: Option<u128>,
    pub destination_id: Option<u128>,
    pub destination_type: Option<String>,
}

/// The input for changing a connection.
pub struct UpdateConnection {
    pub id: u128,
    pub name: Option<String>,
    pub source_id: Option<u128>,
    pub sourcequery_id: Option<u128>,
    pub destination_id: Option<u128>,
    pub destination_type: Option<String>,
}

/// Whether a stored connection can be read: its destination kind, when present,
/// names a destination type.
pub open spec fn is_readable_connection(db_connection: DBConnection) -> bool {
    db_connection.destination_type matches Some(t) ==> ConnectionDestinationTypes::parse(t@) is Some
}

impl Connection {
    /// Reads a stored connection: its destination kind, when present, is parsed
    /// from the stored text, and every other field carried over.
    pub fn from(db_connection: DBConnection) -> (c: Connection)
        requires
            is_readable_connection(db_connection),
        ensures
            c.destination_type == (match db_connection.destination_type {
                Some(t) => ConnectionDestinationTypes::parse(t@),
                None => None,
            }),
            c.id == db_connection.id,
            c.name == db_connection.name,
            c.block_id == db_connection.block_id,
            c.source_id == db_connection.source_id,
            c.sourcequery_id == db_connection.sourcequery_id,
            c.destination_id == db_connection.destination_id,
            c.created_at == db_connection.created_at,
            c.created_by == db_connection.created_by,
            c.updated_at == db_connection.updated_at,
            c.updated_by == db_connection.updated_by,
    {
        let destination_type = match &db_connection.destination_type {
            Some(t) => match ConnectionDestinationTypes::from_str(t.as_str()) {
                Ok(d) => Some(d),
                Err(_) => {
                    proof {
                        assert(false);
                    }
                    None
                },
            },
            None => None,
        };
        Connection {
            id: db_connection.id,
            name: db_connection.name,
            block_id: db_connection.block_id,
            source_id: db_connection.source_id,
            sourcequery_id: db_connection.sourcequery_id,
            destination_id: db_connection.destination_id,
            destination_type,
            created_at: db_connection.created_at,
            created_by: db_connection.created_by,
            updated_at: db_connection.updated_at,
            updated_by: db_connection.updated_by,
        }
    }
}

} // verus!
