//! The content that the connections of a block deliver.
use vstd::prelude::*;
use crate::names::ParseError;
use crate::schema::blocks::empty_block::EmptyBlock;
use crate::schema::blocks::table_block::TableBlock;
use crate::schema::blocks::xy_chart_block::XYChartBlock;
use crate::text::str_eq;

verus! {

/// The kinds of content a connection can deliver.
#[derive(Clone, Copy, Debug, PartialEq, Eq, Structural)]
pub enum ContentTypes {
    TableBlock,
    TextBlock,
    CellsBlock,
    XYChartBlock,
}

impl ContentTypes {
    /// The name under which this variant is stored and shown.
    pub open spec fn name(self) -> Seq<char> {
        match self {
            ContentTypes::TableBlock => "TableBlock"@,
            ContentTypes::TextBlock => "TextBlock"@,
            ContentTypes::CellsBlock => "CellsBlock"@,
            ContentTypes::XYChartBlock => "XYChartBlock"@,
        }
    }

    /// The variant that a stored name stands for, if any.
    pub open spec fn parse(s: Seq<char>) -> Option<ContentTypes> {
        if s == "TableBlock"@ {
            Some(ContentTypes::TableBlock)
        } else if s == "TextBlock"@ {
            Some(ContentTypes::TextBlock)
        } else if s == "CellsBlock"@ {
            Some(ContentTypes::CellsBlock)
        } else if s == "XYChartBlock"@ {
            Some(ContentTypes::XYChartBlock)
        } else {
            None
        }
    }

    /// The name of this variant, as a static string.
    pub fn as_str(&self) -> (s: &'static str)
        ensures
            s@ == self.name(),
    {
        match self {
            ContentTypes::TableBlock => "TableBlock",
            ContentTypes::TextBlock => "TextBlock",
            ContentTypes::CellsBlock => "CellsBlock",
            ContentTypes::XYChartBlock => "XYChartBlock",
        }
    }

    /// The name of this variant, as an owned string (its `Display` form).
    pub fn to_string(&self) -> (s: String)
        ensures
            s@ == self.name(),
    {
        self.as_str().to_string()
    }

    /// Reads a variant from its exact name; any other text is refused.
    pub fn from_str(s: &str) -> (r: Result<ContentTypes, ParseError>)
        ensures
            r matches Ok(t) ==> ContentTypes::parse(s@) == Some(t),
            r is Err <==> ContentTypes::parse(s@) is None,
    {
        if str_eq(s, "TableBlock") {
            Ok(ContentTypes::TableBlock)
        } else if str_eq(s, "TextBlock") {
            Ok(ContentTypes::TextBlock)
        } else if str_eq(s, "CellsBlock") {
            Ok(ContentTypes::CellsBlock)
        } else if str_eq(s, "XYChartBlock") {
            Ok(ContentTypes::XYChartBlock)
        } else {
            Err(ParseError::VariantNotFound)
        }
    }
}

/// Every variant of `ContentTypes` is read back from its own name.
pub proof fn lemma_content_types_names(t: ContentTypes)
    ensures
        ContentTypes::parse(t.name()) == Some(t),
        forall|s: Seq<char>| #[trigger] ContentTypes::parse(s) == Some(t) ==> s == t.name(),
{
    reveal_strlit("TableBlock");
    reveal_strlit("TextBlock");
    reveal_strlit("CellsBlock");
    reveal_strlit("XYChartBlock");
    match t {
        ContentTypes::TableBlock => {
        },
        ContentTypes::TextBlock => {
            assert("TextBlock"@.len() != "TableBlock"@.len());
        },
        ContentTypes::CellsBlock => {
            assert("CellsBlock"@[0] != "TableBlock"@[0]);
            assert("CellsBlock"@.len() != "TextBlock"@.len());
        },
        ContentTypes::XYChartBlock => {
            assert("XYChartBlock"@.len() != "TableBlock"@.len());
            assert("XYChartBlock"@.len() != "TextBlock"@.len());
            assert("XYChartBlock"@.len() != "CellsBlock"@.len());
        },
    }
}

/// Each variant of `ContentTypes` is stored under its own name, and each of those names
/// reads back as that variant.
pub proof fn lemma_content_types_stored_names()
    ensures
        ContentTypes::TableBlock.name() == "TableBlock"@,
        ContentTypes::TextBlock.name() == "TextBlock"@,
        ContentTypes::CellsBlock.name() == "CellsBlock"@,
        ContentTypes::XYChartBlock.name() == "XYChartBlock"@,
        ContentTypes::parse("TableBlock"@) == Some(ContentTypes::TableBlock),
        ContentTypes::parse("TextBlock"@) == Some(ContentTypes::TextBlock),
        ContentTypes::parse("CellsBlock"@) == Some(ContentTypes::CellsBlock),
        ContentTypes::parse("XYChartBlock"@) == Some(ContentTypes::XYChartBlock),
{
    lemma_content_types_names(ContentTypes::TableBlock);
    lemma_content_types_names(ContentTypes::TextBlock);
    lemma_content_types_names(ContentTypes::CellsBlock);
    lemma_content_types_names(ContentTypes::XYChartBlock);
}

/// The content a connection delivers, by kind.
pub enum ConnectionContentData {
    Empty(EmptyBlock),
    TableBlock(TableBlock),
    XYChartBlock(XYChartBlock),
}

/// What one connection of a block delivers.
pub struct ConnectionContent {
    pub source_id: u128,
    pub connection_id: u128,
    pub content_type: ContentTypes,
    pub content_data: ConnectionContentData,
}

} // verus!
