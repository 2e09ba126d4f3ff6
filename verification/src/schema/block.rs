//! Blocks: what a page is made of.
use vstd::prelude::*;
use crate::time::Timestamp;
use crate::names::ParseError;
use crate::schema::block_configs::{
    BlockConfigValue, CellsBlockConfig, EmptyBlockConfig, FilesBlockConfig, TableBlockConfig,
    TextBlockConfig, XYChartBlockConfig,
};
use crate::schema::blocks::cells_block::CellsBlock;
use crate::schema::blocks::empty_block::EmptyBlock;
use crate::schema::blocks::files_block::FilesBlock;
use crate::schema::blocks::table_block::TableBlock;
use crate::schema::blocks::text_block::TextBlock;
use crate::schema::blocks::xy_chart_block::XYChartBlock;
use crate::text::str_eq;

verus! {

/// The kinds of block a page can hold.
#[derive(Clone, Copy, Debug, PartialEq, Eq, Structural)]
pub enum BlockTypes {
    Table,
    Text,
    Cells,
    XYChart,
    Files,
}

impl BlockTypes {
    /// The name under which this variant is stored and shown.
    pub open spec fn name(self) -> Seq<char> {
        match self {
            BlockTypes::Table => "Table"@,
            BlockTypes::Text => "Text"@,
            BlockTypes::Cells => "Cells"@,
            BlockTypes::XYChart => "XYChart"@,
            BlockTypes::Files => "Files"@,
        }
    }

    /// The variant that a stored name stands for, if any.
    pub open spec fn parse(s: Seq<char>) -> Option<BlockTypes> {
        if s == "Table"@ {
            Some(BlockTypes::Table)
        } else if s == "Text"@ {
            Some(BlockTypes::Text)
        } else if s == "Cells"@ {
            Some(BlockTypes::Cells)
        } else if s == "XYChart"@ {
            Some(BlockTypes::XYChart)
        } else if s == "Files"@ {
            Some(BlockTypes::Files)
        } else {
            None
        }
    }

    /// The name of this variant, as a static string.
    pub fn as_str(&self) -> (s: &'static str)
        ensures
            s@ == self.name(),
    {
        match self {
            BlockTypes::Table => "Table",
            BlockTypes::Text => "Text",
            BlockTypes::Cells => "Cells",
            BlockTypes::XYChart => "XYChart",
            BlockTypes::Files => "Files",
        }
    }

    /// The name of this variant, as an owned string (its `Display` form).
    pub fn to_string(&self) -> (s: String)
        ensures
            s@ == self.name(),
    {
        self.as_str().to_string()
    }

    /// Reads a variant from its exact name; any other text is refused.
    pub fn from_str(s: &str) -> (r: Result<BlockTypes, ParseError>)
        ensures
            r matches Ok(t) ==> BlockTypes::parse(s@) == Some(t),
            r is Err <==> BlockTypes::parse(s@) is None,
    {
        if str_eq(s, "Table") {
            Ok(BlockTypes::Table)
        } else if str_eq(s, "Text") {
            Ok(BlockTypes::Text)
        } else if str_eq(s, "Cells") {
            Ok(BlockTypes::Cells)
        } else if str_eq(s, "XYChart") {
            Ok(BlockTypes::XYChart)
        } else if str_eq(s, "Files") {
            Ok(BlockTypes::Files)
        } else {
            Err(ParseError::VariantNotFound)
        }
    }
}

/// Every variant of `BlockTypes` is read back from its own name.
pub proof fn lemma_block_types_names(t: BlockTypes)
    ensures
        BlockTypes::parse(t.name()) == Some(t),
        forall|s: Seq<char>| #[trigger] BlockTypes::parse(s) == Some(t) ==> s == t.name(),
{
    reveal_strlit("Table");
    reveal_strlit("Text");
    reveal_strlit("Cells");
    reveal_strlit("XYChart");
    reveal_strlit("Files");
    match t {
        BlockTypes::Table => {
        },
        BlockTypes::Text => {
            assert("Text"@.len() != "Table"@.len());
        },
        BlockTypes::Cells => {
            assert("Cells"@[0] != "Table"@[0]);
            assert("Cells"@.len() != "Text"@.len());
        },
        BlockTypes::XYChart => {
            assert("XYChart"@.len() != "Table"@.len());
            assert("XYChart"@.len() != "Text"@.len());
            assert("XYChart"@.len() != "Cells"@.len());
        },
        BlockTypes::Files => {
            assert("Files"@[0] != "Table"@[0]);
            assert("Files"@.len() != "Text"@.len());
            assert("Files"@[0] != "Cells"@[0]);
            assert("Files"@.len() != "XYChart"@.len());
        },
    }
}

/// Each variant of `BlockTypes` is stored under its own name, and each of those names
/// reads back as that variant.
pub proof fn lemma_block_types_stored_names()
    ensures
        BlockTypes::Table.name() == "Table"@,
        BlockTypes::Text.name() == "Text"@,
        BlockTypes::Cells.name() == "Cells"@,
        BlockTypes::XYChart.name() == "XYChart"@,
        BlockTypes::Files.name() == "Files"@,
        BlockTypes::parse("Table"@) == Some(BlockTypes::Table),
        BlockTypes::parse("Text"@) == Some(BlockTypes::Text),
        BlockTypes::parse("Cells"@) == Some(BlockTypes::Cells),
        BlockTypes::parse("XYChart"@) == Some(BlockTypes::XYChart),
        BlockTypes::parse("Files"@) == Some(BlockTypes::Files),
{
    lemma_block_types_names(BlockTypes::Table);
    lemma_block_types_names(BlockTypes::Text);
    lemma_block_types_names(BlockTypes::Cells);
    lemma_block_types_names(BlockTypes::XYChart);
    lemma_block_types_names(BlockTypes::Files);
}

/// The content of a block, by kind.
pub enum GQLBlocks {
    Empty(EmptyBlock),
    Table(TableBlock),
    Text(TextBlock),
    Cells(CellsBlock),
    XYChart(XYChartBlock),
    Files(FilesBlock),
}

/// The settings of a block, by kind.
pub enum BlockConfigs {
    Empty(EmptyBlockConfig),
    Table(TableBlockConfig),
    Text(TextBlockConfig),
    Cells(CellsBlockConfig),
    XYChart(XYChartBlockConfig),
    Files(FilesBlockConfig),
}

/// A block of a page. Timestamps are instants in UTC.
pub struct Block {
    pub id: u128,
    pub name: String,
    pub project_id: u128,
    pub dashboard_id: u128,
    pub page_id: u128,
    pub block_type: BlockTypes,
    pub block_data: GQLBlocks,
    pub block_config: BlockConfigs,
    pub created_at: Timestamp,
    pub created_by: u128,
    pub updated_at: Timestamp,
    pub updated_by: u128,
}

/// A block as the database hands it over: its kind as stored text, its content
/// decoded into the kind that text names, and its settings decoded (or `None`
/// when the settings column did not decode).
pub struct DBBlock {
    pub id: u128,
    pub name: String,
    pub project_id: u128,
    pub dashboard_id: u128,
    pub page_id: u128,
    pub block_type: String,
    pub block_data: GQLBlocks,
    pub block_config: Option<BlockConfigValue>,
    pub created_at: Timestamp,
    pub created_by: u128,
    pub updated_at: Timestamp,
    pub updated_by: u128,
}

/// The input for creating a block; its content is JSON text.
pub struct NewBlock {
    pub project_id: u128,
    pub dashboard_id: u128,
    pub page_id: u128,
    pub block_type: BlockTypes,
    pub block_data: String,
}

/// The input for changing a block; its content, when given, is JSON text.
pub struct UpdateBlock {
    pub id: u128,
    pub name: Option<String>,
    pub block_type: BlockTypes,
    pub block_data: Option<String>,
}

/// A settings column that did not decode.
#[derive(Clone, Copy, Debug, PartialEq, Eq, Structural)]
pub enum BlockConfigError {
    Malformed,
}

/// Whether `data` is content of the kind `t`.
pub open spec fn is_block_data_of_type(data: GQLBlocks, t: BlockTypes) -> bool {
    match t {
        BlockTypes::Table => data is Table,
        BlockTypes::Text => data is Text,
        BlockTypes::Cells => data is Cells,
        BlockTypes::XYChart => data is XYChart,
        BlockTypes::Files => data is Files,
    }
}

/// Whether `config` is the settings of kind `t` holding `something`.
pub open spec fn is_block_config_of(config: BlockConfigs, t: BlockTypes, something: Option<String>) -> bool {
    match t {
        BlockTypes::Table => config matches BlockConfigs::Table(c) && c.something == something,
        BlockTypes::Text => config matches BlockConfigs::Text(c) && c.something == something,
        BlockTypes::Cells => config matches BlockConfigs::Cells(c) && c.something == something,
        BlockTypes::XYChart => config matches BlockConfigs::XYChart(c) && c.something == something,
        BlockTypes::Files => config matches BlockConfigs::Files(c) && c.something == something,
    }
}

/// The settings of a block of kind `block_type`, from its decoded settings column.
/// A column that did not decode is refused.
pub fn block_config_serde_value_to_block_config(block_type: &BlockTypes, value: Option<BlockConfigValue>) -> (r:
    Result<BlockConfigs, BlockConfigError>)
    ensures
        value is None ==> r == Err::<BlockConfigs, BlockConfigError>(BlockConfigError::Malformed),
        value matches Some(v) ==> (r matches Ok(c) && is_block_config_of(c, *block_type, v.something)),
{
    let v = match value {
        Some(v) => v,
        None => {
            return Err(BlockConfigError::Malformed);
        },
    };
    let config = match block_type {
        BlockTypes::Table => BlockConfigs::Table(TableBlockConfig { something: v.something }),
        BlockTypes::Text => BlockConfigs::Text(TextBlockConfig { something: v.something }),
        BlockTypes::Cells => BlockConfigs::Cells(CellsBlockConfig { something: v.something }),
        BlockTypes::XYChart => BlockConfigs::XYChart(XYChartBlockConfig { something: v.something }),
        BlockTypes::Files => BlockConfigs::Files(FilesBlockConfig { something: v.something }),
    };
    Ok(config)
}

/// Whether a stored block can be read: its kind names a block type, its content
/// was decoded as that kind, and its settings column decoded.
pub open spec fn is_readable_block(db_block: DBBlock) -> bool {
    &&& BlockTypes::parse(db_block.block_type@) matches Some(t)
    &&& is_block_data_of_type(db_block.block_data, t)
    &&& db_block.block_config is Some
}

impl Block {
    /// Reads a stored block: its kind is parsed from the stored text, its
    /// settings built for that kind, and every other field carried over.
    pub fn try_from(db_block: DBBlock) -> (r: Result<Block, BlockConfigError>)
        requires
            is_readable_block(db_block),
        ensures
            r matches Ok(b) && {
                &&& Some(b.block_type) == BlockTypes::parse(db_block.block_type@)
                &&& b.block_data == db_block.block_data
                &&& is_block_config_of(b.block_config, b.block_type, db_block.block_config->0.something)
                &&& b.id == db_block.id
                &&& b.name == db_block.name
                &&& b.project_id == db_block.project_id
                &&& b.dashboard_id == db_block.dashboard_id
                &&& b.page_id == db_block.page_id
                &&& b.created_at == db_block.created_at
                &&& b.created_by == db_block.created_by
                &&& b.updated_at == db_block.updated_at
                &&& b.updated_by == db_block.updated_by
            },
    {
        let block_type = match BlockTypes::from_str(db_block.block_type.as_str()) {
            Ok(t) => t,
            Err(_) => {
                proof {
                    assert(false);
                }
                BlockTypes::Table
            },
        };
        let block_config = match block_config_serde_value_to_block_config(&block_type, db_block.block_config) {
            Ok(c) => c,
            Err(e) => {
                proof {
                    assert(false);
                }
                return Err(e);
            },
        };
        Ok(
            Block {
                id: db_block.id,
                name: db_block.name,
                project_id: db_block.project_id,
                dashboard_id: db_block.dashboard_id,
                page_id: db_block.page_id,
                block_type,
                block_data: db_block.block_data,
                block_config,
                created_at: db_block.created_at,
                created_by: db_block.created_by,
                updated_at: db_block.updated_at,
                updated_by: db_block.updated_by,
            },
        )
    }
}

} // verus!
