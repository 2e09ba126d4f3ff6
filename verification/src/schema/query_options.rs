//! The query options a block offers.
use vstd::prelude::*;
use crate::schema::block::{Block, BlockTypes, GQLBlocks};
use crate::schema::blocks::table_block::TableBlockColumn;

verus! {

/// What a table block can be queried by.
pub struct TableQueryOptions {
    pub member: Option<bool>,
    pub columns: Option<Vec<TableBlockColumn>>,
}

/// Query options, by kind of block.
pub enum BQOptions {
    Table(TableQueryOptions),
}

/// The query options of one block.
pub struct BlockQueryOptions {
    pub block_id: u128,
    pub block_type: BlockTypes,
    pub options: BQOptions,
}

impl BlockQueryOptions {
    /// The query options of a table block: members can be filtered, and the
    /// block's columns can be queried.
    pub fn for_block(block_id: u128, block: Block) -> (o: BlockQueryOptions)
        requires
            block.block_data is Table,
        ensures
            o.block_id == block_id,
            o.block_type == block.block_type,
            o.options matches BQOptions::Table(t) && t.member == Some(true) && t.columns == Some(
                block.block_data->Table_0.columns,
            ),
    {
        match block.block_data {
            GQLBlocks::Table(table_block) => BlockQueryOptions {
                block_id,
                block_type: block.block_type,
                options: BQOptions::Table(
                    TableQueryOptions { member: Some(true), columns: Some(table_block.columns) },
                ),
            },
            _ => {
                proof {
                    assert(false);
                }
                BlockQueryOptions {
                    block_id,
                    block_type: block.block_type,
                    options: BQOptions::Table(TableQueryOptions { member: None, columns: None }),
                }
            },
        }
    }
}

} // verus!
