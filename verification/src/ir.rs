//! The intermediate representation that blocks are converted into and out of:
//! a tree of nodes (tables made of rows, columns and cells, whose contents are
//! text, users, numbers or lists of these).
use vstd::prelude::*;

verus! {

/// What a column of a table node holds.
#[derive(Clone, Copy, Debug, PartialEq, Eq, Structural)]
pub enum ColumnNodeTypes {
    Text,
    Member,
}

/// What a cell of a table node holds.
#[derive(Clone, Copy, Debug, PartialEq, Eq, Structural)]
pub enum CellNodeTypes {
    Empty,
    Text,
    Member,
}

/// A piece of text.
pub struct TextNode {
    pub id: u128,
    pub label: String,
    pub text: String,
}

/// A reference to a user.
pub struct UserNode {
    pub id: u128,
    pub label: String,
    pub user_id: u128,
}

/// A number, held as the bit pattern of a 64-bit float.
pub struct FloatNode {
    pub value_bits: u64,
}

/// An ordered list of nodes.
pub struct ListNode {
    pub id: u128,
    pub label: String,
    pub nodes: Vec<NodeTypes>,
}

/// A row of a table node.
pub struct RowNode {
    pub id: u128,
    pub index: i32,
    pub label: String,
    pub debug_info: String,
    pub data: Option<NodeTypes>,
}

/// A column of a table node.
pub struct ColumnNode {
    pub id: u128,
    pub index: i32,
    pub column_type: ColumnNodeTypes,
    pub label: String,
    pub debug_info: String,
    pub data: Option<NodeTypes>,
}

/// A cell of a table node, placed by its row and column.
pub struct CellNode {
    pub id: u128,
    pub row_id: u128,
    pub column_id: u128,
    pub cell_type: CellNodeTypes,
    pub label: String,
    pub debug_info: String,
    pub data: Option<NodeTypes>,
}

/// A table: its rows, columns and cells.
pub struct TableNode {
    pub id: u128,
    pub label: String,
    pub debug_info: String,
    pub rows: Vec<RowNode>,
    pub columns: Vec<ColumnNode>,
    pub cells: Vec<CellNode>,
}

/// The contents a node can carry.
pub enum NodeTypes {
    Text(TextNode),
    User(UserNode),
    Float(FloatNode),
    List(ListNode),
    Table(TableNode),
}

/// The root of a tree.
pub struct Node {
    pub id: u128,
    pub label: String,
    pub debug_info: String,
    pub data: Option<NodeTypes>,
}

} // verus!
