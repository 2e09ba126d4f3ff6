//! The table block: rows, columns and cells, their conversion into table
//! nodes of the intermediate representation, and the visitor that rebuilds a
//! table block from those nodes.
use vstd::prelude::*;
use vstd::string::StringExecFns;
use crate::ids::{is_random_uuid, new_uuid};
use crate::ir::{
    CellNode, CellNodeTypes, ColumnNode, ColumnNodeTypes, ListNode, Node, NodeTypes, RowNode,
    TableNode, TextNode, UserNode,
};
use crate::names::ParseError;
use crate::text::{i32_text, i32_to_string, prefixed_uuid, str_eq, uuid_text};

verus! {

/// What a column of a table block holds.
#[derive(Clone, Copy, Debug, PartialEq, Eq, Structural)]
pub enum TableBlockColumnTypes {
    Text,
    Member,
}

impl TableBlockColumnTypes {
    /// The name under which this variant is stored and shown.
    pub open spec fn name(self) -> Seq<char> {
        match self {
            TableBlockColumnTypes::Text => "Text"@,
            TableBlockColumnTypes::Member => "Member"@,
        }
    }

    /// The variant that a stored name stands for, if any.
    pub open spec fn parse(s: Seq<char>) -> Option<TableBlockColumnTypes> {
        if s == "Text"@ {
            Some(TableBlockColumnTypes::Text)
        } else if s == "Member"@ {
            Some(TableBlockColumnTypes::Member)
        } else {
            None
        }
    }

    /// The name of this variant, as a static string.
    pub fn as_str(&self) -> (s: &'static str)
        ensures
            s@ == self.name(),
    {
        match self {
            TableBlockColumnTypes::Text => "Text",
            TableBlockColumnTypes::Member => "Member",
        }
    }

    /// The name of this variant, as an owned string (its `Display` form).
    pub fn to_string(&self) -> (s: String)
        ensures
            s@ == self.name(),
    {
        self.as_str().to_string()
    }

    /// Reads a variant from its exact name; any other text is refused.
    pub fn from_str(s: &str) -> (r: Result<TableBlockColumnTypes, ParseError>)
        ensures
            r matches Ok(t) ==> TableBlockColumnTypes::parse(s@) == Some(t),
            r is Err <==> TableBlockColumnTypes::parse(s@) is None,
    {
        if str_eq(s, "Text") {
            Ok(TableBlockColumnTypes::Text)
        } else if str_eq(s, "Member") {
            Ok(TableBlockColumnTypes::Member)
        } else {
            Err(ParseError::VariantNotFound)
        }
    }
}

/// Every variant of `TableBlockColumnTypes` is read back from its own name.
pub proof fn lemma_table_block_column_types_names(t: TableBlockColumnTypes)
    ensures
        TableBlockColumnTypes::parse(t.name()) == Some(t),
        forall|s: Seq<char>| #[trigger] TableBlockColumnTypes::parse(s) == Some(t) ==> s == t.name(),
{
    reveal_strlit("Text");
    reveal_strlit("Member");
    match t {
        TableBlockColumnTypes::Text => {
        },
        TableBlockColumnTypes::Member => {
            assert("Member"@.len() != "Text"@.len());
        },
    }
}

/// Each variant of `TableBlockColumnTypes` is stored under its own name, and each of those names
/// reads back as that variant.
pub proof fn lemma_table_block_column_types_stored_names()
    ensures
        TableBlockColumnTypes::Text.name() == "Text"@,
        TableBlockColumnTypes::Member.name() == "Member"@,
        TableBlockColumnTypes::parse("Text"@) == Some(TableBlockColumnTypes::Text),
        TableBlockColumnTypes::parse("Member"@) == Some(TableBlockColumnTypes::Member),
{
    lemma_table_block_column_types_names(TableBlockColumnTypes::Text);
    lemma_table_block_column_types_names(TableBlockColumnTypes::Member);
}

/// What a cell of a table block holds.
#[derive(Clone, Copy, Debug, PartialEq, Eq, Structural)]
pub enum TableBlockCellTypes {
    Empty,
    Text,
    Member,
}

impl TableBlockCellTypes {
    /// The name under which this variant is stored and shown.
    pub open spec fn name(self) -> Seq<char> {
        match self {
            TableBlockCellTypes::Empty => "Empty"@,
            TableBlockCellTypes::Text => "Text"@,
            TableBlockCellTypes::Member => "Member"@,
        }
    }

    /// The variant that a stored name stands for, if any.
    pub open spec fn parse(s: Seq<char>) -> Option<TableBlockCellTypes> {
        if s == "Empty"@ {
            Some(TableBlockCellTypes::Empty)
        } else if s == "Text"@ {
            Some(TableBlockCellTypes::Text)
        } else if s == "Member"@ {
            Some(TableBlockCellTypes::Member)
        } else {
            None
        }
    }

    /// The name of this variant, as a static string.
    pub fn as_str(&self) -> (s: &'static str)
        ensures
            s@ == self.name(),
    {
        match self {
            TableBlockCellTypes::Empty => "Empty",
            TableBlockCellTypes::Text => "Text",
            TableBlockCellTypes::Member => "Member",
        }
    }

    /// The name of this variant, as an owned string (its `Display` form).
    pub fn to_string(&self) -> (s: String)
        ensures
            s@ == self.name(),
    {
        self.as_str().to_string()
    }

    /// Reads a variant from its exact name; any other text is refused.
    pub fn from_str(s: &str) -> (r: Result<TableBlockCellTypes, ParseError>)
        ensures
            r matches Ok(t) ==> TableBlockCellTypes::parse(s@) == Some(t),
            r is Err <==> TableBlockCellTypes::parse(s@) is None,
    {
        if str_eq(s, "Empty") {
            Ok(TableBlockCellTypes::Empty)
        } else if str_eq(s, "Text") {
            Ok(TableBlockCellTypes::Text)
        } else if str_eq(s, "Member") {
            Ok(TableBlockCellTypes::Member)
        } else {
            Err(ParseError::VariantNotFound)
        }
    }
}

/// Every variant of `TableBlockCellTypes` is read back from its own name.
pub proof fn lemma_table_block_cell_types_names(t: TableBlockCellTypes)
    ensures
        TableBlockCellTypes::parse(t.name()) == Some(t),
        forall|s: Seq<char>| #[trigger] TableBlockCellTypes::parse(s) == Some(t) ==> s == t.name(),
{
    reveal_strlit("Empty");
    reveal_strlit("Text");
    reveal_strlit("Member");
    match t {
        TableBlockCellTypes::Empty => {
        },
        TableBlockCellTypes::Text => {
            assert("Text"@.len() != "Empty"@.len());
        },
        TableBlockCellTypes::Member => {
            assert("Member"@.len() != "Empty"@.len());
            assert("Member"@.len() != "Text"@.len());
        },
    }
}

/// Each variant of `TableBlockCellTypes` is stored under its own name, and each of those names
/// reads back as that variant.
pub proof fn lemma_table_block_cell_types_stored_names()
    ensures
        TableBlockCellTypes::Empty.name() == "Empty"@,
        TableBlockCellTypes::Text.name() == "Text"@,
        TableBlockCellTypes::Member.name() == "Member"@,
        TableBlockCellTypes::parse("Empty"@) == Some(TableBlockCellTypes::Empty),
        TableBlockCellTypes::parse("Text"@) == Some(TableBlockCellTypes::Text),
        TableBlockCellTypes::parse("Member"@) == Some(TableBlockCellTypes::Member),
{
    lemma_table_block_cell_types_names(TableBlockCellTypes::Empty);
    lemma_table_block_cell_types_names(TableBlockCellTypes::Text);
    lemma_table_block_cell_types_names(TableBlockCellTypes::Member);
}

/// A row of a table block.
#[derive(Clone, Copy, Debug, PartialEq, Eq, Structural)]
pub struct TableBlockRow {
    pub id: u128,
    pub index: i32,
}

/// A column of a table block.
pub struct TableBlockColumn {
    pub id: u128,
    pub index: i32,
    pub column_type: TableBlockColumnTypes,
    pub label: String,
}

/// The content of an empty cell.
#[derive(Clone, Copy, Debug, PartialEq, Eq, Structural)]
pub struct TableBlockEmptyCell {
    pub id: u128,
}

/// The content of a text cell.
pub struct TableBlockTextCell {
    pub id: u128,
    pub text: String,
}

/// The content of a member cell: the users it names.
pub struct TableBlockMemberCell {
    pub id: u128,
    pub member_ids: Vec<u128>,
}

/// The content of a cell of a table block.
pub enum TableBlockCells {
    TableBlockEmptyCell(TableBlockEmptyCell),
    TableBlockTextCell(TableBlockTextCell),
    TableBlockMemberCell(TableBlockMemberCell),
}

/// A cell of a table block, placed by its row and column.
pub struct TableBlockCell {
    pub id: u128,
    pub row_id: u128,
    pub column_id: u128,
    pub cell_type: TableBlockCellTypes,
    pub cell_data: TableBlockCells,
}

/// A table block: its rows, columns and cells.
pub struct TableBlock {
    pub rows: Vec<TableBlockRow>,
    pub columns: Vec<TableBlockColumn>,
    pub cells: Vec<TableBlockCell>,
}

/// The value of a column, with its label as a character sequence.
pub struct ColumnModel {
    pub id: u128,
    pub index: i32,
    pub column_type: TableBlockColumnTypes,
    pub label: Seq<char>,
}

/// The value of a cell's content.
pub enum CellDataModel {
    Empty { id: u128 },
    Text { id: u128, text: Seq<char> },
    Member { id: u128, member_ids: Seq<u128> },
}

/// The value of a cell.
pub struct CellModel {
    pub id: u128,
    pub row_id: u128,
    pub column_id: u128,
    pub cell_type: TableBlockCellTypes,
    pub data: CellDataModel,
}

impl TableBlockColumn {
    pub open spec fn model(self) -> ColumnModel {
        ColumnModel {
            id: self.id,
            index: self.index,
            column_type: self.column_type,
            label: self.label@,
        }
    }
}

impl TableBlockCells {
    pub open spec fn model(self) -> CellDataModel {
        match self {
            TableBlockCells::TableBlockEmptyCell(c) => CellDataModel::Empty { id: c.id },
            TableBlockCells::TableBlockTextCell(c) => CellDataModel::Text { id: c.id, text: c.text@ },
            TableBlockCells::TableBlockMemberCell(c) => CellDataModel::Member {
                id: c.id,
                member_ids: c.member_ids@,
            },
        }
    }
}

impl TableBlockCell {
    pub open spec fn model(self) -> CellModel {
        CellModel {
            id: self.id,
            row_id: self.row_id,
            column_id: self.column_id,
            cell_type: self.cell_type,
            data: self.cell_data.model(),
        }
    }
}

/// The column kind of a table node that a table column kind becomes.
pub open spec fn column_node_type(t: TableBlockColumnTypes) -> ColumnNodeTypes {
    match t {
        TableBlockColumnTypes::Text => ColumnNodeTypes::Text,
        TableBlockColumnTypes::Member => ColumnNodeTypes::Member,
    }
}

/// The table column kind that a column kind of a table node becomes.
pub open spec fn table_column_type(t: ColumnNodeTypes) -> TableBlockColumnTypes {
    match t {
        ColumnNodeTypes::Text => TableBlockColumnTypes::Text,
        ColumnNodeTypes::Member => TableBlockColumnTypes::Member,
    }
}

/// The cell kind of a table node that a table cell kind becomes.
pub open spec fn cell_node_type(t: TableBlockCellTypes) -> CellNodeTypes {
    match t {
        TableBlockCellTypes::Empty => CellNodeTypes::Empty,
        TableBlockCellTypes::Text => CellNodeTypes::Text,
        TableBlockCellTypes::Member => CellNodeTypes::Member,
    }
}

/// The table cell kind that a cell kind of a table node becomes.
pub open spec fn table_cell_type(t: CellNodeTypes) -> TableBlockCellTypes {
    match t {
        CellNodeTypes::Empty => TableBlockCellTypes::Empty,
        CellNodeTypes::Text => TableBlockCellTypes::Text,
        CellNodeTypes::Member => TableBlockCellTypes::Member,
    }
}

impl ColumnNodeTypes {
    /// The column kind of a table node for a table column kind.
    pub fn from(column_type: TableBlockColumnTypes) -> (t: ColumnNodeTypes)
        ensures
            t == column_node_type(column_type),
    {
        match column_type {
            TableBlockColumnTypes::Text => ColumnNodeTypes::Text,
            TableBlockColumnTypes::Member => ColumnNodeTypes::Member,
        }
    }
}

impl CellNodeTypes {
    /// The cell kind of a table node for a table cell kind.
    pub fn from(cell_type: TableBlockCellTypes) -> (t: CellNodeTypes)
        ensures
            t == cell_node_type(cell_type),
    {
        match cell_type {
            TableBlockCellTypes::Empty => CellNodeTypes::Empty,
            TableBlockCellTypes::Text => CellNodeTypes::Text,
            TableBlockCellTypes::Member => CellNodeTypes::Member,
        }
    }
}

impl TableBlockCellTypes {
    /// The table cell kind for a cell kind of a table node.
    pub fn from(cell_type: CellNodeTypes) -> (t: TableBlockCellTypes)
        ensures
            t == table_cell_type(cell_type),
    {
        match cell_type {
            CellNodeTypes::Empty => TableBlockCellTypes::Empty,
            CellNodeTypes::Text => TableBlockCellTypes::Text,
            CellNodeTypes::Member => TableBlockCellTypes::Member,
        }
    }
}

/// Converting a cell kind into the intermediate representation and back gives
/// it back, in both directions.
pub proof fn lemma_cell_types_round_trip(t: TableBlockCellTypes, n: CellNodeTypes)
    ensures
        table_cell_type(cell_node_type(t)) == t,
        cell_node_type(table_cell_type(n)) == n,
{
}

/// Converting a column kind into the intermediate representation and back gives it back.
pub proof fn lemma_column_types_round_trip(t: TableBlockColumnTypes, n: ColumnNodeTypes)
    ensures
        table_column_type(column_node_type(t)) == t,
        column_node_type(table_column_type(n)) == n,
{
}

/// `n` is the row node for `row`.
pub open spec fn is_row_node_of(n: RowNode, row: TableBlockRow) -> bool {
    &&& n.id == row.id
    &&& n.index == row.index
    &&& n.label@ == "Row "@ + i32_text(row.index)
    &&& n.debug_info@ == "TableBlockRow "@ + uuid_text(row.id)
    &&& n.data is None
}

/// `n` is the column node for `column`.
pub open spec fn is_column_node_of(n: ColumnNode, column: TableBlockColumn) -> bool {
    &&& n.id == column.id
    &&& n.index == column.index
    &&& n.column_type == column_node_type(column.column_type)
    &&& n.label@ == column.label@
    &&& n.debug_info@ == "TableBlockColumn "@ + uuid_text(column.id)
    &&& n.data is None
}

/// `n` is the user node for member `member`.
pub open spec fn is_member_node(n: NodeTypes, member: u128) -> bool {
    &&& n matches NodeTypes::User(u)
    &&& u.id == member
    &&& u.user_id == member
    &&& u.label@ == "Member "@ + uuid_text(member)
}

/// `data` is what the cell node for `cell` carries.
pub open spec fn is_cell_data_of(data: Option<NodeTypes>, cell: TableBlockCell) -> bool {
    match cell.cell_data {
        TableBlockCells::TableBlockEmptyCell(_) => data is None,
        TableBlockCells::TableBlockTextCell(t) => {
            &&& data matches Some(NodeTypes::Text(n))
            &&& n.id == cell.id
            &&& n.label@ == "Text for "@ + uuid_text(cell.id)
            &&& n.text@ == t.text@
        },
        TableBlockCells::TableBlockMemberCell(m) => {
            &&& data matches Some(NodeTypes::List(l))
            &&& l.id == m.id
            &&& l.label@ == "Member for "@ + uuid_text(cell.id)
            &&& l.nodes@.len() == m.member_ids@.len()
            &&& forall|i: int|
                0 <= i < l.nodes@.len() ==> is_member_node(#[trigger] l.nodes@[i], m.member_ids@[i])
        },
    }
}

/// `n` is the cell node for `cell`.
pub open spec fn is_cell_node_of(n: CellNode, cell: TableBlockCell) -> bool {
    &&& n.id == cell.id
    &&& n.row_id == cell.row_id
    &&& n.column_id == cell.column_id
    &&& n.cell_type == cell_node_type(cell.cell_type)
    &&& n.label@ == "Cell "@ + uuid_text(cell.id)
    &&& n.debug_info@ == "TableBlockCell "@ + uuid_text(cell.id)
    &&& is_cell_data_of(n.data, cell)
}

/// `n` holds the rows, columns and cells of `table`, each converted in order.
pub open spec fn is_table_contents_of(n: TableNode, table: TableBlock) -> bool {
    &&& n.rows@.len() == table.rows@.len()
    &&& n.columns@.len() == table.columns@.len()
    &&& n.cells@.len() == table.cells@.len()
    &&& forall|i: int| 0 <= i < n.rows@.len() ==> is_row_node_of(#[trigger] n.rows@[i], table.rows@[i])
    &&& forall|i: int|
        0 <= i < n.columns@.len() ==> is_column_node_of(#[trigger] n.columns@[i], table.columns@[i])
    &&& forall|i: int| 0 <= i < n.cells@.len() ==> is_cell_node_of(#[trigger] n.cells@[i], table.cells@[i])
}

fn row_node(row: &TableBlockRow) -> (n: RowNode)
    ensures
        is_row_node_of(n, *row),
{
    let mut label = "Row ".to_string();
    let index_text = i32_to_string(row.index);
    label.append(index_text.as_str());
    RowNode {
        id: row.id,
        index: row.index,
        label,
        debug_info: prefixed_uuid("TableBlockRow ", row.id),
        data: None,
    }
}

fn column_node(column: &TableBlockColumn) -> (n: ColumnNode)
    ensures
        is_column_node_of(n, *column),
{
    ColumnNode {
        id: column.id,
        index: column.index,
        column_type: ColumnNodeTypes::from(column.column_type),
        label: column.label.clone(),
        debug_info: prefixed_uuid("TableBlockColumn ", column.id),
        data: None,
    }
}

fn member_nodes(member_ids: &Vec<u128>) -> (nodes: Vec<NodeTypes>)
    ensures
        nodes@.len() == member_ids@.len(),
        forall|i: int| 0 <= i < nodes@.len() ==> is_member_node(#[trigger] nodes@[i], member_ids@[i]),
{
    let mut nodes: Vec<NodeTypes> = Vec::new();
    let mut i: usize = 0;
    while i < member_ids.len()
        invariant
            i <= member_ids@.len(),
            nodes@.len() == i,
            forall|k: int| 0 <= k < i ==> is_member_node(#[trigger] nodes@[k], member_ids@[k]),
        decreases member_ids@.len() - i,
    {
        let member_id = member_ids[i];
        nodes.push(
            NodeTypes::User(
                UserNode {
                    id: member_id,
                    label: prefixed_uuid("Member ", member_id),
                    user_id: member_id,
                },
            ),
        );
        i = i + 1;
    }
    nodes
}

fn cell_node(cell: &TableBlockCell) -> (n: CellNode)
    ensures
        is_cell_node_of(n, *cell),
{
    let data = match &cell.cell_data {
        TableBlockCells::TableBlockEmptyCell(_) => None,
        TableBlockCells::TableBlockTextCell(text) => Some(
            NodeTypes::Text(
                TextNode {
                    id: cell.id,
                    label: prefixed_uuid("Text for ", cell.id),
                    text: text.text.clone(),
                },
            ),
        ),
        TableBlockCells::TableBlockMemberCell(member_cell) => {
            let nodes = member_nodes(&member_cell.member_ids);
            Some(
                NodeTypes::List(
                    ListNode {
                        id: member_cell.id,
                        label: prefixed_uuid("Member for ", cell.id),
                        nodes,
                    },
                ),
            )
        },
    };
    CellNode {
        id: cell.id,
        row_id: cell.row_id,
        column_id: cell.column_id,
        cell_type: CellNodeTypes::from(cell.cell_type),
        label: prefixed_uuid("Cell ", cell.id),
        debug_info: prefixed_uuid("TableBlockCell ", cell.id),
        data,
    }
}

impl RowNode {
    /// The row node for a table row: labelled `Row <index>`, carrying no data.
    pub fn from(row: TableBlockRow) -> (n: RowNode)
        ensures
            is_row_node_of(n, row),
    {
        row_node(&row)
    }
}

impl ColumnNode {
    /// The column node for a table column: same label, carrying no data.
    pub fn from(column: TableBlockColumn) -> (n: ColumnNode)
        ensures
            is_column_node_of(n, column),
    {
        column_node(&column)
    }
}

impl CellNode {
    /// The cell node for a table cell. A text cell becomes a text node, a member
    /// cell a list of user nodes, one per member in order; an empty cell carries nothing.
    pub fn from(cell: TableBlockCell) -> (n: CellNode)
        ensures
            is_cell_node_of(n, cell),
    {
        cell_node(&cell)
    }
}

fn table_contents(table: &TableBlock) -> (r: (Vec<RowNode>, Vec<ColumnNode>, Vec<CellNode>))
    ensures
        r.0@.len() == table.rows@.len(),
        r.1@.len() == table.columns@.len(),
        r.2@.len() == table.cells@.len(),
        forall|i: int| 0 <= i < r.0@.len() ==> is_row_node_of(#[trigger] r.0@[i], table.rows@[i]),
        forall|i: int| 0 <= i < r.1@.len() ==> is_column_node_of(#[trigger] r.1@[i], table.columns@[i]),
        forall|i: int| 0 <= i < r.2@.len() ==> is_cell_node_of(#[trigger] r.2@[i], table.cells@[i]),
{
    let mut rows: Vec<RowNode> = Vec::new();
    let mut i: usize = 0;
    while i < table.rows.len()
        invariant
            i <= table.rows@.len(),
            rows@.len() == i,
            forall|k: int| 0 <= k < i ==> is_row_node_of(#[trigger] rows@[k], table.rows@[k]),
        decreases table.rows@.len() - i,
    {
        rows.push(row_node(&table.rows[i]));
        i = i + 1;
    }
    let mut columns: Vec<ColumnNode> = Vec::new();
    let mut i: usize = 0;
    while i < table.columns.len()
        invariant
            i <= table.columns@.len(),
            columns@.len() == i,
            forall|k: int| 0 <= k < i ==> is_column_node_of(#[trigger] columns@[k], table.columns@[k]),
        decreases table.columns@.len() - i,
    {
        columns.push(column_node(&table.columns[i]));
        i = i + 1;
    }
    let mut cells: Vec<CellNode> = Vec::new();
    let mut i: usize = 0;
    while i < table.cells.len()
        invariant
            i <= table.cells@.len(),
            cells@.len() == i,
            forall|k: int| 0 <= k < i ==> is_cell_node_of(#[trigger] cells@[k], table.cells@[k]),
        decreases table.cells@.len() - i,
    {
        cells.push(cell_node(&table.cells[i]));
        i = i + 1;
    }
    (rows, columns, cells)
}

impl TableNode {
    /// The table node for a table block: a fresh random identifier, labelled
    /// `Table`, holding the block's rows, columns and cells converted in order.
    pub fn from(table: TableBlock) -> (n: TableNode)
        ensures
            is_random_uuid(n.id),
            n.label@ == "Table"@,
            n.debug_info@ == "TableBlock"@,
            is_table_contents_of(n, table),
    {
        let (rows, columns, cells) = table_contents(&table);
        TableNode {
            id: new_uuid(),
            label: "Table".to_string(),
            debug_info: "TableBlock".to_string(),
            rows,
            columns,
            cells,
        }
    }
}

impl TableBlock {
    /// The tree for this block: a root node with a fresh random identifier whose
    /// data is the block's table node (itself with a fresh random identifier).
    pub fn tap(&self) -> (root: Node)
        ensures
            is_random_uuid(root.id),
            root.label@ == "Root Node"@,
            root.debug_info@ == "Root Node for"@,
            root.data matches Some(NodeTypes::Table(t)) && {
                &&& is_random_uuid(t.id)
                &&& t.label@ == "Table"@
                &&& t.debug_info@ == "TableBlock"@
                &&& is_table_contents_of(t, *self)
            },
    {
        let (rows, columns, cells) = table_contents(self);
        let table_node = TableNode {
            id: new_uuid(),
            label: "Table".to_string(),
            debug_info: "TableBlock".to_string(),
            rows,
            columns,
            cells,
        };
        Node {
            id: new_uuid(),
            label: "Root Node".to_string(),
            debug_info: "Root Node for".to_string(),
            data: Some(NodeTypes::Table(table_node)),
        }
    }
}

impl TableBlock {
    /// The block a tree is sunk into. The tree's nodes are only walked for
    /// tracing; the block returned holds no rows, columns or cells, whatever
    /// the tree holds.
    pub fn sink(&self, _root_node: Node) -> (t: TableBlock)
        ensures
            t.rows@.len() == 0,
            t.columns@.len() == 0,
            t.cells@.len() == 0,
    {
        TableBlock { rows: Vec::new(), columns: Vec::new(), cells: Vec::new() }
    }
}

/// The value of a table visitor: the cell being filled, and what has been collected.
pub struct TableVisitorModel {
    pub current_cell: Option<CellModel>,
    pub rows: Seq<TableBlockRow>,
    pub columns: Seq<ColumnModel>,
    pub cells: Seq<CellModel>,
}

impl TableVisitorModel {
    /// The visitor before any node is entered.
    pub open spec fn empty() -> TableVisitorModel {
        TableVisitorModel {
            current_cell: None,
            rows: Seq::empty(),
            columns: Seq::empty(),
            cells: Seq::empty(),
        }
    }

    /// Entering a row records it.
    pub open spec fn enter_row(self, row: RowNode) -> TableVisitorModel {
        TableVisitorModel { rows: self.rows.push(TableBlockRow { id: row.id, index: row.index }), ..self }
    }

    /// Entering a column records it, with its kind converted back.
    pub open spec fn enter_column(self, column: ColumnNode) -> TableVisitorModel {
        TableVisitorModel {
            columns: self.columns.push(
                ColumnModel {
                    id: column.id,
                    index: column.index,
                    column_type: table_column_type(column.column_type),
                    label: column.label@,
                },
            ),
            ..self
        }
    }

    /// Entering a cell starts a new, empty current cell (dropping any unfinished one).
    pub open spec fn enter_cell(self, cell: CellNode) -> TableVisitorModel {
        TableVisitorModel {
            current_cell: Some(
                CellModel {
                    id: cell.id,
                    row_id: cell.row_id,
                    column_id: cell.column_id,
                    cell_type: table_cell_type(cell.cell_type),
                    data: CellDataModel::Empty { id: cell.id },
                },
            ),
            ..self
        }
    }

    /// Leaving a cell moves the current cell, if any, to the end of the collected cells.
    pub open spec fn exit_cell(self) -> TableVisitorModel {
        match self.current_cell {
            Some(c) => TableVisitorModel { current_cell: None, cells: self.cells.push(c), ..self },
            None => self,
        }
    }

    /// Entering a text node makes the current cell, if any, a text cell with that text.
    pub open spec fn enter_text(self, text: TextNode) -> TableVisitorModel {
        match self.current_cell {
            Some(c) => TableVisitorModel {
                current_cell: Some(CellModel { data: CellDataModel::Text { id: text.id, text: text.text@ }, ..c }),
                ..self
            },
            None => self,
        }
    }

    /// A user node can be entered unless the current cell already holds text.
    pub open spec fn can_enter_user(self) -> bool {
        !(self.current_cell matches Some(c) && c.data is Text)
    }

    /// Entering a user node adds the user to the members of the current cell, if
    /// any: an empty cell becomes a member cell (taking the cell's identifier).
    pub open spec fn enter_user(self, user: UserNode) -> TableVisitorModel {
        match self.current_cell {
            Some(c) => match c.data {
                CellDataModel::Empty { .. } => TableVisitorModel {
                    current_cell: Some(
                        CellModel { data: CellDataModel::Member { id: c.id, member_ids: seq![user.user_id] }, ..c },
                    ),
                    ..self
                },
                CellDataModel::Member { id, member_ids } => TableVisitorModel {
                    current_cell: Some(
                        CellModel { data: CellDataModel::Member { id, member_ids: member_ids.push(user.user_id) }, ..c },
                    ),
                    ..self
                },
                CellDataModel::Text { .. } => self,
            },
            None => self,
        }
    }
}

/// Collects the rows, columns and cells of a table while its nodes are visited.
pub struct TableBlockVisitor {
    pub current_cell: Option<TableBlockCell>,
    pub rows: Vec<TableBlockRow>,
    pub columns: Vec<TableBlockColumn>,
    pub cells: Vec<TableBlockCell>,
}

impl View for TableBlockVisitor {
    type V = TableVisitorModel;

    open spec fn view(&self) -> TableVisitorModel {
        TableVisitorModel {
            current_cell: match self.current_cell {
                Some(c) => Some(c.model()),
                None => None,
            },
            rows: self.rows@,
            columns: self.columns@.map_values(|c: TableBlockColumn| c.model()),
            cells: self.cells@.map_values(|c: TableBlockCell| c.model()),
        }
    }
}

impl TableBlockVisitor {
    /// A visitor that has collected nothing.
    pub fn new() -> (v: TableBlockVisitor)
        ensures
            v@ == TableVisitorModel::empty(),
    {
        let v = TableBlockVisitor { current_cell: None, rows: Vec::new(), columns: Vec::new(), cells: Vec::new() };
        assert(v@.columns =~= Seq::<ColumnModel>::empty());
        assert(v@.cells =~= Seq::<CellModel>::empty());
        v
    }

    /// Records a row.
    pub fn enter_row(&mut self, row: &RowNode)
        ensures
            final(self)@ == old(self)@.enter_row(*row),
    {
        self.rows.push(TableBlockRow { id: row.id, index: row.index });
        assert(self@.columns =~= old(self)@.columns);
    }

    /// Records a column.
    pub fn enter_column(&mut self, column: &ColumnNode)
        ensures
            final(self)@ == old(self)@.enter_column(*column),
    {
        let column_type = match column.column_type {
            ColumnNodeTypes::Text => TableBlockColumnTypes::Text,
            ColumnNodeTypes::Member => TableBlockColumnTypes::Member,
        };
        let c = TableBlockColumn { id: column.id, index: column.index, column_type, label: column.label.clone() };
        proof {
            assert(c.model() == ColumnModel {
                id: column.id,
                index: column.index,
                column_type: table_column_type(column.column_type),
                label: column.label@,
            });
        }
        self.columns.push(c);
        assert(self@.columns =~= old(self)@.columns.push(c.model()));
    }

    /// Starts a new, empty current cell.
    pub fn enter_cell(&mut self, cell_node: &CellNode)
        ensures
            final(self)@ == old(self)@.enter_cell(*cell_node),
    {
        let cell = TableBlockCell {
            id: cell_node.id,
            row_id: cell_node.row_id,
            column_id: cell_node.column_id,
            cell_type: TableBlockCellTypes::from(cell_node.cell_type),
            cell_data: TableBlockCells::TableBlockEmptyCell(TableBlockEmptyCell { id: cell_node.id }),
        };
        self.current_cell = Some(cell);
    }

    /// Moves the current cell, if any, to the collected cells.
    pub fn exit_cell(&mut self, _cell_node: &CellNode)
        ensures
            final(self)@ == old(self)@.exit_cell(),
    {
        if let Some(cell) = self.current_cell.take() {
            self.cells.push(cell);
            assert(self@.cells =~= old(self)@.cells.push(cell.model()));
        }
    }

    /// Makes the current cell, if any, a text cell.
    pub fn enter_text(&mut self, text_node: &TextNode)
        ensures
            final(self)@ == old(self)@.enter_text(*text_node),
    {
        match self.current_cell.take() {
            Some(cell) => {
                let TableBlockCell { id, row_id, column_id, cell_type, cell_data: _ } = cell;
                let data = TableBlockCells::TableBlockTextCell(
                    TableBlockTextCell { id: text_node.id, text: text_node.text.clone() },
                );
                self.current_cell = Some(TableBlockCell { id, row_id, column_id, cell_type, cell_data: data });
            },
            None => {},
        }
    }

    /// Adds a user to the members of the current cell, if any.
    pub fn enter_user(&mut self, user: &UserNode)
        requires
            old(self)@.can_enter_user(),
        ensures
            final(self)@ == old(self)@.enter_user(*user),
    {
        match self.current_cell.take() {
            Some(cell) => {
                let TableBlockCell { id, row_id, column_id, cell_type, cell_data } = cell;
                let data = match cell_data {
                    TableBlockCells::TableBlockEmptyCell(_) => {
                        let member_ids = vec![user.user_id];
                        assert(member_ids@ =~= seq![user.user_id]);
                        TableBlockCells::TableBlockMemberCell(TableBlockMemberCell { id, member_ids })
                    },
                    TableBlockCells::TableBlockMemberCell(member_cell) => {
                        let TableBlockMemberCell { id: member_cell_id, mut member_ids } = member_cell;
                        member_ids.push(user.user_id);
                        TableBlockCells::TableBlockMemberCell(TableBlockMemberCell { id: member_cell_id, member_ids })
                    },
                    TableBlockCells::TableBlockTextCell(text_cell) => {
                        proof {
                            assert(false);
                        }
                        TableBlockCells::TableBlockTextCell(text_cell)
                    },
                };
                self.current_cell = Some(TableBlockCell { id, row_id, column_id, cell_type, cell_data: data });
            },
            None => {},
        }
    }
}

/// A cell that is entered and then left is appended to the collected cells,
/// with its row, column and kind, and no content.
pub proof fn lemma_entered_cell_is_collected(v: TableVisitorModel, cell: CellNode)
    ensures
        v.enter_cell(cell).exit_cell().cells == v.cells.push(
            CellModel {
                id: cell.id,
                row_id: cell.row_id,
                column_id: cell.column_id,
                cell_type: table_cell_type(cell.cell_type),
                data: CellDataModel::Empty { id: cell.id },
            },
        ),
        v.enter_cell(cell).exit_cell().current_cell is None,
{
}

/// Users entered one after the other in an empty cell are collected as its
/// members, in the order they were entered.
pub proof fn lemma_members_accumulate(v: TableVisitorModel, cell: CellNode, first: UserNode, second: UserNode)
    ensures
        v.enter_cell(cell).can_enter_user(),
        v.enter_cell(cell).enter_user(first).can_enter_user(),
        v.enter_cell(cell).enter_user(first).enter_user(second).exit_cell().cells.last().data
            == (CellDataModel::Member { id: cell.id, member_ids: seq![first.user_id, second.user_id] }),
{
    assert(seq![first.user_id].push(second.user_id) =~= seq![first.user_id, second.user_id]);
}

/// Text entered in a cell becomes that cell's content when the cell is left.
pub proof fn lemma_text_fills_cell(v: TableVisitorModel, cell: CellNode, text: TextNode)
    ensures
        v.enter_cell(cell).enter_text(text).exit_cell().cells.last().data
            == (CellDataModel::Text { id: text.id, text: text.text@ }),
{
}

/// Nodes that reach no open cell change nothing: text or users entered while no
/// cell is open, and leaving when no cell is open.
pub proof fn lemma_no_open_cell(v: TableVisitorModel, text: TextNode, user: UserNode)
    requires
        v.current_cell is None,
    ensures
        v.enter_text(text) == v,
        v.enter_user(user) == v,
        v.exit_cell() == v,
{
}

/// Entering a row collects exactly one row at the end, with the node's
/// identifier and index, and changes nothing else.
pub proof fn lemma_row_is_collected_last(v: TableVisitorModel, row: RowNode)
    ensures
        ({
            let w = v.enter_row(row);
            &&& w.rows.len() == v.rows.len() + 1
            &&& w.rows.drop_last() == v.rows
            &&& w.rows.last().id == row.id
            &&& w.rows.last().index == row.index
            &&& w.columns == v.columns
            &&& w.cells == v.cells
            &&& w.current_cell == v.current_cell
        }),
{
    let w = v.enter_row(row);
    assert(w.rows.drop_last() =~= v.rows);
}

/// Entering a column collects exactly one column at the end, with the node's
/// identifier, index and label, and the table column kind that converts to the
/// node's kind: a member column stays a member column and a text column a text
/// column. Nothing else changes.
pub proof fn lemma_column_keeps_its_kind(v: TableVisitorModel, column: ColumnNode)
    ensures
        ({
            let w = v.enter_column(column);
            &&& w.columns.len() == v.columns.len() + 1
            &&& w.columns.drop_last() == v.columns
            &&& w.columns.last().id == column.id
            &&& w.columns.last().index == column.index
            &&& w.columns.last().label == column.label@
            &&& column_node_type(w.columns.last().column_type) == column.column_type
            &&& (column.column_type == ColumnNodeTypes::Member ==> w.columns.last().column_type
                == TableBlockColumnTypes::Member)
            &&& (column.column_type == ColumnNodeTypes::Text ==> w.columns.last().column_type
                == TableBlockColumnTypes::Text)
            &&& w.rows == v.rows
            &&& w.cells == v.cells
            &&& w.current_cell == v.current_cell
        }),
{
    let w = v.enter_column(column);
    assert(w.columns.drop_last() =~= v.columns);
}

/// A cell that is entered and left keeps its identifier, row, column and the
/// table cell kind that converts to the node's kind.
pub proof fn lemma_cell_keeps_its_kind(v: TableVisitorModel, cell: CellNode)
    ensures
        ({
            let c = v.enter_cell(cell).exit_cell().cells.last();
            &&& c.id == cell.id
            &&& c.row_id == cell.row_id
            &&& c.column_id == cell.column_id
            &&& cell_node_type(c.cell_type) == cell.cell_type
            &&& (cell.cell_type == CellNodeTypes::Member ==> c.cell_type == TableBlockCellTypes::Member)
            &&& (cell.cell_type == CellNodeTypes::Text ==> c.cell_type == TableBlockCellTypes::Text)
            &&& (cell.cell_type == CellNodeTypes::Empty ==> c.cell_type == TableBlockCellTypes::Empty)
        }),
{
}

/// The kinds of a table and of its nodes correspond by name, both ways.
pub proof fn lemma_kinds_correspond_by_name()
    ensures
        column_node_type(TableBlockColumnTypes::Text) == ColumnNodeTypes::Text,
        column_node_type(TableBlockColumnTypes::Member) == ColumnNodeTypes::Member,
        table_column_type(ColumnNodeTypes::Text) == TableBlockColumnTypes::Text,
        table_column_type(ColumnNodeTypes::Member) == TableBlockColumnTypes::Member,
        cell_node_type(TableBlockCellTypes::Empty) == CellNodeTypes::Empty,
        cell_node_type(TableBlockCellTypes::Text) == CellNodeTypes::Text,
        cell_node_type(TableBlockCellTypes::Member) == CellNodeTypes::Member,
        table_cell_type(CellNodeTypes::Empty) == TableBlockCellTypes::Empty,
        table_cell_type(CellNodeTypes::Text) == TableBlockCellTypes::Text,
        table_cell_type(CellNodeTypes::Member) == TableBlockCellTypes::Member,
{
}

/// The node of a table row, column or cell keeps the identifiers, index,
/// label and kind of what it stands for.
pub proof fn lemma_nodes_keep_fields(
    rn: RowNode,
    row: TableBlockRow,
    cn: ColumnNode,
    column: TableBlockColumn,
    celln: CellNode,
    cell: TableBlockCell,
)
    requires
        is_row_node_of(rn, row),
        is_column_node_of(cn, column),
        is_cell_node_of(celln, cell),
    ensures
        rn.id == row.id,
        rn.index == row.index,
        cn.id == column.id,
        cn.index == column.index,
        cn.label@ == column.label@,
        table_column_type(cn.column_type) == column.column_type,
        celln.id == cell.id,
        celln.row_id == cell.row_id,
        celln.column_id == cell.column_id,
        table_cell_type(celln.cell_type) == cell.cell_type,
        cell.cell_data is TableBlockEmptyCell <==> celln.data is None,
        cell.cell_data matches TableBlockCells::TableBlockTextCell(t) ==> (celln.data matches Some(
            NodeTypes::Text(n),
        ) && n.text@ == t.text@),
        cell.cell_data matches TableBlockCells::TableBlockMemberCell(m) ==> (celln.data matches Some(
            NodeTypes::List(l),
        ) && l.nodes@.len() == m.member_ids@.len() && forall|i: int|
            0 <= i < l.nodes@.len() ==> (#[trigger] l.nodes@[i] matches NodeTypes::User(u) && u.user_id
                == m.member_ids@[i])),
{
}

} // verus!
