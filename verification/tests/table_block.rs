use portals_api::ir::{CellNode, CellNodeTypes, ColumnNode, ColumnNodeTypes, NodeTypes, RowNode, TableNode, TextNode, UserNode};
use portals_api::schema::blocks::table_block::{
    TableBlock, TableBlockCell, TableBlockCellTypes, TableBlockCells, TableBlockColumn, TableBlockColumnTypes,
    TableBlockEmptyCell, TableBlockMemberCell, TableBlockRow, TableBlockTextCell, TableBlockVisitor,
};

fn uuid_text(id: u128) -> String {
    uuid::Uuid::from_u128(id).to_string()
}

fn cell_node(id: u128, row_id: u128, column_id: u128, cell_type: CellNodeTypes) -> CellNode {
    CellNode {
        id,
        row_id,
        column_id,
        cell_type,
        label: String::new(),
        debug_info: String::new(),
        data: None,
    }
}

fn user_node(user_id: u128) -> UserNode {
    UserNode { id: user_id, label: format!("Member {}", user_id), user_id }
}

#[test]
fn row_node_is_labelled_by_index() {
    let n = RowNode::from(TableBlockRow { id: 5, index: 3 });
    assert_eq!(n.id, 5);
    assert_eq!(n.index, 3);
    assert_eq!(n.label, "Row 3");
    assert_eq!(n.debug_info, format!("TableBlockRow {}", uuid_text(5)));
    assert!(n.data.is_none());
}

#[test]
fn row_node_with_negative_index() {
    assert_eq!(RowNode::from(TableBlockRow { id: 1, index: -12 }).label, "Row -12");
}

#[test]
fn column_node_keeps_label_and_kind() {
    let n = ColumnNode::from(TableBlockColumn {
        id: 9,
        index: 0,
        column_type: TableBlockColumnTypes::Member,
        label: "Owner".to_string(),
    });
    assert_eq!(n.column_type, ColumnNodeTypes::Member);
    assert_eq!(n.label, "Owner");
    assert_eq!(n.debug_info, format!("TableBlockColumn {}", uuid_text(9)));
}

#[test]
fn cell_kinds_convert_both_ways() {
    for t in [TableBlockCellTypes::Empty, TableBlockCellTypes::Text, TableBlockCellTypes::Member] {
        assert_eq!(TableBlockCellTypes::from(CellNodeTypes::from(t)), t);
    }
    assert_eq!(ColumnNodeTypes::from(TableBlockColumnTypes::Text), ColumnNodeTypes::Text);
}

#[test]
fn text_cell_becomes_text_node() {
    let n = CellNode::from(TableBlockCell {
        id: 7,
        row_id: 1,
        column_id: 2,
        cell_type: TableBlockCellTypes::Text,
        cell_data: TableBlockCells::TableBlockTextCell(TableBlockTextCell { id: 70, text: "hello".to_string() }),
    });
    assert_eq!(n.label, format!("Cell {}", uuid_text(7)));
    assert_eq!(n.debug_info, format!("TableBlockCell {}", uuid_text(7)));
    assert_eq!(n.cell_type, CellNodeTypes::Text);
    match n.data {
        Some(NodeTypes::Text(t)) => {
            assert_eq!(t.id, 7);
            assert_eq!(t.text, "hello");
            assert_eq!(t.label, format!("Text for {}", uuid_text(7)));
        }
        _ => panic!("expected a text node"),
    }
}

#[test]
fn member_cell_becomes_list_of_users() {
    let n = CellNode::from(TableBlockCell {
        id: 8,
        row_id: 1,
        column_id: 2,
        cell_type: TableBlockCellTypes::Member,
        cell_data: TableBlockCells::TableBlockMemberCell(TableBlockMemberCell { id: 80, member_ids: vec![100, 200] }),
    });
    match n.data {
        Some(NodeTypes::List(l)) => {
            assert_eq!(l.id, 80);
            assert_eq!(l.label, format!("Member for {}", uuid_text(8)));
            assert_eq!(l.nodes.len(), 2);
            match &l.nodes[1] {
                NodeTypes::User(u) => {
                    assert_eq!(u.user_id, 200);
                    assert_eq!(u.id, 200);
                    assert_eq!(u.label, format!("Member {}", uuid_text(200)));
                }
                _ => panic!("expected a user node"),
            }
        }
        _ => panic!("expected a list node"),
    }
}

#[test]
fn empty_cell_carries_nothing() {
    let n = CellNode::from(TableBlockCell {
        id: 8,
        row_id: 1,
        column_id: 2,
        cell_type: TableBlockCellTypes::Empty,
        cell_data: TableBlockCells::TableBlockEmptyCell(TableBlockEmptyCell { id: 8 }),
    });
    assert!(n.data.is_none());
    assert_eq!(n.cell_type, CellNodeTypes::Empty);
}

fn sample_table() -> TableBlock {
    TableBlock {
        rows: vec![TableBlockRow { id: 1, index: 0 }, TableBlockRow { id: 2, index: 1 }],
        columns: vec![TableBlockColumn { id: 3, index: 0, column_type: TableBlockColumnTypes::Text, label: "Name".to_string() }],
        cells: vec![TableBlockCell {
            id: 4,
            row_id: 1,
            column_id: 3,
            cell_type: TableBlockCellTypes::Text,
            cell_data: TableBlockCells::TableBlockTextCell(TableBlockTextCell { id: 4, text: "x".to_string() }),
        }],
    }
}

#[test]
fn table_node_keeps_order_and_counts() {
    let n = TableNode::from(sample_table());
    assert_eq!(n.label, "Table");
    assert_eq!(n.debug_info, "TableBlock");
    assert_eq!(n.rows.len(), 2);
    assert_eq!(n.rows[1].label, "Row 1");
    assert_eq!(n.columns[0].label, "Name");
    assert_eq!(n.cells[0].id, 4);
    assert_eq!(uuid::Uuid::from_u128(n.id).get_version_num(), 4);
}

#[test]
fn tap_wraps_the_table() {
    let t = sample_table();
    let root = t.tap();
    assert_eq!(root.label, "Root Node");
    assert_eq!(root.debug_info, "Root Node for");
    match root.data {
        Some(NodeTypes::Table(n)) => {
            assert_eq!(n.rows.len(), 2);
            assert_eq!(n.cells.len(), 1);
            assert_ne!(n.id, root.id);
        }
        _ => panic!("expected a table node"),
    }
}

#[test]
fn visitor_collects_rows_and_columns() {
    let mut v = TableBlockVisitor::new();
    let table = TableNode::from(sample_table());
    v.enter_row(&table.rows[0]);
    v.enter_row(&table.rows[1]);
    v.enter_column(&table.columns[0]);
    assert_eq!(v.rows, vec![TableBlockRow { id: 1, index: 0 }, TableBlockRow { id: 2, index: 1 }]);
    assert_eq!(v.columns.len(), 1);
    assert_eq!(v.columns[0].label, "Name");
    assert_eq!(v.columns[0].column_type, TableBlockColumnTypes::Text);
}

#[test]
fn entered_cell_is_collected_on_exit() {
    let mut v = TableBlockVisitor::new();
    let c = cell_node(10, 1, 2, CellNodeTypes::Empty);
    v.enter_cell(&c);
    assert!(v.cells.is_empty());
    v.exit_cell(&c);
    assert!(v.current_cell.is_none());
    assert_eq!(v.cells.len(), 1);
    assert_eq!(v.cells[0].id, 10);
    assert_eq!(v.cells[0].row_id, 1);
    assert_eq!(v.cells[0].column_id, 2);
    match &v.cells[0].cell_data {
        TableBlockCells::TableBlockEmptyCell(e) => assert_eq!(e.id, 10),
        _ => panic!("expected an empty cell"),
    }
}

#[test]
fn members_accumulate_in_order() {
    let mut v = TableBlockVisitor::new();
    let c = cell_node(11, 1, 2, CellNodeTypes::Member);
    v.enter_cell(&c);
    v.enter_user(&user_node(100));
    v.enter_user(&user_node(200));
    v.exit_cell(&c);
    assert_eq!(v.cells[0].cell_type, TableBlockCellTypes::Member);
    match &v.cells[0].cell_data {
        TableBlockCells::TableBlockMemberCell(m) => {
            assert_eq!(m.id, 11);
            assert_eq!(m.member_ids, vec![100, 200]);
        }
        _ => panic!("expected a member cell"),
    }
}

#[test]
fn text_fills_the_open_cell() {
    let mut v = TableBlockVisitor::new();
    let c = cell_node(12, 1, 2, CellNodeTypes::Text);
    v.enter_cell(&c);
    v.enter_text(&TextNode { id: 99, label: String::new(), text: "hi".to_string() });
    v.exit_cell(&c);
    match &v.cells[0].cell_data {
        TableBlockCells::TableBlockTextCell(t) => {
            assert_eq!(t.id, 99);
            assert_eq!(t.text, "hi");
        }
        _ => panic!("expected a text cell"),
    }
}

#[test]
fn nodes_without_open_cell_change_nothing() {
    let mut v = TableBlockVisitor::new();
    let c = cell_node(13, 1, 2, CellNodeTypes::Text);
    v.enter_text(&TextNode { id: 1, label: String::new(), text: "lost".to_string() });
    v.enter_user(&user_node(5));
    v.exit_cell(&c);
    assert!(v.current_cell.is_none());
    assert!(v.cells.is_empty());
}

#[test]
fn new_cell_replaces_unfinished_one() {
    let mut v = TableBlockVisitor::new();
    let a = cell_node(20, 1, 2, CellNodeTypes::Empty);
    let b = cell_node(21, 1, 3, CellNodeTypes::Empty);
    v.enter_cell(&a);
    v.enter_cell(&b);
    v.exit_cell(&b);
    assert_eq!(v.cells.len(), 1);
    assert_eq!(v.cells[0].id, 21);
}

#[test]
fn sink_gives_an_empty_table_whatever_the_tree() {
    let block = TableBlock {
        rows: vec![TableBlockRow { id: 1, index: 0 }],
        columns: vec![TableBlockColumn {
            id: 2,
            index: 0,
            column_type: TableBlockColumnTypes::Text,
            label: "A".to_string(),
        }],
        cells: vec![TableBlockCell {
            id: 3,
            row_id: 1,
            column_id: 2,
            cell_type: TableBlockCellTypes::Text,
            cell_data: TableBlockCells::TableBlockTextCell(TableBlockTextCell { id: 3, text: "x".to_string() }),
        }],
    };
    let sunk = block.sink(block.tap());
    assert!(sunk.rows.is_empty());
    assert!(sunk.columns.is_empty());
    assert!(sunk.cells.is_empty());
}
