use portals_api::ir::{CellNode, CellNodeTypes, ColumnNode, ColumnNodeTypes, FloatNode, ListNode, NodeTypes, RowNode, TableNode, TextNode, UserNode};
use portals_api::schema::blocks::xy_chart_block::{XYChartBlock, XYChartBlockVisitor, XYChartDatum, XYChartDatumTypes, XYChartTypes};

fn table(id: u128) -> TableNode {
    TableNode { id, label: String::new(), debug_info: String::new(), rows: vec![], columns: vec![], cells: vec![] }
}

fn column(id: u128, label: &str) -> ColumnNode {
    ColumnNode { id, index: 0, column_type: ColumnNodeTypes::Text, label: label.to_string(), debug_info: String::new(), data: None }
}

fn row(id: u128) -> RowNode {
    RowNode { id, index: 0, label: String::new(), debug_info: String::new(), data: None }
}

fn cell(row_id: u128, column_id: u128, data: Option<NodeTypes>) -> CellNode {
    CellNode { id: 1000, row_id, column_id, cell_type: CellNodeTypes::Text, label: String::new(), debug_info: String::new(), data }
}

fn prepared() -> XYChartBlockVisitor {
    let mut v = XYChartBlockVisitor::new();
    v.enter_table(&table(1));
    v.enter_column(&column(10, "Revenue"));
    v.enter_column(&column(11, "Owner"));
    v.enter_row(&row(100));
    v
}

#[test]
fn table_opens_current_series() {
    let mut v = XYChartBlockVisitor::new();
    assert_eq!(v.chart_type, XYChartTypes::Line);
    v.enter_table(&table(1));
    assert_eq!(v.current_series, Some(1));
    assert_eq!(v.series.len(), 1);
    assert_eq!(v.series[0].label, "Series 1");
    assert!(v.series[0].groups.is_empty());
}

#[test]
fn row_opens_empty_group() {
    let v = prepared();
    assert_eq!(v.series[0].groups.len(), 1);
    assert_eq!(v.series[0].groups[0].id, 100);
    assert!(v.series[0].groups[0].data.is_empty());
}

#[test]
fn text_cell_becomes_text_datum_named_after_column() {
    let mut v = prepared();
    v.enter_cell(&cell(100, 10, Some(NodeTypes::Text(TextNode { id: 5, label: String::new(), text: "12".to_string() }))));
    match &v.series[0].groups[0].data[0] {
        XYChartDatum::Text(d) => {
            assert_eq!(d.key, "Revenue");
            assert_eq!(d.text, "12");
            assert_eq!(d.datum_type, XYChartDatumTypes::Text);
        }
        _ => panic!("expected a text datum"),
    }
}

#[test]
fn float_cell_becomes_number_datum() {
    let mut v = prepared();
    let bits = 2.5f64.to_bits();
    v.enter_cell(&cell(100, 10, Some(NodeTypes::Float(FloatNode { value_bits: bits }))));
    match &v.series[0].groups[0].data[0] {
        XYChartDatum::Number(d) => {
            assert_eq!(d.key, "Revenue");
            assert_eq!(f64::from_bits(d.number_bits), 2.5);
            assert_eq!(d.datum_type, XYChartDatumTypes::Number);
        }
        _ => panic!("expected a number datum"),
    }
}

#[test]
fn user_cell_becomes_label_and_list_becomes_empty_text() {
    let mut v = prepared();
    v.enter_cell(&cell(100, 11, Some(NodeTypes::User(UserNode { id: 1, label: "Ada".to_string(), user_id: 1 }))));
    v.enter_cell(&cell(100, 11, Some(NodeTypes::List(ListNode { id: 2, label: "l".to_string(), nodes: vec![] }))));
    let data = &v.series[0].groups[0].data;
    assert_eq!(data.len(), 2);
    match (&data[0], &data[1]) {
        (XYChartDatum::Text(a), XYChartDatum::Text(b)) => {
            assert_eq!(a.text, "Ada");
            assert_eq!(a.key, "Owner");
            assert_eq!(b.text, "");
        }
        _ => panic!("expected text data"),
    }
}

#[test]
fn cell_without_content_or_group_changes_nothing() {
    let mut v = prepared();
    v.enter_cell(&cell(100, 10, None));
    v.enter_cell(&cell(999, 12, Some(NodeTypes::Text(TextNode { id: 5, label: String::new(), text: "x".to_string() }))));
    assert!(v.series[0].groups[0].data.is_empty());
}

#[test]
fn rows_go_to_first_series_with_current_id() {
    let mut v = XYChartBlockVisitor::new();
    v.enter_table(&table(1));
    v.enter_table(&table(2));
    v.enter_row(&row(7));
    assert!(v.series[0].groups.is_empty());
    assert_eq!(v.series[1].groups.len(), 1);
    v.enter_row_of_series(1, &row(8));
    assert_eq!(v.series[0].groups[0].id, 8);
}

#[test]
fn finish_keeps_series() {
    let v = prepared();
    let block = v.finish();
    assert_eq!(block.chart_type, XYChartTypes::Line);
    assert!(block.primary_axis.is_none());
    assert_eq!(block.series.len(), 1);
    let root = block.tap();
    assert_eq!(root.debug_info, "Root Node for XYChart");
    assert!(root.data.is_none());
    let n = TableNode::from_xy_chart(XYChartBlock { chart_type: XYChartTypes::Bar, primary_axis: None, series: vec![] });
    assert_eq!(n.debug_info, "XYChartBlock");
    assert!(n.rows.is_empty());
}

#[test]
fn cell_without_current_series_changes_nothing_even_with_unknown_column() {
    let mut v = prepared();
    v.current_series = None;
    // Column 99 was never entered; series 1 reaches row 100, but a fresh random
    // identifier cannot be 1, so the cell lands nowhere.
    v.enter_cell(&cell(100, 99, Some(NodeTypes::Text(TextNode { id: 5, label: String::new(), text: "x".to_string() }))));
    assert!(v.current_series.is_none());
    assert_eq!(v.series.len(), 1);
    assert_eq!(v.series[0].groups.len(), 1);
    assert!(v.series[0].groups[0].data.is_empty());
}
