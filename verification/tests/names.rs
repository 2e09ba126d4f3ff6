use portals_api::names::ParseError;
use portals_api::schema::block::BlockTypes;
use portals_api::schema::blocks::table_block::{TableBlockCellTypes, TableBlockColumnTypes};
use portals_api::schema::blocks::xy_chart_block::{XYChartAxisTypes, XYChartDatumTypes, XYChartTypes};
use portals_api::schema::cell::CellTypes;
use portals_api::schema::connection::ConnectionDestinationTypes;
use portals_api::schema::connection_content::ContentTypes;
use portals_api::schema::dimension::DimensionTypes;
use portals_api::schema::integration::IntegrationTypes;
use portals_api::schema::policy::{GrantTypes, PermissionTypes, PolicyTypes};
use portals_api::schema::role::RoleTypes;

#[test]
fn block_types_round_trip() {
    for t in [BlockTypes::Table, BlockTypes::Text, BlockTypes::Cells, BlockTypes::XYChart, BlockTypes::Files] {
        assert_eq!(BlockTypes::from_str(t.as_str()), Ok(t));
        assert_eq!(t.to_string(), t.as_str());
    }
    assert_eq!(BlockTypes::XYChart.as_str(), "XYChart");
}

#[test]
fn block_types_refuse_other_text() {
    assert_eq!(BlockTypes::from_str("Empty"), Err(ParseError::VariantNotFound));
    assert_eq!(BlockTypes::from_str("table"), Err(ParseError::VariantNotFound));
    assert_eq!(BlockTypes::from_str(""), Err(ParseError::VariantNotFound));
    assert_eq!(BlockTypes::from_str("Table "), Err(ParseError::VariantNotFound));
}

#[test]
fn policy_names_are_the_short_ones() {
    assert_eq!(PolicyTypes::ProjectPolicy.as_str(), "Project");
    assert_eq!(PolicyTypes::from_str("Dashboard"), Ok(PolicyTypes::DashboardPolicy));
    assert_eq!(PolicyTypes::from_str("ProjectPolicy"), Err(ParseError::VariantNotFound));
    assert_eq!(PermissionTypes::from_str("User"), Ok(PermissionTypes::UserPermission));
    assert_eq!(PermissionTypes::BlockPermission.to_string(), "Block");
    assert_eq!(GrantTypes::from_str("Delete"), Ok(GrantTypes::Delete));
    assert_eq!(GrantTypes::from_str("delete"), Err(ParseError::VariantNotFound));
}

#[test]
fn every_enumeration_round_trips() {
    for t in [TableBlockColumnTypes::Text, TableBlockColumnTypes::Member] {
        assert_eq!(TableBlockColumnTypes::from_str(t.as_str()), Ok(t));
    }
    for t in [TableBlockCellTypes::Empty, TableBlockCellTypes::Text, TableBlockCellTypes::Member] {
        assert_eq!(TableBlockCellTypes::from_str(t.as_str()), Ok(t));
    }
    for t in [XYChartTypes::Line, XYChartTypes::Bar, XYChartTypes::StackedBar, XYChartTypes::HorizontalBar, XYChartTypes::HorizontalStackedBar] {
        assert_eq!(XYChartTypes::from_str(t.as_str()), Ok(t));
    }
    for t in [XYChartAxisTypes::Linear, XYChartAxisTypes::Band, XYChartAxisTypes::Time, XYChartAxisTypes::TimeLocal, XYChartAxisTypes::Log] {
        assert_eq!(XYChartAxisTypes::from_str(t.as_str()), Ok(t));
    }
    for t in [XYChartDatumTypes::Text, XYChartDatumTypes::Number] {
        assert_eq!(XYChartDatumTypes::from_str(t.as_str()), Ok(t));
    }
    for t in [CellTypes::BasicText, CellTypes::OwnerText, CellTypes::GoogleSheets] {
        assert_eq!(CellTypes::from_str(t.as_str()), Ok(t));
    }
    assert_eq!(ConnectionDestinationTypes::from_str("Block"), Ok(ConnectionDestinationTypes::Block));
    for t in [ContentTypes::TableBlock, ContentTypes::TextBlock, ContentTypes::CellsBlock, ContentTypes::XYChartBlock] {
        assert_eq!(ContentTypes::from_str(t.as_str()), Ok(t));
    }
    for t in [
        DimensionTypes::PortalMember,
        DimensionTypes::BasicTableRow,
        DimensionTypes::BasicTableColumn,
        DimensionTypes::OwnerText,
        DimensionTypes::GoogleSheetsRow,
        DimensionTypes::GoogleSheetsColumn,
        DimensionTypes::Empty,
    ] {
        assert_eq!(DimensionTypes::from_str(t.as_str()), Ok(t));
    }
    assert_eq!(IntegrationTypes::from_str("GoogleSheets"), Ok(IntegrationTypes::GoogleSheets));
    for t in [RoleTypes::System, RoleTypes::Org, RoleTypes::Portal] {
        assert_eq!(RoleTypes::from_str(t.as_str()), Ok(t));
    }
    assert_eq!(RoleTypes::from_str("Admin"), Err(ParseError::VariantNotFound));
}
