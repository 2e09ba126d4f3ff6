use portals_api::schema::org::{DBOrg, Org};
use portals_api::time::Timestamp;
use portals_api::names::ParseError;
use portals_api::schema::block::{block_config_serde_value_to_block_config, Block, BlockConfigError, BlockConfigs, BlockTypes, DBBlock, GQLBlocks};
use portals_api::schema::block_configs::BlockConfigValue;
use portals_api::schema::blocks::text_block::TextBlock;
use portals_api::schema::cell::{Cell, CellTypes, DBCell, GQLCells};
use portals_api::schema::cells::BasicTextCell;
use portals_api::schema::connection::{Connection, ConnectionDestinationTypes, DBConnection};
use portals_api::schema::dimension::{DBDimension, Dimension, DimensionTypes, GQLDimensions};
use portals_api::schema::dimensions::PortalMemberDimension;
use portals_api::schema::integration::{DBIntegration, GoogleSheetsIntegration, GoogleSheetsIntegrationInput, Integration, IntegrationData, IntegrationTypes, NewIntegration};
use portals_api::schema::policy::{DBPolicy, GrantTypes, PermissionTypes, Policy, PolicyTypes};
use portals_api::schema::role::{DBNewRole, DBRole, NewRole, Role, RolePerms, RoleTypes, PortalPermissions};

fn db_block(block_type: &str, config: Option<BlockConfigValue>) -> DBBlock {
    DBBlock {
        id: 1,
        name: "b".to_string(),
        project_id: 2,
        dashboard_id: 3,
        page_id: 4,
        block_type: block_type.to_string(),
        block_data: GQLBlocks::Text(TextBlock { id: 9, text: "t".to_string() }),
        block_config: config,
        created_at: ts(10),
        created_by: 11,
        updated_at: ts(12),
        updated_by: 13,
    }
}

#[test]
fn block_reads_kind_and_settings() {
    let b = Block::try_from(db_block("Text", Some(BlockConfigValue { something: Some("s".to_string()) }))).unwrap();
    assert_eq!(b.block_type, BlockTypes::Text);
    assert_eq!(b.id, 1);
    assert_eq!(b.updated_by, 13);
    match b.block_config {
        BlockConfigs::Text(c) => assert_eq!(c.something, Some("s".to_string())),
        _ => panic!("expected text settings"),
    }
    match b.block_data {
        GQLBlocks::Text(t) => assert_eq!(t.text, "t"),
        _ => panic!("expected text content"),
    }
}

#[test]
fn block_settings_that_did_not_decode_are_refused() {
    assert!(matches!(block_config_serde_value_to_block_config(&BlockTypes::Files, None), Err(BlockConfigError::Malformed)));
    match block_config_serde_value_to_block_config(&BlockTypes::Files, Some(BlockConfigValue { something: None })) {
        Ok(BlockConfigs::Files(c)) => assert!(c.something.is_none()),
        _ => panic!("expected files settings"),
    }
}

#[test]
fn cell_reads_kind() {
    let c = Cell::from(DBCell {
        id: 1,
        portal_id: 2,
        cell_type: "BasicText".to_string(),
        dimensions: vec![5, 6],
        cell_data: GQLCells::BasicTextCell(BasicTextCell { text: "x".to_string() }),
        created_at: ts(0),
        created_by: 0,
        updated_at: ts(0),
        updated_by: 0,
    });
    assert_eq!(c.cell_type, CellTypes::BasicText);
    assert_eq!(c.dimensions, vec![5, 6]);
}

#[test]
fn dimension_reads_kind() {
    let d = Dimension::from(DBDimension {
        id: 1,
        portal_id: 2,
        name: "who".to_string(),
        dimension_type: "PortalMember".to_string(),
        dimension_data: GQLDimensions::PortalMember(PortalMemberDimension { user_id: 42 }),
        created_at: ts(0),
        created_by: 0,
        updated_at: ts(0),
        updated_by: 0,
    });
    assert_eq!(d.dimension_type, DimensionTypes::PortalMember);
    assert_eq!(d.dimension_data, GQLDimensions::PortalMember(PortalMemberDimension { user_id: 42 }));
}

#[test]
fn role_reads_scope() {
    let r = Role::from(DBRole {
        id: 1,
        role_type: "Portal".to_string(),
        perms: RolePerms::Portal(PortalPermissions { view_portal: true, edit_portal: false }),
        created_at: ts(0),
        created_by: 0,
        updated_at: ts(0),
        updated_by: 0,
    });
    assert_eq!(r.role_type, RoleTypes::Portal);
    assert_eq!(NewRole::from(DBNewRole { role_type: "Org".to_string() }).role_type, RoleTypes::Org);
    assert_eq!(NewRole { role_type: RoleTypes::System }.into_db().role_type, "System");
}

#[test]
fn connection_reads_optional_destination() {
    let base = |t: Option<String>| DBConnection {
        id: 1,
        name: "c".to_string(),
        block_id: 2,
        source_id: Some(3),
        sourcequery_id: None,
        destination_id: None,
        destination_type: t,
        created_at: ts(0),
        created_by: 0,
        updated_at: ts(0),
        updated_by: 0,
    };
    assert_eq!(Connection::from(base(Some("Block".to_string()))).destination_type, Some(ConnectionDestinationTypes::Block));
    let c = Connection::from(base(None));
    assert!(c.destination_type.is_none());
    assert_eq!(c.source_id, Some(3));
}

fn db_policy(policy_type: &str, permission_type: &str, grant_type: &str) -> DBPolicy {
    DBPolicy {
        id: 1,
        resource_id: 2,
        policy_type: policy_type.to_string(),
        permission_type: permission_type.to_string(),
        grant_type: grant_type.to_string(),
        user_ids: vec![7],
        created_at: ts(0),
        created_by: 0,
        updated_at: ts(0),
        updated_by: 0,
    }
}

#[test]
fn policy_reads_its_three_kinds() {
    let p = Policy::try_from(db_policy("Page", "User", "Read")).unwrap();
    assert_eq!(p.policy_type, PolicyTypes::PagePolicy);
    assert_eq!(p.permission_type, PermissionTypes::UserPermission);
    assert_eq!(p.grant_type, GrantTypes::Read);
    assert_eq!(p.user_ids, vec![7]);
}

#[test]
fn policy_with_unknown_kind_is_refused() {
    assert!(matches!(Policy::try_from(db_policy("Page", "User", "Write")), Err(ParseError::VariantNotFound)));
    assert!(matches!(Policy::try_from(db_policy("Org", "User", "Read")), Err(ParseError::VariantNotFound)));
    assert!(matches!(Policy::try_from(db_policy("Page", "Portal", "Read")), Err(ParseError::VariantNotFound)));
}

#[test]
fn policies_are_read_in_order() {
    let ps = Policy::all_from(vec![db_policy("Page", "User", "Read"), db_policy("Block", "Block", "All")]);
    assert_eq!(ps.len(), 2);
    assert_eq!(ps[1].grant_type, GrantTypes::All);
}

#[test]
fn integration_reads_service_and_stores_empty_dimensions() {
    let i = Integration::from(DBIntegration {
        id: 1,
        name: "sheet".to_string(),
        portal_id: 2,
        integration_type: "GoogleSheets".to_string(),
        integration_data: GoogleSheetsIntegration {
            sheet_url: "u".to_string(),
            sheet_name: "n".to_string(),
            row_dimensions: vec!["a".to_string()],
            col_dimensions: vec![],
        },
    });
    assert_eq!(i.integration_type, IntegrationTypes::GoogleSheets);
    let IntegrationData::GoogleSheets(d) = &i.integration_data;
    assert_eq!(d.row_dimensions, vec!["a".to_string()]);
    assert_eq!(i.fetch_value(vec![]), "stubbed out");
    let n = NewIntegration {
        portal_id: 3,
        name: "x".to_string(),
        integration_type: IntegrationTypes::GoogleSheets,
        integration_data: GoogleSheetsIntegrationInput { sheet_url: "url".to_string(), sheet_name: "s".to_string() },
    }
    .into_db();
    assert_eq!(n.integration_type, "GoogleSheets");
    assert_eq!(n.integration_data.sheet_url, "url");
    assert!(n.integration_data.row_dimensions.is_empty());
    assert!(n.integration_data.col_dimensions.is_empty());
}

fn ts(secs: i64) -> Timestamp {
    Timestamp { secs, nanos: 0 }
}

#[test]
fn timestamps_keep_their_nanoseconds() {
    let at = Timestamp { secs: 1_662_921_288, nanos: 123_456_789 };
    let leap = Timestamp { secs: 1_483_228_799, nanos: 1_500_000_000 };
    let o = Org::from(DBOrg { id: 1, name: "o".to_string(), created_at: at, created_by: 2, updated_at: leap, updated_by: 3 });
    assert_eq!(o.created_at, at);
    assert_eq!(o.updated_at.nanos, 1_500_000_000);
}
