use portals_api::time::Timestamp;
use portals_api::auth::{access_token, Auth0UserClaims, Auth0UserId};
use portals_api::config::{config_source, server_config, Auth0, Config, ConfigError, ConfigSource};
use portals_api::loaders::dashboard_loader::DashboardBatcher;
use portals_api::loaders::org_loader::OrgBatcher;
use portals_api::schema::block::{Block, BlockConfigs, BlockTypes, GQLBlocks};
use portals_api::schema::block_configs::TableBlockConfig;
use portals_api::schema::blocks::table_block::{TableBlock, TableBlockColumn, TableBlockColumnTypes};
use portals_api::schema::dashboard::DBDashboard;
use portals_api::schema::email::{EmailContent, EmailTemplate, InviteNewUserToPortalParams};
use portals_api::schema::file::{download_file_request, upload_file_answer, upload_file_request, DBFile, UploadFileParams};
use portals_api::schema::google_sheets::{google_sheets_redirect_uri, OAuthConfig};
use portals_api::schema::org::{user_orgs, DBOrg, Org};
use portals_api::schema::portal::{default_portal_views, portal_update_for_invite, DBPortal, InviteError};
use portals_api::schema::project::{confirm_user_added, DBProject, Project, ProjectError};
use portals_api::schema::query_options::{BQOptions, BlockQueryOptions};
use portals_api::schema::s3::{s3_download_request, s3_upload_request, S3RequestData};
use portals_api::Query;

fn db_dashboard(id: u128, project_id: u128) -> DBDashboard {
    DBDashboard { id, name: format!("d{}", id), project_id, page_ids: vec![], created_at: ts(0), created_by: 0, updated_at: ts(0), updated_by: 0 }
}

#[test]
fn dashboards_grouped_by_project_with_empty_lists() {
    let m = DashboardBatcher::load_dashboards(vec![db_dashboard(1, 10), db_dashboard(2, 20), db_dashboard(3, 10)], &vec![10, 30]);
    assert_eq!(m.len(), 3);
    let ids: Vec<u128> = m[&10].iter().map(|d| d.id).collect();
    assert_eq!(ids, vec![1, 3]);
    assert_eq!(m[&20].len(), 1);
    assert!(m[&30].is_empty());
}

#[test]
fn no_dashboards_no_requests_gives_nothing() {
    assert!(DashboardBatcher::load_dashboards(vec![], &vec![]).is_empty());
}

fn db_org(id: u128, name: &str) -> DBOrg {
    DBOrg { id, name: name.to_string(), created_at: ts(0), created_by: 0, updated_at: ts(0), updated_by: 0 }
}

#[test]
fn orgs_indexed_by_id_last_wins() {
    let m = OrgBatcher::load_orgs(vec![db_org(1, "a"), db_org(2, "b"), db_org(1, "c")]);
    assert_eq!(m.len(), 2);
    assert_eq!(m[&1].name, "c");
    assert_eq!(m[&2].name, "b");
}

#[test]
fn user_orgs_keeps_only_members_in_order() {
    let org = |id: u128| Org { id, name: String::new(), created_at: ts(0), created_by: 0, updated_at: ts(0), updated_by: 0 };
    let orgs = user_orgs(vec![(1, org(1)), (2, org(2)), (3, org(3))], &vec![3, 1]);
    let ids: Vec<u128> = orgs.iter().map(|o| o.id).collect();
    assert_eq!(ids, vec![1, 3]);
}

#[test]
fn invitation_email_escapes_user() {
    let c = EmailContent::try_from(EmailTemplate::InviteNewUserToPortal(vec![
        InviteNewUserToPortalParams::new("a@b.c".to_string(), "Ann".to_string()),
        InviteNewUserToPortalParams::new("d@e.f".to_string(), "say \"hi\"\\\n\u{1}".to_string()),
    ]))
    .unwrap();
    assert_eq!(c.template_name, "inviteNewUserToPortal");
    assert_eq!(c.to_addresses, vec!["a@b.c".to_string(), "d@e.f".to_string()]);
    assert_eq!(c.template_data[0], "{\"user\":\"Ann\"}");
    assert_eq!(c.template_data[1], "{\"user\":\"say \\\"hi\\\"\\\\\\n\\u0001\"}");
    let mut expected = serde_json::Map::new();
    expected.insert("user".to_string(), serde_json::Value::String("say \"hi\"\\\n\u{1}".to_string()));
    assert_eq!(c.template_data[1], serde_json::Value::Object(expected).to_string());
}

#[test]
fn email_template_name() {
    assert_eq!(EmailTemplate::InviteNewUserToPortal(vec![]).to_string(), "inviteNewUserToPortal");
}

#[test]
fn upload_and_download_requests_use_file_folder() {
    let p = UploadFileParams { id: 3, project_id: 1, key: 2 };
    let folder = format!(
        "portals-dev-files-1/{}/{}/{}",
        uuid::Uuid::from_u128(1),
        uuid::Uuid::from_u128(2),
        uuid::Uuid::from_u128(3)
    );
    match upload_file_request(&p) {
        S3RequestData::PutObject(put) => {
            assert_eq!(put.bucket, folder);
            assert_eq!(put.key, uuid::Uuid::from_u128(3).to_string());
        }
        _ => panic!("expected a put"),
    }
    let u = upload_file_answer(&p, "https://x".to_string());
    assert_eq!((u.id, u.key, u.url.as_str()), (3, 2, "https://x"));
    let f = DBFile {
        id: 3,
        project_id: 1,
        name: "report.pdf".to_string(),
        key: 2,
        extension: "pdf".to_string(),
        version: 1,
        size: 10,
        created_at: ts(0),
        created_by: 0,
        updated_at: ts(0),
        updated_by: 0,
    };
    match download_file_request(&f) {
        S3RequestData::GetObject(get) => {
            assert_eq!(get.bucket, folder);
            assert_eq!(get.name, "report.pdf");
        }
        _ => panic!("expected a get"),
    }
}

#[test]
fn plain_presigned_requests() {
    match s3_upload_request("b".to_string(), "k".to_string()) {
        S3RequestData::PutObject(p) => assert_eq!((p.bucket.as_str(), p.key.as_str()), ("b", "k")),
        _ => panic!("expected a put"),
    }
    match s3_download_request("b".to_string(), "k".to_string()) {
        S3RequestData::GetObject(g) => assert_eq!(g.name, "Don't use this"),
        _ => panic!("expected a get"),
    }
}

fn db_portal() -> DBPortal {
    DBPortal {
        id: 5,
        name: "p".to_string(),
        org_id: 6,
        owner_ids: vec![1],
        vendor_ids: vec![2],
        created_at: ts(0),
        created_by: 0,
        updated_at: ts(0),
        updated_by: 0,
    }
}

#[test]
fn invite_as_owner_or_vendor() {
    let u = portal_update_for_invite(db_portal(), 9, "owner").unwrap();
    assert_eq!(u.owner_ids, Some(vec![1, 9]));
    assert!(u.vendor_ids.is_none());
    assert!(u.name.is_none());
    assert_eq!(u.id, 5);
    let v = portal_update_for_invite(db_portal(), 9, "vendor").unwrap();
    assert_eq!(v.vendor_ids, Some(vec![2, 9]));
    assert!(v.owner_ids.is_none());
}

#[test]
fn invite_with_other_role_is_refused() {
    assert!(matches!(portal_update_for_invite(db_portal(), 9, "Owner"), Err(InviteError::EgressNeitherOwnerNorVendor)));
    assert!(matches!(portal_update_for_invite(db_portal(), 9, ""), Err(InviteError::EgressNeitherOwnerNorVendor)));
    match portal_update_for_invite(db_portal(), 9, "admin") {
        Err(e) => assert_eq!(e.message(), "portal_invite_params.egress is neither owner or vendor"),
        Ok(_) => panic!("expected a refusal"),
    }
}

#[test]
fn new_portal_gets_owner_and_vendor_views() {
    let v = default_portal_views(5);
    assert_eq!(v.len(), 2);
    assert_eq!((v[0].name.as_str(), v[0].egress.as_str(), v[0].access.as_str()), ("Default Owner View", "owner", "private"));
    assert_eq!((v[1].name.as_str(), v[1].egress.as_str(), v[1].access.as_str()), ("Default Vendor View", "vendor", "private"));
    assert_eq!(v[1].portal_id, 5);
}

#[test]
fn adding_user_must_add_something() {
    assert!(confirm_user_added(1).is_ok());
    assert_eq!(confirm_user_added(0), Err(ProjectError::UserNotAdded));
    assert_eq!(ProjectError::UserNotAdded.message(), "User not added to project");
}

#[test]
fn config_comes_from_path_first() {
    assert!(matches!(config_source(Some("a.ron".to_string()), Some("(..)".to_string())), Ok(ConfigSource::File { path }) if path == "a.ron"));
    assert!(matches!(config_source(None, Some("(x)".to_string())), Ok(ConfigSource::Text { ron }) if ron == "(x)"));
    assert!(matches!(config_source(None, None), Err(ConfigError::NeitherPathNorTextSet)));
    assert_eq!(ConfigError::NeitherPathNorTextSet.message(), "Neither CONFIG_PATH nor CONFIG env vars were set.");
}

fn config(port: u16) -> Config {
    Config {
        logging_directive: "info".to_string(),
        tcp_port: port,
        allowed_origins: vec![],
        graceful_shutdown_timeout_sec: 1,
        max_payload_size_bytes: 1,
        database_connection_pool_size: 1,
        database_connection_timeout_sec: 1,
        database_url: String::new(),
        auth0: Auth0 {
            client_id: String::new(),
            client_secret: String::new(),
            token_endpoint: String::new(),
            api_endpoint: String::new(),
            api_signing_secret: String::new(),
        },
    }
}

#[test]
fn configuration_is_loaded_once() {
    let mut cell: Option<Config> = None;
    assert_eq!(server_config(&mut cell, || config(8080)).tcp_port, 8080);
    assert_eq!(server_config(&mut cell, || config(9090)).tcp_port, 8080);
    assert_eq!(cell.unwrap().tcp_port, 8080);
}

#[test]
fn access_token_is_second_word() {
    assert_eq!(access_token("Bearer abc.def"), Some("abc.def".to_string()));
    assert_eq!(access_token("  Bearer\t tok  extra "), Some("tok".to_string()));
    assert_eq!(access_token("Bearer"), None);
    assert_eq!(access_token(""), None);
    assert_eq!(access_token("Bearer\u{3000}x"), Some("x".to_string()));
    let id = Auth0UserId::from_claims(Auth0UserClaims { sub: "auth0|1".to_string() });
    assert_eq!(id.id, "auth0|1");
}

#[test]
fn redirect_uri_has_every_parameter() {
    let oauth = OAuthConfig {
        auth_url: "https://a/auth".to_string(),
        client_id: "cid".to_string(),
        auth_redirect_url: "https://me/cb".to_string(),
        sheets_scope: "s1".to_string(),
        drive_scope: "s2".to_string(),
    };
    assert_eq!(
        google_sheets_redirect_uri(&oauth, "xyz").redirect_uri,
        "https://a/auth?client_id=cid&redirect_uri=https://me/cb&response_type=code&scope=s1+s2&prompt=consent&access_type=offline&state=xyz"
    );
}

#[test]
fn table_block_query_options() {
    let block = Block {
        id: 1,
        name: String::new(),
        project_id: 0,
        dashboard_id: 0,
        page_id: 0,
        block_type: BlockTypes::Table,
        block_data: GQLBlocks::Table(TableBlock {
            rows: vec![],
            columns: vec![TableBlockColumn { id: 4, index: 0, column_type: TableBlockColumnTypes::Text, label: "c".to_string() }],
            cells: vec![],
        }),
        block_config: BlockConfigs::Table(TableBlockConfig { something: None }),
        created_at: ts(0),
        created_by: 0,
        updated_at: ts(0),
        updated_by: 0,
    };
    let o = BlockQueryOptions::for_block(77, block);
    assert_eq!(o.block_id, 77);
    assert_eq!(o.block_type, BlockTypes::Table);
    let BQOptions::Table(t) = o.options;
    assert_eq!(t.member, Some(true));
    assert_eq!(t.columns.unwrap()[0].id, 4);
}

#[test]
fn api_version_is_one() {
    assert_eq!(Query::api_version(), "1.0");
}

#[test]
fn project_dashboards_come_from_the_loader() {
    let project = Project::from(DBProject {
        id: 10,
        name: "p".to_string(),
        user_ids: vec![],
        created_at: ts(0),
        created_by: 0,
        updated_at: ts(0),
        updated_by: 0,
    });
    let loaded = DashboardBatcher::load_dashboards(vec![db_dashboard(1, 10), db_dashboard(2, 20)], &vec![10]);
    let ids: Vec<u128> = project.dashboards(loaded).iter().map(|d| d.id).collect();
    assert_eq!(ids, vec![1]);
    let nothing = DashboardBatcher::load_dashboards(vec![db_dashboard(2, 20)], &vec![]);
    assert!(project.dashboards(nothing).is_empty());
}

fn ts(secs: i64) -> Timestamp {
    Timestamp { secs, nanos: 0 }
}
