//! The GraphQL data model and the logic of its resolvers.
pub mod block;
pub mod blocks;
pub mod block_configs;
pub mod cell;
pub mod cells;
pub mod dimension;
pub mod dimensions;
pub mod role;
pub mod connection;
pub mod connection_content;
pub mod dashboard;
pub mod org;
pub mod file;
pub mod s3;
pub mod email;
pub mod policy;
pub mod portal;
pub mod portalview;
pub mod page;
pub mod project;
pub mod google_sheets;
pub mod integration;
pub mod query_options;
