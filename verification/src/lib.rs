//! Verified core of the portals API server: the data model behind the GraphQL
//! schema, the conversions from database rows into that model, the table and
//! chart visitors over the intermediate representation, and the decisions the
//! resolvers make between their database and storage calls.

pub mod auth;
pub mod config;
pub mod ids;
pub mod ir;
pub mod loaders;
pub mod names;
pub mod schema;
pub mod text;
pub mod time;
mod schema_root;

pub use schema_root::{Mutation, Query};
