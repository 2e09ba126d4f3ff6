//! Batch loading: turning what one database query returns for many keys into
//! an answer per key.
pub mod dashboard_loader;
pub mod org_loader;
