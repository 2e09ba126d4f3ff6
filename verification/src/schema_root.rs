//! The roots of the GraphQL schema.
use vstd::prelude::*;

verus! {

/// Root of the read side of the GraphQL schema.
pub struct Query;

/// Root of the write side of the GraphQL schema.
pub struct Mutation;

impl Query {
    /// The version of the API that the server reports.
    pub fn api_version() -> (version: String)
        ensures
            version@ == "1.0"@,
    {
        "1.0".to_string()
    }
}

} // verus!
