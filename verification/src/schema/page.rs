//! Pages of a dashboard and the grid that lays out their blocks.
use vstd::prelude::*;
use crate::time::Timestamp;
use crate::ids::{is_random_uuid, new_uuid};

verus! {

/// A block's place in a grid row, between `start` and `end` (64-bit floats,
/// held as their bit patterns).
#[derive(Clone, Copy, Debug, PartialEq, Eq, Structural)]
pub struct GridBlock {
    pub id: u128,
    pub block_id: Option<u128>,
    pub is_empty: bool,
    pub start_bits: u64,
    pub end_bits: u64,
}

/// A row of a grid.
pub struct GridRow {
    pub id: u128,
    pub height: i32,
    pub blocks: Vec<GridBlock>,
}

/// The layout of a page: rows of blocks.
pub struct Grid {
    pub id: u128,
    pub rows: Vec<GridRow>,
}

/// A block's place in a grid row, as given by a client.
#[derive(Clone, Copy, Debug, PartialEq, Eq, Structural)]
pub struct GridBlockInput {
    pub id: u128,
    pub block_id: Option<u128>,
    pub is_empty: bool,
    pub start_bits: u64,
    pub end_bits: u64,
}

/// A row of a grid, as given by a client.
pub struct GridRowInput {
    pub id: u128,
    pub height: i32,
    pub blocks: Vec<GridBlockInput>,
}

/// The layout of a page, as given by a client.
pub struct GridInput {
    pub id: u128,
    pub rows: Vec<GridRowInput>,
}

impl Grid {
    /// An empty layout with a fresh random identifier.
    pub fn new() -> (g: Grid)
        ensures
            is_random_uuid(g.id),
            g.rows@.len() == 0,
    {
        Grid { id: new_uuid(), rows: Vec::new() }
    }
}

/// A page. Timestamps are instants in UTC.
pub struct Page {
    pub id: u128,
    pub name: String,
    pub project_id: u128,
    pub dashboard_id: u128,
    pub grid: Grid,
    pub created_at: Timestamp,
    pub created_by: u128,
    pub updated_at: Timestamp,
    pub updated_by: u128,
}

/// A page as the database hands it over, its layout decoded.
pub struct DBPage {
    pub id: u128,
    pub name: String,
    pub project_id: u128,
    pub dashboard_id: u128,
    pub grid: Grid,
    pub created_at: Timestamp,
    pub created_by: u128,
    pub updated_at: Timestamp,
    pub updated_by: u128,
}

/// The input for creating a page.
pub struct NewPage {
    pub name: String,
    pub project_id: u128,
    pub dashboard_id: u128,
}

/// The input for changing a page.
pub struct UpdatePage {
    pub id: u128,
    pub name: Option<String>,
    pub project_id: Option<u128>,
    pub dashboard_id: Option<u128>,
    pub grid: Option<GridInput>,
}

/// The page that a stored one reads as: every field carried over.
pub open spec fn page_of(p: DBPage) -> Page {
    Page {
        id: p.id,
        name: p.name,
        project_id: p.project_id,
        dashboard_id: p.dashboard_id,
        grid: p.grid,
        created_at: p.created_at,
        created_by: p.created_by,
        updated_at: p.updated_at,
        updated_by: p.updated_by,
    }
}

/// Reading a stored page keeps every one of its fields as it was stored.
pub proof fn lemma_page_of_keeps_fields(stored: DBPage)
    ensures
        page_of(stored).id == stored.id,
        page_of(stored).name == stored.name,
        page_of(stored).project_id == stored.project_id,
        page_of(stored).dashboard_id == stored.dashboard_id,
        page_of(stored).grid == stored.grid,
        page_of(stored).created_at == stored.created_at,
        page_of(stored).created_by == stored.created_by,
        page_of(stored).updated_at == stored.updated_at,
        page_of(stored).updated_by == stored.updated_by,
{
}

impl Page {
    /// Reads a stored page.
    pub fn from(page: DBPage) -> (p: Page)
        ensures
            p == page_of(page),
            p.id == page.id,
            p.name == page.name,
            p.project_id == page.project_id,
            p.dashboard_id == page.dashboard_id,
            p.grid == page.grid,
            p.created_at == page.created_at,
            p.created_by == page.created_by,
            p.updated_at == page.updated_at,
            p.updated_by == page.updated_by,
    {
        Page {
            id: page.id,
            name: page.name,
            grid: page.grid,
            project_id: page.project_id,
            dashboard_id: page.dashboard_id,
            created_at: page.created_at,
            created_by: page.created_by,
            updated_at: page.updated_at,
            updated_by: page.updated_by,
        }
    }
}

} // verus!
