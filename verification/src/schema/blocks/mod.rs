//! The kinds of block a page can hold.
pub mod cells_block;
pub mod empty_block;
pub mod files_block;
pub mod table_block;
pub mod text_block;
pub mod xy_chart_block;
