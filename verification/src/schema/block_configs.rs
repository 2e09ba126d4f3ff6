//! The settings of each kind of block.
use vstd::prelude::*;

verus! {

/// What the settings column of a stored block holds once decoded: every kind of
/// block keeps the same single optional field.
pub struct BlockConfigValue {
    pub something: Option<String>,
}

/// Settings of a cells block.
pub struct CellsBlockConfig {
    pub something: Option<String>,
}

/// Settings of an empty block.
#[derive(Clone, Copy, Debug, PartialEq, Eq, Structural)]
pub struct EmptyBlockConfig {
    pub empty: bool,
}

/// Settings of a files block.
pub struct FilesBlockConfig {
    pub something: Option<String>,
}

/// Settings of a table block.
pub struct TableBlockConfig {
    pub something: Option<String>,
}

/// Settings of a text block.
pub struct TextBlockConfig {
    pub something: Option<String>,
}

/// Settings of an XY chart block.
pub struct XYChartBlockConfig {
    pub something: Option<String>,
}

} // verus!
