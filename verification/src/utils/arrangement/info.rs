use std::collections::BTreeMap;
use vstd::prelude::*;

verus! {

/// The layout that the arrangement has settled on for one column.
#[derive(Clone, Copy, Debug, PartialEq, Eq, Structural)]
pub struct ColumnDisplayInfo {
    /// The characters that the column takes in a rendered line.
    pub width: u32,
    /// Whether the column is left out of the rendered table.
    pub is_hidden: bool,
}

/// The layouts found so far, by column index.
pub type DisplayInfos = BTreeMap<usize, ColumnDisplayInfo>;

/// A column's constraint that cannot be met, whatever the content.
#[derive(Clone, Copy, Debug, PartialEq, Eq, Structural)]
pub enum ConstraintError {
    /// The column's lower boundary resolves to more than its upper boundary.
    LowerAboveUpper { column: usize, lower: u16, upper: u16 },
}

impl ColumnDisplayInfo {
    /// The layout of a visible column of the given width.
    pub fn new(width: u32) -> (info: ColumnDisplayInfo)
        ensures
            info == (ColumnDisplayInfo { width, is_hidden: false }),
    {
        ColumnDisplayInfo { width, is_hidden: false }
    }

    /// The characters that the column takes in a rendered line: none if it
    /// is hidden.
    pub open spec fn rendered_width(self) -> int {
        if self.is_hidden {
            0
        } else {
            self.width as int
        }
    }
}

} // verus!
