use vstd::prelude::*;

use crate::style::constraint::ColumnConstraint;

verus! {

/// One column of a table, as the arrangement sees it: its place, its rule,
/// its padding and what its content needs.
#[derive(Clone, Copy, Debug)]
pub struct Column {
    /// The column's place in its table, counted from 0.
    pub index: usize,
    /// Blanks left and right of the content.
    pub padding: (u16, u16),
    /// The rule the column's width follows, if it has one.
    pub constraint: Option<ColumnConstraint>,
    /// The width of the widest line among the column's cells.
    pub max_content_width: u16,
    /// The width of the narrowest line among the column's cells.
    pub min_content_width: u16,
}

impl Column {
    /// The characters that the padding takes on both sides together.
    pub open spec fn padding_width(self) -> int {
        self.padding.0 + self.padding.1
    }

    /// Whether the column is left out of the rendered table.
    pub open spec fn hidden(self) -> bool {
        self.constraint == Some(ColumnConstraint::Hidden)
    }

    /// A column at `index` without content or constraint, padded with one
    /// blank on either side.
    pub fn new(index: usize) -> (column: Column)
        ensures
            column == (Column {
                index,
                padding: (1, 1),
                constraint: None,
                max_content_width: 0,
                min_content_width: 0,
            }),
    {
        Column { index, padding: (1, 1), constraint: None, max_content_width: 0, min_content_width: 0 }
    }

    /// The width that the column's content asks for.
    pub fn get_max_width(&self) -> (width: u16)
        ensures
            width == self.max_content_width,
    {
        self.max_content_width
    }

    /// Whether the column is left out of the rendered table.
    pub fn is_hidden(&self) -> (hidden: bool)
        ensures
            hidden == self.hidden(),
    {
        match self.constraint {
            Some(ColumnConstraint::Hidden) => true,
            _ => false,
        }
    }
}

} // verus!
