use vstd::prelude::*;

verus! {

/// The largest percentage a [`Boundary::Percentage`] is taken at.
pub const FULL_PERCENT: u16 = 100;

/// An abstract width: a number of characters, or a share of the width that is
/// left once the borders are drawn.
#[derive(Clone, Copy, Debug, PartialEq, Eq, Structural)]
pub enum Boundary {
    /// An absolute number of characters.
    Fixed(u16),
    /// A percentage of the available width. Values above 100 count as 100.
    Percentage(u16),
}

/// The rule a column's width has to follow. A column carries at most one.
#[derive(Clone, Copy, Debug, PartialEq, Eq, Structural)]
pub enum ColumnConstraint {
    /// The column is left out of the rendered table.
    Hidden,
    /// The column is exactly as wide as its widest content.
    ContentWidth,
    /// The column's width is forced to the given boundary.
    Absolute(Boundary),
    /// The column is never narrower than the given boundary.
    LowerBoundary(Boundary),
    /// The column is never wider than the given boundary.
    UpperBoundary(Boundary),
    /// The column stays between the two boundaries.
    Boundaries { lower: Boundary, upper: Boundary },
}

impl ColumnConstraint {
    /// The boundary that limits the column from below, if the constraint has one.
    pub open spec fn lower_boundary(self) -> Option<Boundary> {
        match self {
            ColumnConstraint::LowerBoundary(b) => Some(b),
            ColumnConstraint::Boundaries { lower, upper } => Some(lower),
            _ => None,
        }
    }

    /// The boundary that limits the column from above, if the constraint has one.
    pub open spec fn upper_boundary(self) -> Option<Boundary> {
        match self {
            ColumnConstraint::UpperBoundary(b) => Some(b),
            ColumnConstraint::Boundaries { lower, upper } => Some(upper),
            _ => None,
        }
    }
}

} // verus!
