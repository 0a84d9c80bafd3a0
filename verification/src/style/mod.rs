//! Per-column width rules.

pub mod constraint;

pub use constraint::{Boundary, ColumnConstraint};
