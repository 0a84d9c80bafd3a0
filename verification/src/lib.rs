//! Column width arrangement for tables rendered to fixed-width text.
//!
//! Before a table is drawn, every column needs a final display width that
//! honours the column's constraint, the natural width of its content and the
//! width of the rendering surface. This crate computes that arrangement and
//! proves, with Verus, that it does what its contracts say.

pub mod column;
pub mod style;
pub mod styling;
pub mod table;
pub mod utils;

pub use column::Column;
pub use style::{Boundary, ColumnConstraint};
pub use styling::{Component, ContentArrangement, TableStyle};
pub use table::Table;
pub use utils::arrangement::{ColumnDisplayInfo, ConstraintError, DisplayInfos};
