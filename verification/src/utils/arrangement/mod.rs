//! The arrangement pass: from a table snapshot to one layout per column.

pub mod allocator;
pub mod constraints;
pub mod disabled;
pub mod dynamic;
pub mod guarantees;
pub mod helper;
pub mod info;
pub mod pass;

pub use info::{ColumnDisplayInfo, ConstraintError, DisplayInfos};
pub use pass::arrange;
