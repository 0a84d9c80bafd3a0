//! The glyphs a table's borders and separators are drawn with.

pub mod component;
pub mod presets;
pub mod table;

pub use component::Component;
pub use table::{ContentArrangement, TableStyle};
