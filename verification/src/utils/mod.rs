//! What the table needs behind the scenes.

pub mod arrangement;
