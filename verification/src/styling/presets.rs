//! Ready-made style strings. The characters of a style string are assigned to
//! the components in their declaration order.

use vstd::prelude::*;

verus! {

/// A full frame drawn with plain ASCII characters.
///
/// ```text
/// +------+------+
/// | Head | Head |
/// +======+======+
/// | cell | cell |
/// +------+------+
/// ```
pub const ASCII_FULL: &'static str = "||--+==+|-+||++++++";

} // verus!
