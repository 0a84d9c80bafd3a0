use vstd::prelude::*;

use crate::column::Column;
use crate::styling::component::Component;
use crate::styling::table::shows_glyph;
use crate::table::Table;

verus! {

/// Whether a style draws a border left of the first column: it does as soon
/// as one part of that border has a glyph that shows.
pub open spec fn draws_left_border(style: Map<Component, Option<char>>) -> bool {
    ||| shows_glyph(style, Component::TopLeftCorner)
    ||| shows_glyph(style, Component::LeftBorder)
    ||| shows_glyph(style, Component::LeftBorderIntersections)
    ||| shows_glyph(style, Component::HeaderLeftIntersection)
    ||| shows_glyph(style, Component::BottomLeftCorner)
}

/// Whether a style draws a border right of the last column.
pub open spec fn draws_right_border(style: Map<Component, Option<char>>) -> bool {
    ||| shows_glyph(style, Component::TopRightCorner)
    ||| shows_glyph(style, Component::RightBorder)
    ||| shows_glyph(style, Component::RightBorderIntersections)
    ||| shows_glyph(style, Component::HeaderRightIntersection)
    ||| shows_glyph(style, Component::BottomRightCorner)
}

/// Whether a style draws lines between neighbouring columns.
pub open spec fn draws_vertical_lines(style: Map<Component, Option<char>>) -> bool {
    ||| shows_glyph(style, Component::TopBorderIntersections)
    ||| shows_glyph(style, Component::HeaderMiddleIntersections)
    ||| shows_glyph(style, Component::VerticalLines)
    ||| shows_glyph(style, Component::MiddleIntersections)
    ||| shows_glyph(style, Component::BottomBorderIntersections)
}

/// The characters of a rendered line that go to borders and separators and
/// not to columns: one for each outer border that the style draws, and one
/// between each two neighbouring visible columns if it draws those lines.
pub open spec fn border_columns(style: Map<Component, Option<char>>, visible_columns: int) -> int {
    (if draws_left_border(style) { 1int } else { 0 })
    + (if draws_right_border(style) { 1int } else { 0 })
    + (if draws_vertical_lines(style) && visible_columns > 1 { visible_columns - 1 } else { 0 })
}

/// How many of the first `n` columns are not hidden.
pub open spec fn visible_among(columns: Seq<Column>, n: int) -> int
    decreases n,
{
    if n <= 0 {
        0
    } else {
        visible_among(columns, n - 1) + (if columns[n - 1].hidden() { 0int } else { 1 })
    }
}

/// How many columns are not hidden.
pub open spec fn visible_columns(columns: Seq<Column>) -> int {
    visible_among(columns, columns.len() as int)
}

/// The width of a column that is fixed to `width` characters of content: the
/// padding comes on top.
pub open spec fn padded(column: Column, width: int) -> int {
    width + column.padding_width()
}

/// The width of a column that is fixed to `width` characters of content: the
/// padding comes on top.
pub fn absolute_width_with_padding(column: &Column, width: u16) -> (total: u32)
    ensures
        total == padded(*column, width as int),
{
    let (left, right) = column.padding;
    width as u32 + left as u32 + right as u32
}

/// The number of columns that are not hidden.
pub fn count_visible_columns(columns: &Vec<Column>) -> (count: usize)
    ensures
        count == visible_columns(columns@),
{
    let mut count: usize = 0;
    let mut i: usize = 0;
    while i < columns.len()
        invariant
            i <= columns.len(),
            count == visible_among(columns@, i as int),
            count <= i,
        decreases columns.len() - i,
    {
        if !columns[i].is_hidden() {
            count = count + 1;
        }
        i = i + 1;
    }
    count
}

/// The characters of a rendered line that go to borders and separators, for
/// a table of which `visible_columns` columns are drawn. The count stops at
/// the largest `usize`.
pub fn count_border_columns(table: &Table, visible_columns: usize) -> (lines: usize)
    ensures
        border_columns(table.style_view(), visible_columns as int) <= usize::MAX ==> lines == border_columns(
            table.style_view(),
            visible_columns as int,
        ),
        border_columns(table.style_view(), visible_columns as int) > usize::MAX ==> lines == usize::MAX,
{
    let style = table.table_style();
    let mut lines: usize = 0;
    if style.has_glyph(Component::TopLeftCorner) || style.has_glyph(Component::LeftBorder)
        || style.has_glyph(Component::LeftBorderIntersections) || style.has_glyph(
        Component::HeaderLeftIntersection,
    ) || style.has_glyph(Component::BottomLeftCorner) {
        lines = lines + 1;
    }
    if style.has_glyph(Component::TopRightCorner) || style.has_glyph(Component::RightBorder)
        || style.has_glyph(Component::RightBorderIntersections) || style.has_glyph(
        Component::HeaderRightIntersection,
    ) || style.has_glyph(Component::BottomRightCorner) {
        lines = lines + 1;
    }
    if style.has_glyph(Component::TopBorderIntersections) || style.has_glyph(
        Component::HeaderMiddleIntersections,
    ) || style.has_glyph(Component::VerticalLines) || style.has_glyph(
        Component::MiddleIntersections,
    ) || style.has_glyph(Component::BottomBorderIntersections) {
        lines = lines.saturating_add(visible_columns.saturating_sub(1));
    }
    lines
}

} // verus!
