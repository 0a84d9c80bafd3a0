use vstd::prelude::*;

use crate::column::Column;
use crate::styling::table::{ContentArrangement, TableStyle};

verus! {

/// A snapshot of a table that is about to be laid out: its columns in order,
/// its style, how its widths are to be chosen, and the width of the surface
/// it is drawn on, where that is known.
pub struct Table {
    columns: Vec<Column>,
    table_style: TableStyle,
    arrangement: ContentArrangement,
    table_width: Option<usize>,
}

impl Table {
    /// Every column stands at the place that its index names.
    #[verifier::type_invariant]
    pub closed spec fn well_formed(self) -> bool {
        forall|i: int| 0 <= i < self.columns@.len() ==> (#[trigger] self.columns@[i]).index == i
    }

    /// The table's columns, in order.
    pub closed spec fn columns_view(self) -> Seq<Column> {
        self.columns@
    }

    /// The table's style, as a map from components to optional glyphs.
    pub closed spec fn style_view(self) -> Map<crate::styling::component::Component, Option<char>> {
        self.table_style@
    }

    /// How the table's widths are to be chosen.
    pub closed spec fn arrangement_view(self) -> ContentArrangement {
        self.arrangement
    }

    /// The width of the rendering surface, where it is known.
    pub closed spec fn width_view(self) -> Option<usize> {
        self.table_width
    }

    /// In a well-formed table the column at place `i` has index `i`.
    pub proof fn columns_are_numbered(self, i: int)
        requires
            self.well_formed(),
            0 <= i < self.columns_view().len(),
        ensures
            self.columns_view()[i].index == i,
    {
    }

    /// A table without columns.
    pub fn new(table_style: TableStyle, arrangement: ContentArrangement, table_width: Option<usize>) -> (table: Table)
        ensures
            table.well_formed(),
            table.columns_view() == Seq::<Column>::empty(),
            table.style_view() == table_style@,
            table.arrangement_view() == arrangement,
            table.width_view() == table_width,
    {
        Table { columns: Vec::new(), table_style, arrangement, table_width }
    }

    /// The table with `column` appended as its last column. The column's
    /// index becomes its place in the table, whatever it was before.
    pub fn with_column(self, column: Column) -> (table: Table)
        ensures
            table.well_formed(),
            table.columns_view() == self.columns_view().push(
                (Column { index: self.columns_view().len() as usize, ..column }),
            ),
            table.style_view() == self.style_view(),
            table.arrangement_view() == self.arrangement_view(),
            table.width_view() == self.width_view(),
    {
        proof {
            use_type_invariant(&self);
        }
        let Table { mut columns, table_style, arrangement, table_width } = self;
        let index = columns.len();
        columns.push(Column { index, ..column });
        Table { columns, table_style, arrangement, table_width }
    }

    /// The table's columns, in order.
    pub fn columns(&self) -> (columns: &Vec<Column>)
        ensures
            columns@ == self.columns_view(),
            self.well_formed(),
    {
        proof {
            use_type_invariant(self);
        }
        &self.columns
    }

    /// The table's style.
    pub fn table_style(&self) -> (style: &TableStyle)
        ensures
            style@ == self.style_view(),
    {
        &self.table_style
    }

    /// How the table's widths are to be chosen.
    pub fn content_arrangement(&self) -> (arrangement: ContentArrangement)
        ensures
            arrangement == self.arrangement_view(),
    {
        self.arrangement
    }

    /// The width of the rendering surface, where it is known.
    pub fn table_width(&self) -> (width: Option<usize>)
        ensures
            width == self.width_view(),
    {
        self.table_width
    }
}

} // verus!
