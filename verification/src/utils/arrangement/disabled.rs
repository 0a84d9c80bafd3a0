//! The arrangement without automatic width calculation.

use vstd::prelude::*;

use crate::table::Table;
use crate::utils::arrangement::dynamic::{collect_demands, completed, pending_demands, record_widths, wanted_widths, widths_wanted};
use crate::utils::arrangement::info::DisplayInfos;

verus! {

/// Gives every column that is still without a layout the width it would
/// like: that of its widest content, kept within its boundaries. The
/// surface's width plays no part but in resolving percentages.
pub fn disabled_arrangement(
    table: &Table,
    infos: &mut DisplayInfos,
    table_width: Option<usize>,
    visible_columns: usize,
)
    ensures
        final(infos)@ == completed(
            old(infos)@,
            table.columns_view().len() as int,
            wanted_widths(pending_demands(*table, old(infos)@, table_width, visible_columns as int)),
        ),
{
    let (demands, _used) = collect_demands(table, infos, table_width, visible_columns);
    let widths = widths_wanted(&demands);
    record_widths(table, infos, &widths);
}

} // verus!
