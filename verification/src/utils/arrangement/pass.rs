use std::collections::BTreeMap;
use vstd::prelude::*;

use crate::styling::table::ContentArrangement;
use crate::table::Table;
use crate::utils::arrangement::constraints::{check_constraint, constraint_error, early_layout, evaluate};
use crate::utils::arrangement::disabled::disabled_arrangement;
use crate::utils::arrangement::dynamic::{allocate, automatic_widths, completed, pending_demands, wanted_widths};
use crate::utils::arrangement::helper::{count_visible_columns, visible_columns};
use crate::utils::arrangement::info::{ColumnDisplayInfo, ConstraintError, DisplayInfos};

verus! {

broadcast use vstd::std_specs::btree::group_btree_axioms;

/// The error of the first among the first `n` columns whose constraint
/// cannot be met, if there is such a column.
pub open spec fn first_error(table: Table, n: int) -> Option<ConstraintError>
    decreases n,
{
    if n <= 0 {
        None
    } else {
        match first_error(table, n - 1) {
            Some(error) => Some(error),
            None => constraint_error(
                table,
                table.columns_view()[n - 1],
                table.width_view(),
                visible_columns(table.columns_view()),
            ),
        }
    }
}

/// The layouts that the constraints of the first `n` columns settle, each
/// under its column's place in the table.
pub open spec fn early_layouts(table: Table, n: int) -> Map<usize, ColumnDisplayInfo> {
    Map::new(
        |k: usize|
            k < n && early_layout(
                table,
                table.columns_view()[k as int],
                table.width_view(),
                visible_columns(table.columns_view()),
            ) is Some,
        |k: usize|
            early_layout(
                table,
                table.columns_view()[k as int],
                table.width_view(),
                visible_columns(table.columns_view()),
            )->0,
    )
}

/// The layouts of a table whose constraints can all be met, by column index.
///
/// What the constraints settle stands. The other columns get their width
/// from the table's arrangement: without automatic calculation the width
/// they would like, else their part of what the surface has left.
pub open spec fn layouts(table: Table) -> Map<usize, ColumnDisplayInfo> {
    let n = table.columns_view().len() as int;
    let visible = visible_columns(table.columns_view());
    let early = early_layouts(table, n);
    match table.arrangement_view() {
        ContentArrangement::Disabled => completed(
            early,
            n,
            wanted_widths(pending_demands(table, early, table.width_view(), visible)),
        ),
        ContentArrangement::Automatic => completed(
            early,
            n,
            automatic_widths(table, early, table.width_view(), visible),
        ),
    }
}

/// What the arrangement pass makes of a table: the error of the first column
/// whose constraint cannot be met, or else one layout for every column.
pub open spec fn arrangement(table: Table) -> Result<Map<usize, ColumnDisplayInfo>, ConstraintError> {
    match first_error(table, table.columns_view().len() as int) {
        Some(error) => Err(error),
        None => Ok(layouts(table)),
    }
}

/// Whether `outcome` is what the arrangement pass makes of `table`.
pub open spec fn is_arrangement_of(outcome: Result<DisplayInfos, ConstraintError>, table: Table) -> bool {
    match arrangement(table) {
        Ok(layouts) => outcome matches Ok(infos) && infos@ == layouts,
        Err(error) => outcome matches Err(found) && found == error,
    }
}

/// An error among the first columns is the first error of any longer run of
/// columns.
proof fn first_error_stays(table: Table, n: int, m: int)
    requires
        first_error(table, n) is Some,
        n <= m,
    ensures
        first_error(table, m) == first_error(table, n),
    decreases m - n,
{
    if n < m {
        first_error_stays(table, n, m - 1);
    }
}

/// Lays out a table: decides the width of every column.
///
/// The constraints are checked first; where one cannot be met, the pass ends
/// with the error of the first such column and no layout at all. Then every
/// constraint that settles a layout by itself does so, and the remaining
/// columns get their width as the table's arrangement has it.
pub fn arrange(table: &Table) -> (outcome: Result<DisplayInfos, ConstraintError>)
    ensures
        is_arrangement_of(outcome, *table),
{
    let columns = table.columns();
    let table_width = table.table_width();
    let visible = count_visible_columns(columns);

    let mut i: usize = 0;
    while i < columns.len()
        invariant
            columns@ == table.columns_view(),
            table_width == table.width_view(),
            visible == visible_columns(table.columns_view()),
            i <= columns@.len(),
            first_error(*table, i as int) is None,
        decreases columns@.len() - i,
    {
        match check_constraint(table, &columns[i], table_width, visible) {
            Err(error) => {
                proof {
                    first_error_stays(*table, i + 1, columns@.len() as int);
                }
                return Err(error);
            },
            Ok(()) => {},
        }
        i = i + 1;
    }

    let mut infos: DisplayInfos = BTreeMap::new();
    assert(infos@ =~= early_layouts(*table, 0));
    let mut i: usize = 0;
    while i < columns.len()
        invariant
            columns@ == table.columns_view(),
            table.well_formed(),
            table_width == table.width_view(),
            visible == visible_columns(table.columns_view()),
            i <= columns@.len(),
            first_error(*table, columns@.len() as int) is None,
            infos@ == early_layouts(*table, i as int),
        decreases columns@.len() - i,
    {
        proof {
            table.columns_are_numbered(i as int);
            if constraint_error(*table, columns@[i as int], table_width, visible as int) is Some {
                first_error_stays(*table, i + 1, columns@.len() as int);
            }
        }
        match evaluate(table, &columns[i], &mut infos, table_width, visible) {
            Err(error) => {
                return Err(error);
            },
            Ok(()) => {},
        }
        assert(infos@ =~= early_layouts(*table, i + 1));
        i = i + 1;
    }

    match table.content_arrangement() {
        ContentArrangement::Disabled => disabled_arrangement(table, &mut infos, table_width, visible),
        ContentArrangement::Automatic => allocate(table, &mut infos, table_width, visible),
    }
    Ok(infos)
}

} // verus!
