//! From the columns that are still without a layout to their widths.

use vstd::prelude::*;

use crate::column::Column;
use crate::table::Table;
use crate::utils::arrangement::allocator::{distribute, granted, Demand};
use crate::utils::arrangement::constraints::{get_max_constraint, get_min_constraint, max_constraint, min_constraint};
use crate::utils::arrangement::helper::{absolute_width_with_padding, border_columns, count_border_columns, padded};
use crate::utils::arrangement::info::{ColumnDisplayInfo, DisplayInfos};

verus! {

broadcast use vstd::std_specs::btree::group_btree_axioms;

/// What a column without a layout asks of the allocation.
///
/// It must have its resolved lower boundary, plus padding. It would like the
/// width of its widest content, though no more than its resolved upper
/// boundary, plus padding, and no less than it must have. It takes part in
/// the sharing by the width of its widest content.
pub open spec fn demand_of(
    table: Table,
    column: Column,
    table_width: Option<usize>,
    visible_columns: int,
) -> Demand {
    let floor = match min_constraint(table, column.constraint, table_width, visible_columns) {
        Some(lower) => padded(column, lower as int),
        None => 0,
    };
    let limit = match max_constraint(table, column.constraint, table_width, visible_columns) {
        Some(upper) => if padded(column, upper as int) < column.max_content_width {
            padded(column, upper as int)
        } else {
            column.max_content_width as int
        },
        None => column.max_content_width as int,
    };
    Demand {
        weight: column.max_content_width,
        floor: floor as u32,
        wanted: (if limit < floor { floor } else { limit }) as u32,
    }
}

/// The demands of a table's columns, in the columns' order: one for every
/// column that `infos` has no layout for.
pub open spec fn pending_demands(
    table: Table,
    infos: Map<usize, ColumnDisplayInfo>,
    table_width: Option<usize>,
    visible_columns: int,
) -> Seq<Option<Demand>> {
    Seq::new(
        table.columns_view().len(),
        |i: int|
            if infos.contains_key(table.columns_view()[i].index) {
                None
            } else {
                Some(demand_of(table, table.columns_view()[i], table_width, visible_columns))
            },
    )
}

/// The characters that the first `n` columns take in a rendered line, as far
/// as `infos` has their layout. Hidden columns take none.
pub open spec fn used_width(columns: Seq<Column>, infos: Map<usize, ColumnDisplayInfo>, n: int) -> int
    decreases n,
{
    if n <= 0 {
        0
    } else {
        used_width(columns, infos, n - 1) + (if infos.contains_key(columns[n - 1].index) {
            infos[columns[n - 1].index].rendered_width()
        } else {
            0
        })
    }
}

/// The characters that are left to share on a surface of width `total`, once
/// the borders and the columns that have a layout are taken off. Nothing is
/// left where they take more than there is.
pub open spec fn budget_of(
    table: Table,
    infos: Map<usize, ColumnDisplayInfo>,
    total: int,
    visible_columns: int,
) -> int {
    let left = total - border_columns(table.style_view(), visible_columns) - used_width(
        table.columns_view(),
        infos,
        table.columns_view().len() as int,
    );
    if left > 0 {
        left
    } else {
        0
    }
}

/// The widths that the columns without a layout take where no budget binds
/// them: what each would like. Columns that have a layout are given 0 here.
pub open spec fn wanted_widths(demands: Seq<Option<Demand>>) -> Seq<u32> {
    Seq::new(
        demands.len(),
        |i: int|
            match demands[i] {
                Some(demand) => demand.wanted,
                None => 0,
            },
    )
}

/// The widths that the columns without a layout are granted out of a budget.
/// Columns that have a layout are given 0 here.
pub open spec fn granted_widths(demands: Seq<Option<Demand>>, budget: int) -> Seq<u32> {
    Seq::new(demands.len(), |i: int| granted(demands, budget, i) as u32)
}

/// The widths that the columns without a layout get from the automatic
/// arrangement: their part of the budget where the surface's width is known,
/// and else what they would like.
pub open spec fn automatic_widths(
    table: Table,
    infos: Map<usize, ColumnDisplayInfo>,
    table_width: Option<usize>,
    visible_columns: int,
) -> Seq<u32> {
    let demands = pending_demands(table, infos, table_width, visible_columns);
    match table_width {
        Some(total) => granted_widths(demands, budget_of(table, infos, total as int, visible_columns)),
        None => wanted_widths(demands),
    }
}

/// `infos`, completed for the first `n` columns: a column that has no layout
/// in `infos` gets a visible one of the width that `widths` holds at its
/// index.
pub open spec fn completed(infos: Map<usize, ColumnDisplayInfo>, n: int, widths: Seq<u32>) -> Map<
    usize,
    ColumnDisplayInfo,
> {
    Map::new(
        |k: usize| infos.contains_key(k) || k < n,
        |k: usize|
            if infos.contains_key(k) {
                infos[k]
            } else {
                ColumnDisplayInfo { width: widths[k as int], is_hidden: false }
            },
    )
}

/// Completing layouts that are complete changes nothing: a second
/// allocation over the same columns leaves every layout as it is.
pub proof fn completing_twice_changes_nothing(
    infos: Map<usize, ColumnDisplayInfo>,
    n: int,
    first: Seq<u32>,
    second: Seq<u32>,
)
    ensures
        completed(completed(infos, n, first), n, second) == completed(infos, n, first),
{
    assert(completed(completed(infos, n, first), n, second) =~= completed(infos, n, first));
}

/// What a column without a layout asks of the allocation.
pub fn demand(table: &Table, column: &Column, table_width: Option<usize>, visible_columns: usize) -> (asked:
    Demand)
    ensures
        asked == demand_of(*table, *column, table_width, visible_columns as int),
{
    let floor: u32 = match get_min_constraint(table, &column.constraint, table_width, visible_columns) {
        Some(lower) => absolute_width_with_padding(column, lower),
        None => 0,
    };
    let natural: u32 = column.max_content_width as u32;
    let limit: u32 = match get_max_constraint(table, &column.constraint, table_width, visible_columns) {
        Some(upper) => {
            let widest = absolute_width_with_padding(column, upper);
            if widest < natural {
                widest
            } else {
                natural
            }
        },
        None => natural,
    };
    Demand { weight: column.max_content_width, floor, wanted: if limit < floor { floor } else { limit } }
}

/// The demands of the columns that `infos` has no layout for, and the
/// characters that the others take in a rendered line.
pub(crate) fn collect_demands(
    table: &Table,
    infos: &DisplayInfos,
    table_width: Option<usize>,
    visible_columns: usize,
) -> (found: (Vec<Option<Demand>>, u128))
    ensures
        found.0@ == pending_demands(*table, infos@, table_width, visible_columns as int),
        found.1 == used_width(table.columns_view(), infos@, table.columns_view().len() as int),
{
    let columns = table.columns();
    let mut demands: Vec<Option<Demand>> = Vec::new();
    let mut used: u128 = 0;
    let mut i: usize = 0;
    while i < columns.len()
        invariant
            columns@ == table.columns_view(),
            i <= columns@.len(),
            demands@.len() == i,
            forall|j: int|
                0 <= j < i ==> demands@[j] == pending_demands(
                    *table,
                    infos@,
                    table_width,
                    visible_columns as int,
                )[j],
            used == used_width(columns@, infos@, i as int),
            used <= i * 0xffff_ffff,
        decreases columns@.len() - i,
    {
        let column = &columns[i];
        match infos.get(&column.index) {
            Some(info) => {
                if !info.is_hidden {
                    used = used + info.width as u128;
                }
                demands.push(None);
            },
            None => {
                demands.push(Some(demand(table, column, table_width, visible_columns)));
            },
        }
        i = i + 1;
    }
    assert(demands@ =~= pending_demands(*table, infos@, table_width, visible_columns as int));
    (demands, used)
}

/// The budget that is left on a surface of width `total`.
pub(crate) fn remaining_budget(table: &Table, used: u128, total: usize, visible_columns: usize) -> (budget: usize)
    ensures
        ({
            let left = total - border_columns(table.style_view(), visible_columns as int) - used;
            budget == if left > 0 { left } else { 0 }
        }),
{
    let borders = count_border_columns(table, visible_columns);
    let columns: usize = if total > borders { total - borders } else { 0 };
    if columns as u128 > used {
        (columns as u128 - used) as usize
    } else {
        0
    }
}

/// What every column with a demand would like, in the columns' order.
pub(crate) fn widths_wanted(demands: &Vec<Option<Demand>>) -> (widths: Vec<u32>)
    ensures
        widths@ == wanted_widths(demands@),
{
    let mut widths: Vec<u32> = Vec::new();
    let mut i: usize = 0;
    while i < demands.len()
        invariant
            i <= demands@.len(),
            widths@.len() == i,
            forall|j: int| 0 <= j < i ==> widths@[j] == wanted_widths(demands@)[j],
        decreases demands@.len() - i,
    {
        let width: u32 = match demands[i] {
            Some(demand) => demand.wanted,
            None => 0,
        };
        widths.push(width);
        i = i + 1;
    }
    assert(widths@ =~= wanted_widths(demands@));
    widths
}

/// Records a visible layout of the width that `widths` holds for it, for
/// every column of the table that has none yet.
pub(crate) fn record_widths(table: &Table, infos: &mut DisplayInfos, widths: &Vec<u32>)
    requires
        widths@.len() == table.columns_view().len(),
    ensures
        final(infos)@ == completed(old(infos)@, table.columns_view().len() as int, widths@),
{
    let columns = table.columns();
    let mut i: usize = 0;
    while i < columns.len()
        invariant
            columns@ == table.columns_view(),
            table.well_formed(),
            widths@.len() == columns@.len(),
            i <= columns@.len(),
            infos@ == completed(old(infos)@, i as int, widths@),
        decreases columns@.len() - i,
    {
        let column = &columns[i];
        proof {
            table.columns_are_numbered(i as int);
        }
        if !infos.contains_key(&column.index) {
            infos.insert(column.index, ColumnDisplayInfo::new(widths[i]));
        }
        assert(infos@ =~= completed(old(infos)@, i + 1, widths@));
        i = i + 1;
    }
}

/// Gives every column that is still without a layout its width, out of what
/// the surface has left.
///
/// Where the surface's width is known, the columns share what the borders
/// and the columns with a layout leave of it; where they must have more than
/// that, they get it, and the table is wider than the surface. Where the
/// width is unknown, every column gets what it would like.
pub fn allocate(table: &Table, infos: &mut DisplayInfos, table_width: Option<usize>, visible_columns: usize)
    ensures
        final(infos)@ == completed(
            old(infos)@,
            table.columns_view().len() as int,
            automatic_widths(*table, old(infos)@, table_width, visible_columns as int),
        ),
{
    let (demands, used) = collect_demands(table, infos, table_width, visible_columns);
    let widths = match table_width {
        Some(total) => {
            let budget = remaining_budget(table, used, total, visible_columns);
            let widths = distribute(&demands, budget);
            assert(widths@ =~= granted_widths(demands@, budget as int));
            widths
        },
        None => widths_wanted(&demands),
    };
    record_widths(table, infos, &widths);
}

} // verus!
