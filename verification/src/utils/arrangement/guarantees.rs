//! What holds of every arrangement, proved from the definitions of the pass.

use vstd::prelude::*;

use crate::style::constraint::{Boundary, ColumnConstraint, FULL_PERCENT};
use crate::styling::table::ContentArrangement;
use crate::table::Table;
use crate::utils::arrangement::allocator::{
    covered_budget_is_kept, floor_total, granted_total, granted_within_demand, Demand,
};
use crate::utils::arrangement::constraints::{
    available_width, constraint_error, early_layout, max_constraint, min_constraint, percentage_of, MAX_WIDTH,
};
use crate::utils::arrangement::dynamic::{budget_of, demand_of, pending_demands, used_width};
use crate::utils::arrangement::helper::{border_columns, padded, visible_columns};
use crate::utils::arrangement::info::{ColumnDisplayInfo, ConstraintError, DisplayInfos};
use crate::utils::arrangement::pass::{early_layouts, first_error, is_arrangement_of, layouts};

verus! {

/// The characters that the first `n` columns take in a rendered line.
/// Hidden columns take none.
pub open spec fn rendered_total(infos: Map<usize, ColumnDisplayInfo>, n: int) -> int
    decreases n,
{
    if n <= 0 {
        0
    } else {
        rendered_total(infos, n - 1) + infos[(n - 1) as usize].rendered_width()
    }
}

/// The resolved lower boundaries of the first `n` columns, added up.
pub open spec fn lower_boundary_total(table: Table, n: int) -> int
    decreases n,
{
    if n <= 0 {
        0
    } else {
        lower_boundary_total(table, n - 1) + (match min_constraint(
            table,
            table.columns_view()[n - 1].constraint,
            table.width_view(),
            visible_columns(table.columns_view()),
        ) {
            Some(lower) => lower as int,
            None => 0,
        })
    }
}

/// The least width of a surface that holds the table without overflow: the
/// borders, the columns whose constraint settles their layout, and what the
/// other columns must have.
pub open spec fn least_width(table: Table) -> int {
    let n = table.columns_view().len() as int;
    let visible = visible_columns(table.columns_view());
    let early = early_layouts(table, n);
    border_columns(table.style_view(), visible) + used_width(table.columns_view(), early, n) + floor_total(
        pending_demands(table, early, table.width_view(), visible),
        n,
    )
}

/// A pass over a table has one outcome: two runs on the same snapshot end
/// with the same layouts, or with the same error.
pub proof fn arrangement_is_reproducible(
    table: Table,
    first: Result<DisplayInfos, ConstraintError>,
    second: Result<DisplayInfos, ConstraintError>,
)
    requires
        is_arrangement_of(first, table),
        is_arrangement_of(second, table),
    ensures
        first is Ok <==> second is Ok,
        first is Ok ==> first->Ok_0@ == second->Ok_0@,
        first is Err ==> first->Err_0 == second->Err_0,
{
}

/// A pass that ends without error has laid out every column of the table,
/// and nothing else.
pub proof fn every_column_is_laid_out(table: Table, k: usize)
    ensures
        layouts(table).contains_key(k) <==> k < table.columns_view().len(),
{
}

/// What a column's constraint settles by itself is the column's layout in
/// the end.
pub proof fn settled_layout_stands(table: Table, i: usize, info: ColumnDisplayInfo)
    requires
        i < table.columns_view().len(),
        early_layout(
            table,
            table.columns_view()[i as int],
            table.width_view(),
            visible_columns(table.columns_view()),
        ) == Some(info),
    ensures
        layouts(table)[i] == info,
{
    let n = table.columns_view().len() as int;
    assert(early_layouts(table, n).contains_key(i));
}

/// A content-width column is exactly as wide as its widest content,
/// whatever the surface's width, and its constraint is never in error.
pub proof fn content_width_column_is_as_wide_as_its_content(table: Table, i: usize)
    requires
        i < table.columns_view().len(),
        table.columns_view()[i as int].constraint == Some(ColumnConstraint::ContentWidth),
    ensures
        layouts(table)[i] == (ColumnDisplayInfo {
            width: table.columns_view()[i as int].max_content_width as u32,
            is_hidden: false,
        }),
        constraint_error(
            table,
            table.columns_view()[i as int],
            table.width_view(),
            visible_columns(table.columns_view()),
        ) is None,
{
    settled_layout_stands(
        table,
        i,
        ColumnDisplayInfo { width: table.columns_view()[i as int].max_content_width as u32, is_hidden: false },
    );
}

/// A column fixed to `width` characters is that wide once its padding is
/// taken off, whatever its content and whatever the surface's width.
pub proof fn fixed_column_has_its_width(table: Table, i: usize, width: u16)
    requires
        i < table.columns_view().len(),
        table.columns_view()[i as int].constraint == Some(ColumnConstraint::Absolute(Boundary::Fixed(width))),
    ensures
        layouts(table)[i].width - table.columns_view()[i as int].padding_width() == width,
        !layouts(table)[i].is_hidden,
{
    let column = table.columns_view()[i as int];
    settled_layout_stands(
        table,
        i,
        ColumnDisplayInfo { width: padded(column, width as int) as u32, is_hidden: false },
    );
}

/// A column fixed to `percent` percent of a surface of known width `total`
/// is as wide as that share of what the borders leave, rounded down, plus
/// its padding. The percentage counts as 100 at most, a surface narrower
/// than its borders leaves nothing, and the share is at most the widest
/// boundary.
pub proof fn percentage_column_has_its_share(table: Table, i: usize, percent: u16, total: usize)
    requires
        i < table.columns_view().len(),
        table.columns_view()[i as int].constraint == Some(ColumnConstraint::Absolute(Boundary::Percentage(percent))),
        table.width_view() == Some(total),
    ensures
        ({
            let overhead = border_columns(table.style_view(), visible_columns(table.columns_view()));
            let capped = if percent > FULL_PERCENT { FULL_PERCENT as int } else { percent as int };
            let padding = table.columns_view()[i as int].padding_width();
            &&& layouts(table)[i].width == percentage_of(available_width(total as int, overhead), percent as int)
                + padding
            &&& total >= overhead && (total - overhead) * capped / 100 <= MAX_WIDTH ==> layouts(
                table,
            )[i].width == (total - overhead) * capped / 100 + padding
        }),
        !layouts(table)[i].is_hidden,
{
    let column = table.columns_view()[i as int];
    let overhead = border_columns(table.style_view(), visible_columns(table.columns_view()));
    let share = percentage_of(available_width(total as int, overhead), percent as int);
    let capped = if percent > FULL_PERCENT { FULL_PERCENT as int } else { percent as int };
    assert(0 <= available_width(total as int, overhead) * capped / 100) by (nonlinear_arith)
        requires
            0 <= available_width(total as int, overhead),
            0 <= capped,
    ;
    settled_layout_stands(table, i, ColumnDisplayInfo { width: padded(column, share) as u32, is_hidden: false });
}

/// A percentage of a surface of unknown width settles nothing: the column
/// is laid out like one without a constraint, and where nothing else binds
/// it, it is as wide as its widest content.
pub proof fn percentage_of_unknown_width_is_inactive(table: Table, i: usize, percent: u16)
    requires
        table.well_formed(),
        i < table.columns_view().len(),
        table.columns_view()[i as int].constraint == Some(ColumnConstraint::Absolute(Boundary::Percentage(percent))),
        table.width_view() is None,
    ensures
        early_layout(table, table.columns_view()[i as int], table.width_view(), visible_columns(table.columns_view()))
            is None,
        layouts(table)[i] == (ColumnDisplayInfo {
            width: table.columns_view()[i as int].max_content_width as u32,
            is_hidden: false,
        }),
{
    table.columns_are_numbered(i as int);
}

/// A hidden column is marked hidden, and no other column is.
pub proof fn hidden_columns_are_marked(table: Table, i: usize)
    requires
        table.well_formed(),
        i < table.columns_view().len(),
    ensures
        layouts(table)[i].is_hidden <==> table.columns_view()[i as int].hidden(),
{
    table.columns_are_numbered(i as int);
}

/// Every column stays within its resolved boundaries, padding included: it
/// is no narrower than its lower boundary and no wider than its upper one.
/// The budget never takes a column below its lower boundary; where the
/// lower boundaries ask for more than the surface has, the table overflows.
pub proof fn boundaries_are_kept(table: Table, i: usize)
    requires
        table.well_formed(),
        i < table.columns_view().len(),
        first_error(table, table.columns_view().len() as int) is None,
    ensures
        ({
            let column = table.columns_view()[i as int];
            let visible = visible_columns(table.columns_view());
            let info = layouts(table)[i];
            &&& min_constraint(table, column.constraint, table.width_view(), visible) matches Some(lower) ==> {
                &&& info.width >= padded(column, lower as int)
                &&& !info.is_hidden
            }
            &&& max_constraint(table, column.constraint, table.width_view(), visible) matches Some(upper) ==> {
                &&& info.width <= padded(column, upper as int)
                &&& !info.is_hidden
            }
        }),
{
    let n = table.columns_view().len() as int;
    let column = table.columns_view()[i as int];
    let visible = visible_columns(table.columns_view());
    let width = table.width_view();
    let early = early_layouts(table, n);
    table.columns_are_numbered(i as int);
    no_error_at(table, i as int, n);
    if early_layout(table, column, width, visible) is None {
        let demands = pending_demands(table, early, width, visible);
        assert(demands[i as int] == Some(demand_of(table, column, width, visible)));
        if table.arrangement_view() == ContentArrangement::Automatic && width is Some {
            granted_within_demand(demands, budget_of(table, early, width->0 as int, visible), i as int);
        }
    }
}

/// A table without a first error has no error at any column.
proof fn no_error_at(table: Table, i: int, n: int)
    requires
        0 <= i < n,
        first_error(table, n) is None,
    ensures
        constraint_error(
            table,
            table.columns_view()[i],
            table.width_view(),
            visible_columns(table.columns_view()),
        ) is None,
    decreases n,
{
    if i < n - 1 {
        no_error_at(table, i, n - 1);
    }
}

/// The columns that are drawn, together with the borders, are at least as
/// wide as all resolved lower boundaries together.
pub proof fn lower_boundaries_are_covered(table: Table)
    requires
        table.well_formed(),
        first_error(table, table.columns_view().len() as int) is None,
    ensures
        rendered_total(layouts(table), table.columns_view().len() as int) + border_columns(
            table.style_view(),
            visible_columns(table.columns_view()),
        ) >= lower_boundary_total(table, table.columns_view().len() as int),
{
    lower_boundaries_are_covered_among(table, table.columns_view().len() as int);
}

/// The first `m` columns that are drawn are at least as wide as their
/// resolved lower boundaries together.
proof fn lower_boundaries_are_covered_among(table: Table, m: int)
    requires
        table.well_formed(),
        first_error(table, table.columns_view().len() as int) is None,
        0 <= m <= table.columns_view().len(),
    ensures
        rendered_total(layouts(table), m) >= lower_boundary_total(table, m),
    decreases m,
{
    if m > 0 {
        lower_boundaries_are_covered_among(table, m - 1);
        boundaries_are_kept(table, (m - 1) as usize);
        table.columns_are_numbered(m - 1);
    }
}

/// On a surface that is wide enough for what the table must have, the
/// automatic arrangement never overflows: the columns that are drawn and the
/// borders take no more than the surface's width.
pub proof fn wide_enough_surface_is_kept(table: Table, total: usize)
    requires
        table.well_formed(),
        first_error(table, table.columns_view().len() as int) is None,
        table.arrangement_view() == ContentArrangement::Automatic,
        table.width_view() == Some(total),
        least_width(table) <= total,
    ensures
        rendered_total(layouts(table), table.columns_view().len() as int) + border_columns(
            table.style_view(),
            visible_columns(table.columns_view()),
        ) <= total,
{
    let n = table.columns_view().len() as int;
    let visible = visible_columns(table.columns_view());
    let early = early_layouts(table, n);
    let demands = pending_demands(table, early, table.width_view(), visible);
    let budget = budget_of(table, early, total as int, visible);
    covered_budget_is_kept(demands, budget);
    rendered_is_used_and_granted(table, total, n);
    floors_add_up(demands, n);
}

/// Minimum widths add up to nothing less than nothing.
proof fn floors_add_up(demands: Seq<Option<Demand>>, n: int)
    ensures
        floor_total(demands, n) >= 0,
    decreases n,
{
    if n > 0 {
        floors_add_up(demands, n - 1);
    }
}

/// The first `m` columns take what the settled among them take and what the
/// others are granted.
proof fn rendered_is_used_and_granted(table: Table, total: usize, m: int)
    requires
        table.well_formed(),
        table.arrangement_view() == ContentArrangement::Automatic,
        table.width_view() == Some(total),
        0 <= m <= table.columns_view().len(),
    ensures
        ({
            let n = table.columns_view().len() as int;
            let visible = visible_columns(table.columns_view());
            let early = early_layouts(table, n);
            rendered_total(layouts(table), m) == used_width(table.columns_view(), early, m) + granted_total(
                pending_demands(table, early, table.width_view(), visible),
                budget_of(table, early, total as int, visible),
                m,
            )
        }),
    decreases m,
{
    if m > 0 {
        rendered_is_used_and_granted(table, total, m - 1);
        let n = table.columns_view().len() as int;
        let visible = visible_columns(table.columns_view());
        let early = early_layouts(table, n);
        let demands = pending_demands(table, early, table.width_view(), visible);
        let budget = budget_of(table, early, total as int, visible);
        let column = table.columns_view()[m - 1];
        table.columns_are_numbered(m - 1);
        if early_layout(table, column, table.width_view(), visible) is None {
            assert(demands[m - 1] == Some(demand_of(table, column, table.width_view(), visible)));
            granted_within_demand(demands, budget, m - 1);
        } else {
            assert(early.contains_key((m - 1) as usize));
            assert(demands[m - 1] is None);
        }
    }
}

} // verus!
