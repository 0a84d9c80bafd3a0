use vstd::prelude::*;

use crate::column::Column;
use crate::style::constraint::{Boundary, ColumnConstraint, FULL_PERCENT};
use crate::table::Table;
use crate::utils::arrangement::helper::{absolute_width_with_padding, border_columns, count_border_columns, padded};
use crate::utils::arrangement::info::{ColumnDisplayInfo, ConstraintError, DisplayInfos};

verus! {

broadcast use vstd::std_specs::btree::group_btree_axioms;

/// The widest a resolved boundary can be.
pub const MAX_WIDTH: u16 = 0xffff;

/// The width that is left for columns once `overhead` characters went to
/// borders: nothing, if the borders alone fill the surface.
pub open spec fn available_width(table_width: int, overhead: int) -> int {
    if table_width > overhead {
        table_width - overhead
    } else {
        0
    }
}

/// `percent` hundredths of `available`, rounded down, with `percent` capped
/// at 100 and the result capped at the widest boundary.
pub open spec fn percentage_of(available: int, percent: int) -> int {
    let capped = if percent > FULL_PERCENT { FULL_PERCENT as int } else { percent };
    let share = available * capped / 100;
    if share > MAX_WIDTH {
        MAX_WIDTH as int
    } else {
        share
    }
}

/// The number of characters a boundary stands for, in a table that draws
/// `visible_columns` columns on a surface of width `table_width`. A
/// percentage of an unknown width stands for nothing.
pub open spec fn boundary_value(
    table: Table,
    boundary: Boundary,
    visible_columns: int,
    table_width: Option<usize>,
) -> Option<u16> {
    match boundary {
        Boundary::Fixed(width) => Some(width),
        Boundary::Percentage(percent) => match table_width {
            None => None,
            Some(total) => Some(
                percentage_of(
                    available_width(total as int, border_columns(table.style_view(), visible_columns)),
                    percent as int,
                ) as u16,
            ),
        },
    }
}

/// The resolved lower boundary of a constraint, if it has one that resolves.
pub open spec fn min_constraint(
    table: Table,
    constraint: Option<ColumnConstraint>,
    table_width: Option<usize>,
    visible_columns: int,
) -> Option<u16> {
    match constraint {
        Some(c) => match c.lower_boundary() {
            Some(boundary) => boundary_value(table, boundary, visible_columns, table_width),
            None => None,
        },
        None => None,
    }
}

/// The resolved upper boundary of a constraint, if it has one that resolves.
pub open spec fn max_constraint(
    table: Table,
    constraint: Option<ColumnConstraint>,
    table_width: Option<usize>,
    visible_columns: int,
) -> Option<u16> {
    match constraint {
        Some(c) => match c.upper_boundary() {
            Some(boundary) => boundary_value(table, boundary, visible_columns, table_width),
            None => None,
        },
        None => None,
    }
}

/// The error in a constraint, if it has one: both boundaries resolve, and the
/// lower one to more than the upper one.
pub open spec fn constraint_error(
    table: Table,
    column: Column,
    table_width: Option<usize>,
    visible_columns: int,
) -> Option<ConstraintError> {
    match (
        min_constraint(table, column.constraint, table_width, visible_columns),
        max_constraint(table, column.constraint, table_width, visible_columns),
    ) {
        (Some(lower), Some(upper)) => if lower > upper {
            Some(ConstraintError::LowerAboveUpper { column: column.index, lower, upper })
        } else {
            None
        },
        _ => None,
    }
}

/// The layout that a column's constraint settles before the columns are
/// looked at together, if it settles one:
///
/// - a content-width column is as wide as its widest content;
/// - an absolute column whose boundary resolves is that wide, plus padding;
/// - a hidden column keeps the width of its content and is marked hidden;
/// - a column whose content is no wider than its resolved lower boundary is
///   as wide as that boundary, plus padding.
///
/// Everything else is left to the allocation.
pub open spec fn early_layout(
    table: Table,
    column: Column,
    table_width: Option<usize>,
    visible_columns: int,
) -> Option<ColumnDisplayInfo> {
    match column.constraint {
        Some(ColumnConstraint::ContentWidth) => Some(
            ColumnDisplayInfo { width: column.max_content_width as u32, is_hidden: false },
        ),
        Some(ColumnConstraint::Absolute(boundary)) => match boundary_value(
            table,
            boundary,
            visible_columns,
            table_width,
        ) {
            Some(width) => Some(
                ColumnDisplayInfo { width: padded(column, width as int) as u32, is_hidden: false },
            ),
            None => None,
        },
        Some(ColumnConstraint::Hidden) => Some(
            ColumnDisplayInfo { width: column.max_content_width as u32, is_hidden: true },
        ),
        _ => match min_constraint(table, column.constraint, table_width, visible_columns) {
            Some(lower) => if column.max_content_width <= lower {
                Some(ColumnDisplayInfo { width: padded(column, lower as int) as u32, is_hidden: false })
            } else {
                None
            },
            None => None,
        },
    }
}

/// What the layouts found so far become when `column` has been looked at.
/// A column that has a layout keeps it; one whose constraint settles a layout
/// gets it; any other is left without.
pub open spec fn evaluated(
    infos: Map<usize, ColumnDisplayInfo>,
    table: Table,
    column: Column,
    table_width: Option<usize>,
    visible_columns: int,
) -> Map<usize, ColumnDisplayInfo> {
    if infos.contains_key(column.index) {
        infos
    } else {
        match early_layout(table, column, table_width, visible_columns) {
            Some(info) => infos.insert(column.index, info),
            None => infos,
        }
    }
}

/// Looking at a column never takes a layout away, nor changes one that is
/// there.
pub proof fn evaluation_keeps_layouts(
    infos: Map<usize, ColumnDisplayInfo>,
    table: Table,
    column: Column,
    table_width: Option<usize>,
    visible_columns: int,
    index: usize,
)
    requires
        infos.contains_key(index),
    ensures
        evaluated(infos, table, column, table_width, visible_columns).contains_key(index),
        evaluated(infos, table, column, table_width, visible_columns)[index] == infos[index],
{
}

/// Looking at a column a second time changes nothing.
pub proof fn evaluation_is_idempotent(
    infos: Map<usize, ColumnDisplayInfo>,
    table: Table,
    column: Column,
    table_width: Option<usize>,
    visible_columns: int,
)
    ensures
        evaluated(
            evaluated(infos, table, column, table_width, visible_columns),
            table,
            column,
            table_width,
            visible_columns,
        ) == evaluated(infos, table, column, table_width, visible_columns),
{
}

/// Looks at the constraint of one column and settles its layout where that
/// can be done without looking at the other columns.
///
/// A constraint whose lower boundary resolves to more than its upper boundary
/// is an error, and nothing is recorded. Otherwise the column's layout is
/// recorded under its index, unless there is one already.
pub fn evaluate(
    table: &Table,
    column: &Column,
    infos: &mut DisplayInfos,
    table_width: Option<usize>,
    visible_columns: usize,
) -> (outcome: Result<(), ConstraintError>)
    ensures
        match constraint_error(*table, *column, table_width, visible_columns as int) {
            Some(error) => outcome == Err::<(), ConstraintError>(error) && final(infos)@ == old(infos)@,
            None => outcome is Ok && final(infos)@ == evaluated(
                old(infos)@,
                *table,
                *column,
                table_width,
                visible_columns as int,
            ),
        },
{
    match check_constraint(table, column, table_width, visible_columns) {
        Err(error) => {
            return Err(error);
        },
        Ok(()) => {},
    }
    if infos.contains_key(&column.index) {
        return Ok(());
    }
    let min_width = get_min_constraint(table, &column.constraint, table_width, visible_columns);
    match &column.constraint {
        Some(ColumnConstraint::ContentWidth) => {
            let info = ColumnDisplayInfo::new(column.max_content_width as u32);
            infos.insert(column.index, info);
        },
        Some(ColumnConstraint::Absolute(boundary)) => {
            if let Some(width) = absolute_value_from_boundary(table, boundary, visible_columns, table_width) {
                // The column always gets its fixed width.
                let width = absolute_width_with_padding(column, width);
                let info = ColumnDisplayInfo::new(width);
                infos.insert(column.index, info);
            }
        },
        Some(ColumnConstraint::Hidden) => {
            let mut info = ColumnDisplayInfo::new(column.max_content_width as u32);
            info.is_hidden = true;
            infos.insert(column.index, info);
        },
        _ => {
            if let Some(min_width) = min_width {
                // Content that is no wider than the lower boundary never asks
                // for more: the column's width is known already.
                if column.get_max_width() <= min_width {
                    let width = absolute_width_with_padding(column, min_width);
                    let info = ColumnDisplayInfo::new(width);
                    infos.insert(column.index, info);
                }
            }
        },
    }
    Ok(())
}

/// Tells whether a column's constraint can be met at all: it cannot when
/// both its boundaries resolve and the lower one is more than the upper one.
pub fn check_constraint(
    table: &Table,
    column: &Column,
    table_width: Option<usize>,
    visible_columns: usize,
) -> (outcome: Result<(), ConstraintError>)
    ensures
        match constraint_error(*table, *column, table_width, visible_columns as int) {
            Some(error) => outcome == Err::<(), ConstraintError>(error),
            None => outcome is Ok,
        },
{
    let min_width = get_min_constraint(table, &column.constraint, table_width, visible_columns);
    let max_width = get_max_constraint(table, &column.constraint, table_width, visible_columns);
    match (min_width, max_width) {
        (Some(lower), Some(upper)) => {
            if lower > upper {
                Err(ConstraintError::LowerAboveUpper { column: column.index, lower, upper })
            } else {
                Ok(())
            }
        },
        _ => Ok(()),
    }
}

/// Resolves the lower boundary of a constraint to characters, for the
/// current table and surface.
///
/// A fixed boundary is its own value; a percentage is taken of the width
/// that the borders leave, and resolves to nothing while the surface's width
/// is unknown. A constraint without a lower boundary gives `None`.
pub fn get_min_constraint(
    table: &Table,
    constraint: &Option<ColumnConstraint>,
    table_width: Option<usize>,
    visible_columns: usize,
) -> (width: Option<u16>)
    ensures
        width == min_constraint(*table, *constraint, table_width, visible_columns as int),
{
    let constraint = if let Some(constraint) = constraint {
        constraint
    } else {
        return None;
    };

    match constraint {
        ColumnConstraint::LowerBoundary(boundary) => absolute_value_from_boundary(
            table,
            boundary,
            visible_columns,
            table_width,
        ),
        ColumnConstraint::Boundaries { lower, upper } => absolute_value_from_boundary(
            table,
            lower,
            visible_columns,
            table_width,
        ),
        _ => None,
    }
}

/// Resolves the upper boundary of a constraint to characters, for the
/// current table and surface.
///
/// A fixed boundary is its own value; a percentage is taken of the width
/// that the borders leave, and resolves to nothing while the surface's width
/// is unknown. A constraint without an upper boundary gives `None`.
pub fn get_max_constraint(
    table: &Table,
    constraint: &Option<ColumnConstraint>,
    table_width: Option<usize>,
    visible_columns: usize,
) -> (width: Option<u16>)
    ensures
        width == max_constraint(*table, *constraint, table_width, visible_columns as int),
{
    let constraint = if let Some(constraint) = constraint {
        constraint
    } else {
        return None;
    };

    match constraint {
        ColumnConstraint::UpperBoundary(boundary) => absolute_value_from_boundary(
            table,
            boundary,
            visible_columns,
            table_width,
        ),
        ColumnConstraint::Boundaries { lower, upper } => absolute_value_from_boundary(
            table,
            upper,
            visible_columns,
            table_width,
        ),
        _ => None,
    }
}

/// Resolves a boundary to a number of characters.
///
/// A fixed boundary is its own value, whatever the surface. A percentage
/// resolves to nothing while the surface's width is unknown; otherwise it is
/// capped at 100 and taken, rounded down, of the width that the borders
/// leave. A result beyond the widest boundary is that widest boundary.
pub fn absolute_value_from_boundary(
    table: &Table,
    boundary: &Boundary,
    visible_columns: usize,
    table_width: Option<usize>,
) -> (width: Option<u16>)
    ensures
        width == boundary_value(*table, *boundary, visible_columns as int, table_width),
{
    match boundary {
        Boundary::Fixed(width) => Some(*width),
        Boundary::Percentage(percent) => {
            // No value, if the width of the surface cannot be told.
            let table_width = match table_width {
                Some(table_width) => table_width,
                None => return None,
            };

            // Enforce at most 100%.
            let percent: u16 = if *percent > FULL_PERCENT { FULL_PERCENT } else { *percent };

            // Take the borders off the table width.
            let borders = count_border_columns(table, visible_columns);
            let available: usize = if table_width > borders { table_width - borders } else { 0 };

            // The share in actual characters.
            assert(available * percent <= available * 100) by (nonlinear_arith)
                requires
                    0 <= available,
                    0 <= percent <= 100,
            ;
            let product: u128 = available as u128 * percent as u128;
            let share: u128 = product / 100;
            let width: u16 = if share > MAX_WIDTH as u128 { MAX_WIDTH } else { share as u16 };
            Some(width)
        },
    }
}

} // verus!
