use comfy_table::utils::arrangement::arrange;
use comfy_table::utils::arrangement::constraints::{
    absolute_value_from_boundary, check_constraint, evaluate, get_max_constraint,
    get_min_constraint,
};
use comfy_table::{
    Boundary, Column, ColumnConstraint, ColumnDisplayInfo, ConstraintError, ContentArrangement,
    DisplayInfos, Table, TableStyle,
};

fn column(constraint: Option<ColumnConstraint>, content: u16) -> Column {
    Column { index: 0, padding: (0, 0), constraint, max_content_width: content, min_content_width: 0 }
}

fn padded(constraint: Option<ColumnConstraint>, content: u16) -> Column {
    Column { index: 0, padding: (1, 2), constraint, max_content_width: content, min_content_width: 0 }
}

fn table(width: Option<usize>, columns: Vec<Column>) -> Table {
    let mut table = Table::new(TableStyle::new(), ContentArrangement::Automatic, width);
    for column in columns {
        table = table.with_column(column);
    }
    table
}

#[test]
fn new_column_has_no_content_and_no_constraint() {
    let column = Column::new(4);
    assert_eq!(column.index, 4);
    assert_eq!(column.padding, (1, 1));
    assert_eq!(column.constraint, None);
    assert_eq!(column.get_max_width(), 0);
    assert!(!column.is_hidden());
    assert!(padded(Some(ColumnConstraint::Hidden), 3).is_hidden());
    assert_eq!(padded(None, 3).get_max_width(), 3);
}

#[test]
fn table_numbers_its_columns() {
    let table = table(Some(7), vec![Column::new(9), Column::new(9), Column::new(0)]);
    let indices: Vec<usize> = table.columns().iter().map(|column| column.index).collect();
    assert_eq!(indices, vec![0, 1, 2]);
    assert_eq!(table.table_width(), Some(7));
    assert_eq!(table.content_arrangement(), ContentArrangement::Automatic);
    assert_eq!(table.table_style().style_or_default(comfy_table::Component::LeftBorder), "|");
}

#[test]
fn empty_table_has_no_layouts() {
    assert_eq!(arrange(&table(Some(80), vec![])), Ok(DisplayInfos::new()));
    assert_eq!(arrange(&table(None, vec![])), Ok(DisplayInfos::new()));
}

#[test]
fn hidden_column_is_marked_hidden() {
    let table = table(Some(80), vec![column(Some(ColumnConstraint::Hidden), 7)]);
    let infos = arrange(&table).unwrap();
    assert_eq!(infos.len(), 1);
    assert!(infos[&0].is_hidden);
    assert_eq!(infos[&0].width, 7);
}

#[test]
fn fixed_column_and_free_column_share_twenty() {
    let table = table(
        Some(20),
        vec![column(Some(ColumnConstraint::Absolute(Boundary::Fixed(5))), 30), column(None, 10)],
    );
    let infos = arrange(&table).unwrap();
    assert_eq!(infos.len(), 2);
    assert_eq!(infos[&0], ColumnDisplayInfo { width: 5, is_hidden: false });
    // 20 - 5 - 3 = 12 are left, and the column takes no more than its content needs.
    assert_eq!(infos[&1], ColumnDisplayInfo { width: 10, is_hidden: false });
}

#[test]
fn free_column_shrinks_to_what_is_left() {
    let table = table(
        Some(20),
        vec![column(Some(ColumnConstraint::Absolute(Boundary::Fixed(5))), 30), column(None, 40)],
    );
    let infos = arrange(&table).unwrap();
    assert_eq!(infos[&0].width, 5);
    assert_eq!(infos[&1].width, 12);
}

#[test]
fn equal_boundaries_above_content_are_settled_early() {
    let table = table(None, vec![]);
    let column = column(
        Some(ColumnConstraint::Boundaries { lower: Boundary::Fixed(3), upper: Boundary::Fixed(3) }),
        1,
    );
    let mut infos = DisplayInfos::new();
    assert_eq!(evaluate(&table, &column, &mut infos, None, 1), Ok(()));
    assert_eq!(infos.get(&0), Some(&ColumnDisplayInfo { width: 3, is_hidden: false }));
}

#[test]
fn percentage_above_hundred_counts_as_hundred() {
    let table = table(Some(102), vec![]);
    let constraint = Some(ColumnConstraint::LowerBoundary(Boundary::Percentage(150)));
    // One visible column of a full frame: two borders, 100 characters left.
    assert_eq!(get_min_constraint(&table, &constraint, Some(102), 1), Some(100));
    assert_eq!(
        absolute_value_from_boundary(&table, &Boundary::Percentage(150), 1, Some(102)),
        absolute_value_from_boundary(&table, &Boundary::Percentage(100), 1, Some(102)),
    );
    assert_eq!(get_max_constraint(&table, &constraint, Some(102), 1), None);
}

#[test]
fn content_width_column_ignores_the_surface() {
    for width in [None, Some(0), Some(5), Some(80), Some(usize::MAX)] {
        let table = table(
            width,
            vec![padded(Some(ColumnConstraint::ContentWidth), 17), column(None, 500)],
        );
        let infos = arrange(&table).unwrap();
        assert_eq!(infos[&0], ColumnDisplayInfo { width: 17, is_hidden: false });
    }
}

#[test]
fn fixed_column_ignores_content_and_surface() {
    for width in [None, Some(0), Some(80)] {
        for content in [0, 5, 900] {
            let table = table(
                width,
                vec![padded(Some(ColumnConstraint::Absolute(Boundary::Fixed(5))), content)],
            );
            let infos = arrange(&table).unwrap();
            // Five characters of content and three of padding.
            assert_eq!(infos[&0], ColumnDisplayInfo { width: 8, is_hidden: false });
            assert_eq!(infos[&0].width - 3, 5);
        }
    }
}

#[test]
fn fixed_column_of_the_largest_width_does_not_overflow() {
    let wide = Column {
        index: 0,
        padding: (u16::MAX, u16::MAX),
        constraint: Some(ColumnConstraint::Absolute(Boundary::Fixed(u16::MAX))),
        max_content_width: 1,
        min_content_width: 0,
    };
    let infos = arrange(&table(Some(10), vec![wide])).unwrap();
    assert_eq!(infos[&0].width, 196_605);
}

#[test]
fn percentage_column_takes_its_share_of_what_the_borders_leave() {
    let quarter = Some(ColumnConstraint::Absolute(Boundary::Percentage(25)));
    let table = table(Some(103), vec![padded(quarter, 1), column(None, 1)]);
    let infos = arrange(&table).unwrap();
    // (103 - 3) * 25 / 100 = 25, and three characters of padding.
    assert_eq!(infos[&0], ColumnDisplayInfo { width: 28, is_hidden: false });
}

#[test]
fn percentage_is_rounded_down() {
    let table = table(Some(12), vec![]);
    // (12 - 3) * 50 / 100 = 4.5
    assert_eq!(absolute_value_from_boundary(&table, &Boundary::Percentage(50), 2, Some(12)), Some(4));
    // (12 - 3) * 33 / 100 = 2.97
    assert_eq!(absolute_value_from_boundary(&table, &Boundary::Percentage(33), 2, Some(12)), Some(2));
    assert_eq!(absolute_value_from_boundary(&table, &Boundary::Percentage(0), 2, Some(12)), Some(0));
    assert_eq!(absolute_value_from_boundary(&table, &Boundary::Percentage(100), 2, Some(12)), Some(9));
}

#[test]
fn percentage_of_an_unknown_width_is_nothing() {
    let half = Some(ColumnConstraint::Absolute(Boundary::Percentage(50)));
    let table = table(None, vec![padded(half, 14)]);
    assert_eq!(absolute_value_from_boundary(&table, &Boundary::Percentage(50), 1, None), None);

    let mut infos = DisplayInfos::new();
    assert_eq!(evaluate(&table, &padded(half, 14), &mut infos, None, 1), Ok(()));
    assert!(infos.is_empty());

    // The column falls back on the width of its content.
    let infos = arrange(&table).unwrap();
    assert_eq!(infos[&0], ColumnDisplayInfo { width: 14, is_hidden: false });
}

#[test]
fn percentage_stops_at_the_widest_boundary() {
    let table = table(None, vec![]);
    assert_eq!(
        absolute_value_from_boundary(&table, &Boundary::Percentage(100), 1, Some(10_000_000)),
        Some(u16::MAX)
    );
    assert_eq!(
        absolute_value_from_boundary(&table, &Boundary::Percentage(100), 1, Some(usize::MAX)),
        Some(u16::MAX)
    );
    assert_eq!(
        absolute_value_from_boundary(&table, &Boundary::Percentage(100), 1, Some(65_537)),
        Some(65_535)
    );
    assert_eq!(
        absolute_value_from_boundary(&table, &Boundary::Percentage(100), 1, Some(65_536)),
        Some(65_534)
    );
}

#[test]
fn surface_narrower_than_its_borders_leaves_nothing() {
    let table = table(None, vec![]);
    assert_eq!(absolute_value_from_boundary(&table, &Boundary::Percentage(100), 4, Some(3)), Some(0));
    assert_eq!(absolute_value_from_boundary(&table, &Boundary::Percentage(100), 4, Some(5)), Some(0));
    assert_eq!(absolute_value_from_boundary(&table, &Boundary::Percentage(100), 4, Some(6)), Some(1));
    assert_eq!(
        absolute_value_from_boundary(&table, &Boundary::Percentage(100), usize::MAX, Some(usize::MAX)),
        Some(0)
    );
}

#[test]
fn fixed_boundary_is_its_own_value() {
    let table = table(None, vec![]);
    for width in [None, Some(0), Some(1000)] {
        assert_eq!(absolute_value_from_boundary(&table, &Boundary::Fixed(0), 3, width), Some(0));
        assert_eq!(absolute_value_from_boundary(&table, &Boundary::Fixed(77), 3, width), Some(77));
        assert_eq!(
            absolute_value_from_boundary(&table, &Boundary::Fixed(u16::MAX), 3, width),
            Some(u16::MAX)
        );
    }
}

#[test]
fn only_boundary_constraints_have_boundaries() {
    let table = table(Some(50), vec![]);
    let none = [
        None,
        Some(ColumnConstraint::Hidden),
        Some(ColumnConstraint::ContentWidth),
        Some(ColumnConstraint::Absolute(Boundary::Fixed(5))),
    ];
    for constraint in none.iter() {
        assert_eq!(get_min_constraint(&table, constraint, Some(50), 1), None);
        assert_eq!(get_max_constraint(&table, constraint, Some(50), 1), None);
    }
    let lower = Some(ColumnConstraint::LowerBoundary(Boundary::Fixed(5)));
    assert_eq!(get_min_constraint(&table, &lower, Some(50), 1), Some(5));
    assert_eq!(get_max_constraint(&table, &lower, Some(50), 1), None);
    let upper = Some(ColumnConstraint::UpperBoundary(Boundary::Percentage(50)));
    assert_eq!(get_min_constraint(&table, &upper, Some(50), 1), None);
    assert_eq!(get_max_constraint(&table, &upper, Some(50), 1), Some(24));
    assert_eq!(get_max_constraint(&table, &upper, None, 1), None);
    let both = Some(ColumnConstraint::Boundaries {
        lower: Boundary::Fixed(2),
        upper: Boundary::Percentage(25),
    });
    assert_eq!(get_min_constraint(&table, &both, Some(50), 1), Some(2));
    assert_eq!(get_max_constraint(&table, &both, Some(50), 1), Some(12));
}

#[test]
fn lower_boundary_above_content_settles_the_column() {
    let table = table(Some(50), vec![]);
    let lower = Some(ColumnConstraint::LowerBoundary(Boundary::Fixed(10)));
    let mut infos = DisplayInfos::new();
    assert_eq!(evaluate(&table, &padded(lower, 10), &mut infos, Some(50), 1), Ok(()));
    assert_eq!(infos.get(&0), Some(&ColumnDisplayInfo { width: 13, is_hidden: false }));

    // Wider content is left to the allocation.
    let mut infos = DisplayInfos::new();
    assert_eq!(evaluate(&table, &padded(lower, 11), &mut infos, Some(50), 1), Ok(()));
    assert!(infos.is_empty());
}

#[test]
fn upper_boundary_and_free_columns_are_left_to_the_allocation() {
    let table = table(Some(50), vec![]);
    let mut infos = DisplayInfos::new();
    let upper = Some(ColumnConstraint::UpperBoundary(Boundary::Fixed(10)));
    assert_eq!(evaluate(&table, &column(upper, 3), &mut infos, Some(50), 1), Ok(()));
    assert_eq!(evaluate(&table, &column(None, 3), &mut infos, Some(50), 1), Ok(()));
    assert!(infos.is_empty());
}

#[test]
fn evaluation_never_overwrites_a_layout() {
    let table = table(Some(50), vec![]);
    let mut infos = DisplayInfos::new();
    let first = column(Some(ColumnConstraint::ContentWidth), 4);
    let second = column(Some(ColumnConstraint::Absolute(Boundary::Fixed(9))), 4);
    assert_eq!(evaluate(&table, &first, &mut infos, Some(50), 1), Ok(()));
    assert_eq!(evaluate(&table, &second, &mut infos, Some(50), 1), Ok(()));
    assert_eq!(infos.len(), 1);
    assert_eq!(infos[&0], ColumnDisplayInfo { width: 4, is_hidden: false });
    // A second look at the same column changes nothing either.
    assert_eq!(evaluate(&table, &first, &mut infos, Some(50), 1), Ok(()));
    assert_eq!(infos[&0], ColumnDisplayInfo { width: 4, is_hidden: false });
}

#[test]
fn lower_above_upper_is_an_error() {
    let crossed = column(
        Some(ColumnConstraint::Boundaries { lower: Boundary::Fixed(9), upper: Boundary::Fixed(4) }),
        6,
    );
    let table = table(Some(80), vec![column(None, 4), crossed]);
    assert_eq!(arrange(&table), Err(ConstraintError::LowerAboveUpper { column: 1, lower: 9, upper: 4 }));

    let mut infos = DisplayInfos::new();
    infos.insert(7, ColumnDisplayInfo { width: 1, is_hidden: false });
    assert_eq!(
        evaluate(&table, &crossed, &mut infos, Some(80), 2),
        Err(ConstraintError::LowerAboveUpper { column: 0, lower: 9, upper: 4 })
    );
    assert_eq!(infos.len(), 1);
    assert_eq!(
        check_constraint(&table, &crossed, Some(80), 2),
        Err(ConstraintError::LowerAboveUpper { column: 0, lower: 9, upper: 4 })
    );
}

#[test]
fn first_error_wins() {
    let crossed = |lower: u16| {
        column(
            Some(ColumnConstraint::Boundaries {
                lower: Boundary::Fixed(lower),
                upper: Boundary::Fixed(1),
            }),
            6,
        )
    };
    let table = table(Some(80), vec![column(None, 4), crossed(5), crossed(6)]);
    assert_eq!(arrange(&table), Err(ConstraintError::LowerAboveUpper { column: 1, lower: 5, upper: 1 }));
}

#[test]
fn boundaries_may_cross_only_when_both_resolve() {
    let mixed = column(
        Some(ColumnConstraint::Boundaries {
            lower: Boundary::Fixed(50),
            upper: Boundary::Percentage(10),
        }),
        60,
    );
    // On a known surface the percentage resolves to 9, below the lower boundary.
    assert_eq!(
        arrange(&table(Some(100), vec![mixed])),
        Err(ConstraintError::LowerAboveUpper { column: 0, lower: 50, upper: 9 })
    );
    // On an unknown surface the upper boundary is inactive.
    let infos = arrange(&table(None, vec![mixed])).unwrap();
    assert_eq!(infos[&0], ColumnDisplayInfo { width: 60, is_hidden: false });
    // Equal boundaries are no error.
    let equal = column(
        Some(ColumnConstraint::Boundaries { lower: Boundary::Fixed(5), upper: Boundary::Fixed(5) }),
        60,
    );
    assert_eq!(check_constraint(&table(None, vec![]), &equal, None, 1), Ok(()));
    let infos = arrange(&table(Some(100), vec![equal])).unwrap();
    assert_eq!(infos[&0].width, 5);
}

#[test]
fn arranging_twice_gives_the_same_layouts() {
    let table = table(
        Some(40),
        vec![
            padded(Some(ColumnConstraint::LowerBoundary(Boundary::Percentage(20))), 30),
            column(Some(ColumnConstraint::Hidden), 3),
            padded(None, 25),
            column(Some(ColumnConstraint::UpperBoundary(Boundary::Fixed(6))), 25),
            column(Some(ColumnConstraint::Absolute(Boundary::Percentage(10))), 25),
        ],
    );
    let first = arrange(&table);
    let second = arrange(&table);
    assert!(first.is_ok());
    assert_eq!(first, second);
    assert_eq!(first.unwrap().len(), 5);
}
