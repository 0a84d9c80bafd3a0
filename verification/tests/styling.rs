use comfy_table::styling::presets::ASCII_FULL;
use comfy_table::{Component, TableStyle};

const ALL: [Component; 19] = [
    Component::LeftBorder,
    Component::RightBorder,
    Component::TopBorder,
    Component::BottomBorder,
    Component::HeaderLeftIntersection,
    Component::HeaderBorder,
    Component::HeaderMiddleIntersections,
    Component::HeaderRightIntersection,
    Component::VerticalLines,
    Component::HorizontalLines,
    Component::MiddleIntersections,
    Component::LeftBorderIntersections,
    Component::RightBorderIntersections,
    Component::TopBorderIntersections,
    Component::BottomBorderIntersections,
    Component::TopLeftCorner,
    Component::TopRightCorner,
    Component::BottomLeftCorner,
    Component::BottomRightCorner,
];

#[test]
fn components_come_in_declaration_order() {
    let all = Component::iter();
    assert_eq!(all, ALL.to_vec());
    for (place, component) in ALL.iter().enumerate() {
        assert_eq!(component.index(), place);
        assert_eq!(Component::nth(place), Some(*component));
    }
    assert_eq!(Component::nth(19), None);
    assert_eq!(Component::nth(usize::MAX), None);
}

#[test]
fn new_style_is_the_full_ascii_frame() {
    let mut style = TableStyle::new();
    let glyphs: Vec<char> = ASCII_FULL.chars().collect();
    assert_eq!(glyphs.len(), 19);
    for (place, component) in ALL.iter().enumerate() {
        assert!(style.style_exists(*component));
        assert!(style.has_glyph(*component));
        assert_eq!(style.get_style(*component), Some(glyphs[place]));
    }
    assert_eq!(style.get_style(Component::LeftBorder), Some('|'));
    assert_eq!(style.get_style(Component::TopBorder), Some('-'));
    assert_eq!(style.get_style(Component::HeaderBorder), Some('='));
    assert_eq!(style.get_style(Component::BottomRightCorner), Some('+'));
}

#[test]
fn short_preset_leaves_the_other_components() {
    let mut style = TableStyle::new();
    style.load_preset("ab");
    assert_eq!(style.get_style(Component::LeftBorder), Some('a'));
    assert_eq!(style.get_style(Component::RightBorder), Some('b'));
    assert_eq!(style.get_style(Component::TopBorder), Some('-'));
    assert_eq!(style.get_style(Component::BottomRightCorner), Some('+'));
}

#[test]
fn empty_preset_changes_nothing() {
    let mut style = TableStyle::new();
    style.load_preset("");
    for component in ALL.iter() {
        assert!(style.has_glyph(*component));
    }
    assert_eq!(style.get_style(Component::LeftBorder), Some('|'));
}

#[test]
fn long_preset_is_cut_after_the_last_component() {
    let mut style = TableStyle::new();
    style.load_preset("abcdefghijklmnopqrstuvwxyz");
    assert_eq!(style.get_style(Component::LeftBorder), Some('a'));
    assert_eq!(style.get_style(Component::BottomLeftCorner), Some('r'));
    assert_eq!(style.get_style(Component::BottomRightCorner), Some('s'));
}

#[test]
fn preset_takes_characters_not_bytes() {
    let mut style = TableStyle::new();
    style.load_preset("│é");
    assert_eq!(style.get_style(Component::LeftBorder), Some('│'));
    assert_eq!(style.get_style(Component::RightBorder), Some('é'));
    assert_eq!(style.get_style(Component::TopBorder), Some('-'));
}

#[test]
fn blank_in_a_preset_is_no_glyph() {
    let mut style = TableStyle::new();
    style.load_preset(" x");
    // The blank takes the first component's place and leaves it without a glyph.
    assert_eq!(style.get_style(Component::LeftBorder), None);
    assert!(style.style_exists(Component::LeftBorder));
    assert!(!style.has_glyph(Component::LeftBorder));
    assert_eq!(style.style_or_default(Component::LeftBorder), " ");
    assert_eq!(style.get_style(Component::RightBorder), Some('x'));
    assert_eq!(style.get_style(Component::TopBorder), Some('-'));
}

#[test]
fn preset_and_set_style_assign_alike() {
    let mut loaded = TableStyle::new();
    loaded.load_preset("a b ");
    let mut set = TableStyle::new();
    set.set_style(Component::LeftBorder, Some('a'))
        .set_style(Component::RightBorder, Some(' '))
        .set_style(Component::TopBorder, Some('b'))
        .set_style(Component::BottomBorder, None);
    for component in ALL.iter() {
        assert_eq!(loaded.get_style(*component), set.get_style(*component));
        assert_eq!(loaded.style_exists(*component), set.style_exists(*component));
        assert_eq!(loaded.has_glyph(*component), set.has_glyph(*component));
        assert_eq!(loaded.style_or_default(*component), set.style_or_default(*component));
    }
    assert_eq!(loaded.get_style(Component::RightBorder), None);
    assert_eq!(loaded.get_style(Component::BottomBorder), None);
}

#[test]
fn preset_of_blanks_leaves_no_glyph() {
    let mut style = TableStyle::new();
    style.load_preset("                   ");
    for component in ALL.iter() {
        assert_eq!(style.get_style(*component), None);
        assert!(style.style_exists(*component));
        assert!(!style.has_glyph(*component));
        assert_eq!(style.style_or_default(*component), " ");
    }
}

#[test]
fn modifier_skips_blanks_without_using_up_a_component() {
    let mut style = TableStyle::new();
    style.apply_modifier("  x   y ");
    assert_eq!(style.get_style(Component::LeftBorder), Some('x'));
    assert_eq!(style.get_style(Component::RightBorder), Some('y'));
    assert_eq!(style.get_style(Component::TopBorder), Some('-'));
}

#[test]
fn modifier_of_blanks_changes_nothing() {
    let mut style = TableStyle::new();
    style.apply_modifier("                         ");
    assert_eq!(style.get_style(Component::LeftBorder), Some('|'));
    assert_eq!(style.get_style(Component::BottomRightCorner), Some('+'));
}

#[test]
fn long_modifier_is_cut_after_the_last_component() {
    let mut style = TableStyle::new();
    style.apply_modifier("a b c d e f g h i j k l m n o p q r s t u v");
    assert_eq!(style.get_style(Component::LeftBorder), Some('a'));
    assert_eq!(style.get_style(Component::BottomRightCorner), Some('s'));
}

#[test]
fn modifier_can_be_chained() {
    let mut style = TableStyle::new();
    style.apply_modifier("x").apply_modifier("y").set_style(Component::RightBorder, Some('z'));
    assert_eq!(style.get_style(Component::LeftBorder), Some('y'));
    assert_eq!(style.get_style(Component::RightBorder), Some('z'));
}

#[test]
fn set_style_sets_one_glyph() {
    let mut style = TableStyle::new();
    style.set_style(Component::VerticalLines, Some('!'));
    assert_eq!(style.get_style(Component::VerticalLines), Some('!'));
    assert_eq!(style.get_style(Component::HorizontalLines), Some('-'));
    assert_eq!(style.style_or_default(Component::VerticalLines), "!");
}

#[test]
fn blank_glyph_is_no_glyph() {
    let mut blank = TableStyle::new();
    blank.set_style(Component::TopBorder, Some(' '));
    let mut none = TableStyle::new();
    none.set_style(Component::TopBorder, None);
    assert_eq!(blank.get_style(Component::TopBorder), None);
    assert_eq!(none.get_style(Component::TopBorder), None);
    assert!(blank.style_exists(Component::TopBorder));
    assert!(none.style_exists(Component::TopBorder));
    assert!(!blank.has_glyph(Component::TopBorder));
    assert!(!none.has_glyph(Component::TopBorder));
    assert_eq!(blank.style_or_default(Component::TopBorder), " ");
    assert_eq!(none.style_or_default(Component::TopBorder), " ");
}

#[test]
fn style_or_default_gives_the_glyph_as_text() {
    let style = TableStyle::new();
    assert_eq!(style.style_or_default(Component::LeftBorder), "|");
    assert_eq!(style.style_or_default(Component::HeaderBorder), "=");
    let mut wide = TableStyle::new();
    wide.set_style(Component::TopLeftCorner, Some('╭'));
    assert_eq!(wide.style_or_default(Component::TopLeftCorner), "╭");
    assert_eq!(wide.style_or_default(Component::TopLeftCorner).chars().count(), 1);
}

#[test]
fn get_style_leaves_the_style_alone() {
    let mut style = TableStyle::new();
    assert_eq!(style.get_style(Component::MiddleIntersections), Some('+'));
    assert_eq!(style.get_style(Component::MiddleIntersections), Some('+'));
    assert!(style.style_exists(Component::MiddleIntersections));
}
