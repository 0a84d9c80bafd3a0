use std::collections::HashMap;
use vstd::prelude::*;

use crate::styling::component::{Component, COMPONENT_COUNT};
use crate::styling::presets::ASCII_FULL;

verus! {

broadcast use vstd::std_specs::hash::group_hash_axioms;

/// How the widths of a table's columns are chosen.
#[derive(Clone, Copy, Debug, PartialEq, Eq, Structural)]
pub enum ContentArrangement {
    /// No automatic width calculation. Columns without a constraint are as
    /// wide as their content, and the table may grow wider than the surface
    /// it is drawn on. Constraints on columns are still respected.
    Disabled,
    /// Widths are chosen with regard to the surface's width and the content's
    /// length. Constraints on columns are still respected.
    Automatic,
}

/// The glyph of every component of a table's frame.
///
/// Seen from outside, a style is a map from components to optional glyphs. A
/// component that maps to `None` has been assigned "no glyph".
pub struct TableStyle {
    style: HashMap<usize, Option<char>>,
}

impl View for TableStyle {
    type V = Map<Component, Option<char>>;

    closed spec fn view(&self) -> Map<Component, Option<char>> {
        Map::new(
            |c: Component| self.style@.contains_key(c.position() as usize),
            |c: Component| self.style@[c.position() as usize],
        )
    }
}

/// What a style holds for `component` once `symbol` has been assigned to it:
/// a blank counts as no glyph.
pub open spec fn assigned_glyph(symbol: Option<char>) -> Option<char> {
    if symbol == Some(' ') {
        None
    } else {
        symbol
    }
}

/// Whether `component` has, in `style`, a glyph that shows: one that is not
/// a blank.
pub open spec fn shows_glyph(style: Map<Component, Option<char>>, component: Component) -> bool {
    &&& style.contains_key(component)
    &&& style[component] matches Some(glyph)
    &&& glyph != ' '
}

/// A style once a style string has been loaded into it: the string's
/// characters have been assigned to the components in declaration order, one
/// each, so that a blank leaves its component without a glyph. Components
/// beyond the string's end keep what they had.
pub open spec fn preset_loaded(style: Map<Component, Option<char>>, format: Seq<char>) -> Map<
    Component,
    Option<char>,
> {
    Map::new(
        |c: Component| style.contains_key(c) || c.position() < format.len(),
        |c: Component|
            if c.position() < format.len() {
                assigned_glyph(Some(format[c.position() as int]))
            } else {
                style[c]
            },
    )
}

/// The characters of a modifier string that are not blanks, in their order.
pub open spec fn without_blanks(modifier: Seq<char>) -> Seq<char> {
    modifier.filter(|character: char| character != ' ')
}

/// `char::to_string` of std: the string made of the one character.
#[verifier::external_body]
fn char_to_string(character: char) -> (text: String)
    ensures
        text@ == seq![character],
{
    character.to_string()
}

/// The glyph that `component` is drawn with: its own if it has one, and
/// else a blank.
pub open spec fn drawn_glyph(style: Map<Component, Option<char>>, component: Component) -> char {
    if style.contains_key(component) {
        match style[component] {
            Some(glyph) => glyph,
            None => ' ',
        }
    } else {
        ' '
    }
}

impl TableStyle {
    /// The default style: [`ASCII_FULL`], loaded into a style that was empty.
    pub fn new() -> (style: TableStyle)
        ensures
            style@ == preset_loaded(Map::empty(), ASCII_FULL@),
    {
        let mut table_style = TableStyle { style: HashMap::new() };
        assert(table_style@ =~= Map::empty());
        table_style.load_preset(ASCII_FULL);
        table_style
    }

    /// Records `glyph` for `component`, as it is.
    fn assign(&mut self, component: Component, glyph: Option<char>)
        ensures
            final(self)@ == old(self)@.insert(component, glyph),
    {
        let key = component.index();
        self.style.insert(key, glyph);
        proof {
            assert forall|c: Component| c.position() as usize == key implies c == component by {
                Component::positions_are_a_numbering(c, 0);
                Component::positions_are_a_numbering(component, 0);
            }
            assert(self@ =~= old(self)@.insert(component, glyph));
        }
    }

    /// Loads a style string: its characters are assigned to the components
    /// in declaration order, as [`TableStyle::set_style`] assigns them. A
    /// blank takes its component's place and leaves it without a glyph.
    ///
    /// Where the string is shorter than the list of components, the others
    /// keep their glyphs. Where it is longer, the characters beyond the last
    /// component are left aside.
    pub fn load_preset(&mut self, format: &str)
        ensures
            final(self)@ == preset_loaded(old(self)@, format@),
    {
        let mut position: usize = 0;
        for character in it: format.chars()
            invariant
                it.seq() == format@,
                position <= COMPONENT_COUNT,
                position == it.index() || (position == COMPONENT_COUNT && it.index() >= COMPONENT_COUNT),
                self@ == preset_loaded(old(self)@, format@.take(position as int)),
        {
            match Component::nth(position) {
                Some(component) => {
                    proof {
                        one_more_loaded(old(self)@, format@, position as nat);
                    }
                    // A blank is no glyph.
                    let glyph = if character == ' ' { None } else { Some(character) };
                    self.assign(component, glyph);
                    position = position + 1;
                },
                // Every component has its glyph: the rest of the string is left aside.
                None => {},
            }
        }
        proof {
            all_loaded(old(self)@, format@, position as nat);
        }
    }

    /// Overlays a loaded style with a modifier string.
    ///
    /// Blanks in the modifier are skipped; they take no component's place.
    /// The characters that are left are assigned to the components in
    /// declaration order, as a style string's characters are.
    pub fn apply_modifier(&mut self, modifier: &str) -> (styled: &mut Self)
        ensures
            styled@ == preset_loaded(old(self)@, without_blanks(modifier@)),
            *final(self) == *final(styled),
    {
        let mut position: usize = 0;
        let ghost mut taken: Seq<char> = Seq::empty();
        for character in it: modifier.chars()
            invariant
                it.seq() == modifier@,
                taken == without_blanks(modifier@.take(it.index())),
                position <= COMPONENT_COUNT,
                position == taken.len() || (position == COMPONENT_COUNT && taken.len() >= COMPONENT_COUNT),
                self@ == preset_loaded(old(self)@, taken.take(position as int)),
        {
            proof {
                let seen = modifier@.take(it.index() + 1);
                assert(seen.drop_last() =~= modifier@.take(it.index()));
                assert(seen.last() == character);
                reveal(Seq::filter);
            }
            // Blanks are skipped.
            if character != ' ' {
                proof {
                    taken = taken.push(character);
                }
                match Component::nth(position) {
                    Some(component) => {
                        proof {
                            one_more_loaded(old(self)@, taken, position as nat);
                        }
                        self.assign(component, Some(character));
                        position = position + 1;
                    },
                    // Every component has its glyph: the rest is left aside.
                    None => {
                        assert(taken.take(position as int) =~= taken.drop_last().take(position as int));
                    },
                }
            }
        }
        proof {
            assert(modifier@.take(modifier@.len() as int) =~= modifier@);
            all_loaded(old(self)@, taken, position as nat);
        }
        self
    }

    /// Sets the glyph that draws `component`.
    ///
    /// With `None`, and likewise with a blank, the component has no glyph: it
    /// is drawn as a blank, or not at all where the parts around it have no
    /// glyph either.
    pub fn set_style(&mut self, component: Component, symbol: Option<char>) -> (styled: &mut Self)
        ensures
            styled@ == old(self)@.insert(component, assigned_glyph(symbol)),
            *final(self) == *final(styled),
    {
        if let Some(symbol) = symbol {
            if symbol == ' ' {
                self.assign(component, None);
                return self;
            }
        }
        self.assign(component, symbol);

        self
    }

    /// The glyph currently assigned to `component`, if it has one.
    pub fn get_style(&mut self, component: Component) -> (glyph: Option<char>)
        ensures
            *final(self) == *old(self),
            glyph == (if old(self)@.contains_key(component) {
                old(self)@[component]
            } else {
                None
            }),
    {
        let key = component.index();
        match self.style.get(&key) {
            None => None,
            Some(option) => *option,
        }
    }

    /// The text that draws `component`: its glyph, or a blank if it has none.
    pub fn style_or_default(&self, component: Component) -> (text: String)
        ensures
            text@ == seq![drawn_glyph(self@, component)],
    {
        let key = component.index();
        match self.style.get(&key) {
            None => char_to_string(' '),
            Some(option) => match option {
                None => char_to_string(' '),
                Some(character) => char_to_string(*character),
            },
        }
    }

    /// Whether `component` has a glyph that shows: one that is not a blank.
    pub fn has_glyph(&self, component: Component) -> (shows: bool)
        ensures
            shows == shows_glyph(self@, component),
    {
        let key = component.index();
        match self.style.get(&key) {
            Some(Some(glyph)) => *glyph != ' ',
            _ => false,
        }
    }

    /// Whether `component` has ever been assigned to, be it a glyph or none.
    pub fn style_exists(&self, component: Component) -> (exists: bool)
        ensures
            exists == self@.contains_key(component),
    {
        let key = component.index();
        self.style.get(&key).is_some()
    }
}

/// Loading a style string is assigning its characters one by one: the
/// string up to and with the character at `position` leaves the style that
/// the string before it leaves, with that character assigned to the
/// component at `position`.
pub proof fn one_more_loaded(style: Map<Component, Option<char>>, format: Seq<char>, position: nat)
    requires
        position < format.len(),
        position < COMPONENT_COUNT,
    ensures
        preset_loaded(style, format.take(position as int)).insert(
            Component::at(position),
            assigned_glyph(Some(format[position as int])),
        ) == preset_loaded(style, format.take(position as int + 1)),
{
    let before = preset_loaded(style, format.take(position as int));
    let after = preset_loaded(style, format.take(position as int + 1));
    Component::positions_are_a_numbering(Component::at(position), position);
    assert forall|c: Component| c.position() == position implies c == Component::at(position) by {
        Component::positions_are_a_numbering(c, 0);
    }
    assert(before.insert(Component::at(position), assigned_glyph(Some(format[position as int]))) =~= after);
}

/// Once the string or the components are used up, the whole string is loaded.
proof fn all_loaded(style: Map<Component, Option<char>>, format: Seq<char>, position: nat)
    requires
        position == format.len() || (position == COMPONENT_COUNT && format.len() >= COMPONENT_COUNT),
    ensures
        preset_loaded(style, format.take(position as int)) == preset_loaded(style, format),
{
    assert forall|c: Component| c.position() < COMPONENT_COUNT by {
        Component::positions_are_a_numbering(c, 0);
    }
    assert(preset_loaded(style, format.take(position as int)) =~= preset_loaded(style, format));
}

/// The default style gives every component the character that
/// [`ASCII_FULL`] holds at its position, and none of them is a blank.
pub proof fn default_style_is_full(component: Component)
    ensures
        ASCII_FULL@.len() == COMPONENT_COUNT,
        preset_loaded(Map::empty(), ASCII_FULL@).contains_key(component),
        preset_loaded(Map::empty(), ASCII_FULL@)[component] == Some(ASCII_FULL@[component.position() as int]),
        shows_glyph(preset_loaded(Map::empty(), ASCII_FULL@), component),
{
    reveal_strlit("||--+==+|-+||++++++");
    Component::positions_are_a_numbering(component, 0);
}

/// Assigning a blank to a component is assigning it no glyph: the style is
/// the same after either, and the component is drawn as a blank.
pub proof fn blank_is_no_glyph(style: Map<Component, Option<char>>, component: Component)
    ensures
        style.insert(component, assigned_glyph(Some(' '))) == style.insert(component, assigned_glyph(None)),
        drawn_glyph(style.insert(component, assigned_glyph(Some(' '))), component) == ' ',
        !shows_glyph(style.insert(component, assigned_glyph(Some(' '))), component),
{
}

/// A style string gives every component within its length what assigning
/// the character at the component's position gives it. Where that character
/// is a blank, the component is left without a glyph: it takes the blank's
/// place in the string, and is drawn as a blank.
pub proof fn loading_is_assigning(style: Map<Component, Option<char>>, format: Seq<char>, component: Component)
    requires
        component.position() < format.len(),
    ensures
        preset_loaded(style, format).contains_key(component),
        preset_loaded(style, format)[component] == style.insert(
            component,
            assigned_glyph(Some(format[component.position() as int])),
        )[component],
        format[component.position() as int] == ' ' ==> {
            &&& preset_loaded(style, format)[component] == None::<char>
            &&& preset_loaded(style, format)[component] == style.insert(component, assigned_glyph(None))[component]
            &&& drawn_glyph(preset_loaded(style, format), component) == ' '
            &&& !shows_glyph(preset_loaded(style, format), component)
        },
{
}

} // verus!
