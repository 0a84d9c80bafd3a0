use vstd::prelude::*;

verus! {

/// How many components a table style has.
pub const COMPONENT_COUNT: usize = 19;

/// All configurable parts of a table's frame. Each can be given one glyph.
///
/// Border intersections are the places where the lines between rows or
/// columns meet the outer border:
///
/// ```text
///        --------
///        v      |
/// +--+---+---+  |
/// |  |   |   |  |
/// +----------+ <- these "+" are border intersections
/// |  |   |   |
/// +--+---+---+
/// ```
#[derive(Clone, Copy, Debug, PartialEq, Eq, Hash, Structural)]
pub enum Component {
    LeftBorder,
    RightBorder,
    TopBorder,
    BottomBorder,
    HeaderLeftIntersection,
    HeaderBorder,
    HeaderMiddleIntersections,
    HeaderRightIntersection,
    VerticalLines,
    HorizontalLines,
    MiddleIntersections,
    LeftBorderIntersections,
    RightBorderIntersections,
    TopBorderIntersections,
    BottomBorderIntersections,
    TopLeftCorner,
    TopRightCorner,
    BottomLeftCorner,
    BottomRightCorner,
}

impl Component {
    /// The place of a component in the declaration order, counted from 0.
    pub open spec fn position(self) -> nat {
        match self {
            Component::LeftBorder => 0,
            Component::RightBorder => 1,
            Component::TopBorder => 2,
            Component::BottomBorder => 3,
            Component::HeaderLeftIntersection => 4,
            Component::HeaderBorder => 5,
            Component::HeaderMiddleIntersections => 6,
            Component::HeaderRightIntersection => 7,
            Component::VerticalLines => 8,
            Component::HorizontalLines => 9,
            Component::MiddleIntersections => 10,
            Component::LeftBorderIntersections => 11,
            Component::RightBorderIntersections => 12,
            Component::TopBorderIntersections => 13,
            Component::BottomBorderIntersections => 14,
            Component::TopLeftCorner => 15,
            Component::TopRightCorner => 16,
            Component::BottomLeftCorner => 17,
            Component::BottomRightCorner => 18,
        }
    }

    /// The component that stands at `position` in the declaration order.
    pub open spec fn at(position: nat) -> Component
        recommends
            position < COMPONENT_COUNT,
    {
        if position == 0 {
            Component::LeftBorder
        } else if position == 1 {
            Component::RightBorder
        } else if position == 2 {
            Component::TopBorder
        } else if position == 3 {
            Component::BottomBorder
        } else if position == 4 {
            Component::HeaderLeftIntersection
        } else if position == 5 {
            Component::HeaderBorder
        } else if position == 6 {
            Component::HeaderMiddleIntersections
        } else if position == 7 {
            Component::HeaderRightIntersection
        } else if position == 8 {
            Component::VerticalLines
        } else if position == 9 {
            Component::HorizontalLines
        } else if position == 10 {
            Component::MiddleIntersections
        } else if position == 11 {
            Component::LeftBorderIntersections
        } else if position == 12 {
            Component::RightBorderIntersections
        } else if position == 13 {
            Component::TopBorderIntersections
        } else if position == 14 {
            Component::BottomBorderIntersections
        } else if position == 15 {
            Component::TopLeftCorner
        } else if position == 16 {
            Component::TopRightCorner
        } else if position == 17 {
            Component::BottomLeftCorner
        } else {
            Component::BottomRightCorner
        }
    }

    /// The declaration order numbers the components without gaps or repeats:
    /// every component has a position below the count, `at` undoes `position`,
    /// and `position` undoes `at` on every position below the count.
    pub proof fn positions_are_a_numbering(c: Component, position: nat)
        ensures
            c.position() < COMPONENT_COUNT,
            Component::at(c.position()) == c,
            position < COMPONENT_COUNT ==> Component::at(position).position() == position,
    {
    }

    /// The position of this component in the declaration order.
    pub fn index(self) -> (i: usize)
        ensures
            i == self.position(),
            i < COMPONENT_COUNT,
    {
        match self {
            Component::LeftBorder => 0,
            Component::RightBorder => 1,
            Component::TopBorder => 2,
            Component::BottomBorder => 3,
            Component::HeaderLeftIntersection => 4,
            Component::HeaderBorder => 5,
            Component::HeaderMiddleIntersections => 6,
            Component::HeaderRightIntersection => 7,
            Component::VerticalLines => 8,
            Component::HorizontalLines => 9,
            Component::MiddleIntersections => 10,
            Component::LeftBorderIntersections => 11,
            Component::RightBorderIntersections => 12,
            Component::TopBorderIntersections => 13,
            Component::BottomBorderIntersections => 14,
            Component::TopLeftCorner => 15,
            Component::TopRightCorner => 16,
            Component::BottomLeftCorner => 17,
            Component::BottomRightCorner => 18,
        }
    }

    /// The component at `index` in the declaration order, or `None` once the
    /// components are used up.
    pub fn nth(index: usize) -> (found: Option<Component>)
        ensures
            index < COMPONENT_COUNT ==> found == Some(Component::at(index as nat)),
            index >= COMPONENT_COUNT ==> found is None,
    {
        match index {
            0 => Some(Component::LeftBorder),
            1 => Some(Component::RightBorder),
            2 => Some(Component::TopBorder),
            3 => Some(Component::BottomBorder),
            4 => Some(Component::HeaderLeftIntersection),
            5 => Some(Component::HeaderBorder),
            6 => Some(Component::HeaderMiddleIntersections),
            7 => Some(Component::HeaderRightIntersection),
            8 => Some(Component::VerticalLines),
            9 => Some(Component::HorizontalLines),
            10 => Some(Component::MiddleIntersections),
            11 => Some(Component::LeftBorderIntersections),
            12 => Some(Component::RightBorderIntersections),
            13 => Some(Component::TopBorderIntersections),
            14 => Some(Component::BottomBorderIntersections),
            15 => Some(Component::TopLeftCorner),
            16 => Some(Component::TopRightCorner),
            17 => Some(Component::BottomLeftCorner),
            18 => Some(Component::BottomRightCorner),
            _ => None,
        }
    }

    /// All components, in declaration order.
    pub fn iter() -> (all: Vec<Component>)
        ensures
            all@.len() == COMPONENT_COUNT,
            forall|i: int| 0 <= i < all@.len() ==> all@[i] == Component::at(i as nat),
    {
        let mut all: Vec<Component> = Vec::new();
        let mut i: usize = 0;
        while i < COMPONENT_COUNT
            invariant
                i <= COMPONENT_COUNT,
                all@.len() == i,
                forall|j: int| 0 <= j < all@.len() ==> all@[j] == Component::at(j as nat),
            decreases COMPONENT_COUNT - i,
        {
            match Component::nth(i) {
                Some(c) => all.push(c),
                None => {},
            }
            i = i + 1;
        }
        all
    }
}

} // verus!
