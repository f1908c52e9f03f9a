//! The fixed palette from which a group's display color is drawn.

use vstd::prelude::*;

verus! {

/// A display color of the fixed palette.
#[derive(Clone, Copy, Debug, PartialEq, Eq, Structural)]
pub enum Color {
    Red,
    Blue,
    Green,
    Purple,
    Orange,
}

/// Number of colors in the palette.
pub const PALETTE_LEN: usize = 5;

impl Color {
    /// The color at position `i` of the palette, if there is one.
    pub open spec fn spec_from_index(i: int) -> Option<Color> {
        if i == 0 {
            Some(Color::Red)
        } else if i == 1 {
            Some(Color::Blue)
        } else if i == 2 {
            Some(Color::Green)
        } else if i == 3 {
            Some(Color::Purple)
        } else if i == 4 {
            Some(Color::Orange)
        } else {
            None
        }
    }

    /// Position of the color in the palette.
    pub open spec fn spec_index(self) -> int {
        match self {
            Color::Red => 0,
            Color::Blue => 1,
            Color::Green => 2,
            Color::Purple => 3,
            Color::Orange => 4,
        }
    }

    /// The lower-case name under which the color is displayed.
    pub open spec fn spec_name(self) -> Seq<char> {
        match self {
            Color::Red => "red"@,
            Color::Blue => "blue"@,
            Color::Green => "green"@,
            Color::Purple => "purple"@,
            Color::Orange => "orange"@,
        }
    }

    /// Looks up the color at position `i` of the palette; `None` past its end.
    pub fn from_index(i: usize) -> (c: Option<Color>)
        ensures
            c == Self::spec_from_index(i as int),
            c is Some <==> i < PALETTE_LEN,
    {
        if i == 0 {
            Some(Color::Red)
        } else if i == 1 {
            Some(Color::Blue)
        } else if i == 2 {
            Some(Color::Green)
        } else if i == 3 {
            Some(Color::Purple)
        } else if i == 4 {
            Some(Color::Orange)
        } else {
            None
        }
    }

    /// Position of the color in the palette.
    pub fn index(self) -> (i: usize)
        ensures
            i == self.spec_index(),
            i < PALETTE_LEN,
    {
        match self {
            Color::Red => 0,
            Color::Blue => 1,
            Color::Green => 2,
            Color::Purple => 3,
            Color::Orange => 4,
        }
    }

    /// The lower-case name under which the color is displayed.
    pub fn name(self) -> (s: &'static str)
        ensures
            s@ == self.spec_name(),
    {
        match self {
            Color::Red => "red",
            Color::Blue => "blue",
            Color::Green => "green",
            Color::Purple => "purple",
            Color::Orange => "orange",
        }
    }
}

/// Position and color determine each other: looking up a color's position
/// gives the color back, and every position below the palette's length holds
/// a color whose position it is.
pub proof fn lemma_palette_positions(c: Color, i: int)
    ensures
        Color::spec_from_index(c.spec_index()) == Some(c),
        0 <= c.spec_index() < PALETTE_LEN,
        0 <= i < PALETTE_LEN ==> Color::spec_from_index(i) is Some
            && Color::spec_from_index(i).unwrap().spec_index() == i,
        !(0 <= i < PALETTE_LEN) ==> Color::spec_from_index(i) is None,
{
}

} // verus!
