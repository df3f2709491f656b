use vstd::prelude::*;

verus! {

/// Victory points.
#[derive(Clone, Copy, Debug, PartialEq, Eq, Structural, PartialOrd, Ord, Hash)]
pub struct VP(pub u32);

/// The four discipline tracks.
#[derive(Clone, Copy, Debug, PartialEq, Eq, Structural, Hash)]
pub enum Discipline {
    Banking,
    Law,
    Engineering,
    Medicine,
}

/// The highest step of a discipline track.
pub const DISCIPLINE_MAX: u32 = 12;

/// The position of a discipline track in a faction's track array.
pub open spec fn disc_index(d: Discipline) -> int {
    match d {
        Discipline::Banking => 0,
        Discipline::Law => 1,
        Discipline::Engineering => 2,
        Discipline::Medicine => 3,
    }
}

impl Discipline {
    /// The position of this track in a faction's track array.
    pub fn index(&self) -> (r: usize)
        ensures
            r == disc_index(*self),
    {
        match self {
            Discipline::Banking => 0,
            Discipline::Law => 1,
            Discipline::Engineering => 2,
            Discipline::Medicine => 3,
        }
    }
}

/// Faction colors; each land hex carries one of the first seven.
/// `Colorless` is a sentinel that may build on any land hex.
#[derive(Clone, Copy, Debug, PartialEq, Eq, Structural)]
pub enum Color {
    Yellow,
    Brown,
    Black,
    Blue,
    Green,
    Gray,
    Red,
    Colorless,
}

/// Every color that a game deals out (all but `Colorless`), in declaration order.
pub fn playable_colors() -> (r: Vec<Color>)
    ensures
        r@ == seq![
            Color::Yellow,
            Color::Brown,
            Color::Black,
            Color::Blue,
            Color::Green,
            Color::Gray,
            Color::Red,
        ],
{
    vec![
        Color::Yellow,
        Color::Brown,
        Color::Black,
        Color::Blue,
        Color::Green,
        Color::Gray,
        Color::Red,
    ]
}

} // verus!
