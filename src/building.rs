use vstd::prelude::*;

verus! {

/// The kinds of building a faction puts on the map.
#[derive(Clone, Copy, Debug, PartialEq, Eq, Structural)]
pub enum Building {
    Workshop,
    Guild,
    School,
    University,
    Palace,
}

} // verus!
