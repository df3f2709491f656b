use vstd::prelude::*;

use crate::building::Building;
use crate::common::Color;

pub mod buildingplacement;

verus! {

/// Players are numbered from zero in turn order.
pub type PlayerId = usize;

/// What stands on one hex during play.
#[derive(Clone, Copy, Debug, PartialEq, Eq, Structural)]
pub struct HexState {
    pub color: Color,
    pub building: Option<Building>,
}

/// The phase that follows the initial building placement.
#[derive(Clone, Copy, Debug, PartialEq, Eq, Structural)]
pub struct IncomePhase {}

} // verus!
