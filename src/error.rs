use vstd::prelude::*;

verus! {

/// Every way in which an operation of the rules engine can be refused.
/// A refused operation leaves the state it was called on unchanged.
#[derive(Clone, Copy, Debug, PartialEq, Eq, Structural)]
pub enum GameError {
    /// A spend, burn or conversion asked for more power than the bowl holds.
    InsufficientPower,
    /// Every slot of an income track is already occupied.
    TrackFull,
    /// No building is left on an income track.
    NoBuildingsLeft,
    /// No income track is defined for this color and building.
    NoIncomeTrack,
    /// A placement failed the bounds, occupancy, turn or terrain check.
    InvalidHex,
    /// Every initial building has already been placed.
    AllPlaced,
    /// The placement phase was closed before every building was placed.
    IncompletePlacement,
    /// A map source has the wrong shape or an unknown terrain symbol.
    MapFormat,
    /// Every player has already selected a faction.
    AllFactionsSelected,
    /// The faction was selected before.
    FactionAlreadySelected,
    /// Faction selection was closed before every player had selected.
    SelectionIncomplete,
    /// No faction of the pool has that index.
    NoSuchFaction,
    /// The current phase of the game does not allow the operation.
    NotInThisPhase,
}

} // verus!
