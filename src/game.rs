use vstd::prelude::*;

use crate::bonustile::BonusTile;
use crate::building::Building;
use crate::common::Color;
use crate::error::GameError;
use crate::gamephase::buildingplacement::{placement_ok, placer_ok, BuildingPlacer, PlacementState};
use crate::gamephase::{IncomePhase, PlayerId};
use crate::map::{HexGrid, Pos};
use crate::race::Race;

verus! {

/// The (race, bonus tile, color) triples that players pick their faction from.
pub type FactionPool = Vec<(Race, BonusTile, Color)>;

/// What a game is set up with.
pub struct Data {
    pub num_players: u32,
    pub map: HexGrid,
    pub faction_pool: FactionPool,
    pub leftover_bonuses: Vec<BonusTile>,
}

/// A game in progress: its phase, what it waits for, and its setup.
pub struct Game {
    pub phase: Phase,
    pub state: PendingState,
    pub data: Data,
}

/// What the game waits for next.
#[derive(Clone, Copy, Debug, PartialEq, Eq, Structural)]
pub enum PendingState {
    PlaceInitialBuilding(PlayerId),
}

/// What a player can do on their turn.
#[derive(Clone, Copy, Debug)]
pub enum Action {
    BuildWorkshop(Pos),
    UpgradeToGuild(Pos),
}

/// The phases of a game; each allows its own operations and refuses the others.
pub enum Phase {
    BuildingPlacement(BuildingPlacer),
    Income(IncomePhase),
}

/// The invariant of a phase.
pub open spec fn phase_ok(p: Phase) -> bool {
    match p {
        Phase::BuildingPlacement(placer) => placer_ok(placer@),
        Phase::Income(_) => true,
    }
}

impl Phase {
    /// The player whose turn it is, in a phase that has turns.
    pub fn player_to_move(&self) -> (r: Result<PlayerId, GameError>)
        requires
            phase_ok(*self),
        ensures
            match *self {
                Phase::BuildingPlacement(placer) => match crate::gamephase::buildingplacement::to_move(
                    placer@,
                ) {
                    Some(p) => r == Ok::<PlayerId, GameError>(p as PlayerId),
                    None => r == Err::<PlayerId, GameError>(GameError::AllPlaced),
                },
                Phase::Income(_) => r == Err::<PlayerId, GameError>(GameError::NotInThisPhase),
            },
    {
        match self {
            Phase::BuildingPlacement(placer) => placer.player_to_move(),
            Phase::Income(_) => Err(GameError::NotInThisPhase),
        }
    }

    /// Places an initial workshop for `player_id` at `pos`, in the phase
    /// that allows it.
    pub fn place_building(&mut self, player_id: PlayerId, pos: Pos) -> (r: Result<
        Building,
        GameError,
    >)
        requires
            phase_ok(*old(self)),
        ensures
            phase_ok(*final(self)),
            match *old(self) {
                Phase::BuildingPlacement(placer) => {
                    &&& r is Ok <==> placement_ok(placer@, player_id, pos)
                    &&& *final(self) is BuildingPlacement
                    &&& r is Ok ==> r == Ok::<Building, GameError>(Building::Workshop)
                        && final(self)->BuildingPlacement_0@ == (PlacementState {
                        placed: placer@.placed.push((player_id, pos)),
                        ..placer@
                    })
                    &&& r is Err ==> r == Err::<Building, GameError>(GameError::InvalidHex)
                        && final(self)->BuildingPlacement_0@ == placer@
                },
                Phase::Income(i) => r == Err::<Building, GameError>(GameError::NotInThisPhase)
                    && *final(self) == Phase::Income(i),
            },
    {
        match self {
            Phase::BuildingPlacement(placer) => {
                placer.place(player_id, pos)?;
                Ok(Building::Workshop)
            },
            Phase::Income(_) => Err(GameError::NotInThisPhase),
        }
    }
}

} // verus!
