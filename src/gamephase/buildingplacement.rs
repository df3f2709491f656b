use vstd::prelude::*;

use crate::common::Color;
use crate::error::GameError;
use crate::faction::Faction;
use crate::gamephase::{IncomePhase, PlayerId};
use crate::map::{Hex, HexGrid, Pos, Terrain, MAP_HEIGHT, MAP_WIDTH};

verus! {

/// What the placement phase consists of: each player's color, the terrain of
/// every hex, and the placements made so far, in order.
pub struct PlacementState {
    pub colors: Seq<Color>,
    pub terrain: Seq<Seq<Terrain>>,
    pub placed: Seq<(PlayerId, Pos)>,
}

/// The player whose turn it is after `k` of the `2 * n` placements, in snake
/// order `0, 1, ..., n - 1, n - 1, ..., 1, 0`; `None` once all are made.
pub open spec fn snake_next(n: nat, k: nat) -> Option<nat> {
    if k >= 2 * n {
        None
    } else if k < n {
        Some(k)
    } else {
        Some((2 * n - k - 1) as nat)
    }
}

/// The player to move in state `s`.
pub open spec fn to_move(s: PlacementState) -> Option<nat> {
    snake_next(s.colors.len(), s.placed.len())
}

/// Whether some placement was already made at `pos`.
pub open spec fn occupied(s: PlacementState, pos: Pos) -> bool {
    exists|i: int| 0 <= i < s.placed.len() && (#[trigger] s.placed[i]).1 == pos
}

/// Whether `color` may build on a hex of terrain `t`: land of its own color,
/// or any land for the colorless sentinel.
pub open spec fn may_build_on(color: Color, t: Terrain) -> bool {
    match t {
        Terrain::Land(c) => color == Color::Colorless || c == color,
        Terrain::Water => false,
    }
}

/// Whether `player` may place at `pos` now: inside the map, not occupied,
/// this player's turn, and land that the player's color may build on.
pub open spec fn placement_ok(s: PlacementState, player: PlayerId, pos: Pos) -> bool {
    &&& pos.0 < MAP_HEIGHT
    &&& pos.1 < MAP_WIDTH
    &&& !occupied(s, pos)
    &&& to_move(s) == Some(player as nat)
    &&& may_build_on(s.colors[player as int], s.terrain[pos.0 as int][pos.1 as int])
}

/// The invariant of the placement phase: a full-size map and no more
/// placements than two per player.
pub open spec fn placer_ok(s: PlacementState) -> bool {
    &&& s.terrain.len() == MAP_HEIGHT
    &&& forall|r: int| 0 <= r < MAP_HEIGHT ==> (#[trigger] s.terrain[r]).len() == MAP_WIDTH
    &&& 2 * s.colors.len() <= usize::MAX
    &&& s.placed.len() <= 2 * s.colors.len()
}

/// Whether a grid has the full size of the map.
pub open spec fn grid_ok(m: Seq<Vec<Hex>>) -> bool {
    &&& m.len() == MAP_HEIGHT
    &&& forall|r: int| 0 <= r < MAP_HEIGHT ==> (#[trigger] m[r])@.len() == MAP_WIDTH
}

/// The terrain of every hex of a grid.
pub open spec fn terrain_of_grid(m: Seq<Vec<Hex>>) -> Seq<Seq<Terrain>> {
    m.map_values(|row: Vec<Hex>| row@.map_values(|h: Hex| h.terrain))
}

/// The initial placement phase: every player places two buildings in
/// snake order.
pub struct BuildingPlacer {
    factions: Vec<Faction>,
    map: HexGrid,
    placed: Vec<(PlayerId, Pos)>,
}

impl View for BuildingPlacer {
    type V = PlacementState;

    closed spec fn view(&self) -> PlacementState {
        PlacementState {
            colors: self.factions@.map_values(|f: Faction| f.color),
            terrain: terrain_of_grid(self.map@),
            placed: self.placed@,
        }
    }
}

impl BuildingPlacer {
    /// Starts the placement phase for `factions`, indexed by player, on `map`.
    pub fn new(factions: Vec<Faction>, map: HexGrid) -> (r: BuildingPlacer)
        requires
            grid_ok(map@),
            2 * factions@.len() <= usize::MAX,
        ensures
            r@ == (PlacementState {
                colors: factions@.map_values(|f: Faction| f.color),
                terrain: terrain_of_grid(map@),
                placed: seq![],
            }),
            placer_ok(r@),
    {
        let r = BuildingPlacer { factions, map, placed: Vec::new() };
        assert forall|k: int| 0 <= k < MAP_HEIGHT implies (#[trigger] r@.terrain[k]).len()
            == MAP_WIDTH by {
            assert(r.map@[k]@.len() == MAP_WIDTH);
        }
        r
    }

    /// Records a placement by `player` at `pos`; refused, with nothing
    /// recorded, unless `valid_placement` holds.
    pub fn place(&mut self, player_id: PlayerId, pos: Pos) -> (r: Result<(), GameError>)
        requires
            placer_ok(old(self)@),
        ensures
            placer_ok(final(self)@),
            r is Ok <==> placement_ok(old(self)@, player_id, pos),
            r is Ok ==> final(self)@ == (PlacementState {
                placed: old(self)@.placed.push((player_id, pos)),
                ..old(self)@
            }),
            r is Err ==> r == Err::<(), GameError>(GameError::InvalidHex) && final(self)@
                == old(self)@,
    {
        if !self.valid_placement(player_id, pos) {
            return Err(GameError::InvalidHex);
        }
        self.placed.push((player_id, pos));
        assert(self@.colors == old(self)@.colors);
        Ok(())
    }

    /// Whether `player` may place at `pos` now: inside the map, not
    /// occupied, this player's turn, and land of the player's color (any land
    /// for a colorless faction).
    pub fn valid_placement(&self, player_id: PlayerId, pos: Pos) -> (r: bool)
        requires
            placer_ok(self@),
        ensures
            r == placement_ok(self@, player_id, pos),
    {
        let inside_bounds = pos.0 < MAP_HEIGHT && pos.1 < MAP_WIDTH;

        let mut already_occupied = false;
        let mut i: usize = 0;
        while i < self.placed.len()
            invariant
                i <= self.placed@.len(),
                already_occupied == exists|j: int|
                    0 <= j < i && (#[trigger] self.placed@[j]).1 == pos,
            decreases self.placed@.len() - i,
        {
            let at = self.placed[i].1;
            if at.0 == pos.0 && at.1 == pos.1 {
                already_occupied = true;
            }
            i = i + 1;
        }

        let this_players_turn = match self.player_to_move() {
            Ok(p) => p == player_id,
            Err(_) => false,
        };

        let valid_color = if inside_bounds && this_players_turn {
            let player_color = self.factions[player_id].get_color();
            let ghost row = self.map@[pos.0 as int];
            assert(self@.terrain[pos.0 as int].len() == MAP_WIDTH);
            assert(self@.terrain[pos.0 as int] == row@.map_values(|h: Hex| h.terrain));
            assert(row@.len() == MAP_WIDTH);
            match self.map[pos.0][pos.1].terrain {
                Terrain::Land(hex_color) => player_color == Color::Colorless || hex_color
                    == player_color,
                Terrain::Water => false,
            }
        } else {
            false
        };

        inside_bounds && !already_occupied && this_players_turn && valid_color
    }

    /// The player whose turn it is: placements so far while fewer than the
    /// number of players, then counting back down; refused once every
    /// player has placed twice.
    pub fn player_to_move(&self) -> (r: Result<PlayerId, GameError>)
        requires
            placer_ok(self@),
        ensures
            match to_move(self@) {
                Some(p) => r == Ok::<PlayerId, GameError>(p as PlayerId),
                None => r == Err::<PlayerId, GameError>(GameError::AllPlaced),
            },
    {
        let num_players = self.factions.len();
        if self.placed.len() == num_players * 2 {
            Err(GameError::AllPlaced)
        } else if self.placed.len() < num_players {
            Ok(self.placed.len())
        } else {
            Ok(2 * num_players - self.placed.len() - 1)
        }
    }

    /// Closes the placement phase, which is allowed once every player has
    /// placed twice.
    pub fn finish(self) -> (r: Result<IncomePhase, GameError>)
        requires
            placer_ok(self@),
        ensures
            r is Ok <==> self@.placed.len() == 2 * self@.colors.len(),
            r is Err ==> r == Err::<IncomePhase, GameError>(GameError::IncompletePlacement),
    {
        if self.placed.len() == 2 * self.factions.len() {
            Ok(IncomePhase {})
        } else {
            Err(GameError::IncompletePlacement)
        }
    }
}

/// A placement is refused, each reason on its own: outside the map, on an
/// occupied hex, out of turn, on water, or, for a faction that is not
/// colorless, on land of another color. A refused `place` leaves the log as
/// it was (see its contract).
pub proof fn lemma_placement_legality(s: PlacementState, player: PlayerId, pos: Pos)
    requires
        placer_ok(s),
    ensures
        pos.0 >= MAP_HEIGHT ==> !placement_ok(s, player, pos),
        pos.1 >= MAP_WIDTH ==> !placement_ok(s, player, pos),
        occupied(s, pos) ==> !placement_ok(s, player, pos),
        to_move(s) != Some(player as nat) ==> !placement_ok(s, player, pos),
        pos.0 < MAP_HEIGHT && pos.1 < MAP_WIDTH && s.terrain[pos.0 as int][pos.1 as int]
            == Terrain::Water ==> !placement_ok(s, player, pos),
        pos.0 < MAP_HEIGHT && pos.1 < MAP_WIDTH && s.colors[player as int] != Color::Colorless
            && s.terrain[pos.0 as int][pos.1 as int] != Terrain::Land(s.colors[player as int])
            ==> !placement_ok(s, player, pos),
{
}

/// The snake order reads the same backwards, and names only players that
/// exist: the player of placement `k` also makes placement `2 * n - 1 - k`.
pub proof fn lemma_snake_order(n: nat, k: nat)
    requires
        k < 2 * n,
    ensures
        snake_next(n, k) is Some,
        snake_next(n, k)->Some_0 < n,
        snake_next(n, k) == snake_next(n, (2 * n - 1 - k) as nat),
{
}

} // verus!
