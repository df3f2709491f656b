use vstd::prelude::*;

use crate::bonustile::{all_bonus_tiles, BonusTile};
use crate::common::{playable_colors, Color};
use crate::error::GameError;
use crate::faction::{is_starting_faction, Faction};
use crate::game::{Data, FactionPool};
use crate::map::HexGrid;
use crate::race::{playable_races, Race};
use crate::random::{lemma_permutation_distinct, shuffle};

verus! {

/// Faction triples dealt per game.
pub const POOL_SIZE: usize = 7;

/// The races of a pool, in order.
pub open spec fn pool_races(p: Seq<(Race, BonusTile, Color)>) -> Seq<Race> {
    p.map_values(|t: (Race, BonusTile, Color)| t.0)
}

/// The bonus tiles of a pool, in order.
pub open spec fn pool_bonuses(p: Seq<(Race, BonusTile, Color)>) -> Seq<BonusTile> {
    p.map_values(|t: (Race, BonusTile, Color)| t.1)
}

/// The colors of a pool, in order.
pub open spec fn pool_colors(p: Seq<(Race, BonusTile, Color)>) -> Seq<Color> {
    p.map_values(|t: (Race, BonusTile, Color)| t.2)
}

/// Whether `pool` and `leftover` are a fair deal: seven triples with no race,
/// bonus tile or color twice and no test race or color, and the three bonus
/// tiles left over, which together with the pool's are every bonus tile once.
pub open spec fn fair_deal(pool: Seq<(Race, BonusTile, Color)>, leftover: Seq<BonusTile>) -> bool {
    &&& pool.len() == POOL_SIZE
    &&& leftover.len() == 3
    &&& pool_races(pool).no_duplicates()
    &&& pool_colors(pool).no_duplicates()
    &&& (pool_bonuses(pool) + leftover).no_duplicates()
    &&& forall|i: int| 0 <= i < POOL_SIZE ==> (#[trigger] pool[i]).0 != Race::Raceless
    &&& forall|i: int| 0 <= i < POOL_SIZE ==> (#[trigger] pool[i]).2 != Color::Colorless
}

/// Deals the pool from lists in dealing order: triple `k` takes race,
/// bonus tile and color `k`, and the bonus tiles after the seventh are left over.
pub fn deal_faction_pool(races: &Vec<Race>, tiles: &Vec<BonusTile>, colors: &Vec<Color>) -> (r: (
    FactionPool,
    Vec<BonusTile>,
))
    requires
        races@.len() >= POOL_SIZE,
        tiles@.len() == 10,
        colors@.len() >= POOL_SIZE,
    ensures
        r.0@.len() == POOL_SIZE,
        forall|k: int| 0 <= k < POOL_SIZE ==> #[trigger] r.0@[k] == (races@[k], tiles@[k], colors@[k]),
        r.1@ == tiles@.subrange(POOL_SIZE as int, 10),
{
    let mut pool: FactionPool = Vec::new();
    let mut i: usize = 0;
    while i < POOL_SIZE
        invariant
            i <= POOL_SIZE,
            races@.len() >= POOL_SIZE,
            tiles@.len() == 10,
            colors@.len() >= POOL_SIZE,
            pool@.len() == i,
            forall|k: int| 0 <= k < i ==> #[trigger] pool@[k] == (races@[k], tiles@[k], colors@[k]),
        decreases POOL_SIZE - i,
    {
        pool.push((races[i], tiles[i], colors[i]));
        i = i + 1;
    }
    let mut leftover: Vec<BonusTile> = Vec::new();
    let mut j: usize = POOL_SIZE;
    while j < 10
        invariant
            POOL_SIZE <= j <= 10,
            tiles@.len() == 10,
            leftover@ == tiles@.subrange(POOL_SIZE as int, j as int),
        decreases 10 - j,
    {
        leftover.push(tiles[j]);
        j = j + 1;
        assert(leftover@ =~= tiles@.subrange(POOL_SIZE as int, j as int));
    }
    (pool, leftover)
}

/// Deals a random pool of seven faction triples and the three bonus tiles
/// left over: the races, bonus tiles and colors are shuffled and then dealt
/// by `deal_faction_pool`.
fn gen_random_faction_pool() -> (r: (FactionPool, Vec<BonusTile>))
    ensures
        fair_deal(r.0@, r.1@),
{
    let mut races = playable_races();
    let ghost races0 = races@;
    shuffle(&mut races);
    let mut bonus_tiles = all_bonus_tiles();
    let ghost tiles0 = bonus_tiles@;
    shuffle(&mut bonus_tiles);
    let mut colors = playable_colors();
    let ghost colors0 = colors@;
    shuffle(&mut colors);
    proof {
        lemma_permutation_distinct(races0, races@);
        lemma_permutation_distinct(tiles0, bonus_tiles@);
        lemma_permutation_distinct(colors0, colors@);
    }
    let (pool, leftover) = deal_faction_pool(&races, &bonus_tiles, &colors);
    assert(pool_races(pool@) =~= races@.take(7));
    assert(pool_colors(pool@) =~= colors@);
    assert(pool_bonuses(pool@) + leftover@ =~= bonus_tiles@);
    assert forall|k: int| 0 <= k < POOL_SIZE implies (#[trigger] pool@[k]).0 != Race::Raceless by {
        assert(races@.contains(races@[k]));
    }
    assert forall|k: int| 0 <= k < POOL_SIZE implies (#[trigger] pool@[k]).2
        != Color::Colorless by {
        assert(colors@.contains(colors@[k]));
    }
    (pool, leftover)
}

/// The setup of a game before factions are picked.
pub struct PreGame {
    pub game_data: Data,
}

impl PreGame {
    /// A game of `num_players` on `map`, with a random pool of factions.
    pub fn new_random(num_players: u32, map: HexGrid) -> (r: Self)
        ensures
            r.game_data.num_players == num_players,
            r.game_data.map@ == map@,
            fair_deal(r.game_data.faction_pool@, r.game_data.leftover_bonuses@),
    {
        let (faction_pool, leftover_bonuses) = gen_random_faction_pool();
        PreGame { game_data: Data { num_players, map, faction_pool, leftover_bonuses } }
    }
}

/// What faction selection holds: the pool indices picked so far, in player
/// order, the pool, and the number of players.
pub struct SelectionState {
    pub selected: Seq<usize>,
    pub pool: Seq<(Race, BonusTile, Color)>,
    pub num_players: nat,
}

/// The invariant of faction selection: every pick is an index of the pool.
pub open spec fn selector_ok(s: SelectionState) -> bool {
    forall|k: int| 0 <= k < s.selected.len() ==> #[trigger] s.selected[k] < s.pool.len()
}

/// Players pick factions from the pool one after another.
pub struct FactionSelector {
    selected: Vec<usize>,
    faction_pool: FactionPool,
    num_players: u32,
}

impl View for FactionSelector {
    type V = SelectionState;

    closed spec fn view(&self) -> SelectionState {
        SelectionState {
            selected: self.selected@,
            pool: self.faction_pool@,
            num_players: self.num_players as nat,
        }
    }
}

impl FactionSelector {
    /// Starts selection over the pool of `pregame`, with nothing picked.
    pub fn new(pregame: &PreGame) -> (r: Self)
        ensures
            r@ == (SelectionState {
                selected: seq![],
                pool: pregame.game_data.faction_pool@,
                num_players: pregame.game_data.num_players as nat,
            }),
            selector_ok(r@),
    {
        let src = &pregame.game_data.faction_pool;
        let mut pool: FactionPool = Vec::new();
        let mut i: usize = 0;
        while i < src.len()
            invariant
                i <= src@.len(),
                pool@ == src@.take(i as int),
            decreases src@.len() - i,
        {
            pool.push(src[i]);
            i = i + 1;
            assert(pool@ =~= src@.take(i as int));
        }
        assert(pool@ =~= src@);
        FactionSelector {
            selected: Vec::new(),
            faction_pool: pool,
            num_players: pregame.game_data.num_players,
        }
    }

    /// The next player picks the faction at `idx` of the pool; refused once
    /// every player has picked, for an index outside the pool, and for a
    /// faction picked before.
    pub fn select(&mut self, idx: usize) -> (r: Result<(), GameError>)
        requires
            selector_ok(old(self)@),
        ensures
            selector_ok(final(self)@),
            old(self)@.selected.len() >= old(self)@.num_players ==> r == Err::<(), GameError>(
                GameError::AllFactionsSelected,
            ),
            old(self)@.selected.len() < old(self)@.num_players && idx >= old(self)@.pool.len()
                ==> r == Err::<(), GameError>(GameError::NoSuchFaction),
            old(self)@.selected.len() < old(self)@.num_players && idx < old(self)@.pool.len()
                && old(self)@.selected.contains(idx) ==> r == Err::<(), GameError>(
                GameError::FactionAlreadySelected,
            ),
            r is Ok <==> old(self)@.selected.len() < old(self)@.num_players && idx < old(
                self,
            )@.pool.len() && !old(self)@.selected.contains(idx),
            r is Ok ==> final(self)@ == (SelectionState {
                selected: old(self)@.selected.push(idx),
                ..old(self)@
            }),
            r is Err ==> final(self)@ == old(self)@,
    {
        if self.selected.len() >= self.num_players as usize {
            return Err(GameError::AllFactionsSelected);
        }
        if idx >= self.faction_pool.len() {
            return Err(GameError::NoSuchFaction);
        }
        let mut i: usize = 0;
        while i < self.selected.len()
            invariant
                i <= self.selected@.len(),
                self.selected@.len() < self.num_players,
                idx < self.faction_pool@.len(),
                selector_ok(self@),
                forall|k: int| 0 <= k < i ==> self.selected@[k] != idx,
            decreases self.selected@.len() - i,
        {
            if self.selected[i] == idx {
                assert(self.selected@.contains(idx));
                return Err(GameError::FactionAlreadySelected);
            }
            i = i + 1;
        }
        self.selected.push(idx);
        Ok(())
    }

    /// The factions of the players, in player order, once every player has
    /// picked one.
    pub fn finish(&self) -> (r: Result<Vec<Faction>, GameError>)
        requires
            selector_ok(self@),
        ensures
            r is Ok <==> self@.selected.len() == self@.num_players,
            r is Err ==> r == Err::<Vec<Faction>, GameError>(GameError::SelectionIncomplete),
            r matches Ok(v) ==> v@.len() == self@.selected.len() && forall|k: int|
                0 <= k < v@.len() ==> is_starting_faction(
                    #[trigger] v@[k],
                    self@.pool[self@.selected[k] as int].0,
                    self@.pool[self@.selected[k] as int].2,
                ),
    {
        if self.selected.len() != self.num_players as usize {
            return Err(GameError::SelectionIncomplete);
        }
        let mut res: Vec<Faction> = Vec::new();
        let mut i: usize = 0;
        while i < self.selected.len()
            invariant
                i <= self.selected@.len(),
                res@.len() == i,
                forall|k: int|
                    0 <= k < self@.selected.len() ==> #[trigger] self@.selected[k]
                        < self@.pool.len(),
                forall|k: int|
                    0 <= k < i ==> is_starting_faction(
                        #[trigger] res@[k],
                        self@.pool[self@.selected[k] as int].0,
                        self@.pool[self@.selected[k] as int].2,
                    ),
            decreases self.selected@.len() - i,
        {
            let idx = self.selected[i];
            assert(self@.selected[i as int] < self@.pool.len());
            let (race, _, color) = self.faction_pool[idx];
            res.push(Faction::new(&race, &color));
            i = i + 1;
        }
        Ok(res)
    }
}

} // verus!
