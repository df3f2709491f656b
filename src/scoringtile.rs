use vstd::prelude::*;

use crate::common::{Discipline, VP};
use crate::random::{lemma_permutation_distinct, shuffle};

verus! {

/// What a scoring tile rewards with victory points during its round.
#[derive(Clone, Copy, Debug, PartialEq, Eq, Structural, Hash)]
pub enum LeftSideGoal {
    BuildWorkshop,
    BuildGuild,
    BuildSchool,
    BuildBigBuilding,
    Dig,
    AdvanceDiscipline,
    FoundCity,
    AdvanceSailingOrDigging,
    GainInnovationTile,
}

/// What a scoring tile hands out at the end of its round.
#[derive(Clone, Copy, Debug, PartialEq, Eq, Structural, Hash)]
pub enum RightSideReward {
    Books,
    Coins,
    Tools,
    Power,
    Scholars,
    Spades,
}

/// The goal of a scoring tile and the points it gives.
#[derive(Clone, Copy, Debug, PartialEq, Eq, Hash)]
pub struct LeftSide {
    pub goal: LeftSideGoal,
    pub amount: VP,
}

/// The end-of-round reward of a scoring tile: `rew_amount` of `rew` for
/// every `disc_requirement` steps on the track of `disc`.
#[derive(Clone, Copy, Debug, PartialEq, Eq, Hash)]
pub struct RightSide {
    pub rew: RightSideReward,
    pub rew_amount: u32,
    pub disc: Discipline,
    pub disc_requirement: u32,
}

/// One scoring tile; tiles are told apart by `id`, their number in the
/// tile set.
#[derive(Clone, Copy, Debug, Eq, Hash)]
pub struct ScoringTile {
    pub left_side: LeftSide,
    pub right_side: RightSide,
    pub id: u32,
}

impl PartialEq for ScoringTile {
    fn eq(&self, other: &ScoringTile) -> (r: bool) {
        self.id == other.id
    }
}

impl vstd::std_specs::cmp::PartialEqSpecImpl for ScoringTile {
    open spec fn obeys_eq_spec() -> bool {
        true
    }

    open spec fn eq_spec(&self, other: &ScoringTile) -> bool {
        self.id == other.id
    }
}

/// The tile set, one row per tile: goal, points, reward, reward amount,
/// discipline and discipline requirement.
pub open spec fn scoring_table() -> Seq<(LeftSideGoal, u32, RightSideReward, u32, Discipline, u32)> {
    seq![
        (LeftSideGoal::BuildWorkshop, 2, RightSideReward::Scholars, 1, Discipline::Law, 4),
        (LeftSideGoal::BuildWorkshop, 2, RightSideReward::Power, 4, Discipline::Banking, 3),
        (LeftSideGoal::BuildGuild, 3, RightSideReward::Books, 1, Discipline::Law, 3),
        (LeftSideGoal::BuildGuild, 3, RightSideReward::Spades, 1, Discipline::Medicine, 4),
        (LeftSideGoal::BuildSchool, 4, RightSideReward::Coins, 1, Discipline::Banking, 1),
        (LeftSideGoal::BuildBigBuilding, 5, RightSideReward::Tools, 1, Discipline::Medicine, 2),
        (LeftSideGoal::BuildBigBuilding, 5, RightSideReward::Tools, 1, Discipline::Banking, 2),
        (LeftSideGoal::Dig, 2, RightSideReward::Coins, 1, Discipline::Engineering, 1),
        (LeftSideGoal::AdvanceDiscipline, 1, RightSideReward::Books, 1, Discipline::Medicine, 3),
        (LeftSideGoal::FoundCity, 5, RightSideReward::Spades, 1, Discipline::Engineering, 4),
        (
            LeftSideGoal::AdvanceSailingOrDigging,
            3,
            RightSideReward::Scholars,
            1,
            Discipline::Engineering,
            3,
        ),
        (LeftSideGoal::GainInnovationTile, 5, RightSideReward::Power, 3, Discipline::Law, 2),
    ]
}

/// The number of tiles in the tile set.
pub const NUM_SCORING_TILES: usize = 12;

/// The number of the one dig tile of the tile set.
pub const DIG_TILE: usize = 7;

/// Whether a tile's goal is digging.
pub open spec fn is_dig(t: ScoringTile) -> bool {
    t.left_side.goal == LeftSideGoal::Dig
}

/// Whether `t` is tile `i` of the tile set.
pub open spec fn is_table_tile(t: ScoringTile, i: int) -> bool {
    let row = scoring_table()[i];
    &&& t.id == i
    &&& t.left_side.goal == row.0
    &&& t.left_side.amount == VP(row.1)
    &&& t.right_side.rew == row.2
    &&& t.right_side.rew_amount == row.3
    &&& t.right_side.disc == row.4
    &&& t.right_side.disc_requirement == row.5
}

/// Whether `t` is some tile of the tile set.
pub open spec fn in_tile_set(t: ScoringTile) -> bool {
    0 <= t.id < NUM_SCORING_TILES && is_table_tile(t, t.id as int)
}

/// Tile `id` of the tile set.
fn make_tile(
    id: u32,
    goal: LeftSideGoal,
    points: u32,
    rew: RightSideReward,
    rew_amount: u32,
    disc: Discipline,
    disc_requirement: u32,
) -> (t: ScoringTile)
    ensures
        t.id == id,
        t.left_side.goal == goal,
        t.left_side.amount == VP(points),
        t.right_side.rew == rew,
        t.right_side.rew_amount == rew_amount,
        t.right_side.disc == disc,
        t.right_side.disc_requirement == disc_requirement,
{
    ScoringTile {
        left_side: LeftSide { goal, amount: VP(points) },
        right_side: RightSide { rew, rew_amount, disc, disc_requirement },
        id,
    }
}

/// Every scoring tile, numbered in order.
pub fn all_scoring_tiles() -> (r: Vec<ScoringTile>)
    ensures
        r@.len() == NUM_SCORING_TILES,
        forall|i: int| 0 <= i < NUM_SCORING_TILES ==> is_table_tile(#[trigger] r@[i], i),
        forall|i: int| 0 <= i < NUM_SCORING_TILES ==> (is_dig(#[trigger] r@[i]) <==> i == DIG_TILE),
{
    let r = vec![
        make_tile(0, LeftSideGoal::BuildWorkshop, 2, RightSideReward::Scholars, 1, Discipline::Law, 4),
        make_tile(1, LeftSideGoal::BuildWorkshop, 2, RightSideReward::Power, 4, Discipline::Banking, 3),
        make_tile(2, LeftSideGoal::BuildGuild, 3, RightSideReward::Books, 1, Discipline::Law, 3),
        make_tile(3, LeftSideGoal::BuildGuild, 3, RightSideReward::Spades, 1, Discipline::Medicine, 4),
        make_tile(4, LeftSideGoal::BuildSchool, 4, RightSideReward::Coins, 1, Discipline::Banking, 1),
        make_tile(
            5,
            LeftSideGoal::BuildBigBuilding,
            5,
            RightSideReward::Tools,
            1,
            Discipline::Medicine,
            2,
        ),
        make_tile(
            6,
            LeftSideGoal::BuildBigBuilding,
            5,
            RightSideReward::Tools,
            1,
            Discipline::Banking,
            2,
        ),
        make_tile(7, LeftSideGoal::Dig, 2, RightSideReward::Coins, 1, Discipline::Engineering, 1),
        make_tile(
            8,
            LeftSideGoal::AdvanceDiscipline,
            1,
            RightSideReward::Books,
            1,
            Discipline::Medicine,
            3,
        ),
        make_tile(9, LeftSideGoal::FoundCity, 5, RightSideReward::Spades, 1, Discipline::Engineering, 4),
        make_tile(
            10,
            LeftSideGoal::AdvanceSailingOrDigging,
            3,
            RightSideReward::Scholars,
            1,
            Discipline::Engineering,
            3,
        ),
        make_tile(
            11,
            LeftSideGoal::GainInnovationTile,
            5,
            RightSideReward::Power,
            3,
            Discipline::Law,
            2,
        ),
    ];
    r
}

/// Tiles of the tile set with the same number are the same tile.
pub proof fn lemma_tile_identity(a: ScoringTile, b: ScoringTile)
    requires
        in_tile_set(a),
        in_tile_set(b),
        a.id == b.id,
    ensures
        a == b,
{
}

/// The first `n` elements of `s`, or all of `s` when it is shorter.
pub open spec fn first_n<T>(s: Seq<T>, n: int) -> Seq<T> {
    if s.len() <= n {
        s
    } else {
        s.take(n)
    }
}

/// The tiles that are not dig tiles.
pub open spec fn not_dig() -> spec_fn(ScoringTile) -> bool {
    |t: ScoringTile| !is_dig(t)
}

/// Whether a tile of `taken` has the number of `t`.
pub open spec fn id_taken(taken: Seq<ScoringTile>, t: ScoringTile) -> bool {
    exists|k: int| 0 <= k < taken.len() && (#[trigger] taken[k]).id == t.id
}

/// The tiles whose number no tile of `taken` has.
pub open spec fn not_taken(taken: Seq<ScoringTile>) -> spec_fn(ScoringTile) -> bool {
    |t: ScoringTile| !id_taken(taken, t)
}

/// The tiles for rounds five and six: the first two that are not dig tiles.
pub open spec fn late_tiles(pool: Seq<ScoringTile>) -> Seq<ScoringTile> {
    first_n(pool.filter(not_dig()), 2)
}

/// The tiles for rounds one to four: the first four that are not among the
/// tiles for the last rounds.
pub open spec fn early_tiles(pool: Seq<ScoringTile>) -> Seq<ScoringTile> {
    first_n(pool.filter(not_taken(late_tiles(pool))), 4)
}

/// Filtering one element more adds it exactly when it passes.
proof fn lemma_filter_step<T>(s: Seq<T>, p: spec_fn(T) -> bool, i: int)
    requires
        0 <= i < s.len(),
    ensures
        s.take(i + 1).filter(p) == (if p(s[i]) {
            s.take(i).filter(p).push(s[i])
        } else {
            s.take(i).filter(p)
        }),
{
    reveal(Seq::filter);
    assert(s.take(i + 1).drop_last() =~= s.take(i));
}

/// If every element that fails `p` sits at a position listed in `bad`, the
/// filter keeps all but at most `bad.len()` elements.
proof fn lemma_filter_keeps_most<T>(s: Seq<T>, p: spec_fn(T) -> bool, bad: Seq<int>)
    requires
        forall|i: int| 0 <= i < s.len() && !p(s[i]) ==> bad.contains(i),
    ensures
        s.filter(p).len() + bad.len() >= s.len(),
    decreases s.len(),
{
    reveal(Seq::filter);
    if s.len() > 0 {
        let n = s.len() - 1;
        let rest = s.drop_last();
        if p(s.last()) {
            assert forall|i: int| 0 <= i < rest.len() && !p(rest[i]) implies bad.contains(i) by {
                assert(rest[i] == s[i]);
            }
            lemma_filter_keeps_most(rest, p, bad);
        } else {
            assert(bad.contains(n));
            let j = choose|j: int| 0 <= j < bad.len() && bad[j] == n;
            let bad2 = bad.remove(j);
            assert forall|i: int| 0 <= i < rest.len() && !p(rest[i]) implies bad2.contains(i) by {
                assert(rest[i] == s[i]);
                assert(bad.contains(i));
                let k = choose|k: int| 0 <= k < bad.len() && bad[k] == i;
                if k < j {
                    assert(bad2[k] == i);
                } else {
                    assert(bad2[k - 1] == i);
                }
            }
            lemma_filter_keeps_most(rest, p, bad2);
        }
    }
}

/// Filtering a list without duplicates gives a list without duplicates.
proof fn lemma_filter_distinct<T>(s: Seq<T>, p: spec_fn(T) -> bool)
    requires
        s.no_duplicates(),
    ensures
        s.filter(p).no_duplicates(),
    decreases s.len(),
{
    reveal(Seq::filter);
    if s.len() > 0 {
        let rest = s.drop_last();
        assert(rest.no_duplicates());
        lemma_filter_distinct(rest, p);
        let sub = rest.filter(p);
        if p(s.last()) {
            if sub.contains(s.last()) {
                rest.lemma_filter_contains_rev(p, s.last());
                let k = choose|k: int| 0 <= k < rest.len() && rest[k] == s.last();
                assert(s[k] == s[s.len() - 1]);
            }
            let out = sub.push(s.last());
            assert forall|a: int, b: int| 0 <= a < b < out.len() implies out[a] != out[b] by {
                if b == out.len() - 1 {
                    assert(sub.contains(out[a]));
                }
            }
        }
    }
}

/// The scoring tiles of a game from the tile set in drawing order: first
/// the four for rounds one to four, then the two for rounds five and six.
pub fn pick_scoring_tiles(pool: &Vec<ScoringTile>) -> (r: Vec<ScoringTile>)
    ensures
        r@ == early_tiles(pool@) + late_tiles(pool@),
{
    let n = pool.len();
    let mut late: Vec<ScoringTile> = Vec::new();
    let mut i: usize = 0;
    while i < n
        invariant
            n == pool@.len(),
            i <= n,
            late@ == first_n(pool@.take(i as int).filter(not_dig()), 2),
        decreases n - i,
    {
        proof {
            lemma_filter_step(pool@, not_dig(), i as int);
        }
        let t = pool[i];
        if !matches!(t.left_side.goal, LeftSideGoal::Dig) && late.len() < 2 {
            late.push(t);
        }
        i = i + 1;
        assert(late@ =~= first_n(pool@.take(i as int).filter(not_dig()), 2));
    }
    assert(pool@.take(n as int) =~= pool@);
    let ghost taken = late@;

    let mut res: Vec<ScoringTile> = Vec::new();
    let mut j: usize = 0;
    while j < n
        invariant
            n == pool@.len(),
            j <= n,
            late@ == taken,
            taken == late_tiles(pool@),
            taken.len() <= 2,
            res@ == first_n(pool@.take(j as int).filter(not_taken(taken)), 4),
        decreases n - j,
    {
        proof {
            lemma_filter_step(pool@, not_taken(taken), j as int);
        }
        let t = pool[j];
        let mut k: usize = 0;
        let mut seen = false;
        while k < late.len()
            invariant
                late@ == taken,
                k <= late@.len(),
                seen == exists|m: int| 0 <= m < k && (#[trigger] taken[m]).id == t.id,
            decreases late@.len() - k,
        {
            if late[k].id == t.id {
                seen = true;
            }
            k = k + 1;
        }
        assert(seen == id_taken(taken, t));
        if !seen && res.len() < 4 {
            res.push(t);
        }
        j = j + 1;
        assert(res@ =~= first_n(pool@.take(j as int).filter(not_taken(taken)), 4));
    }
    let early_len = res.len();
    let mut m: usize = 0;
    while m < late.len()
        invariant
            late@ == taken,
            m <= taken.len(),
            res@.len() == early_len + m,
            res@ == early_tiles(pool@) + taken.take(m as int),
        decreases taken.len() - m,
    {
        res.push(late[m]);
        m = m + 1;
        assert(res@ =~= early_tiles(pool@) + taken.take(m as int));
    }
    assert(taken.take(taken.len() as int) =~= taken);
    res
}

/// Six different tiles drawn at random for a new game, one per round; the
/// last two, for rounds five and six, are not dig tiles. The tile set is
/// shuffled and the tiles are then picked by `pick_scoring_tiles`.
pub fn new_game_random_tiles() -> (r: Vec<ScoringTile>)
    ensures
        r@.len() == 6,
        forall|i: int| 0 <= i < 6 ==> in_tile_set(#[trigger] r@[i]),
        forall|i: int, j: int| 0 <= i < j < 6 ==> (#[trigger] r@[i]).id != (#[trigger] r@[j]).id,
        !is_dig(r@[4]) && !is_dig(r@[5]),
{
    let mut tile_pool = all_scoring_tiles();
    let ghost table = tile_pool@;
    assert forall|k: int| 0 <= k < NUM_SCORING_TILES implies in_tile_set(#[trigger] table[k]) by {
        assert(is_table_tile(table[k], k));
    }
    assert(table.no_duplicates()) by {
        assert forall|a: int, b: int| 0 <= a < b < NUM_SCORING_TILES implies table[a] != table[b] by {
            assert(is_table_tile(table[a], a) && is_table_tile(table[b], b));
        }
    }
    shuffle(&mut tile_pool);
    let ghost pool = tile_pool@;
    proof {
        lemma_permutation_distinct(table, pool);
        assert forall|k: int| 0 <= k < NUM_SCORING_TILES implies in_tile_set(#[trigger] pool[k]) by {
            assert(table.contains(pool[k]));
        }
    }
    let r = pick_scoring_tiles(&tile_pool);
    proof {
        let f1 = pool.filter(not_dig());
        broadcast use Seq::lemma_filter_pred, Seq::lemma_filter_contains_rev;

        // At most one tile of the pool is a dig tile.
        let bad1 = if exists|d: int| 0 <= d < pool.len() && is_dig(pool[d]) {
            let d = choose|d: int| 0 <= d < pool.len() && is_dig(pool[d]);
            seq![d]
        } else {
            seq![]
        };
        assert forall|i: int| 0 <= i < pool.len() && !(not_dig())(pool[i]) implies bad1.contains(i) by {
            let d = choose|d: int| 0 <= d < pool.len() && is_dig(pool[d]);
            lemma_tile_identity(pool[i], pool[d]);
            assert(bad1[0] == d);
        }
        lemma_filter_keeps_most(pool, not_dig(), bad1);
        lemma_filter_distinct(pool, not_dig());
        let late = late_tiles(pool);
        assert(late.len() == 2);
        assert forall|k: int| 0 <= k < 2 implies in_tile_set(#[trigger] late[k]) && !is_dig(late[k]) by {
            assert(f1.contains(f1[k]));
            assert(pool.contains(f1[k]));
            assert((not_dig())(f1[k]));
        }
        if late[0].id == late[1].id {
            lemma_tile_identity(late[0], late[1]);
            assert(f1[0] == f1[1]);
        }

        // Only the two positions of the late tiles fail the second filter.
        let f2 = pool.filter(not_taken(late));
        assert(pool.contains(late[0]) && pool.contains(late[1])) by {
            assert(f1.contains(f1[0]) && f1.contains(f1[1]));
        }
        let q0 = choose|q: int| 0 <= q < pool.len() && pool[q] == late[0];
        let q1 = choose|q: int| 0 <= q < pool.len() && pool[q] == late[1];
        let bad2 = seq![q0, q1];
        assert forall|i: int| 0 <= i < pool.len() && !(not_taken(late))(pool[i]) implies bad2.contains(i) by {
            let k = choose|k: int| 0 <= k < late.len() && (#[trigger] late[k]).id == pool[i].id;
            lemma_tile_identity(pool[i], late[k]);
            if k == 0 {
                assert(bad2[0] == i);
            } else {
                assert(bad2[1] == i);
            }
        }
        lemma_filter_keeps_most(pool, not_taken(late), bad2);
        lemma_filter_distinct(pool, not_taken(late));
        let early = early_tiles(pool);
        assert(early.len() == 4);
        assert forall|k: int| 0 <= k < 4 implies in_tile_set(#[trigger] early[k]) && !id_taken(late, early[k]) by {
            assert(f2.contains(f2[k]));
            assert(pool.contains(f2[k]));
            assert((not_taken(late))(f2[k]));
        }
        assert forall|a: int, b: int| 0 <= a < b < 4 implies early[a].id != early[b].id by {
            if early[a].id == early[b].id {
                lemma_tile_identity(early[a], early[b]);
                assert(f2[a] == f2[b]);
            }
        }
        assert forall|a: int, b: int| 0 <= a < 4 && 0 <= b < 2 implies early[a].id != late[b].id by {
            if early[a].id == late[b].id {
                assert(id_taken(late, early[a]));
            }
        }
        assert forall|i: int| 0 <= i < 6 implies in_tile_set(#[trigger] r@[i]) by {
            if i < 4 {
                assert(r@[i] == early[i]);
            } else {
                assert(r@[i] == late[i - 4]);
            }
        }
        assert forall|i: int, j: int| 0 <= i < j < 6 implies (#[trigger] r@[i]).id != (#[trigger] r@[j]).id by {
            if j < 4 {
                assert(r@[i] == early[i] && r@[j] == early[j]);
            } else if i < 4 {
                assert(r@[i] == early[i] && r@[j] == late[j - 4]);
            } else {
                assert(r@[i] == late[i - 4] && r@[j] == late[j - 4]);
            }
        }
        assert(r@[4] == late[0] && r@[5] == late[1]);
    }
    r
}

} // verus!
