use vstd::prelude::*;

use crate::building::Building;
use crate::common::{disc_index, Color, Discipline, DISCIPLINE_MAX};
use crate::error::GameError;
use crate::power::PowerBowls;
use crate::race::Race;
use crate::resources::{bag_of, Books, Coins, Resources, Scholars, Tools};

verus! {

/// The discipline steps that a race starts with.
pub open spec fn race_disc_bonus(r: Race, d: Discipline) -> u32 {
    match r {
        Race::Blessed => 1,
        Race::Monks => if d is Law || d is Medicine { 1 } else { 0 },
        Race::Felines => if d is Banking || d is Medicine { 1 } else { 0 },
        Race::Navigators => if d is Law { 3 } else { 0 },
        Race::Goblins => if d is Banking || d is Engineering { 1 } else { 0 },
        Race::Omar => if d is Banking || d is Engineering { 1 } else { 0 },
        Race::Illusionists => if d is Medicine { 2 } else { 0 },
        Race::Philosophers => if d is Banking { 2 } else { 0 },
        Race::Psychics => if d is Banking || d is Medicine { 1 } else { 0 },
        Race::Moles => if d is Engineering { 2 } else { 0 },
        _ => 0,
    }
}

/// The extra tools that a race starts with.
pub open spec fn race_tool_bonus(r: Race) -> u32 {
    match r {
        Race::Monks | Race::Goblins | Race::Psychics => 1,
        _ => 0,
    }
}

/// The discipline steps that a color starts with, on every track.
pub open spec fn color_disc_bonus(c: Color) -> u32 {
    if c is Green {
        1
    } else {
        0
    }
}

/// The power bowls that a color starts with.
pub open spec fn start_power(c: Color) -> (nat, nat, nat) {
    match c {
        Color::Black => (3, 9, 0),
        Color::Green => (4, 8, 0),
        _ => (5, 7, 0),
    }
}

/// What upgrading digging costs a faction of color `c`.
pub open spec fn dig_upgrade_cost(c: Color) -> Resources {
    Resources { tools: 1, coins: if c is Brown { 1 } else { 5 }, scholars: 1, books: 0, power: 0 }
}

/// A discipline track after advancing `amount` steps from `x`, capped at the top.
pub open spec fn disc_after(x: u32, amount: u32) -> u32 {
    if x + amount <= DISCIPLINE_MAX {
        (x + amount) as u32
    } else {
        DISCIPLINE_MAX
    }
}

/// The discipline tracks that a faction of race `r` and color `c` starts with.
pub open spec fn start_disc(r: Race, c: Color) -> Seq<u32> {
    seq![
        (race_disc_bonus(r, Discipline::Banking) + color_disc_bonus(c)) as u32,
        (race_disc_bonus(r, Discipline::Law) + color_disc_bonus(c)) as u32,
        (race_disc_bonus(r, Discipline::Engineering) + color_disc_bonus(c)) as u32,
        (race_disc_bonus(r, Discipline::Medicine) + color_disc_bonus(c)) as u32,
    ]
}

/// One player's faction: race, color, resources, discipline tracks, power
/// bowls and upgrade costs.
pub struct Faction {
    pub race: Race,
    pub color: Color,
    pub digging_cost: Tools,
    pub sailing_level: u32,
    pub tools: Tools,
    pub coins: Coins,
    /// One book stack per discipline, indexed as the discipline tracks are.
    pub books: [Books; 4],
    pub scholars: Scholars,
    pub scholars_cap: Scholars,
    pub disc_track: [u32; 4],
    pub power: PowerBowls,
    pub dig_upg_cost: Resources,
    pub sailing_upg_cost: Resources,
}

/// Whether every discipline track of `f` is within `0..=DISCIPLINE_MAX`.
pub open spec fn tracks_ok(f: Faction) -> bool {
    forall|i: int| 0 <= i < 4 ==> #[trigger] f.disc_track@[i] <= DISCIPLINE_MAX
}

/// Whether `f` is the faction that a player of race `race` and color `color`
/// starts the game with.
pub open spec fn is_starting_faction(f: Faction, race: Race, color: Color) -> bool {
    &&& f.race == race
    &&& f.color == color
    &&& f.digging_cost == Tools(3)
    &&& f.sailing_level == (if color is Blue { 1u32 } else { 0u32 })
    &&& f.tools == Tools((3 + race_tool_bonus(race)) as u32)
    &&& f.coins == Coins(15)
    &&& f.books@ == seq![Books(0), Books(0), Books(0), Books(0)]
    &&& f.scholars == Scholars(if color is Black { 1u32 } else { 0u32 })
    &&& f.scholars_cap == Scholars(7)
    &&& f.disc_track@ == start_disc(race, color)
    &&& f.power@ == start_power(color)
    &&& f.dig_upg_cost == dig_upgrade_cost(color)
    &&& f.sailing_upg_cost == (Resources { tools: 0, coins: 4, scholars: 1, books: 0, power: 0 })
}

/// Whether two factions agree on everything but the discipline tracks.
pub open spec fn same_but_tracks(a: Faction, b: Faction) -> bool {
    &&& a.race == b.race
    &&& a.color == b.color
    &&& a.digging_cost == b.digging_cost
    &&& a.sailing_level == b.sailing_level
    &&& a.tools == b.tools
    &&& a.coins == b.coins
    &&& a.books == b.books
    &&& a.scholars == b.scholars
    &&& a.scholars_cap == b.scholars_cap
    &&& a.power == b.power
    &&& a.dig_upg_cost == b.dig_upg_cost
    &&& a.sailing_upg_cost == b.sailing_upg_cost
}

/// The discipline steps that race `r` starts with on track `d`.
fn race_disc_step(r: Race, d: Discipline) -> (s: u32)
    ensures
        s == race_disc_bonus(r, d),
{
    match r {
        Race::Blessed => 1,
        Race::Monks => if matches!(d, Discipline::Law | Discipline::Medicine) { 1 } else { 0 },
        Race::Felines => if matches!(d, Discipline::Banking | Discipline::Medicine) { 1 } else { 0 },
        Race::Navigators => if matches!(d, Discipline::Law) { 3 } else { 0 },
        Race::Goblins => if matches!(d, Discipline::Banking | Discipline::Engineering) { 1 } else { 0 },
        Race::Omar => if matches!(d, Discipline::Banking | Discipline::Engineering) { 1 } else { 0 },
        Race::Illusionists => if matches!(d, Discipline::Medicine) { 2 } else { 0 },
        Race::Philosophers => if matches!(d, Discipline::Banking) { 2 } else { 0 },
        Race::Psychics => if matches!(d, Discipline::Banking | Discipline::Medicine) { 1 } else { 0 },
        Race::Moles => if matches!(d, Discipline::Engineering) { 2 } else { 0 },
        _ => 0,
    }
}

impl Faction {
    /// A faction of race `race` and color `color`, with the race's and then
    /// the color's starting bonuses applied.
    pub fn new(race: &Race, color: &Color) -> (r: Self)
        ensures
            is_starting_faction(r, *race, *color),
            tracks_ok(r),
    {
        let mut faction = Faction {
            race: *race,
            color: *color,
            digging_cost: Tools(3),
            sailing_level: 0,
            tools: Tools(3),
            coins: Coins(15),
            books: [Books(0), Books(0), Books(0), Books(0)],
            scholars: Scholars(0),
            scholars_cap: Scholars(7),
            disc_track: [0, 0, 0, 0],
            power: PowerBowls::new(5, 7, 0),
            dig_upg_cost: Resources { tools: 1, coins: 5, scholars: 1, books: 0, power: 0 },
            sailing_upg_cost: Resources { tools: 0, coins: 4, scholars: 1, books: 0, power: 0 },
        };
        assert(faction.books@ =~= seq![Books(0), Books(0), Books(0), Books(0)]);
        faction.apply_race_bonus();
        faction.apply_color_bonus();
        assert(faction.disc_track@ =~= start_disc(*race, *color));
        faction
    }

    /// The faction's color.
    pub fn get_color(&self) -> (r: Color)
        ensures
            r == self.color,
    {
        self.color
    }

    /// Advances the track of `disc` by `amount` steps, capped at
    /// `DISCIPLINE_MAX`, and returns the track's new value.
    pub fn incr_disc(&mut self, disc: Discipline, amount: u32) -> (r: u32)
        requires
            tracks_ok(*old(self)),
        ensures
            tracks_ok(*final(self)),
            old(self).disc_track@[disc_index(disc)] <= r <= DISCIPLINE_MAX,
            r == disc_after(old(self).disc_track@[disc_index(disc)], amount),
            final(self).disc_track@ == old(self).disc_track@.update(disc_index(disc), r),
            same_but_tracks(*final(self), *old(self)),
    {
        let i = disc.index();
        let track = self.disc_track[i];
        let next: u32 = if (track as u64) + (amount as u64) <= DISCIPLINE_MAX as u64 {
            track + amount
        } else {
            DISCIPLINE_MAX
        };
        self.disc_track[i] = next;
        next
    }

    /// Applies the starting bonus of the faction's race: discipline steps and,
    /// for some races, one more tool.
    fn apply_race_bonus(&mut self)
        requires
            old(self).tools.0 == 3,
            forall|i: int| 0 <= i < 4 ==> old(self).disc_track@[i] == 0,
        ensures
            final(self).tools.0 == 3 + race_tool_bonus(old(self).race),
            final(self).disc_track@[0] == race_disc_bonus(old(self).race, Discipline::Banking),
            final(self).disc_track@[1] == race_disc_bonus(old(self).race, Discipline::Law),
            final(self).disc_track@[2] == race_disc_bonus(old(self).race, Discipline::Engineering),
            final(self).disc_track@[3] == race_disc_bonus(old(self).race, Discipline::Medicine),
            final(self).race == old(self).race,
            final(self).color == old(self).color,
            final(self).digging_cost == old(self).digging_cost,
            final(self).sailing_level == old(self).sailing_level,
            final(self).coins == old(self).coins,
            final(self).books == old(self).books,
            final(self).scholars == old(self).scholars,
            final(self).scholars_cap == old(self).scholars_cap,
            final(self).power == old(self).power,
            final(self).dig_upg_cost == old(self).dig_upg_cost,
            final(self).sailing_upg_cost == old(self).sailing_upg_cost,
    {
        let race = self.race;
        self.incr_disc(Discipline::Banking, race_disc_step(race, Discipline::Banking));
        self.incr_disc(Discipline::Law, race_disc_step(race, Discipline::Law));
        self.incr_disc(Discipline::Engineering, race_disc_step(race, Discipline::Engineering));
        self.incr_disc(Discipline::Medicine, race_disc_step(race, Discipline::Medicine));
        if matches!(race, Race::Monks | Race::Goblins | Race::Psychics) {
            self.tools = Tools(self.tools.0 + 1);
        }
    }

    /// Applies the starting bonus of the faction's color.
    fn apply_color_bonus(&mut self)
        requires
            forall|i: int| 0 <= i < 4 ==> old(self).disc_track@[i] <= 3,
            old(self).scholars.0 == 0,
        ensures
            forall|i: int|
                0 <= i < 4 ==> final(self).disc_track@[i] == old(self).disc_track@[i]
                    + color_disc_bonus(old(self).color),
            final(self).power@ == (if old(self).color is Black || old(self).color is Green {
                start_power(old(self).color)
            } else {
                old(self).power@
            }),
            final(self).scholars.0 == (if old(self).color is Black { 1u32 } else { 0u32 }),
            final(self).sailing_level == (if old(self).color is Blue {
                1
            } else {
                old(self).sailing_level
            }),
            final(self).dig_upg_cost == (if old(self).color is Brown {
                dig_upgrade_cost(Color::Brown)
            } else {
                old(self).dig_upg_cost
            }),
            final(self).race == old(self).race,
            final(self).color == old(self).color,
            final(self).digging_cost == old(self).digging_cost,
            final(self).tools == old(self).tools,
            final(self).coins == old(self).coins,
            final(self).books == old(self).books,
            final(self).scholars_cap == old(self).scholars_cap,
            final(self).sailing_upg_cost == old(self).sailing_upg_cost,
    {
        match self.color {
            Color::Brown => {
                self.dig_upg_cost = Resources { tools: 1, coins: 1, scholars: 1, books: 0, power: 0 };
            },
            Color::Black => {
                self.scholars = Scholars(self.scholars.0 + 1);
                self.power = PowerBowls::new(3, 9, 0);
            },
            Color::Blue => {
                self.sailing_level = 1;
            },
            Color::Green => {
                self.incr_disc(Discipline::Banking, 1);
                self.incr_disc(Discipline::Law, 1);
                self.incr_disc(Discipline::Engineering, 1);
                self.incr_disc(Discipline::Medicine, 1);
                self.power = PowerBowls::new(4, 8, 0);
            },
            _ => {},
        }
    }
}

/// The pointwise sum of a list of bags, over the integers.
pub open spec fn sum_bags(s: Seq<Resources>) -> (int, int, int, int, int)
    decreases s.len(),
{
    if s.len() == 0 {
        (0, 0, 0, 0, 0)
    } else {
        let a = sum_bags(s.drop_last());
        let b = bag_of(s.last());
        (a.0 + b.0, a.1 + b.1, a.2 + b.2, a.3 + b.3, a.4 + b.4)
    }
}

/// Whether no quantity of the bag exceeds `n`.
pub open spec fn bag_at_most(a: Resources, n: int) -> bool {
    a.tools <= n && a.coins <= n && a.scholars <= n && a.books <= n && a.power <= n
}

/// The income increments of a workshop track, before its first slot is uncovered.
pub open spec fn workshop_ladder(c: Color) -> Seq<Resources> {
    let t0 = Resources { tools: 0, coins: 0, scholars: 0, books: 0, power: 0 };
    let t1 = Resources { tools: 1, coins: 0, scholars: 0, books: 0, power: 0 };
    let base = if c is Gray {
        Resources { tools: 1, coins: 2, scholars: 0, books: 0, power: 0 }
    } else {
        t1
    };
    seq![base, t1, t1, t1, t1, t0, t1, t1, t1, t1]
}

/// The income ladder of a building of color `c`, where one is defined: index 0
/// is the income that the track gives with every slot occupied.
pub open spec fn income_ladder(c: Color, b: Building) -> Option<Seq<Resources>> {
    let none = Resources { tools: 0, coins: 0, scholars: 0, books: 0, power: 0 };
    let s1 = Resources { tools: 0, coins: 0, scholars: 1, books: 0, power: 0 };
    let coins2_power1 = Resources { tools: 0, coins: 2, scholars: 0, books: 0, power: 1 };
    let coins2_power2 = Resources { tools: 0, coins: 2, scholars: 0, books: 0, power: 2 };
    match b {
        Building::Workshop => Some(workshop_ladder(c)),
        Building::Guild => Some(seq![none, coins2_power1, coins2_power1, coins2_power2, coins2_power2]),
        Building::School => Some(seq![none, s1, s1, s1]),
        Building::University => Some(seq![none, s1]),
        _ => None,
    }
}

/// The invariant of an income track: at most ten small increments, and the
/// base slot is never occupied.
pub open spec fn track_ok(v: (Seq<Resources>, nat)) -> bool {
    &&& v.0.len() <= 10
    &&& v.1 < v.0.len()
    &&& forall|i: int| 0 <= i < v.0.len() ==> bag_at_most(#[trigger] v.0[i], 10)
}

/// The income that a track gives: the sum of its unoccupied slots.
pub open spec fn track_income(v: (Seq<Resources>, nat)) -> (int, int, int, int, int) {
    sum_bags(v.0.take(v.0.len() - v.1))
}

/// A sum of `s.len()` bags that each hold at most `n` of every kind holds at
/// most `n * s.len()` of every kind.
proof fn lemma_sum_bags_bound(s: Seq<Resources>, n: int)
    requires
        n >= 0,
        forall|i: int| 0 <= i < s.len() ==> bag_at_most(#[trigger] s[i], n),
    ensures
        0 <= sum_bags(s).0 <= n * s.len(),
        0 <= sum_bags(s).1 <= n * s.len(),
        0 <= sum_bags(s).2 <= n * s.len(),
        0 <= sum_bags(s).3 <= n * s.len(),
        0 <= sum_bags(s).4 <= n * s.len(),
    decreases s.len(),
{
    if s.len() > 0 {
        lemma_sum_bags_bound(s.drop_last(), n);
        assert(bag_at_most(s[s.len() - 1], n));
        assert(n * (s.len() - 1) + n == n * s.len()) by (nonlinear_arith);
    }
}

/// The income track of one building kind: an ordered ladder of income
/// increments, and how many of its slots hold buildings not yet placed.
pub struct BuildingIncomeTrack {
    income_gain: Vec<Resources>,
    num_occupied: usize,
}

impl View for BuildingIncomeTrack {
    type V = (Seq<Resources>, nat);

    closed spec fn view(&self) -> (Seq<Resources>, nat) {
        (self.income_gain@, self.num_occupied as nat)
    }
}

impl BuildingIncomeTrack {
    /// The track of `building` for a faction of `color`, with every slot but
    /// the base one occupied; refused where no ladder is defined.
    pub fn new(color: &Color, building: &Building) -> (r: Result<Self, GameError>)
        ensures
            match income_ladder(*color, *building) {
                Some(l) => r matches Ok(t) && t@ == (l, (l.len() - 1) as nat) && track_ok(t@),
                None => r == Err::<Self, GameError>(GameError::NoIncomeTrack),
            },
    {
        let none = Resources { tools: 0, coins: 0, scholars: 0, books: 0, power: 0 };
        let t1 = Resources { tools: 1, coins: 0, scholars: 0, books: 0, power: 0 };
        let s1 = Resources { tools: 0, coins: 0, scholars: 1, books: 0, power: 0 };
        let coins2_power1 = Resources { tools: 0, coins: 2, scholars: 0, books: 0, power: 1 };
        let coins2_power2 = Resources { tools: 0, coins: 2, scholars: 0, books: 0, power: 2 };
        let track = match (color, building) {
            (Color::Gray, Building::Workshop) => BuildingIncomeTrack {
                income_gain: vec![
                    Resources { tools: 1, coins: 2, scholars: 0, books: 0, power: 0 },
                    t1,
                    t1,
                    t1,
                    t1,
                    none,
                    t1,
                    t1,
                    t1,
                    t1,
                ],
                num_occupied: 9,
            },
            (_, Building::Workshop) => BuildingIncomeTrack {
                income_gain: vec![t1, t1, t1, t1, t1, none, t1, t1, t1, t1],
                num_occupied: 9,
            },
            (_, Building::Guild) => BuildingIncomeTrack {
                income_gain: vec![none, coins2_power1, coins2_power1, coins2_power2, coins2_power2],
                num_occupied: 4,
            },
            (_, Building::School) => BuildingIncomeTrack {
                income_gain: vec![none, s1, s1, s1],
                num_occupied: 3,
            },
            (_, Building::University) => BuildingIncomeTrack {
                income_gain: vec![none, s1],
                num_occupied: 1,
            },
            _ => {
                return Err(GameError::NoIncomeTrack);
            },
        };
        assert(track.income_gain@ =~= income_ladder(*color, *building)->Some_0);
        Ok(track)
    }

    /// Takes a building off the track, which uncovers one more income slot;
    /// refused when no building is left on it.
    pub fn remove_building(&mut self) -> (r: Result<(), GameError>)
        requires
            track_ok(old(self)@),
        ensures
            track_ok(final(self)@),
            r is Ok <==> old(self)@.1 > 0,
            r is Ok ==> final(self)@ == (old(self)@.0, (old(self)@.1 - 1) as nat),
            r is Err ==> r == Err::<(), GameError>(GameError::NoBuildingsLeft) && final(self)@
                == old(self)@,
    {
        if self.num_occupied == 0 {
            Err(GameError::NoBuildingsLeft)
        } else {
            self.num_occupied = self.num_occupied - 1;
            Ok(())
        }
    }

    /// Puts a building back on the track; refused when every slot but the
    /// base one is occupied.
    pub fn put_building(&mut self) -> (r: Result<(), GameError>)
        requires
            track_ok(old(self)@),
        ensures
            track_ok(final(self)@),
            r is Ok <==> old(self)@.1 + 1 < old(self)@.0.len(),
            r is Ok ==> final(self)@ == (old(self)@.0, old(self)@.1 + 1),
            r is Err ==> r == Err::<(), GameError>(GameError::TrackFull) && final(self)@
                == old(self)@,
    {
        if self.num_occupied + 1 >= self.income_gain.len() {
            Err(GameError::TrackFull)
        } else {
            self.num_occupied = self.num_occupied + 1;
            Ok(())
        }
    }

    /// The income of the track: the sum of the increments of its
    /// unoccupied slots.
    pub fn income(&self) -> (r: Resources)
        requires
            track_ok(self@),
        ensures
            bag_of(r) == track_income(self@),
    {
        let n = self.income_gain.len() - self.num_occupied;
        let mut acc = Resources { tools: 0, coins: 0, scholars: 0, books: 0, power: 0 };
        let mut i: usize = 0;
        while i < n
            invariant
                track_ok(self@),
                n == self@.0.len() - self@.1,
                i <= n,
                bag_of(acc) == sum_bags(self@.0.take(i as int)),
            decreases n - i,
        {
            let ghost s = self@.0.take(i as int + 1);
            assert(s.drop_last() =~= self@.0.take(i as int));
            proof {
                lemma_sum_bags_bound(s, 10);
            }
            acc = acc.plus(&self.income_gain[i]);
            i = i + 1;
        }
        assert(self@.0.take(n as int) =~= self@.0.take(self@.0.len() - self@.1));
        acc
    }
}

} // verus!
