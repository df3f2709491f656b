use aoi_backend::building::Building;
use aoi_backend::common::{Color, Discipline};
use aoi_backend::error::GameError;
use aoi_backend::faction::{BuildingIncomeTrack, Faction};
use aoi_backend::race::Race;
use aoi_backend::resources::{Coins, Resources, Scholars, Tools};

#[test]
fn income_for_zero_workshops() {
    let track = BuildingIncomeTrack::new(&Color::Yellow, &Building::Workshop).unwrap();

    assert_eq!(track.income(), Resources::from_tools(Tools(1)));
}

#[test]
fn income_for_two_workshops() {
    let mut track = BuildingIncomeTrack::new(&Color::Yellow, &Building::Workshop).unwrap();

    track.remove_building().unwrap();
    track.remove_building().unwrap();

    assert_eq!(track.income(), Resources::from_tools(Tools(3)));
}

#[test]
fn income_for_nine_workshops() {
    let mut track = BuildingIncomeTrack::new(&Color::Black, &Building::Workshop).unwrap();

    for _ in 0..9 {
        track.remove_building().unwrap();
    }

    assert_eq!(track.income(), Resources::from_tools(Tools(9)));
}

#[test]
fn gray_has_extra_gold_income() {
    let mut track = BuildingIncomeTrack::new(&Color::Gray, &Building::Workshop).unwrap();

    track.remove_building().unwrap();

    assert_eq!(
        track.income(),
        Resources::from_tools(Tools(2)).plus(&Resources::from_coins(Coins(2)))
    );
}

#[test]
fn remove_to_many_from_income_track() {
    let mut track = BuildingIncomeTrack::new(&Color::Yellow, &Building::Workshop).unwrap();

    for _ in 0..9 {
        track.remove_building().unwrap();
    }

    assert!(track.remove_building().is_err());
}

#[test]
fn tenth_removal_fails_and_income_stays() {
    let mut track = BuildingIncomeTrack::new(&Color::Yellow, &Building::Workshop).unwrap();

    for _ in 0..9 {
        track.remove_building().unwrap();
    }

    assert_eq!(track.remove_building(), Err(GameError::NoBuildingsLeft));
    assert_eq!(track.income(), Resources::from_tools(Tools(9)));
}

#[test]
fn put_building_on_track_when_full() {
    let mut track = BuildingIncomeTrack::new(&Color::Yellow, &Building::Workshop).unwrap();

    assert!(track.put_building().is_err());
}

#[test]
fn put_building_back_lowers_income() {
    let mut track = BuildingIncomeTrack::new(&Color::Yellow, &Building::Workshop).unwrap();

    track.remove_building().unwrap();
    track.remove_building().unwrap();
    track.put_building().unwrap();

    assert_eq!(track.income(), Resources::from_tools(Tools(2)));
    track.put_building().unwrap();
    assert_eq!(track.put_building(), Err(GameError::TrackFull));
}

#[test]
fn guild_track_income() {
    let mut track = BuildingIncomeTrack::new(&Color::Red, &Building::Guild).unwrap();

    assert_eq!(track.income(), Resources::none());
    track.remove_building().unwrap();
    track.remove_building().unwrap();
    track.remove_building().unwrap();
    assert_eq!(
        track.income(),
        Resources { tools: 0, coins: 6, scholars: 0, books: 0, power: 4 }
    );
    assert_eq!(track.put_building(), Ok(()));
}

#[test]
fn school_and_university_tracks() {
    let mut school = BuildingIncomeTrack::new(&Color::Blue, &Building::School).unwrap();
    school.remove_building().unwrap();
    assert_eq!(school.income(), Resources::from_scholars(Scholars(1)));

    let mut university = BuildingIncomeTrack::new(&Color::Blue, &Building::University).unwrap();
    university.remove_building().unwrap();
    assert_eq!(university.income(), Resources::from_scholars(Scholars(1)));
    assert_eq!(university.remove_building(), Err(GameError::NoBuildingsLeft));
}

#[test]
fn no_income_track_for_palace() {
    assert!(matches!(
        BuildingIncomeTrack::new(&Color::Yellow, &Building::Palace),
        Err(GameError::NoIncomeTrack)
    ));
}

#[test]
fn incr_disc() {
    let mut faction = Faction::new(&Race::Blessed, &Color::Yellow);

    let banking = faction.incr_disc(Discipline::Banking, 1);
    let law = faction.incr_disc(Discipline::Law, 2);
    let engineering = faction.incr_disc(Discipline::Engineering, 3);
    let medicine = faction.incr_disc(Discipline::Medicine, 4);

    assert_eq!(banking, 2);
    assert_eq!(law, 3);
    assert_eq!(engineering, 4);
    assert_eq!(medicine, 5);
}

#[test]
fn incr_disc_beyond_limit() {
    let mut faction = Faction::new(&Race::Monks, &Color::Black);

    let disc = faction.incr_disc(Discipline::Engineering, 15);

    assert_eq!(disc, 12);
}

#[test]
fn incr_disc_with_huge_amount() {
    let mut faction = Faction::new(&Race::Raceless, &Color::Green);

    assert_eq!(faction.incr_disc(Discipline::Law, u32::MAX), 12);
    assert_eq!(faction.disc_track, [1, 12, 1, 1]);
}

struct Start {
    tools: u32,
    scholars: u32,
    disc_track: [u32; 4],
    power: [u32; 3],
    dig_coins: u32,
    sailing_level: u32,
}

fn check_start(f: &Faction, race: Race, color: Color, s: Start) {
    assert_eq!(f.race, race);
    assert_eq!(f.color, color);
    assert_eq!(f.digging_cost, Tools(3));
    assert_eq!(f.sailing_level, s.sailing_level);
    assert_eq!(f.tools, Tools(s.tools));
    assert_eq!(f.coins, Coins(15));
    assert!(f.books.iter().all(|b| b.0 == 0));
    assert_eq!(f.scholars, Scholars(s.scholars));
    assert_eq!(f.scholars_cap, Scholars(7));
    assert_eq!(f.disc_track, s.disc_track);
    assert_eq!(
        [f.power.amount(1), f.power.amount(2), f.power.amount(3)],
        s.power
    );
    assert_eq!(
        f.dig_upg_cost,
        Resources { tools: 1, coins: s.dig_coins, scholars: 1, books: 0, power: 0 }
    );
    assert_eq!(
        f.sailing_upg_cost,
        Resources { tools: 0, coins: 4, scholars: 1, books: 0, power: 0 }
    );
}

fn race_start(tools: u32, disc_track: [u32; 4]) -> Start {
    Start { tools, scholars: 0, disc_track, power: [5, 7, 0], dig_coins: 5, sailing_level: 0 }
}

#[test]
fn faction_blessed_has_correct_starting_state() {
    let f = Faction::new(&Race::Blessed, &Color::Colorless);
    check_start(&f, Race::Blessed, Color::Colorless, race_start(3, [1, 1, 1, 1]));
}

#[test]
fn faction_monks_has_correct_starting_state() {
    let f = Faction::new(&Race::Monks, &Color::Colorless);
    check_start(&f, Race::Monks, Color::Colorless, race_start(4, [0, 1, 0, 1]));
}

#[test]
fn faction_felines_has_correct_starting_state() {
    let f = Faction::new(&Race::Felines, &Color::Colorless);
    check_start(&f, Race::Felines, Color::Colorless, race_start(3, [1, 0, 0, 1]));
}

#[test]
fn faction_navigators_has_correct_starting_state() {
    let f = Faction::new(&Race::Navigators, &Color::Colorless);
    check_start(&f, Race::Navigators, Color::Colorless, race_start(3, [0, 3, 0, 0]));
}

#[test]
fn faction_goblins_has_correct_starting_state() {
    let f = Faction::new(&Race::Goblins, &Color::Colorless);
    check_start(&f, Race::Goblins, Color::Colorless, race_start(4, [1, 0, 1, 0]));
}

#[test]
fn faction_omar_has_correct_starting_state() {
    let f = Faction::new(&Race::Omar, &Color::Colorless);
    check_start(&f, Race::Omar, Color::Colorless, race_start(3, [1, 0, 1, 0]));
}

#[test]
fn faction_illusionists_has_correct_starting_state() {
    let f = Faction::new(&Race::Illusionists, &Color::Colorless);
    check_start(&f, Race::Illusionists, Color::Colorless, race_start(3, [0, 0, 0, 2]));
}

#[test]
fn faction_inventors_has_correct_starting_state() {
    let f = Faction::new(&Race::Inventors, &Color::Colorless);
    check_start(&f, Race::Inventors, Color::Colorless, race_start(3, [0, 0, 0, 0]));
}

#[test]
fn faction_philosophers_has_correct_starting_state() {
    let f = Faction::new(&Race::Philosophers, &Color::Colorless);
    check_start(&f, Race::Philosophers, Color::Colorless, race_start(3, [2, 0, 0, 0]));
}

#[test]
fn faction_lizards_has_correct_starting_state() {
    let f = Faction::new(&Race::Lizards, &Color::Colorless);
    check_start(&f, Race::Lizards, Color::Colorless, race_start(3, [0, 0, 0, 0]));
}

#[test]
fn faction_psychics_has_correct_starting_state() {
    let f = Faction::new(&Race::Psychics, &Color::Colorless);
    check_start(&f, Race::Psychics, Color::Colorless, race_start(4, [1, 0, 0, 1]));
}

#[test]
fn faction_moles_has_correct_starting_state() {
    let f = Faction::new(&Race::Moles, &Color::Colorless);
    check_start(&f, Race::Moles, Color::Colorless, race_start(3, [0, 0, 2, 0]));
}

#[test]
fn yellow_has_correct_starting_state() {
    let f = Faction::new(&Race::Raceless, &Color::Yellow);
    check_start(&f, Race::Raceless, Color::Yellow, race_start(3, [0, 0, 0, 0]));
}

#[test]
fn brown_has_correct_starting_state() {
    let f = Faction::new(&Race::Raceless, &Color::Brown);
    let mut expected = race_start(3, [0, 0, 0, 0]);
    expected.dig_coins = 1;
    check_start(&f, Race::Raceless, Color::Brown, expected);
}

#[test]
fn black_has_correct_starting_state() {
    let f = Faction::new(&Race::Raceless, &Color::Black);
    let mut expected = race_start(3, [0, 0, 0, 0]);
    expected.scholars = 1;
    expected.power = [3, 9, 0];
    check_start(&f, Race::Raceless, Color::Black, expected);
}

#[test]
fn blue_and_green_starting_bonuses() {
    let blue = Faction::new(&Race::Raceless, &Color::Blue);
    let mut expected = race_start(3, [0, 0, 0, 0]);
    expected.sailing_level = 1;
    check_start(&blue, Race::Raceless, Color::Blue, expected);

    let green = Faction::new(&Race::Navigators, &Color::Green);
    let mut expected = race_start(3, [1, 4, 1, 1]);
    expected.power = [4, 8, 0];
    check_start(&green, Race::Navigators, Color::Green, expected);
}
