use aoi_backend::common::Color;
use aoi_backend::error::GameError;
use aoi_backend::faction::Faction;
use aoi_backend::game::Phase;
use aoi_backend::gamephase::buildingplacement::BuildingPlacer;
use aoi_backend::gamephase::PlayerId;
use aoi_backend::building::Building;
use aoi_backend::map::{open_map_from_str, HexGrid, Pos, MAP_HEIGHT, MAP_WIDTH};
use aoi_backend::race::Race;

/// Row 0 and row 4 are water; rows 1 to 8 otherwise hold one color each:
/// yellow, brown, black, water, blue, green, gray, red.
fn debug_map() -> HexGrid {
    let rows = ["I", "Y", "U", "K", "I", "B", "G", "S", "R"];
    let text = rows
        .iter()
        .map(|s| vec![*s; MAP_WIDTH].join(","))
        .collect::<Vec<_>>()
        .join("\n");
    open_map_from_str(&text).unwrap()
}

fn colorless_placer(num_players: usize) -> BuildingPlacer {
    let factions = (0..num_players)
        .map(|_| Faction::new(&Race::Raceless, &Color::Colorless))
        .collect();
    BuildingPlacer::new(factions, debug_map())
}

fn hex_order() -> Vec<Pos> {
    vec![(1, 0), (2, 0), (3, 0), (5, 0), (6, 0), (7, 0), (8, 0), (1, 1), (2, 1), (3, 1)]
}

#[test]
fn snake_order_for_four_players() {
    let mut placer = colorless_placer(4);
    let mut order: Vec<PlayerId> = Vec::new();
    for pos in hex_order().into_iter().take(8) {
        let player = placer.player_to_move().unwrap();
        order.push(player);
        placer.place(player, pos).unwrap();
    }
    assert_eq!(order, vec![0, 1, 2, 3, 3, 2, 1, 0]);
    assert_eq!(placer.player_to_move(), Err(GameError::AllPlaced));
}

#[test]
fn finish_only_after_all_placements() {
    for placed in 0..8 {
        let mut placer = colorless_placer(4);
        for pos in hex_order().into_iter().take(placed) {
            let player = placer.player_to_move().unwrap();
            placer.place(player, pos).unwrap();
        }
        assert_eq!(placer.finish().err(), Some(GameError::IncompletePlacement));
    }
    let mut placer = colorless_placer(4);
    for pos in hex_order().into_iter().take(8) {
        let player = placer.player_to_move().unwrap();
        placer.place(player, pos).unwrap();
    }
    assert!(placer.finish().is_ok());
}

#[test]
fn place_all_buildings_for_each_player_count() {
    for n in 2..=5 {
        let mut placer = colorless_placer(n);
        let order: Vec<PlayerId> = (0..n).chain((0..n).rev()).collect();
        for (player, pos) in order.into_iter().zip(hex_order()) {
            placer.place(player, pos).unwrap();
        }
        assert!(placer.finish().is_ok());
    }
}

#[test]
fn first_player_only_one_who_may_start_placing() {
    let mut placer = colorless_placer(4);
    for player in 1..4 {
        assert_eq!(placer.place(player, (1, 0)), Err(GameError::InvalidHex));
    }
    assert_eq!(placer.player_to_move(), Ok(0));
}

#[test]
fn only_allowed_to_place_on_native_color() {
    let cases = [
        (Color::Yellow, 1),
        (Color::Brown, 2),
        (Color::Black, 3),
        (Color::Blue, 5),
        (Color::Green, 6),
        (Color::Gray, 7),
        (Color::Red, 8),
    ];
    for (color, native_row) in cases {
        let factions = vec![
            Faction::new(&Race::Raceless, &color),
            Faction::new(&Race::Raceless, &Color::Colorless),
        ];
        let placer = BuildingPlacer::new(factions, debug_map());
        for row in 0..MAP_HEIGHT {
            assert_eq!(placer.valid_placement(0, (row, 0)), row == native_row);
        }
    }
}

#[test]
fn colorless_may_place_on_any_land_but_not_water() {
    let placer = colorless_placer(2);
    for row in 0..MAP_HEIGHT {
        assert_eq!(placer.valid_placement(0, (row, 3)), row != 0 && row != 4);
    }
}

#[test]
fn building_cant_be_placed_outside_border() {
    let mut placer = colorless_placer(3);
    assert!(!placer.valid_placement(0, (MAP_HEIGHT, 1)));
    assert!(!placer.valid_placement(0, (1, MAP_WIDTH)));
    assert_eq!(placer.place(0, (MAP_HEIGHT, 1)), Err(GameError::InvalidHex));
    assert_eq!(placer.place(0, (1, MAP_WIDTH)), Err(GameError::InvalidHex));
    assert_eq!(placer.player_to_move(), Ok(0));
}

#[test]
fn cant_place_building_on_already_occupied_hex() {
    let mut placer = colorless_placer(3);
    placer.place(0, (1, 0)).unwrap();
    assert_eq!(placer.place(1, (1, 0)), Err(GameError::InvalidHex));
    assert_eq!(placer.player_to_move(), Ok(1));
    placer.place(1, (1, 1)).unwrap();
}

#[test]
fn failed_placements_leave_log_unchanged() {
    let factions = vec![
        Faction::new(&Race::Raceless, &Color::Yellow),
        Faction::new(&Race::Raceless, &Color::Brown),
    ];
    let mut placer = BuildingPlacer::new(factions, debug_map());
    assert_eq!(placer.place(0, (0, 0)), Err(GameError::InvalidHex)); // water
    assert_eq!(placer.place(0, (2, 0)), Err(GameError::InvalidHex)); // brown land
    assert_eq!(placer.place(1, (2, 0)), Err(GameError::InvalidHex)); // out of turn
    assert_eq!(placer.place(0, (9, 0)), Err(GameError::InvalidHex)); // out of bounds
    assert_eq!(placer.player_to_move(), Ok(0));
    placer.place(0, (1, 0)).unwrap();
    assert_eq!(placer.place(1, (1, 0)), Err(GameError::InvalidHex)); // occupied
    assert_eq!(placer.player_to_move(), Ok(1));
    placer.place(1, (2, 5)).unwrap();
    assert_eq!(placer.player_to_move(), Ok(1));
}

#[test]
fn phase_dispatches_to_placement() {
    let mut phase = Phase::BuildingPlacement(colorless_placer(2));
    assert_eq!(phase.player_to_move(), Ok(0));
    assert_eq!(phase.place_building(1, (1, 0)), Err(GameError::InvalidHex));
    assert_eq!(phase.place_building(0, (1, 0)), Ok(Building::Workshop));
    assert_eq!(phase.player_to_move(), Ok(1));
}

#[test]
fn income_phase_refuses_placement() {
    let placer = colorless_placer(0);
    let mut phase = Phase::Income(placer.finish().unwrap());
    assert_eq!(phase.player_to_move(), Err(GameError::NotInThisPhase));
    assert_eq!(phase.place_building(0, (1, 0)), Err(GameError::NotInThisPhase));
}
