//! The editing surface consumed by the host: tool application on the
//! world grid, and destination lookup over placed structures.

use isocoaster::guest::TargetKind;
use isocoaster::guest_ai::find_destination;
use isocoaster::state::GameState;
use isocoaster::tile::Terrain;
use isocoaster::tool::Tool;

/// A bare world with no starter park in the way of the editing tests.
fn flat_world() -> GameState {
    let mut state = GameState::new(32);
    for y in 0..32 {
        for x in 0..32 {
            let mut t = state.grid[y][x];
            t.terrain = Terrain::Grass;
            t.building = None;
            t.path = false;
            t.queue = false;
            t.has_coaster_track = false;
            t.coaster_track_id = None;
            state.grid[y][x] = t;
        }
    }
    state
}

#[test]
fn path_tool_lays_a_path_and_charges_ten() {
    let mut state = flat_world();
    state.set_tool_from_string("path");
    assert!(matches!(state.selected_tool, Tool::Path));
    let cash = state.cash;
    state.apply_tool(4, 4);
    assert!(state.grid[4][4].path);
    assert_eq!(state.cash, cash - 10);
}

#[test]
fn path_tool_refuses_water() {
    let mut state = flat_world();
    let mut t = state.grid[4][4];
    t.terrain = Terrain::Water;
    state.grid[4][4] = t;
    state.set_tool_from_string("path");
    let cash = state.cash;
    state.apply_tool(4, 4);
    assert!(!state.grid[4][4].path);
    assert_eq!(state.cash, cash);
}

#[test]
fn building_tool_places_on_free_grass_only() {
    let mut state = flat_world();
    state.set_tool_from_string("food_hotdog");
    let cash = state.cash;
    state.apply_tool(6, 6);
    assert!(state.grid[6][6].building.is_some());
    assert_eq!(state.cash, cash - 200);
    // A second placement on the same tile does nothing.
    state.apply_tool(6, 6);
    assert_eq!(state.cash, cash - 200);
}

#[test]
fn bulldozer_removes_a_building_for_its_fee() {
    let mut state = flat_world();
    state.set_tool_from_string("food_hotdog");
    state.apply_tool(6, 6);
    let cash = state.cash;
    state.set_tool_from_string("bulldoze");
    state.apply_tool(6, 6);
    assert!(state.grid[6][6].building.is_none());
    assert_eq!(state.cash, cash - 10);
}

#[test]
fn out_of_bounds_clicks_do_nothing() {
    let mut state = flat_world();
    state.set_tool_from_string("path");
    let cash = state.cash;
    state.apply_tool(-1, 4);
    state.apply_tool(4, 99);
    assert_eq!(state.cash, cash);
}

#[test]
fn station_then_track_builds_an_operating_loop() {
    let mut state = flat_world();
    state.set_tool_from_string("coaster_station");
    state.apply_tool(10, 10);
    assert_eq!(state.coasters.len(), 2);
    let ring = [(11, 10), (11, 11), (10, 11)];
    state.set_tool_from_string("coaster_track_straight");
    for (x, y) in ring {
        state.apply_tool(x, y);
    }
    let c = state.coasters.last().unwrap();
    assert_eq!(c.name, "Custom Coaster 2");
    assert_eq!(c.track_tiles.len(), 4);
    assert!(c.is_complete());
    assert!(c.operating);
    assert_eq!(c.trains.len(), 1);
    assert!(state.grid[10][10].has_coaster_track);
}

#[test]
fn nearest_probe_prefers_the_closer_tile() {
    let mut grid: Vec<Vec<isocoaster::tile::Tile>> = Vec::new();
    for y in 0..8 {
        let mut row = Vec::new();
        for x in 0..8 {
            row.push(isocoaster::tile::Tile::new(x, y));
        }
        grid.push(row);
    }
    grid[2][5].path = true;
    grid[2][3].path = true;
    // Both path tiles exist; the nearer one (distance 1) wins over the
    // farther (distance 3).
    let hit =
        isocoaster::pathfinding::find_nearest(&grid, (2, 2), 10, |t: &isocoaster::tile::Tile| {
            t.path
        });
    assert_eq!(hit, Some((3, 2)));
    // A cell at the probe depth is never tested.
    let cut =
        isocoaster::pathfinding::find_nearest(&grid, (4, 2), 1, |t: &isocoaster::tile::Tile| {
            t.path
        });
    assert_eq!(cut, None);
}

#[test]
fn destination_lookup_finds_the_only_food_stand() {
    let mut state = flat_world();
    state.set_tool_from_string("food_hotdog");
    state.apply_tool(6, 6);
    let dest = find_destination(&state, (0, 0), TargetKind::Food);
    assert_eq!(dest, Some((6, 6)));
    let none = find_destination(&state, (0, 0), TargetKind::Ride);
    assert_eq!(none, None);
}
