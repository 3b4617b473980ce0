//! Routing engine behaviour: shortest paths, budgets, and reachability.

use isocoaster::pathfinding::{find_path, find_path_to_building, find_nearest};
use isocoaster::tile::Tile;

fn empty_grid(n: usize) -> Vec<Vec<Tile>> {
    let mut grid = Vec::new();
    for y in 0..n {
        let mut row = Vec::new();
        for x in 0..n {
            row.push(Tile::new(x as i32, y as i32));
        }
        grid.push(row);
    }
    grid
}

fn set_path(grid: &mut Vec<Vec<Tile>>, x: usize, y: usize) {
    grid[y][x].path = true;
}

#[test]
fn straight_path_has_shortest_length() {
    let mut grid = empty_grid(8);
    for x in 0..5 {
        set_path(&mut grid, x, 3);
    }
    let path = find_path(&grid, (0, 3), (4, 3), 200);
    assert_eq!(path.len(), 5);
    assert_eq!(path[0], (0, 3));
    assert_eq!(path[4], (4, 3));
}

#[test]
fn bfs_picks_shorter_of_two_routes() {
    let mut grid = empty_grid(8);
    // A direct corridor of 4 hops and a detour of 6 hops.
    for x in 0..5 {
        set_path(&mut grid, x, 2);
    }
    for x in 0..5 {
        set_path(&mut grid, x, 4);
    }
    set_path(&mut grid, 0, 3);
    set_path(&mut grid, 4, 3);
    let path = find_path(&grid, (0, 2), (4, 2), 200);
    assert_eq!(path.len(), 5);
}

#[test]
fn unreachable_target_gives_empty_path() {
    let mut grid = empty_grid(8);
    set_path(&mut grid, 0, 0);
    set_path(&mut grid, 7, 7);
    let path = find_path(&grid, (0, 0), (7, 7), 200);
    assert!(path.is_empty());
}

#[test]
fn budget_cuts_off_long_routes() {
    let mut grid = empty_grid(10);
    for x in 0..10 {
        set_path(&mut grid, x, 0);
    }
    // Nine hops needed; a budget of eight finds nothing, nine finds it.
    let short = find_path(&grid, (0, 0), (9, 0), 8);
    assert!(short.is_empty());
    let exact = find_path(&grid, (0, 0), (9, 0), 9);
    assert_eq!(exact.len(), 10);
}

#[test]
fn trivial_route_to_self() {
    let grid = empty_grid(4);
    let path = find_path(&grid, (2, 2), (2, 2), 0);
    assert_eq!(path, vec![(2, 2)]);
}

#[test]
fn route_to_building_reaches_a_neighbor() {
    let mut grid = empty_grid(8);
    for x in 0..5 {
        set_path(&mut grid, x, 3);
    }
    // The structure sits below the corridor's end; its northern neighbor
    // is the corridor tile (4, 3).
    let path = find_path_to_building(&grid, (0, 3), (4, 4), 200);
    assert!(!path.is_empty());
    let last = path[path.len() - 1];
    let dx = (last.0 - 4i32).abs();
    let dy = (last.1 - 4i32).abs();
    assert_eq!(dx + dy, 1);
}

#[test]
fn route_to_walled_in_building_is_empty() {
    let mut grid = empty_grid(8);
    set_path(&mut grid, 0, 0);
    let path = find_path_to_building(&grid, (0, 0), (5, 5), 200);
    assert!(path.is_empty());
}

#[test]
fn nearest_walkable_tile_found() {
    let mut grid = empty_grid(8);
    set_path(&mut grid, 3, 2);
    let hit = find_nearest(&grid, (2, 2), 10, |t: &Tile| t.path);
    assert_eq!(hit, Some((3, 2)));
}
