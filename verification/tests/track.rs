//! Track completeness and train behaviour.

use isocoaster::coaster::{Coaster, CoasterType, TrainState};
use isocoaster::state::GameState;
use isocoaster::trains::update_trains;

fn ring_coaster(tiles: Vec<(i32, i32)>) -> Coaster {
    let mut c = Coaster::new(7, String::from("Test Loop"), CoasterType::SteelSitDown);
    c.track_tiles = tiles;
    c
}

#[test]
fn four_tile_ring_is_complete() {
    let c = ring_coaster(vec![(0, 0), (1, 0), (1, 1), (0, 1)]);
    assert!(c.is_complete());
}

#[test]
fn broken_ring_is_incomplete() {
    let c = ring_coaster(vec![(0, 0), (1, 0), (1, 1), (5, 5)]);
    assert!(!c.is_complete());
}

#[test]
fn short_ring_is_incomplete() {
    let c = ring_coaster(vec![(0, 0), (1, 0), (1, 1)]);
    assert!(!c.is_complete());
}

#[test]
fn empty_track_is_incomplete() {
    let c = ring_coaster(Vec::new());
    assert!(!c.is_complete());
}

#[test]
fn added_trains_are_spaced_and_loading() {
    let mut state = GameState::new(48);
    let c = &state.coasters[0];
    assert!(c.operating);
    assert!(c.is_complete());
    assert_eq!(c.trains.len(), 1);
    let train = &state.coasters[0].trains[0];
    assert_eq!(train.cars.len(), 3);
    assert!(matches!(train.state, TrainState::Loading));
    let m = (state.coasters[0].track_pieces.len() as u64) * 1000;
    let lead = train.cars[0].track_progress;
    for i in 1..3u64 {
        let expect = (lead + m - i * 180) % m;
        assert_eq!(train.cars[i as usize].track_progress, expect);
    }
}

#[test]
fn cars_keep_derived_spacing_every_tick() {
    let mut state = GameState::new(48);
    for _ in 0..200 {
        update_trains(&mut state);
        let c = &state.coasters[0];
        let m = (c.track_pieces.len() as u64) * 1000;
        for train in &c.trains {
            let lead = train.cars[0].track_progress;
            for (i, car) in train.cars.iter().enumerate() {
                let expect = (lead + m - ((i as u64) * 180) % m) % m;
                assert_eq!(car.track_progress, expect);
            }
        }
    }
}

#[test]
fn train_states_follow_the_dispatch_cycle() {
    let mut state = GameState::new(48);
    let mut last = state.coasters[0].trains[0].state;
    let mut seen_running = false;
    for _ in 0..600 {
        update_trains(&mut state);
        let now = state.coasters[0].trains[0].state;
        let allowed = match last {
            TrainState::Loading => matches!(now, TrainState::Loading | TrainState::Dispatching),
            TrainState::Dispatching => {
                matches!(now, TrainState::Dispatching | TrainState::Running)
            }
            TrainState::Running => matches!(now, TrainState::Running | TrainState::Braking),
            TrainState::Braking => matches!(now, TrainState::Braking | TrainState::Loading),
        };
        assert!(allowed);
        if matches!(now, TrainState::Running) {
            seen_running = true;
        }
        last = now;
    }
    assert!(seen_running);
}
