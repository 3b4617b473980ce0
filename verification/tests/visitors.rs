//! Visitor behaviour: needs stay in range, wallets never go negative, and
//! the admission rules hold.

use isocoaster::guest::{Guest, GuestState};
use isocoaster::rng::SimRng;
use isocoaster::state::GameState;
use isocoaster::guest_ai::{spawn_guests, update_guests};

#[test]
fn fresh_guest_fields_are_in_range() {
    let mut rng = SimRng::new(99);
    let g = Guest::new(1, 0, 5, 32, &mut rng);
    assert!(matches!(g.state, GuestState::Entering));
    assert_eq!((g.tile_x, g.tile_y), (0, 5));
    assert_eq!((g.target_x, g.target_y), (1, 5));
    assert!(g.cash >= 30 && g.cash <= 99);
    assert!(g.hunger >= 20_000 && g.hunger < 50_000);
    assert!(g.thirst >= 20_000 && g.thirst < 50_000);
    assert!(g.energy >= 80_000 && g.energy < 100_000);
    assert!(g.happiness >= 70_000 && g.happiness < 100_000);
    assert_eq!(g.nausea, 0);
    assert_eq!(g.total_spent, 0);
}

#[test]
fn needs_and_happiness_stay_in_range_over_many_ticks() {
    let mut state = GameState::new(40);
    for _ in 0..600 {
        state.tick();
    }
    assert!(!state.guests.is_empty());
    for g in &state.guests {
        assert!(g.hunger <= 100_000);
        assert!(g.thirst <= 100_000);
        assert!(g.bathroom <= 100_000);
        assert!(g.energy <= 100_000);
        assert!(g.happiness <= 100_000);
        assert!(g.nausea <= 100_000);
    }
}

#[test]
fn visitor_cash_never_negative() {
    let mut state = GameState::new(40);
    for _ in 0..600 {
        state.tick();
    }
    for g in &state.guests {
        assert!(g.cash >= 0);
        assert!(g.total_spent >= 0);
    }
    assert!(state.cash >= 50_000);
}

#[test]
fn candidate_without_entry_fee_is_discarded() {
    let mut state = GameState::new(32);
    let mut rng = SimRng::new(7);
    let mut poor = Guest::new(1, 0, 16, 32, &mut rng);
    poor.cash = 19;
    let before = state.guests.len();
    let admitted = state.admit_guest(poor);
    assert!(!admitted);
    assert_eq!(state.guests.len(), before);
    assert_eq!(state.cash, 50_000);
}

#[test]
fn candidate_with_entry_fee_pays_it() {
    let mut state = GameState::new(32);
    let mut rng = SimRng::new(7);
    let mut rich = Guest::new(1, 0, 16, 32, &mut rng);
    rich.cash = 20;
    let admitted = state.admit_guest(rich);
    assert!(admitted);
    let g = state.guests.last().unwrap();
    assert_eq!(g.cash, 0);
    assert_eq!(g.total_spent, 20);
    assert_eq!(state.cash, 50_020);
}

#[test]
fn spawning_is_capped_at_five_hundred() {
    let mut state = GameState::new(32);
    let mut rng = SimRng::new(3);
    for i in 0..500u32 {
        let g = Guest::new(i, 0, 16, 32, &mut rng);
        assert!(state.admit_guest(g));
    }
    assert_eq!(state.guests.len(), 500);
    state.hour = 12;
    for _ in 0..50 {
        spawn_guests(&mut state);
    }
    assert_eq!(state.guests.len(), 500);
}

#[test]
fn no_spawning_outside_opening_hours() {
    let mut state = GameState::new(32);
    state.hour = 22;
    for _ in 0..200 {
        spawn_guests(&mut state);
    }
    assert!(state.guests.is_empty());
    state.hour = 8;
    for _ in 0..200 {
        spawn_guests(&mut state);
    }
    assert!(state.guests.is_empty());
}

#[test]
fn update_keeps_the_visitor_count() {
    let mut state = GameState::new(32);
    let mut rng = SimRng::new(11);
    for i in 0..10u32 {
        let g = Guest::new(i, 0, 16, 32, &mut rng);
        state.admit_guest(g);
    }
    update_guests(&mut state);
    assert_eq!(state.guests.len(), 10);
}

#[test]
fn park_rating_is_ten_times_mean_happiness() {
    let mut state = GameState::new(32);
    let mut rng = SimRng::new(5);
    let mut a = Guest::new(1, 0, 16, 32, &mut rng);
    a.happiness = 50_000;
    let mut b = Guest::new(2, 0, 16, 32, &mut rng);
    b.happiness = 70_000;
    a.cash = 50;
    b.cash = 50;
    state.admit_guest(a);
    state.admit_guest(b);
    state.update_park_rating();
    // Mean happiness 60 points; ten times that is 600.
    assert_eq!(state.park_rating, 600);
}

#[test]
fn rating_is_capped_at_one_thousand() {
    let mut state = GameState::new(32);
    let mut rng = SimRng::new(5);
    let mut a = Guest::new(1, 0, 16, 32, &mut rng);
    a.happiness = 100_000;
    a.cash = 50;
    state.admit_guest(a);
    state.update_park_rating();
    assert_eq!(state.park_rating, 1000);
}

#[test]
fn needs_drift_by_their_documented_rates() {
    let mut state = GameState::new(32);
    let mut rng = SimRng::new(21);
    let g = Guest::new(1, 0, 16, 32, &mut rng);
    state.admit_guest(g);
    let before = (
        state.guests[0].hunger,
        state.guests[0].thirst,
        state.guests[0].energy,
    );
    update_guests(&mut state);
    let after = &state.guests[0];
    // Per tick: hunger +0.010, thirst +0.015, energy -0.005 points, in
    // thousandths of a point.
    assert_eq!(after.hunger, before.0 + 10);
    assert_eq!(after.thirst, before.1 + 15);
    assert_eq!(after.energy, before.2 - 5);
}
