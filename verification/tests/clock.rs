//! The simulation clock: per-tick advance and calendar rollover.

use isocoaster::state::GameState;

#[test]
fn daytime_tick_advances_a_quarter_minute() {
    let mut state = GameState::new(16);
    assert_eq!(state.hour, 9);
    assert_eq!(state.minute, 0);
    state.advance_time();
    assert_eq!(state.minute, 1);
    assert_eq!(state.hour, 9);
    assert_eq!(state.tick, 1);
}

#[test]
fn nighttime_tick_advances_three_minutes() {
    let mut state = GameState::new(16);
    state.hour = 22;
    state.minute = 0;
    state.advance_time();
    assert_eq!(state.minute, 12);
    assert_eq!(state.hour, 22);
}

#[test]
fn minutes_roll_into_hours() {
    let mut state = GameState::new(16);
    state.hour = 9;
    state.minute = 239;
    state.advance_time();
    assert_eq!(state.minute, 0);
    assert_eq!(state.hour, 10);
}

#[test]
fn year_rolls_over_from_the_last_night_of_december() {
    let mut state = GameState::new(16);
    state.year = 3;
    state.month = 12;
    state.day = 30;
    state.hour = 23;
    state.minute = 236;
    state.advance_time();
    assert_eq!(state.minute, 8);
    assert_eq!(state.hour, 0);
    assert_eq!(state.day, 1);
    assert_eq!(state.month, 1);
    assert_eq!(state.year, 4);
}

#[test]
fn paused_world_does_not_move() {
    let mut state = GameState::new(16);
    state.speed = 0;
    let tick_before = state.tick;
    let minute_before = state.minute;
    state.tick();
    assert_eq!(state.tick, tick_before);
    assert_eq!(state.minute, minute_before);
}
