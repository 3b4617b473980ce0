//! Per-tick behaviour of visitors: decaying needs, destination choice,
//! routing, movement along waypoints, purchases, and the spawn policy at
//! the park entrances.

use vstd::prelude::*;
use crate::building::BuildingType;
use crate::building::spec_is_food;
use crate::building::spec_is_ride;
use crate::building::spec_is_shop;
use crate::guest::Guest;
use crate::guest::GuestState;
use crate::guest::Direction;
use crate::guest::NEED_MAX;
use crate::guest::TargetKind;
use crate::guest::guest_wf;
use crate::pathfinding::find_path_to_building;
use crate::rng::spec_xorshift;
use crate::state::GameState;
use crate::state::GUEST_LIMIT;
use crate::state::GRID_LIMIT;
use crate::state::grid_wf;
use crate::state::is_entrance;
use crate::state::sat_add_i64;
use crate::state::state_wf;
use crate::tile::Tile;

verus! {

/// The park's per-visit fees: rides, food stalls, shops.
pub const RIDE_FEE: i32 = 15;

/// The fee of one food or drink purchase.
pub const FOOD_FEE: i32 = 12;

/// The fee of one shop purchase.
pub const SHOP_FEE: i32 = 10;

/// The most visitors the spawn policy admits at once.
pub const MAX_GUESTS: usize = 500;

/// Whether a structure kind serves the wanted destination kind.
pub open spec fn kind_matches(b: BuildingType, k: TargetKind) -> bool {
    match k {
        TargetKind::Food => spec_is_food(b),
        TargetKind::Shop => spec_is_shop(b),
        TargetKind::Ride => spec_is_ride(b),
    }
}

/// The fee of one visit of each destination kind.
pub open spec fn spec_fee(k: TargetKind) -> int {
    match k {
        TargetKind::Ride => RIDE_FEE as int,
        TargetKind::Food => FOOD_FEE as int,
        TargetKind::Shop => SHOP_FEE as int,
    }
}

/// The activity a paid visit of each kind starts.
pub open spec fn spec_activity(k: TargetKind) -> GuestState {
    match k {
        TargetKind::Ride => GuestState::Queuing,
        TargetKind::Food => GuestState::Eating,
        TargetKind::Shop => GuestState::Shopping,
    }
}

/// The facing after a step by `(dx, dy)`.
pub open spec fn spec_facing(dx: int, dy: int) -> Direction {
    if dx > 0 {
        Direction::South
    } else if dx < 0 {
        Direction::North
    } else if dy > 0 {
        Direction::West
    } else {
        Direction::East
    }
}

/// The needs-drift step every visitor takes first each tick: time in park
/// grows, hunger and thirst climb, energy sinks, happiness takes the
/// hunger/thirst/nausea penalty, nausea wears off, and the decision
/// cooldown runs down. Bathroom urgency never changes.
pub open spec fn spec_drift(g: Guest) -> Guest {
    let time = if g.time_in_park <= u32::MAX - 1000 {
        (g.time_in_park + 1000) as u32
    } else {
        u32::MAX
    };
    let hunger = if g.hunger + 10 > NEED_MAX {
        NEED_MAX
    } else {
        (g.hunger + 10) as u32
    };
    let thirst = if g.thirst + 15 > NEED_MAX {
        NEED_MAX
    } else {
        (g.thirst + 15) as u32
    };
    let energy = if g.energy >= 5 {
        (g.energy - 5) as u32
    } else {
        0u32
    };
    let penalty: int = (if hunger > 70_000 {
        100int
    } else {
        0int
    }) + (if thirst > 70_000 {
        150int
    } else {
        0int
    }) + (if g.nausea > 50_000 {
        100int
    } else {
        0int
    });
    let happiness = if g.happiness >= penalty {
        (g.happiness - penalty) as u32
    } else {
        0u32
    };
    let nausea = if g.nausea >= 20 {
        (g.nausea - 20) as u32
    } else {
        0u32
    };
    let cooldown = if g.decision_cooldown >= 1000 {
        (g.decision_cooldown - 1000) as u32
    } else {
        0u32
    };
    Guest {
        time_in_park: time,
        hunger,
        thirst,
        energy,
        happiness,
        nausea,
        decision_cooldown: cooldown,
        ..g
    }
}

/// An idle walker: walking or entering, no waypoints left, no destination,
/// and a decision cooldown that expires this tick.
pub open spec fn spec_idle(g: Guest) -> bool {
    &&& g.state == GuestState::Walking || g.state == GuestState::Entering
    &&& g.path.len() == 0
    &&& g.target_building_id is None
    &&& g.decision_cooldown <= 1000
}

/// Capped addition on a need, in thousandths.
pub open spec fn spec_cap_add(v: int, d: int) -> int {
    if v + d > NEED_MAX {
        NEED_MAX as int
    } else {
        v + d
    }
}

/// Floored subtraction on a need, in thousandths.
pub open spec fn spec_floor_sub(v: int, d: int) -> int {
    if v >= d {
        v - d
    } else {
        0
    }
}

/// Whether a tile holds a structure of the wanted kind.
#[verifier::opaque]
pub open spec fn tile_cand(t: Tile, kind: TargetKind) -> bool {
    match t.building {
        Some(b) => kind_matches(b.building_type, kind),
        None => false,
    }
}

/// The candidate destinations among the first `count` cells of the grid in
/// row-major order: the coordinates of every structure of the wanted kind.
pub open spec fn cand_upto(
    grid: Seq<Vec<Tile>>,
    n: int,
    kind: TargetKind,
    count: int,
) -> Seq<(i32, i32)>
    decreases count,
{
    if count <= 0 {
        Seq::empty()
    } else {
        let prev = cand_upto(grid, n, kind, count - 1);
        let y = (count - 1) / n;
        let x = (count - 1) % n;
        if tile_cand(grid[y]@[x], kind) {
            prev.push((x as i32, y as i32))
        } else {
            prev
        }
    }
}

/// Whether this tile holds a structure of the wanted kind.
fn tile_matches(tile: &Tile, kind: TargetKind) -> (r: bool)
    ensures
        r == tile_cand(*tile, kind),
{
    proof {
        reveal(tile_cand);
    }
    match &tile.building {
        Some(b) => {
            let bt = b.building_type;
            match kind {
                TargetKind::Food => bt.is_food(),
                TargetKind::Shop => bt.is_shop(),
                TargetKind::Ride => bt.is_ride(),
            }
        },
        None => false,
    }
}

/// The position-seeded hash that picks among candidate destinations.
pub open spec fn spec_dest_hash(start: (i32, i32)) -> u64 {
    let s0 = vstd::wrapping::u64_specs::wrapping_add(
        vstd::wrapping::u64_specs::wrapping_mul(start.0 as u64, 7919),
        vstd::wrapping::u64_specs::wrapping_mul(start.1 as u64, 6271),
    );
    let s1 = s0 ^ (s0 << 13);
    s1 ^ (s1 >> 7)
}

/// Picks a destination structure of the given kind: the hash of the
/// starting position chooses among all matching structures on the grid, in
/// row-major order; with no matching structure there is no destination.
/// Collects the candidate destinations of the wanted kind, scanning the
/// grid in row-major order.
#[verifier::rlimit(100)]
fn collect_candidates(state: &GameState, target_kind: TargetKind) -> (r: Vec<(i32, i32)>)
    requires
        state.grid_size <= GRID_LIMIT,
        grid_wf(state.grid@, state.grid_size as int),
    ensures
        r@ == cand_upto(
            state.grid@,
            state.grid_size as int,
            target_kind,
            state.grid_size as int * state.grid_size as int,
        ),
{
    let n = state.grid_size;
    let ghost gn = n as int;
    let mut candidates: Vec<(i32, i32)> = Vec::new();
    let mut y: usize = 0;
    while y < n
        invariant
            y <= n,
            n == state.grid_size,
            n <= GRID_LIMIT,
            gn == n as int,
            grid_wf(state.grid@, gn),
            candidates@ == cand_upto(state.grid@, gn, target_kind, y as int * gn),
        decreases n - y,
    {
        let mut x: usize = 0;
        while x < n
            invariant
                x <= n,
                y < n,
                n == state.grid_size,
                n <= GRID_LIMIT,
                gn == n as int,
                grid_wf(state.grid@, gn),
                candidates@ == cand_upto(state.grid@, gn, target_kind, y as int * gn + x as int),
            decreases n - x,
        {
            let ghost c = y as int * gn + x as int;
            proof {
                vstd::arithmetic::div_mod::lemma_fundamental_div_mod_converse_mod(
                    c,
                    gn,
                    y as int,
                    x as int,
                );
                vstd::arithmetic::div_mod::lemma_fundamental_div_mod_converse_div(
                    c,
                    gn,
                    y as int,
                    x as int,
                );
                assert(c + 1 - 1 == c);
            }
            let tile = &state.grid[y][x];
            let hit = tile_matches(tile, target_kind);
            if hit {
                candidates.push((x as i32, y as i32));
            }
            x += 1;
            proof {
                assert(y as int * gn + x as int == c + 1);
            }
        }
        y += 1;
        proof {
            assert(y as int * gn == (y - 1) as int * gn + gn) by (nonlinear_arith);
        }
    }
    proof {
        assert(n as int * gn == gn * gn);
    }
    candidates
}

/// Picks a destination structure of the given kind: the hash of the
/// starting position chooses among all matching structures on the grid, in
/// row-major order; with no matching structure there is no destination.
pub fn find_destination(state: &GameState, start: (i32, i32), target_kind: TargetKind) -> (r:
    Option<(i32, i32)>)
    requires
        state.grid_size <= GRID_LIMIT,
        grid_wf(state.grid@, state.grid_size as int),
    ensures
        ({
            let cands = cand_upto(
                state.grid@,
                state.grid_size as int,
                target_kind,
                state.grid_size as int * state.grid_size as int,
            );
            match r {
                Some(pos) => cands.len() > 0 && pos == cands[spec_dest_hash(start) as int % (
                cands.len() as int)],
                None => cands.len() == 0,
            }
        }),
{
    let candidates = collect_candidates(state, target_kind);
    if candidates.len() == 0 {
        return None;
    }
    let h = dest_hash(start);
    let idx = (h % (candidates.len() as u64)) as usize;
    Some(candidates[idx])
}

/// The position-seeded hash, computed with wrapping arithmetic.
#[verifier::rlimit(100)]
fn dest_hash(start: (i32, i32)) -> (r: u64)
    ensures
        r == spec_dest_hash(start),
{
    let sx = #[verifier::truncate] (start.0 as u64);
    let sy = #[verifier::truncate] (start.1 as u64);
    let m1 = sx.wrapping_mul(7919);
    let m2 = sy.wrapping_mul(6271);
    let mut h: u64 = m1.wrapping_add(m2);
    h = h ^ (h << 13);
    h = h ^ (h >> 7);
    h
}

/// Hands a waypoint sequence to a visitor: the cursor starts past the
/// current tile if the route begins there, and the first remaining
/// waypoint becomes the walk target.
pub fn assign_path(guest: &mut Guest, path: Vec<(i32, i32)>)
    requires
        guest_wf(*old(guest)),
    ensures
        guest_wf(*final(guest)),
        final(guest).path@ == path@,
        *final(guest) == (Guest {
            path: final(guest).path,
            path_index: final(guest).path_index,
            target_x: final(guest).target_x,
            target_y: final(guest).target_y,
            ..*old(guest)
        }),
        path@.len() == 0 ==> final(guest).path_index == 0 && final(guest).target_x == old(guest).target_x && final(guest).target_y == old(guest).target_y,
        path@.len() > 0 ==> {
            let skip = path@[0] == (old(guest).tile_x, old(guest).tile_y);
            if skip {
                if path@.len() >= 2 {
                    &&& final(guest).path_index == 2
                    &&& (final(guest).target_x, final(guest).target_y) == path@[1]
                } else {
                    &&& final(guest).path_index == 1
                    &&& final(guest).target_x == old(guest).target_x
                    &&& final(guest).target_y == old(guest).target_y
                }
            } else {
                &&& final(guest).path_index == 1
                &&& (final(guest).target_x, final(guest).target_y) == path@[0]
            }
        },
{
    guest.path = path;
    guest.path_index = 0;
    if guest.path.len() > 0 {
        let first = guest.path[0];
        if first.0 == guest.tile_x && first.1 == guest.tile_y {
            guest.path_index = 1;
        }
        if guest.path_index < guest.path.len() {
            let next = guest.path[guest.path_index];
            guest.target_x = next.0;
            guest.target_y = next.1;
            guest.path_index = guest.path_index + 1;
        }
    }
}

} // verus!

verus! {

/// Subtraction floored at zero.
fn sub_floor(v: u32, d: u32) -> (r: u32)
    ensures
        r == if v >= d { v - d } else { 0 },
{
    if v >= d {
        v - d
    } else {
        0
    }
}

/// Addition capped at the top of the need range.
fn inc_need(v: u32, d: u32) -> (r: u32)
    requires
        v <= NEED_MAX,
        d <= NEED_MAX,
    ensures
        r == if v + d > NEED_MAX { NEED_MAX as int } else { v + d },
        r <= NEED_MAX,
{
    let s = v + d;
    if s > NEED_MAX {
        NEED_MAX
    } else {
        s
    }
}

/// The in-grid, walkable orthogonal neighbors of a tile: the candidate
/// targets of a wander step.
fn walkable_neighbors(state: &GameState, grid_size: usize, x: i32, y: i32) -> (r: Vec<(i32, i32)>)
    requires
        grid_size == state.grid_size,
        state.grid_size <= GRID_LIMIT,
        grid_wf(state.grid@, state.grid_size as int),
    ensures
        forall|j: int|
            0 <= j < r.len() ==> crate::pathfinding::walk_ok(
                state.grid@,
                state.grid_size as int,
                #[trigger] r@[j],
            ) && crate::coaster::manhattan_adjacent((x, y), r@[j]),
{
    let ghost gn = state.grid_size as int;
    let mut valid: Vec<(i32, i32)> = Vec::new();
    let mut k: usize = 0;
    #[verifier::loop_isolation(false)]
    while k < 4
        invariant
            k <= 4,
            forall|j: int|
                0 <= j < valid.len() ==> crate::pathfinding::walk_ok(
                    state.grid@,
                    gn,
                    #[trigger] valid@[j],
                ) && crate::coaster::manhattan_adjacent((x, y), valid@[j]),
        decreases 4 - k,
    {
        let (dx, dy): (i64, i64) = if k == 0 {
            (1, 0)
        } else if k == 1 {
            (-1, 0)
        } else if k == 2 {
            (0, 1)
        } else {
            (0, -1)
        };
        let nx = x as i64 + dx;
        let ny = y as i64 + dy;
        if nx >= 0 && ny >= 0 && nx < grid_size as i64 && ny < grid_size as i64 {
            let tile = &state.grid[ny as usize][nx as usize];
            if tile.is_walkable() {
                valid.push((nx as i32, ny as i32));
            }
        }
        k += 1;
    }
    valid
}

/// Applies the needs-drift step every visitor takes first each tick,
/// exactly as `spec_drift` describes.
fn apply_drift(guest: &mut Guest)
    requires
        guest_wf(*old(guest)),
    ensures
        *final(guest) == spec_drift(*old(guest)),
        guest_wf(*final(guest)),
{
    // Age the visitor and let the needs drift.
    guest.time_in_park = if guest.time_in_park <= u32::MAX - 1000 {
        guest.time_in_park + 1000
    } else {
        u32::MAX
    };
    guest.hunger = inc_need(guest.hunger, 10);
    guest.thirst = inc_need(guest.thirst, 15);
    guest.energy = sub_floor(guest.energy, 5);
    let mut penalty: u32 = 0;
    if guest.hunger > 70_000 {
        penalty = penalty + 100;
    }
    if guest.thirst > 70_000 {
        penalty = penalty + 150;
    }
    if guest.nausea > 50_000 {
        penalty = penalty + 100;
    }
    guest.happiness = sub_floor(guest.happiness, penalty);
    guest.nausea = sub_floor(guest.nausea, 20);
    guest.decision_cooldown = sub_floor(guest.decision_cooldown, 1000);

}

/// Steps a visitor whose activity timer drives it this tick (queueing,
/// riding, eating or shopping), and reports whether it did. `orig` is the
/// visitor before the needs drift; a live timer just runs down, an
/// expired one fires the activity's effect and transition.
fn step_activity(guest: &mut Guest, state: &mut GameState, orig: Ghost<Guest>) -> (handled: bool)
    requires
        guest_wf(orig@),
        *old(guest) == spec_drift(orig@),
    ensures
        handled == (orig@.state == GuestState::Queuing || orig@.state == GuestState::Riding
            || orig@.state == GuestState::Eating || orig@.state == GuestState::Shopping),
        !handled ==> *final(guest) == *old(guest) && *final(state) == *old(state),
        guest_wf(*final(guest)),
        *final(state) == (GameState { rng: final(state).rng, ..*old(state) }),
        final(guest).id == orig@.id,
        final(guest).bathroom == orig@.bathroom,
        final(guest).time_in_park == spec_drift(orig@).time_in_park,
        final(guest).energy == spec_drift(orig@).energy,
        final(guest).cash == orig@.cash,
        final(guest).total_spent == orig@.total_spent,
        handled ==> final(guest).last_state == orig@.state,
        // The activity states, exactly: a live timer just runs down; an
        // expired one fires the activity's effect and transition.
        orig@.state == GuestState::Queuing && orig@.queue_timer > 1000
            ==> *final(guest) == (Guest {
            queue_timer: (orig@.queue_timer - 1000) as u32,
            last_state: orig@.state,
            ..spec_drift(orig@)
        }),
        orig@.state == GuestState::Queuing && orig@.queue_timer <= 1000
            ==> *final(guest) == (Guest {
            state: GuestState::Riding,
            queue_timer: final(guest).queue_timer,
            happiness: final(guest).happiness,
            last_state: orig@.state,
            ..spec_drift(orig@)
        }) && 10_000 <= final(guest).queue_timer < 30_000 && final(guest).happiness
            == spec_cap_add(spec_drift(orig@).happiness as int, 8_000),
        orig@.state == GuestState::Riding && orig@.queue_timer > 1000
            ==> *final(guest) == (Guest {
            queue_timer: (orig@.queue_timer - 1000) as u32,
            last_state: orig@.state,
            ..spec_drift(orig@)
        }),
        orig@.state == GuestState::Riding && orig@.queue_timer <= 1000
            ==> *final(guest) == (Guest {
            state: GuestState::Walking,
            queue_timer: 0u32,
            queue_ride_id: None,
            target_building_id: None,
            target_building_kind: None,
            nausea: final(guest).nausea,
            last_state: orig@.state,
            ..spec_drift(orig@)
        }) && (exists|e: int|
            5_000 <= e < 10_000 && final(guest).nausea == spec_cap_add(
                spec_drift(orig@).nausea as int,
                e,
            )),
        (orig@.state == GuestState::Eating || orig@.state == GuestState::Shopping)
            && orig@.queue_timer > 1000 ==> *final(guest) == (Guest {
            queue_timer: (orig@.queue_timer - 1000) as u32,
            last_state: orig@.state,
            ..spec_drift(orig@)
        }),
        orig@.state == GuestState::Eating && orig@.queue_timer <= 1000
            ==> *final(guest) == (Guest {
            state: GuestState::Walking,
            queue_timer: 0u32,
            target_building_id: None,
            target_building_kind: None,
            hunger: spec_floor_sub(spec_drift(orig@).hunger as int, 60_000) as u32,
            thirst: spec_floor_sub(spec_drift(orig@).thirst as int, 40_000) as u32,
            happiness: spec_cap_add(spec_drift(orig@).happiness as int, 6_000) as u32,
            last_state: orig@.state,
            ..spec_drift(orig@)
        }),
        orig@.state == GuestState::Shopping && orig@.queue_timer <= 1000
            ==> *final(guest) == (Guest {
            state: GuestState::Walking,
            queue_timer: 0u32,
            target_building_id: None,
            target_building_kind: None,
            happiness: spec_cap_add(spec_drift(orig@).happiness as int, 4_000) as u32,
            last_state: orig@.state,
            ..spec_drift(orig@)
        }),
{
    let previous_state = guest.state;
    // Activities bound to a timer: queueing, riding, eating, shopping.
    match guest.state {
        GuestState::Queuing | GuestState::Riding => {
            guest.queue_timer = sub_floor(guest.queue_timer, 1000);
            if guest.queue_timer == 0 {
                if matches!(guest.state, GuestState::Queuing) {
                    guest.state = GuestState::Riding;
                    guest.queue_timer = 10_000 + state.random_below(20_000) as u32;
                    guest.happiness = inc_need(guest.happiness, 8_000);
                } else {
                    guest.state = GuestState::Walking;
                    guest.queue_ride_id = None;
                    guest.target_building_id = None;
                    guest.target_building_kind = None;
                    let extra = state.random_below(5_000) as u32;
                    proof {
                        assert(guest.nausea == spec_drift(orig@).nausea);
                    }
                    guest.nausea = inc_need(guest.nausea, 5_000 + extra);
                    proof {
                        assert(guest.nausea == spec_cap_add(
                            spec_drift(orig@).nausea as int,
                            5_000 + extra,
                        ));
                        assert(5_000 <= 5_000 + extra < 10_000);
                    }
                }
            }
            guest.last_state = previous_state;
            return true;
        },
        GuestState::Eating | GuestState::Shopping => {
            guest.queue_timer = sub_floor(guest.queue_timer, 1000);
            if guest.queue_timer == 0 {
                if matches!(guest.state, GuestState::Eating) {
                    guest.hunger = sub_floor(guest.hunger, 60_000);
                    guest.thirst = sub_floor(guest.thirst, 40_000);
                    guest.happiness = inc_need(guest.happiness, 6_000);
                } else {
                    guest.happiness = inc_need(guest.happiness, 4_000);
                }
                guest.state = GuestState::Walking;
                guest.target_building_id = None;
                guest.target_building_kind = None;
            }
            guest.last_state = previous_state;
            return true;
        },
        _ => {},
    }
    false
}

/// Steps a walking, entering or withdrawn visitor after the needs drift:
/// an idle walker rolls a destination, and movement follows the walk
/// target and waypoint sequence, paying the destination's fee on arrival.
/// `orig` is the visitor before the needs drift.
#[verifier::rlimit(100)]
fn step_walk(guest: &mut Guest, state: &mut GameState, grid_size: usize, orig: Ghost<Guest>)
    requires
        guest_wf(orig@),
        *old(guest) == spec_drift(orig@),
        orig@.state != GuestState::Queuing,
        orig@.state != GuestState::Riding,
        orig@.state != GuestState::Eating,
        orig@.state != GuestState::Shopping,
        grid_size == old(state).grid_size,
        old(state).grid_size <= GRID_LIMIT,
        grid_wf(old(state).grid@, old(state).grid_size as int),
        old(state).cash >= 0,
    ensures
        guest_wf(*final(guest)),
        final(guest).id == orig@.id,
        final(guest).bathroom == orig@.bathroom,
        final(guest).time_in_park == spec_drift(orig@).time_in_park,
        final(guest).energy == spec_drift(orig@).energy,
        final(guest).last_state == orig@.state,
        final(guest).cash >= 0,
        final(guest).total_spent >= orig@.total_spent,
        orig@.cash - final(guest).cash == final(guest).total_spent - orig@.total_spent,
        final(guest).total_spent == orig@.total_spent || (final(guest).target_building_kind matches Some(k) && final(guest).total_spent - orig@.total_spent == spec_fee(k) && orig@.cash >= spec_fee(k)),
        final(state).cash == sat_add_i64(
            old(state).cash as int,
            final(guest).total_spent - orig@.total_spent,
        ),
        *final(state) == (GameState {
            cash: final(state).cash,
            rng: final(state).rng,
            ..*old(state)
        }),
        // Visitors in no driven state only drift.
        orig@.state == GuestState::Leaving || orig@.state == GuestState::ExitingBuilding
            ==> *final(guest) == (Guest {
            last_state: orig@.state,
            ..spec_drift(orig@)
        }),
        // Walking and entering visitors: the needs take exactly the drift.
        (orig@.state == GuestState::Walking || orig@.state == GuestState::Entering)
            ==> final(guest).hunger == spec_drift(orig@).hunger && final(guest).thirst
            == spec_drift(orig@).thirst && final(guest).nausea == spec_drift(
            orig@,
        ).nausea && final(guest).happiness == spec_drift(orig@).happiness,
        // Movement: the walk interpolation advances by 20 thousandths per
        // tick; a full tile snaps the visitor onto its walk target.
        (orig@.state == GuestState::Walking || orig@.state == GuestState::Entering)
            && orig@.progress < 980 ==> final(guest).progress == orig@.progress + 20
            && final(guest).tile_x == orig@.tile_x && final(guest).tile_y == orig@.tile_y && final(guest).total_spent == orig@.total_spent,
        (orig@.state == GuestState::Walking || orig@.state == GuestState::Entering)
            && !spec_idle(orig@) && orig@.progress >= 980 ==> final(guest).tile_x
            == orig@.target_x && final(guest).tile_y == orig@.target_y && final(guest).progress == 0,
        // Waypoint advance: the next waypoint becomes the walk target and
        // sets the facing.
        (orig@.state == GuestState::Walking || orig@.state == GuestState::Entering)
            && !spec_idle(orig@) && orig@.progress >= 980 && orig@.path.len() > 0
            && orig@.path_index < orig@.path.len() ==> (final(guest).target_x,
            final(guest).target_y) == orig@.path@[orig@.path_index as int] && final(guest).path_index == orig@.path_index + 1 && final(guest).path@ == orig@.path@
            && final(guest).state == orig@.state && final(guest).total_spent == orig@.total_spent && final(guest).direction == spec_facing(
            orig@.path@[orig@.path_index as int].0 - orig@.target_x,
            orig@.path@[orig@.path_index as int].1 - orig@.target_y,
        ),
        // Arrival with a destination: pay the kind's fee and start its
        // activity, or abandon the visit when the cash falls short.
        (orig@.state == GuestState::Walking || orig@.state == GuestState::Entering)
            && !spec_idle(orig@) && orig@.progress >= 980 && !(orig@.path.len()
            > 0 && orig@.path_index < orig@.path.len()) ==> (orig@.target_building_kind matches Some(k) ==> (if orig@.cash >= spec_fee(k) {
            &&& final(guest).total_spent == orig@.total_spent + spec_fee(k)
            &&& final(guest).state == spec_activity(k)
            &&& final(guest).path@.len() == 0
            &&& final(guest).path_index == 0
            &&& (k == TargetKind::Ride ==> 30_000 <= final(guest).queue_timer < 90_000)
            &&& (k == TargetKind::Food ==> 8_000 <= final(guest).queue_timer < 20_000)
            &&& (k == TargetKind::Shop ==> 6_000 <= final(guest).queue_timer < 16_000)
        } else {
            &&& final(guest).total_spent == orig@.total_spent
            &&& final(guest).state == GuestState::Walking
            &&& final(guest).target_building_id is None
            &&& final(guest).target_building_kind is None
            &&& final(guest).decision_cooldown == 30_000
            &&& final(guest).path@.len() == 0
        })),
        // A finished wander step: pick a walkable neighbor as the next
        // single-step target, or stand still.
        (orig@.state == GuestState::Walking || orig@.state == GuestState::Entering)
            && !spec_idle(orig@) && orig@.progress >= 980 && !(orig@.path.len()
            > 0 && orig@.path_index < orig@.path.len()) && orig@.target_building_kind is None ==> final(guest).state == GuestState::Walking && final(guest).decision_cooldown == 0 && final(guest).total_spent == orig@.total_spent && ((
        final(guest).target_x, final(guest).target_y) == (final(guest).tile_x, final(guest).tile_y) || (crate::pathfinding::walk_ok(
            old(state).grid@,
            old(state).grid_size as int,
            (final(guest).target_x, final(guest).target_y),
        ) && crate::coaster::manhattan_adjacent(
            (final(guest).tile_x, final(guest).tile_y),
            (final(guest).target_x, final(guest).target_y),
        ))),
        // An idle walker rolls a destination and resets its cooldown; a
        // wander step completed in the same tick clears it again, and an
        // unaffordable arrival shortens it.
        spec_idle(orig@) ==> final(guest).decision_cooldown == 0 || final(guest).decision_cooldown == 30_000 || 60_000 <= final(guest).decision_cooldown < 150_000,
        spec_idle(orig@) && orig@.progress < 980 ==> 60_000 <= final(guest).decision_cooldown < 150_000,
{
    let previous_state = guest.state;
    // An idle walker rolls a new destination.
    if matches!(guest.state, GuestState::Walking | GuestState::Entering) && guest.path.len() == 0
        && guest.target_building_id.is_none() && guest.decision_cooldown == 0 {
        let roll = state.random_below(1000);
        let is_hungry = guest.hunger > 50_000 || guest.thirst > 50_000;
        let target_kind = if is_hungry {
            if roll < 700 {
                TargetKind::Food
            } else {
                TargetKind::Shop
            }
        } else {
            if roll < 400 {
                TargetKind::Shop
            } else if roll < 800 {
                TargetKind::Ride
            } else {
                TargetKind::Food
            }
        };
        let dest = find_destination(state, (guest.tile_x, guest.tile_y), target_kind);
        if let Some(pos) = dest {
            let path = find_path_to_building(
                &state.grid,
                (guest.tile_x, guest.tile_y),
                pos,
                200,
            );
            if path.len() > 0 {
                guest.target_building_id = Some(pos);
                guest.target_building_kind = Some(target_kind);
                guest.state = GuestState::Walking;
                assign_path(guest, path);
            }
        }
        guest.decision_cooldown = 60_000 + state.random_below(90_000) as u32;
    }

    // Movement along the current walk target and waypoint sequence.
    if matches!(guest.state, GuestState::Walking | GuestState::Entering) {
        guest.progress = guest.progress + 20;
        if guest.progress >= 1000 {
            guest.tile_x = guest.target_x;
            guest.tile_y = guest.target_y;
            guest.progress = 0;
            if guest.path.len() > 0 && guest.path_index < guest.path.len() {
                let next = guest.path[guest.path_index];
                let dx = next.0 as i64 - guest.tile_x as i64;
                let dy = next.1 as i64 - guest.tile_y as i64;
                guest.target_x = next.0;
                guest.target_y = next.1;
                guest.path_index = guest.path_index + 1;
                guest.direction = if dx > 0 {
                    Direction::South
                } else if dx < 0 {
                    Direction::North
                } else if dy > 0 {
                    Direction::West
                } else {
                    Direction::East
                };
            } else {
                if let Some(kind) = guest.target_building_kind {
                    // The destination is reached: pay the fee, or abandon
                    // the visit when the cash falls short.
                    let fee: i32 = match kind {
                        TargetKind::Ride => RIDE_FEE,
                        TargetKind::Food => FOOD_FEE,
                        TargetKind::Shop => SHOP_FEE,
                    };
                    if guest.cash >= fee {
                        guest.cash = guest.cash - fee;
                        guest.total_spent = guest.total_spent + fee;
                        state.cash = crate::state::credit(state.cash, fee as i64);
                        match kind {
                            TargetKind::Ride => {
                                guest.state = GuestState::Queuing;
                                guest.queue_timer = 30_000 + state.random_below(60_000) as u32;
                            },
                            TargetKind::Food => {
                                guest.state = GuestState::Eating;
                                guest.queue_timer = 8_000 + state.random_below(12_000) as u32;
                            },
                            TargetKind::Shop => {
                                guest.state = GuestState::Shopping;
                                guest.queue_timer = 6_000 + state.random_below(10_000) as u32;
                            },
                        }
                        guest.path = Vec::new();
                        guest.path_index = 0;
                    } else {
                        guest.target_building_id = None;
                        guest.target_building_kind = None;
                        guest.state = GuestState::Walking;
                        guest.decision_cooldown = 30_000;
                        guest.path = Vec::new();
                        guest.path_index = 0;
                    }
                } else {
                    // A wander step is complete: pick a random walkable
                    // neighbor as the next single-step target.
                    guest.state = GuestState::Walking;
                    guest.decision_cooldown = 0;
                    guest.path = Vec::new();
                    guest.path_index = 0;
                    let valid = walkable_neighbors(state, grid_size, guest.tile_x, guest.tile_y);
                    if valid.len() > 0 {
                        let idx = state.random_below(valid.len() as u64) as usize;
                        let next = valid[idx];
                        guest.target_x = next.0;
                        guest.target_y = next.1;
                    }
                }
            }
        }
    }
    guest.last_state = previous_state;
}


/// Advances one visitor by one tick: ages the needs, steps the behaviour
/// state machine, chooses and routes to destinations, moves along the
/// waypoints, and pays fees into the park's treasury.
///
/// The world is read but not reshaped: only the treasury and the random
/// generator move, the treasury by exactly what the visitor spent.
#[verifier::rlimit(100)]
pub fn update_guest(guest: &mut Guest, state: &mut GameState, grid_size: usize)
    requires
        guest_wf(*old(guest)),
        grid_size == old(state).grid_size,
        old(state).grid_size <= GRID_LIMIT,
        grid_wf(old(state).grid@, old(state).grid_size as int),
        old(state).cash >= 0,
    ensures
        guest_wf(*final(guest)),
        final(guest).id == old(guest).id,
        final(guest).bathroom == old(guest).bathroom,
        final(guest).time_in_park == spec_drift(*old(guest)).time_in_park,
        final(guest).energy == spec_drift(*old(guest)).energy,
        final(guest).last_state == old(guest).state,
        final(guest).cash >= 0,
        final(guest).total_spent >= old(guest).total_spent,
        old(guest).cash - final(guest).cash == final(guest).total_spent - old(guest).total_spent,
        // The per-tick spend is zero, or exactly one kind-specific fee the
        // visitor could afford.
        final(guest).total_spent == old(guest).total_spent || (final(guest).target_building_kind matches Some(k) && final(guest).total_spent - old(guest).total_spent == spec_fee(k) && old(guest).cash >= spec_fee(k)),
        final(state).cash == sat_add_i64(
            old(state).cash as int,
            final(guest).total_spent - old(guest).total_spent,
        ),
        *final(state) == (GameState {
            cash: final(state).cash,
            rng: final(state).rng,
            ..*old(state)
        }),
        // The activity states, exactly: a live timer just runs down; an
        // expired one fires the activity's effect and transition.
        old(guest).state == GuestState::Queuing && old(guest).queue_timer > 1000
            ==> *final(guest) == (Guest {
            queue_timer: (old(guest).queue_timer - 1000) as u32,
            last_state: old(guest).state,
            ..spec_drift(*old(guest))
        }),
        old(guest).state == GuestState::Queuing && old(guest).queue_timer <= 1000
            ==> *final(guest) == (Guest {
            state: GuestState::Riding,
            queue_timer: final(guest).queue_timer,
            happiness: final(guest).happiness,
            last_state: old(guest).state,
            ..spec_drift(*old(guest))
        }) && 10_000 <= final(guest).queue_timer < 30_000 && final(guest).happiness
            == spec_cap_add(spec_drift(*old(guest)).happiness as int, 8_000),
        old(guest).state == GuestState::Riding && old(guest).queue_timer > 1000
            ==> *final(guest) == (Guest {
            queue_timer: (old(guest).queue_timer - 1000) as u32,
            last_state: old(guest).state,
            ..spec_drift(*old(guest))
        }),
        old(guest).state == GuestState::Riding && old(guest).queue_timer <= 1000
            ==> *final(guest) == (Guest {
            state: GuestState::Walking,
            queue_timer: 0u32,
            queue_ride_id: None,
            target_building_id: None,
            target_building_kind: None,
            nausea: final(guest).nausea,
            last_state: old(guest).state,
            ..spec_drift(*old(guest))
        }) && (exists|e: int|
            5_000 <= e < 10_000 && final(guest).nausea == spec_cap_add(
                spec_drift(*old(guest)).nausea as int,
                e,
            )),
        (old(guest).state == GuestState::Eating || old(guest).state == GuestState::Shopping)
            && old(guest).queue_timer > 1000 ==> *final(guest) == (Guest {
            queue_timer: (old(guest).queue_timer - 1000) as u32,
            last_state: old(guest).state,
            ..spec_drift(*old(guest))
        }),
        old(guest).state == GuestState::Eating && old(guest).queue_timer <= 1000
            ==> *final(guest) == (Guest {
            state: GuestState::Walking,
            queue_timer: 0u32,
            target_building_id: None,
            target_building_kind: None,
            hunger: spec_floor_sub(spec_drift(*old(guest)).hunger as int, 60_000) as u32,
            thirst: spec_floor_sub(spec_drift(*old(guest)).thirst as int, 40_000) as u32,
            happiness: spec_cap_add(spec_drift(*old(guest)).happiness as int, 6_000) as u32,
            last_state: old(guest).state,
            ..spec_drift(*old(guest))
        }),
        old(guest).state == GuestState::Shopping && old(guest).queue_timer <= 1000
            ==> *final(guest) == (Guest {
            state: GuestState::Walking,
            queue_timer: 0u32,
            target_building_id: None,
            target_building_kind: None,
            happiness: spec_cap_add(spec_drift(*old(guest)).happiness as int, 4_000) as u32,
            last_state: old(guest).state,
            ..spec_drift(*old(guest))
        }),
        // Visitors in no driven state only drift.
        old(guest).state == GuestState::Leaving || old(guest).state == GuestState::ExitingBuilding
            ==> *final(guest) == (Guest {
            last_state: old(guest).state,
            ..spec_drift(*old(guest))
        }),
        // Walking and entering visitors: the needs take exactly the drift.
        (old(guest).state == GuestState::Walking || old(guest).state == GuestState::Entering)
            ==> final(guest).hunger == spec_drift(*old(guest)).hunger && final(guest).thirst
            == spec_drift(*old(guest)).thirst && final(guest).nausea == spec_drift(
            *old(guest),
        ).nausea && final(guest).happiness == spec_drift(*old(guest)).happiness,
        // Movement: the walk interpolation advances by 20 thousandths per
        // tick; a full tile snaps the visitor onto its walk target.
        (old(guest).state == GuestState::Walking || old(guest).state == GuestState::Entering)
            && old(guest).progress < 980 ==> final(guest).progress == old(guest).progress + 20
            && final(guest).tile_x == old(guest).tile_x && final(guest).tile_y == old(guest).tile_y && final(guest).total_spent == old(guest).total_spent,
        (old(guest).state == GuestState::Walking || old(guest).state == GuestState::Entering)
            && !spec_idle(*old(guest)) && old(guest).progress >= 980 ==> final(guest).tile_x
            == old(guest).target_x && final(guest).tile_y == old(guest).target_y && final(guest).progress == 0,
        // Waypoint advance: the next waypoint becomes the walk target and
        // sets the facing.
        (old(guest).state == GuestState::Walking || old(guest).state == GuestState::Entering)
            && !spec_idle(*old(guest)) && old(guest).progress >= 980 && old(guest).path.len() > 0
            && old(guest).path_index < old(guest).path.len() ==> (final(guest).target_x,
            final(guest).target_y) == old(guest).path@[old(guest).path_index as int] && final(guest).path_index == old(guest).path_index + 1 && final(guest).path@ == old(guest).path@
            && final(guest).state == old(guest).state && final(guest).total_spent == old(guest).total_spent && final(guest).direction == spec_facing(
            old(guest).path@[old(guest).path_index as int].0 - old(guest).target_x,
            old(guest).path@[old(guest).path_index as int].1 - old(guest).target_y,
        ),
        // Arrival with a destination: pay the kind's fee and start its
        // activity, or abandon the visit when the cash falls short.
        (old(guest).state == GuestState::Walking || old(guest).state == GuestState::Entering)
            && !spec_idle(*old(guest)) && old(guest).progress >= 980 && !(old(guest).path.len()
            > 0 && old(guest).path_index < old(guest).path.len()) ==> (old(guest).target_building_kind matches Some(k) ==> (if old(guest).cash >= spec_fee(k) {
            &&& final(guest).total_spent == old(guest).total_spent + spec_fee(k)
            &&& final(guest).state == spec_activity(k)
            &&& final(guest).path@.len() == 0
            &&& final(guest).path_index == 0
            &&& (k == TargetKind::Ride ==> 30_000 <= final(guest).queue_timer < 90_000)
            &&& (k == TargetKind::Food ==> 8_000 <= final(guest).queue_timer < 20_000)
            &&& (k == TargetKind::Shop ==> 6_000 <= final(guest).queue_timer < 16_000)
        } else {
            &&& final(guest).total_spent == old(guest).total_spent
            &&& final(guest).state == GuestState::Walking
            &&& final(guest).target_building_id is None
            &&& final(guest).target_building_kind is None
            &&& final(guest).decision_cooldown == 30_000
            &&& final(guest).path@.len() == 0
        })),
        // A finished wander step: pick a walkable neighbor as the next
        // single-step target, or stand still.
        (old(guest).state == GuestState::Walking || old(guest).state == GuestState::Entering)
            && !spec_idle(*old(guest)) && old(guest).progress >= 980 && !(old(guest).path.len()
            > 0 && old(guest).path_index < old(guest).path.len()) && old(guest).target_building_kind is None ==> final(guest).state == GuestState::Walking && final(guest).decision_cooldown == 0 && final(guest).total_spent == old(guest).total_spent && ((
        final(guest).target_x, final(guest).target_y) == (final(guest).tile_x, final(guest).tile_y) || (crate::pathfinding::walk_ok(
            old(state).grid@,
            old(state).grid_size as int,
            (final(guest).target_x, final(guest).target_y),
        ) && crate::coaster::manhattan_adjacent(
            (final(guest).tile_x, final(guest).tile_y),
            (final(guest).target_x, final(guest).target_y),
        ))),
        // An idle walker rolls a destination and resets its cooldown; a
        // wander step completed in the same tick clears it again, and an
        // unaffordable arrival shortens it.
        spec_idle(*old(guest)) ==> final(guest).decision_cooldown == 0 || final(guest).decision_cooldown == 30_000 || 60_000 <= final(guest).decision_cooldown < 150_000,
        spec_idle(*old(guest)) && old(guest).progress < 980 ==> 60_000 <= final(guest).decision_cooldown < 150_000,
{
    let ghost orig = *old(guest);
    apply_drift(guest);
    let handled = step_activity(guest, state, Ghost(orig));
    if handled {
        return;
    }
    step_walk(guest, state, grid_size, Ghost(orig));
}

} // verus!

verus! {

/// Advances every visitor by one tick, in the order of the visitor list
/// at entry, and recomputes the park rating. Visitors are moved to the
/// back of the list as they are processed; the active count is unchanged,
/// every visitor stays well-formed, and the treasury only grows.
pub fn update_guests(state: &mut GameState)
    requires
        state_wf(*old(state)),
    ensures
        state_wf(*final(state)),
        final(state).guests.len() == old(state).guests.len(),
        final(state).cash >= old(state).cash,
        old(state).guests.len() > 0 ==> final(state).park_rating == crate::state::spec_rating(
            final(state).guests@,
        ) as i32,
        // Every visitor present at entry survives the tick: the multiset
        // of identifiers is preserved.
        final(state).guests@.map_values(|g: Guest| g.id).to_multiset() == old(state).guests@.map_values(|g: Guest| g.id).to_multiset(),
        *final(state) == (GameState {
            guests: final(state).guests,
            cash: final(state).cash,
            rng: final(state).rng,
            park_rating: final(state).park_rating,
            ..*old(state)
        }),
{
    let grid_size = state.grid_size;
    let n = state.guests.len();
    let mut ids: Vec<u32> = Vec::new();
    let mut i: usize = 0;
    #[verifier::loop_isolation(false)]
    while i < n
        invariant
            i <= n,
            n == state.guests.len(),
            ids.len() == i,
        decreases n - i,
    {
        ids.push(state.guests[i].id);
        i += 1;
    }
    let mut k: usize = 0;
    #[verifier::loop_isolation(false)]
    while k < ids.len()
        invariant
            state.guests.len() == n,
            n <= GUEST_LIMIT,
            state.cash >= old(state).cash,
            state.cash >= 0,
            grid_size == state.grid_size,
            forall|j: int| 0 <= j < n ==> guest_wf(#[trigger] state.guests@[j]),
            state.guests@.map_values(|g: Guest| g.id).to_multiset() == old(state).guests@.map_values(|g: Guest| g.id).to_multiset(),
            *state == (GameState {
                guests: state.guests,
                cash: state.cash,
                rng: state.rng,
                ..*old(state)
            }),
        decreases ids.len() - k,
    {
        let id = ids[k];
        let mut idx: usize = 0;
        let mut found = false;
        #[verifier::loop_isolation(false)]
        while idx < n
            invariant
                idx <= n,
                n == state.guests.len(),
                !found,
            decreases n - idx,
        {
            if state.guests[idx].id == id {
                found = true;
                break;
            }
            idx += 1;
        }
        if found {
            let ghost pre = state.guests@;
            let mut guest = state.guests.remove(idx);
            let ghost removed_id = guest.id;
            update_guest(&mut guest, state, grid_size);
            state.guests.push(guest);
            proof {
                let f = |g: Guest| g.id;
                broadcast use vstd::multiset::group_multiset_axioms;

                assert(state.guests@ == pre.remove(idx as int).push(guest));
                assert(pre.remove(idx as int).map_values(f) =~= pre.map_values(f).remove(
                    idx as int,
                ));
                assert(state.guests@.map_values(f) =~= pre.remove(idx as int).map_values(
                    f,
                ).push(removed_id));
                pre.map_values(f).to_multiset_ensures();
                pre.map_values(f).remove(idx as int).to_multiset_ensures();
                assert(pre.map_values(f)[idx as int] == removed_id);
                assert(state.guests@.map_values(f).to_multiset() =~= pre.map_values(
                    f,
                ).to_multiset());
            }
        }
        k += 1;
    }
    state.update_park_rating();
}

/// One spawn attempt at the park entrances, per tick.
///
/// No visitor appears outside opening hours (09:00 to 21:00), nor once
/// the active count has reached its cap, nor when the spawn roll fails or
/// no entrance exists; in those cases the world is unchanged, except for
/// the random draws the roll itself consumed. An admitted visitor appears
/// at a random entrance tile and pays the entry fee into the treasury; a
/// candidate who cannot pay is discarded.
pub fn spawn_guests(state: &mut GameState)
    requires
        state_wf(*old(state)),
    ensures
        state_wf(*final(state)),
        old(state).guests.len() <= final(state).guests.len() <= old(state).guests.len() + 1,
        (old(state).hour < 9 || old(state).hour > 21 || old(state).guests.len() >= MAX_GUESTS)
            ==> *final(state) == *old(state),
        forall|j: int|
            0 <= j < old(state).guests.len() ==> #[trigger] final(state).guests@[j] == old(state).guests@[j],
        final(state).guests.len() == old(state).guests.len() + 1 ==> guest_wf(
            final(state).guests@.last(),
        ) && final(state).guests@.last().cash >= 0,
        final(state).cash >= old(state).cash,
        *final(state) == (GameState {
            guests: final(state).guests,
            cash: final(state).cash,
            rng: final(state).rng,
            next_guest_id: final(state).next_guest_id,
            ..*old(state)
        }),
        // The policy is deterministic over the crate's own generator: when
        // the park is open and below its cap, a roll below the chance
        // (base 2000, plus three per rating point, plus 2000 at midday,
        // per hundred thousand) admits a visitor at a drawn entrance iff
        // one exists; a failed roll, or no entrance, changes nothing but
        // the generator.
        ({
            let rolled = spec_xorshift(old(state).rng.state) % 100_000;
            let chance = 2000 + 3 * old(state).park_rating + (if 11 <= old(state).hour <= 15 {
                2000int
            } else {
                0int
            });
            &&& (9 <= old(state).hour <= 21 && old(state).guests.len() < MAX_GUESTS && rolled
                >= chance ==> *final(state) == (GameState {
                rng: final(state).rng,
                ..*old(state)
            }))
            &&& (9 <= old(state).hour <= 21 && old(state).guests.len() < MAX_GUESTS && rolled
                < chance && !(exists|x: int, y: int| is_entrance(*old(state), x, y)) ==> *final(state) == (GameState { rng: final(state).rng, ..*old(state) }))
            &&& (9 <= old(state).hour <= 21 && old(state).guests.len() < MAX_GUESTS && rolled
                < chance && (exists|x: int, y: int| is_entrance(*old(state), x, y)) ==> final(state).guests.len() == old(state).guests.len() + 1 && final(state).guests@.last().id
                == old(state).next_guest_id && is_entrance(
                *old(state),
                final(state).guests@.last().tile_x as int,
                final(state).guests@.last().tile_y as int,
            ) && final(state).guests@.last().cash >= 10 && final(state).cash == sat_add_i64(
                old(state).cash as int,
                20,
            ))
        }),
{
    if state.hour < 9 || state.hour > 21 {
        return;
    }
    if state.guests.len() >= MAX_GUESTS {
        return;
    }
    let base_rate: u64 = 2000;
    let rating_bonus: u64 = (state.park_rating as u64) * 3;
    let peak_bonus: u64 = if state.hour >= 11 && state.hour <= 15 {
        2000
    } else {
        0
    };
    let spawn_chance = base_rate + rating_bonus + peak_bonus;
    let roll = state.random_below(100_000);
    if roll < spawn_chance {
        let entrances = state.find_entrance_tiles();
        proof {
            // The entrance list is empty exactly when no entrance exists.
            if entrances@.len() > 0 {
                assert(is_entrance(
                    *old(state),
                    entrances@[0].0 as int,
                    entrances@[0].1 as int,
                ));
            } else if exists|x: int, y: int| is_entrance(*old(state), x, y) {
                let (x, y) = choose|x: int, y: int| is_entrance(*old(state), x, y);
                assert(0 <= x < old(state).grid_size && 0 <= y < old(state).grid_size);
                let xi = x as i32;
                let yi = y as i32;
                assert(is_entrance(*old(state), xi as int, yi as int));
                assert(is_entrance(*state, xi as int, yi as int));
                assert(entrances@.contains((xi, yi)));
            }
        }
        if entrances.len() > 0 {
            let eidx = state.random_below(entrances.len() as u64) as usize;
            let entrance = entrances[eidx];
            let id = state.next_guest_id();
            let grid_size = state.grid_size;
            let guest = Guest::new(id, entrance.0, entrance.1, grid_size, &mut state.rng);
            state.admit_guest(guest);
        }
    }
}

} // verus!
