//! Per-tick simulation of coaster trains: the dispatch cycle, the velocity
//! profiles, and the derived positions of trailing cars.

use vstd::prelude::*;
use crate::coaster::CAR_SPACING;
use crate::coaster::Coaster;
use crate::coaster::MAX_TRACK_PIECES;
use crate::coaster::POS_SCALE;
use crate::coaster::TrackPiece;
use crate::coaster::TrackPieceType;
use crate::coaster::Train;
use crate::coaster::TrainCar;
use crate::coaster::TrainState;
use crate::coaster::cars_spaced;
use crate::coaster::coaster_wf;
use crate::coaster::next_train_state;
use crate::coaster::spec_track_len;
use crate::coaster::train_bounded;
use crate::coaster::train_wf;
use crate::modmath::lemma_pos_mod_sub;
use crate::modmath::lemma_pos_mod_unique;
use crate::modmath::pos_mod;
use crate::modmath::wrap_add;
use crate::modmath::wrap_sub;
use crate::state::GameState;

verus! {

/// A legal one-tick change of dispatch state: stay, or step forward in the
/// cycle.
pub open spec fn train_step_ok(a: TrainState, b: TrainState) -> bool {
    b == a || b == next_train_state(a)
}

/// The speed multiplier of a speed setting, in half-steps: the multipliers
/// 1, 1.5, 2 and 2.5 are two to five halves. Every vehicle velocity this
/// tick is scaled by this one common factor; nothing else is.
pub open spec fn spec_speed_halves(speed: u8) -> int {
    (speed as int) % 4 + 2
}

/// The station tile's index among the track records, scanning from `k`;
/// the first record when the station is not on the track.
pub open spec fn find_station_from(tiles: Seq<(i32, i32)>, st: (i32, i32), k: int) -> int
    decreases tiles.len() - k,
{
    if k < 0 || k >= tiles.len() {
        0
    } else if tiles[k] == st {
        k
    } else {
        find_station_from(tiles, st, k + 1)
    }
}

/// The station tile's index among a track's records.
pub open spec fn spec_station_idx(c: Coaster) -> int {
    find_station_from(c.track_tiles@, c.station_tile, 0)
}

/// The station index names a record, for any non-empty track.
proof fn lemma_station_idx_range(tiles: Seq<(i32, i32)>, st: (i32, i32), k: int)
    requires
        0 <= k <= tiles.len(),
        tiles.len() >= 1,
    ensures
        0 <= find_station_from(tiles, st, k) < tiles.len(),
    decreases tiles.len() - k,
{
    if k < tiles.len() && tiles[k] != st {
        lemma_station_idx_range(tiles, st, k + 1);
    }
}

/// The dispatch ramp: the velocity climbs from 20 toward 60 thousandths
/// per tick as the (clamped) dispatch timer runs out, scaled by the speed
/// multiplier.
pub open spec fn spec_dispatch_base(timer: int, halves: int) -> int {
    let t = if timer > 2000 {
        2000
    } else {
        timer
    };
    (20 + (2000 - t) / 50) * halves / 2
}

/// The velocity of a car at `pos`: the base, halved while the car is on a
/// vertical loop piece.
pub open spec fn spec_piece_velocity(pieces: Seq<TrackPiece>, pos: int, base: int) -> int {
    let idx = (pos / (POS_SCALE as int)) % (pieces.len() as int);
    if pieces[idx].piece_type == TrackPieceType::LoopVertical {
        base / 2
    } else {
        base
    }
}

/// Cars after a piecewise move: every car's velocity is the piece-dependent
/// one at its old position, the lead car advanced by its velocity wrapping
/// at the track length, and the trailing cars re-derived behind the lead.
pub open spec fn cars_moved_piecewise(
    pieces: Seq<TrackPiece>,
    a: Seq<TrainCar>,
    b: Seq<TrainCar>,
    base: int,
    m: int,
) -> bool {
    &&& b.len() == a.len()
    &&& (b.len() >= 1 ==> b[0].track_progress == pos_mod(
        a[0].track_progress + spec_piece_velocity(pieces, a[0].track_progress as int, base),
        m,
    ))
    &&& forall|i: int|
        0 <= i < b.len() ==> (#[trigger] b[i]).velocity == spec_piece_velocity(
            pieces,
            a[i].track_progress as int,
            base,
        )
    &&& cars_spaced(b, m)
}

/// Cars after a uniform move: one common velocity, the lead car advanced
/// by it, and the trailing cars re-derived behind the lead.
pub open spec fn cars_moved_uniform(a: Seq<TrainCar>, b: Seq<TrainCar>, v: int, m: int) -> bool {
    &&& b.len() == a.len()
    &&& (b.len() >= 1 ==> b[0].track_progress == pos_mod(a[0].track_progress + v, m))
    &&& forall|i: int| 0 <= i < b.len() ==> (#[trigger] b[i]).velocity == v
    &&& cars_spaced(b, m)
}

/// The exact one-tick step of one train on a track of `pieces.len()`
/// records with station record `s`, at speed multiplier `halves`:
/// the state timer is aged by one tick; while loading, the cars sit
/// pinned at the station at velocity zero and an expired timer dispatches
/// (new timer two ticks); while dispatching, the cars ramp from 20 to 60
/// thousandths and an expired timer starts the run; while running, the
/// cars cruise at 80 thousandths and a lead-to-station distance inside
/// (500, 3000) starts the brake; while braking, the cars creep at 30
/// thousandths, and at 500 or closer (or wrapped past) the train loads
/// again with the pseudo-varied dwell of 5000 plus a small id-derived
/// offset. Loop pieces halve the moving velocities.
pub open spec fn train_stepped(
    pieces: Seq<TrackPiece>,
    s: int,
    halves: int,
    a: Train,
    b: Train,
) -> bool {
    let m = pieces.len() * (POS_SCALE as int);
    let pin = s * (POS_SCALE as int);
    let t1: int = if a.state_timer >= 1000 {
        a.state_timer - 1000
    } else {
        0
    };
    &&& b.id == a.id
    &&& b.cars.len() == a.cars.len()
    &&& match a.state {
        TrainState::Loading => {
            &&& (if t1 == 0 {
                b.state == TrainState::Dispatching && b.state_timer == 2000
            } else {
                b.state == TrainState::Loading && b.state_timer == t1
            })
            &&& forall|i: int|
                0 <= i < b.cars.len() ==> (#[trigger] b.cars@[i]).track_progress == pos_mod(
                    pin - i * (CAR_SPACING as int),
                    m,
                ) && b.cars@[i].velocity == 0
        },
        TrainState::Dispatching => {
            &&& (if t1 == 0 {
                b.state == TrainState::Running
            } else {
                b.state == TrainState::Dispatching
            })
            &&& b.state_timer == t1
            &&& cars_moved_piecewise(pieces, a.cars@, b.cars@, spec_dispatch_base(t1, halves), m)
        },
        TrainState::Running => {
            let d = pos_mod(pin - a.cars@[0].track_progress, m);
            &&& (if 500 < d < 3000 {
                b.state == TrainState::Braking
            } else {
                b.state == TrainState::Running
            })
            &&& b.state_timer == t1
            &&& cars_moved_piecewise(pieces, a.cars@, b.cars@, 80 * halves / 2, m)
        },
        TrainState::Braking => {
            let d = pos_mod(pin - a.cars@[0].track_progress, m);
            &&& (if d <= 500 || d > m - 1000 {
                b.state == TrainState::Loading && b.state_timer == 5000 + ((a.id as int) % 3)
                    * 1000
            } else {
                b.state == TrainState::Braking && b.state_timer == t1
            })
            &&& cars_moved_uniform(a.cars@, b.cars@, 30 * halves / 2, m)
        },
    }
}

/// Moves every car forward by the base velocity, halved on a vertical
/// loop piece, wrapping at the track length.
fn move_cars_piecewise(cars: &mut Vec<TrainCar>, pieces: &Vec<TrackPiece>, base: u64, m: u64)
    requires
        1 <= pieces.len() <= MAX_TRACK_PIECES,
        m == pieces.len() * (POS_SCALE as int),
        m <= 0xffff_ffff,
        base <= 1000,
        forall|i: int|
            0 <= i < old(cars).len() ==> (#[trigger] old(cars)@[i]).track_progress < m,
    ensures
        final(cars).len() == old(cars).len(),
        forall|i: int|
            0 <= i < final(cars).len() ==> {
                let v = spec_piece_velocity(
                    pieces@,
                    old(cars)@[i].track_progress as int,
                    base as int,
                );
                (#[trigger] final(cars)@[i]).track_progress == pos_mod(
                    old(cars)@[i].track_progress + v,
                    m as int,
                ) && final(cars)@[i].velocity == v
            },
        forall|i: int| 0 <= i < final(cars).len() ==> (#[trigger] final(cars)@[i]).track_progress
            < m,
{
    let n = cars.len();
    let mut i: usize = 0;
    #[verifier::loop_isolation(false)]
    while i < n
        invariant
            n == cars.len(),
            i <= n,
            forall|j: int| i <= j < n ==> #[trigger] cars@[j] == old(cars)@[j],
            forall|j: int| 0 <= j < n ==> (#[trigger] cars@[j]).track_progress < m,
            forall|j: int|
                0 <= j < i ==> {
                    let v = spec_piece_velocity(
                        pieces@,
                        old(cars)@[j].track_progress as int,
                        base as int,
                    );
                    (#[trigger] cars@[j]).track_progress == pos_mod(
                        old(cars)@[j].track_progress + v,
                        m as int,
                    ) && cars@[j].velocity == v
                },
        decreases n - i,
    {
        let pos = cars[i].track_progress;
        proof {
            assert(pos / (POS_SCALE as u64) < pieces.len()) by (nonlinear_arith)
                requires
                    pos < m,
                    m == pieces.len() * (POS_SCALE as int),
                    pieces.len() >= 1,
            {}
        }
        let track_idx = (pos / POS_SCALE) as usize % pieces.len();
        let velocity = match pieces[track_idx].piece_type {
            TrackPieceType::LoopVertical => base / 2,
            _ => base,
        };
        let new_pos = wrap_add(pos, velocity, m);
        cars.set(i, TrainCar { track_progress: new_pos, velocity });
        i += 1;
    }
}

/// Moves every car forward by the same velocity, wrapping at the track
/// length.
fn move_cars_uniform(cars: &mut Vec<TrainCar>, velocity: u64, m: u64)
    requires
        m >= 1,
        m <= 0xffff_ffff,
        velocity <= 1000,
        forall|i: int|
            0 <= i < old(cars).len() ==> (#[trigger] old(cars)@[i]).track_progress < m,
    ensures
        final(cars).len() == old(cars).len(),
        forall|i: int|
            0 <= i < final(cars).len() ==> (#[trigger] final(cars)@[i]).track_progress == pos_mod(
                old(cars)@[i].track_progress + velocity,
                m as int,
            ) && final(cars)@[i].velocity == velocity,
        forall|i: int| 0 <= i < final(cars).len() ==> (#[trigger] final(cars)@[i]).track_progress
            < m,
{
    let n = cars.len();
    let mut i: usize = 0;
    #[verifier::loop_isolation(false)]
    while i < n
        invariant
            n == cars.len(),
            i <= n,
            forall|j: int| i <= j < n ==> #[trigger] cars@[j] == old(cars)@[j],
            forall|j: int| 0 <= j < n ==> (#[trigger] cars@[j]).track_progress < m,
            forall|j: int|
                0 <= j < i ==> (#[trigger] cars@[j]).track_progress == pos_mod(
                    old(cars)@[j].track_progress + velocity,
                    m as int,
                ) && cars@[j].velocity == velocity,
        decreases n - i,
    {
        let pos = cars[i].track_progress;
        let new_pos = wrap_add(pos, velocity, m);
        cars.set(i, TrainCar { track_progress: new_pos, velocity });
        i += 1;
    }
}

/// Forces every trailing car to trail the lead car by its number of fixed
/// spacings, wrapping at the track length: trailing cars never integrate
/// their own velocity. Velocities are left as the move recorded them.
fn enforce_spacing(cars: &mut Vec<TrainCar>, m: u64)
    requires
        m >= 1,
        old(cars).len() >= 1,
        forall|i: int|
            0 <= i < old(cars).len() ==> (#[trigger] old(cars)@[i]).track_progress < m,
    ensures
        final(cars).len() == old(cars).len(),
        final(cars)@[0] == old(cars)@[0],
        forall|i: int|
            0 <= i < final(cars).len() ==> (#[trigger] final(cars)@[i]).velocity == old(
                cars,
            )@[i].velocity,
        forall|i: int| 0 <= i < final(cars).len() ==> (#[trigger] final(cars)@[i]).track_progress
            < m,
        cars_spaced(final(cars)@, m as int),
    {
    let n = cars.len();
    let lead = cars[0].track_progress;
    let mut pos = lead;
    let mut i: usize = 1;
    proof {
        lemma_pos_mod_unique(lead as int, 0, lead as int, m as int);
        assert(pos == pos_mod(lead - 0 * (CAR_SPACING as int), m as int));
    }
    #[verifier::loop_isolation(false)]
    while i < n
        invariant
            n == cars.len(),
            1 <= i <= n,
            cars@[0] == old(cars)@[0],
            cars@[0].track_progress == lead,
            pos < m,
            pos == pos_mod(lead - (i - 1) * (CAR_SPACING as int), m as int),
            forall|j: int|
                0 <= j < n ==> (#[trigger] cars@[j]).velocity == old(cars)@[j].velocity,
            forall|j: int| 0 <= j < n ==> (#[trigger] cars@[j]).track_progress < m,
            forall|j: int|
                0 <= j < i ==> (#[trigger] cars@[j]).track_progress == pos_mod(
                    lead - j * (CAR_SPACING as int),
                    m as int,
                ),
        decreases n - i,
    {
        pos = wrap_sub(pos, CAR_SPACING, m);
        proof {
            lemma_pos_mod_sub(
                lead - (i - 1) * (CAR_SPACING as int),
                CAR_SPACING as int,
                m as int,
            );
            assert(lead - (i - 1) * (CAR_SPACING as int) - CAR_SPACING as int == lead - i * (
            CAR_SPACING as int)) by (nonlinear_arith);
        }
        let velocity = cars[i].velocity;
        cars.set(i, TrainCar { track_progress: pos, velocity });
        i += 1;
    }
    proof {
        lemma_pos_mod_unique(lead as int, 0, lead as int, m as int);
    }
}

/// Advances one train by one tick on its track, exactly as `train_stepped`
/// describes.
#[verifier::rlimit(100)]
fn update_train(train: &mut Train, pieces: &Vec<TrackPiece>, station_idx: usize, speed_halves: u64)
    requires
        1 <= pieces.len() <= MAX_TRACK_PIECES,
        station_idx < pieces.len(),
        2 <= speed_halves <= 5,
        train_bounded(*old(train), pieces.len() * (POS_SCALE as int)),
    ensures
        train_wf(*final(train), pieces.len() * (POS_SCALE as int)),
        final(train).cars.len() == old(train).cars.len(),
        final(train).id == old(train).id,
        train_step_ok(old(train).state, final(train).state),
        train_stepped(
            pieces@,
            station_idx as int,
            speed_halves as int,
            *old(train),
            *final(train),
        ),
{
    let m: u64 = (pieces.len() as u64) * POS_SCALE;
    let pin: u64 = (station_idx as u64) * POS_SCALE;
    proof {
        assert(m <= 0xffff_ffff) by (nonlinear_arith)
            requires
                m == pieces.len() * (POS_SCALE as int),
                pieces.len() <= MAX_TRACK_PIECES,
        {}
        assert(pin < m) by (nonlinear_arith)
            requires
                station_idx < pieces.len(),
                pin == station_idx * (POS_SCALE as int),
                m == pieces.len() * (POS_SCALE as int),
        {}
    }
    train.state_timer = if train.state_timer >= 1000 {
        train.state_timer - 1000
    } else {
        0
    };
    match train.state {
        TrainState::Loading => {
            if train.state_timer == 0 {
                train.state = TrainState::Dispatching;
                train.state_timer = 2000;
            }
            // Pin every car at the station, trailing by the fixed spacing.
            let ghost tsnap = *train;
            let n = train.cars.len();
            let mut pos = pin;
            let mut i: usize = 0;
            proof {
                lemma_pos_mod_unique(pin as int, 0, pin as int, m as int);
            }
            #[verifier::loop_isolation(false)]
            while i < n
                invariant
                    n == train.cars.len(),
                    i <= n,
                    pos < m,
                    pos == pos_mod(pin - i * (CAR_SPACING as int), m as int),
                    train.id == tsnap.id,
                    train.state == tsnap.state,
                    train.state_timer == tsnap.state_timer,
                    forall|j: int|
                        0 <= j < i ==> (#[trigger] train.cars@[j]).track_progress == pos_mod(
                            pin - j * (CAR_SPACING as int),
                            m as int,
                        ) && train.cars@[j].velocity == 0,
                    forall|j: int|
                        0 <= j < n ==> (#[trigger] train.cars@[j]).track_progress < m,
                decreases n - i,
            {
                train.cars.set(i, TrainCar { track_progress: pos, velocity: 0 });
                pos = wrap_sub(pos, CAR_SPACING, m);
                proof {
                    lemma_pos_mod_sub(
                        pin - i * (CAR_SPACING as int),
                        CAR_SPACING as int,
                        m as int,
                    );
                    assert(pin - i * (CAR_SPACING as int) - CAR_SPACING as int == pin - (i + 1)
                        * (CAR_SPACING as int)) by (nonlinear_arith);
                }
                i += 1;
            }
        }
        TrainState::Dispatching => {
            if train.state_timer == 0 {
                train.state = TrainState::Running;
            }
            // The velocity ramps up as the dispatch timer runs out.
            let t = if train.state_timer > 2000 {
                2000
            } else {
                train.state_timer
            };
            let ramp = 20 + (2000 - t) / 50;
            proof {
                assert(ramp * speed_halves <= 300) by (nonlinear_arith)
                    requires
                        ramp <= 60,
                        speed_halves <= 5,
                {}
            }
            let base = ramp * speed_halves / 2;
            move_cars_piecewise(&mut train.cars, pieces, base, m);
        }
        TrainState::Running => {
            let lead = train.cars[0].track_progress;
            let d = wrap_sub(pin, lead, m);
            if d > 500 && d < 3000 {
                train.state = TrainState::Braking;
            }
            let base = 80 * speed_halves / 2;
            move_cars_piecewise(&mut train.cars, pieces, base, m);
        }
        TrainState::Braking => {
            let lead = train.cars[0].track_progress;
            let d = wrap_sub(pin, lead, m);
            if d <= 500 || d > m - 1000 {
                train.state = TrainState::Loading;
                train.state_timer = 5000 + ((train.id as u64) % 3) * 1000;
            }
            let v = 30 * speed_halves / 2;
            move_cars_uniform(&mut train.cars, v, m);
        }
    }
    enforce_spacing(&mut train.cars, m);
}

/// Advances all trains of one coaster by one tick; a coaster that is not
/// operating, or has no track, is left untouched.
fn update_coaster(c: &mut Coaster, speed_halves: u64)
    requires
        2 <= speed_halves <= 5,
        coaster_wf(*old(c)),
    ensures
        coaster_wf(*final(c)),
        *final(c) == (Coaster { trains: final(c).trains, ..*old(c) }),
        final(c).trains.len() == old(c).trains.len(),
        forall|t: int|
            0 <= t < final(c).trains.len() ==> {
                let tr = #[trigger] final(c).trains@[t];
                &&& tr.id == old(c).trains@[t].id
                &&& tr.cars.len() == old(c).trains@[t].cars.len()
                &&& train_step_ok(old(c).trains@[t].state, tr.state)
                &&& (old(c).operating && old(c).track_pieces.len() > 0 ==> train_stepped(
                    old(c).track_pieces@,
                    spec_station_idx(*old(c)),
                    speed_halves as int,
                    old(c).trains@[t],
                    tr,
                ) && cars_spaced(tr.cars@, spec_track_len(*old(c))))
            },
        (!old(c).operating || old(c).track_pieces.len() == 0) ==> *final(c) == *old(c),
{
    if !c.operating || c.track_pieces.len() == 0 {
        return;
    }
    // The station's index in the record list; the first record when the
    // station tile is not on the track.
    let mut station_idx: usize = 0;
    let mut k: usize = 0;
    let len = c.track_tiles.len();
    let mut found = false;
    #[verifier::loop_isolation(false)]
    while k < len
        invariant
            k <= len,
            !found,
            station_idx == 0,
            find_station_from(c.track_tiles@, c.station_tile, 0) == find_station_from(
                c.track_tiles@,
                c.station_tile,
                k as int,
            ),
        decreases len - k,
    {
        let tt = c.track_tiles[k];
        if tt.0 == c.station_tile.0 && tt.1 == c.station_tile.1 {
            proof {
                assert(c.track_tiles@[k as int] == c.station_tile);
            }
            station_idx = k;
            found = true;
            break;
        }
        k += 1;
    }
    proof {
        if !found {
            assert(find_station_from(c.track_tiles@, c.station_tile, len as int) == 0);
        }
        assert(station_idx == spec_station_idx(*c));
        lemma_station_idx_range(c.track_tiles@, c.station_tile, 0);
    }
    let nt = c.trains.len();
    let mut t: usize = 0;
    #[verifier::loop_isolation(false)]
    while t < nt
        invariant
            nt == c.trains.len(),
            t <= nt,
            station_idx < c.track_pieces.len(),
            station_idx == spec_station_idx(*old(c)),
            *c == (Coaster { trains: c.trains, ..*old(c) }),
            forall|j: int|
                t <= j < nt ==> #[trigger] c.trains@[j] == old(c).trains@[j],
            forall|j: int|
                0 <= j < t ==> {
                    let tr = #[trigger] c.trains@[j];
                    &&& tr.id == old(c).trains@[j].id
                    &&& tr.cars.len() == old(c).trains@[j].cars.len()
                    &&& train_step_ok(old(c).trains@[j].state, tr.state)
                    &&& train_stepped(
                        old(c).track_pieces@,
                        station_idx as int,
                        speed_halves as int,
                        old(c).trains@[j],
                        tr,
                    )
                    &&& train_wf(tr, spec_track_len(*c))
                },
        decreases nt - t,
    {
        update_train(&mut c.trains[t], &c.track_pieces, station_idx, speed_halves);
        t += 1;
    }
}

/// Advances every coaster's trains by one tick, at the velocity scale of
/// the current game speed: every train takes the exact `train_stepped`
/// step at `spec_speed_halves(speed)`, so its state follows the dispatch
/// cycle and its cars keep their derived spacing. A coaster that is not
/// operating, or has no track, is left untouched; nothing but the
/// coasters changes.
pub fn update_trains(state: &mut GameState)
    requires
        old(state).speed <= 3,
        forall|i: int|
            0 <= i < old(state).coasters.len() ==> coaster_wf(#[trigger] old(state).coasters@[i]),
    ensures
        *final(state) == (GameState { coasters: final(state).coasters, ..*old(state) }),
        final(state).coasters.len() == old(state).coasters.len(),
        forall|i: int|
            0 <= i < final(state).coasters.len() ==> coaster_wf(#[trigger] final(state).coasters@[i]),
        forall|i: int|
            0 <= i < final(state).coasters.len() ==> #[trigger] final(state).coasters@[i]
                == (Coaster { trains: final(state).coasters@[i].trains, ..old(state).coasters@[i] })
                && final(state).coasters@[i].trains.len() == old(state).coasters@[i].trains.len(),
        forall|i: int|
            0 <= i < final(state).coasters.len() && (!old(state).coasters@[i].operating || old(
                state,
            ).coasters@[i].track_pieces.len() == 0) ==> #[trigger] final(state).coasters@[i]
                == old(state).coasters@[i],
        forall|i: int, t: int|
            0 <= i < final(state).coasters.len() && 0 <= t
                < final(state).coasters@[i].trains.len() ==> train_step_ok(
                old(state).coasters@[i].trains@[t].state,
                (#[trigger] final(state).coasters@[i].trains@[t]).state,
            ) && (old(state).coasters@[i].operating && old(state).coasters@[i].track_pieces.len()
                > 0 ==> train_stepped(
                old(state).coasters@[i].track_pieces@,
                spec_station_idx(old(state).coasters@[i]),
                spec_speed_halves(old(state).speed),
                old(state).coasters@[i].trains@[t],
                final(state).coasters@[i].trains@[t],
            ) && cars_spaced(
                final(state).coasters@[i].trains@[t].cars@,
                spec_track_len(old(state).coasters@[i]),
            )),
{
    let speed_halves: u64 = (state.speed % 4) as u64 + 2;
    let nc = state.coasters.len();
    let mut i: usize = 0;
    #[verifier::loop_isolation(false)]
    while i < nc
        invariant
            nc == state.coasters.len(),
            i <= nc,
            2 <= speed_halves <= 5,
            speed_halves == spec_speed_halves(old(state).speed),
            *state == (GameState { coasters: state.coasters, ..*old(state) }),
            forall|j: int|
                i <= j < nc ==> #[trigger] state.coasters@[j] == old(state).coasters@[j],
            forall|j: int|
                0 <= j < i ==> coaster_wf(#[trigger] state.coasters@[j]),
            forall|j: int|
                0 <= j < i ==> #[trigger] state.coasters@[j] == (Coaster {
                    trains: state.coasters@[j].trains,
                    ..old(state).coasters@[j]
                }) && state.coasters@[j].trains.len() == old(state).coasters@[j].trains.len(),
            forall|j: int|
                0 <= j < i && (!old(state).coasters@[j].operating || old(
                    state,
                ).coasters@[j].track_pieces.len() == 0) ==> #[trigger] state.coasters@[j] == old(
                    state,
                ).coasters@[j],
            forall|j: int, t: int|
                0 <= j < i && 0 <= t < state.coasters@[j].trains.len() ==> train_step_ok(
                    old(state).coasters@[j].trains@[t].state,
                    (#[trigger] state.coasters@[j].trains@[t]).state,
                ) && (old(state).coasters@[j].operating && old(
                    state,
                ).coasters@[j].track_pieces.len() > 0 ==> train_stepped(
                    old(state).coasters@[j].track_pieces@,
                    spec_station_idx(old(state).coasters@[j]),
                    spec_speed_halves(old(state).speed),
                    old(state).coasters@[j].trains@[t],
                    state.coasters@[j].trains@[t],
                ) && cars_spaced(
                    state.coasters@[j].trains@[t].cars@,
                    spec_track_len(old(state).coasters@[j]),
                )),
        decreases nc - i,
    {
        update_coaster(&mut state.coasters[i], speed_halves);
        i += 1;
    }
}

} // verus!
