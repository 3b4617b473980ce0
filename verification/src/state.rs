//! The shared world state and its clock: the tile grid, the visitors, the
//! coasters, the economy, and the per-tick calendar. Minutes are counted in
//! quarters so that day- and night-time advances are exact.

use vstd::prelude::*;
use vstd::multiset::Multiset;
use crate::building::Building;
use crate::building::BuildingType;
use crate::coaster::Coaster;
use crate::coaster::CoasterType;
use crate::coaster::TrackDirection;
use crate::coaster::TrackPiece;
use crate::coaster::TrackPieceType;
use crate::coaster::Train;
use crate::coaster::TrainCar;
use crate::coaster::train_bounded;
use crate::coaster::MAX_TRACK_PIECES;
use crate::coaster::POS_SCALE;
use crate::coaster::spec_track_len;
use crate::coaster::coaster_wf;
use crate::guest::Guest;
use crate::guest::guest_wf;
use crate::rng::SimRng;
use crate::rng::spec_xorshift;
use crate::tile::Terrain;
use crate::tile::Tile;
use crate::tool::Tool;
use crate::tool::spec_tool_building;
use crate::tool::spec_tool_cost;
use crate::tool::spec_tool_from_name;

verus! {

/// The most visitors the world will ever hold at once.
pub const GUEST_LIMIT: usize = 0x1000_0000;

/// The widest grid supported: coordinates fit comfortably in 32 bits.
pub const GRID_LIMIT: usize = 0xffff;

/// The whole simulated world.
///
/// `minute` counts quarter-minutes (`0..240`); needs, positions and timers
/// of the entities inside follow their own modules' units.
pub struct GameState {
    pub grid: Vec<Vec<Tile>>,
    pub grid_size: usize,
    pub tick: u32,
    pub speed: u8,
    pub year: u32,
    pub month: u8,
    pub day: u8,
    pub hour: u8,
    pub minute: u16,
    pub guests: Vec<Guest>,
    pub coasters: Vec<Coaster>,
    pub active_coaster_id: Option<u32>,
    pub cash: i64,
    pub park_rating: i32,
    pub selected_tool: Tool,
    pub rng: SimRng,
    pub next_guest_id: u32,
}

/// A square grid of the given side length.
pub open spec fn grid_wf(grid: Seq<Vec<Tile>>, n: int) -> bool {
    grid.len() == n && forall|y: int| 0 <= y < n ==> (#[trigger] grid[y])@.len() == n
}

/// The calendar fields sit inside their documented ranges.
pub open spec fn clock_wf(s: GameState) -> bool {
    &&& s.minute < 240
    &&& s.hour < 24
    &&& 1 <= s.day <= 30
    &&& 1 <= s.month <= 12
}

/// A well-formed world: a square grid of bounded size, bounded and
/// well-formed visitors, well-formed coasters, a non-negative treasury, a
/// rating inside `[0, 1000]`, a speed setting inside `[0, 3]`, and a sane
/// calendar.
pub open spec fn state_wf(s: GameState) -> bool {
    &&& s.grid_size <= GRID_LIMIT
    &&& grid_wf(s.grid@, s.grid_size as int)
    &&& s.guests.len() <= GUEST_LIMIT
    &&& (forall|i: int| 0 <= i < s.guests.len() ==> guest_wf(#[trigger] s.guests@[i]))
    &&& (forall|i: int| 0 <= i < s.coasters.len() ==> coaster_wf(#[trigger] s.coasters@[i]))
    &&& s.cash >= 0
    &&& 0 <= s.park_rating <= 1000
    &&& s.speed <= 3
    &&& clock_wf(s)
}

/// Addition on the treasury, saturating at the top of its range.
pub open spec fn sat_add_i64(a: int, b: int) -> int {
    if a + b > i64::MAX {
        i64::MAX as int
    } else {
        a + b
    }
}

/// Credits the treasury, saturating rather than overflowing.
pub fn credit(cash: i64, amount: i64) -> (r: i64)
    requires
        cash >= 0,
        amount >= 0,
    ensures
        r == sat_add_i64(cash as int, amount as int),
        r >= cash,
        r >= amount,
{
    if cash <= i64::MAX - amount {
        cash + amount
    } else {
        i64::MAX
    }
}

/// The clock after one tick: `inc` quarter-minutes are added, and minutes
/// roll into hours, hours into days, days into months, months into years.
pub open spec fn spec_next_clock(minute: int, hour: int, day: int, month: int, year: int, inc: int)
    -> (int, int, int, int, int) {
    if minute + inc < 240 {
        (minute + inc, hour, day, month, year)
    } else {
        let m = minute + inc - 240;
        if hour + 1 < 24 {
            (m, hour + 1, day, month, year)
        } else {
            if day + 1 <= 30 {
                (m, 0, day + 1, month, year)
            } else {
                if month + 1 <= 12 {
                    (m, 0, 1, month + 1, year)
                } else {
                    (m, 0, 1, 1, if year < u32::MAX { year + 1 } else { year })
                }
            }
        }
    }
}

/// The quarter-minutes one tick advances the clock by: one during daytime
/// (07:00 to 18:00), twelve at night.
pub open spec fn spec_minute_inc(hour: int) -> int {
    if 7 <= hour < 18 {
        1
    } else {
        12
    }
}


/// Pushing onto a sequence keeps what it contained and adds the new item.
proof fn lemma_push_contains<A>(s: Seq<A>, v: A)
    ensures
        forall|w: A| #[trigger] s.push(v).contains(w) <==> (s.contains(w) || w == v),
{
    assert forall|w: A| #[trigger] s.push(v).contains(w) <==> (s.contains(w) || w == v) by {
        if s.contains(w) {
            let k = choose|k: int| 0 <= k < s.len() && s[k] == w;
            assert(s.push(v)[k] == w);
        }
        assert(s.push(v)[s.len() as int] == v);
        if s.push(v).contains(w) {
            let k = choose|k: int| 0 <= k < s.push(v).len() && s.push(v)[k] == w;
            if k < s.len() {
                assert(s[k] == w);
            }
        }
    }
}

/// The sum of all visitors' happiness, in thousandths of a point.
pub open spec fn sum_happiness(gs: Seq<Guest>) -> int
    decreases gs.len(),
{
    if gs.len() == 0 {
        0
    } else {
        sum_happiness(gs.drop_last()) + gs.last().happiness
    }
}

/// The park rating a set of visitors yields: ten times their mean
/// happiness in points, capped at one thousand.
pub open spec fn spec_rating(gs: Seq<Guest>) -> int {
    let a = sum_happiness(gs) / (gs.len() as int * 100);
    if a > 1000 {
        1000
    } else {
        a
    }
}

/// Every summand below the cap keeps the sum below length times cap.
proof fn lemma_sum_happiness_bound(gs: Seq<Guest>)
    requires
        forall|i: int| 0 <= i < gs.len() ==> (#[trigger] gs[i]).happiness <= 100_000,
    ensures
        0 <= sum_happiness(gs) <= gs.len() * 100_000,
    decreases gs.len(),
{
    if gs.len() > 0 {
        lemma_sum_happiness_bound(gs.drop_last());
    }
}

/// The multiset of the visitors' identifiers.
pub open spec fn spec_guest_ids(gs: Seq<Guest>) -> Multiset<u32> {
    gs.map_values(|g: Guest| g.id).to_multiset()
}

/// Appending a visitor inserts exactly its identifier.
pub proof fn lemma_guest_ids_push(gs: Seq<Guest>, g: Guest)
    ensures
        spec_guest_ids(gs.push(g)) == spec_guest_ids(gs).insert(g.id),
{
    gs.map_values(|g: Guest| g.id).to_multiset_ensures();
    assert(gs.push(g).map_values(|g: Guest| g.id) =~= gs.map_values(|g: Guest| g.id).push(
        g.id,
    ));
}

/// A path tile on the outer boundary of the grid: where new visitors may
/// appear.
pub open spec fn is_entrance(s: GameState, x: int, y: int) -> bool {
    &&& 0 <= x < s.grid_size
    &&& 0 <= y < s.grid_size
    &&& (x == 0 || x == s.grid_size - 1 || y == 0 || y == s.grid_size - 1)
    &&& s.grid@[y]@[x].path
}

impl GameState {
    /// The next raw pseudo-random draw.
    pub fn random_u64(&mut self) -> (r: u64)
        ensures
            r == spec_xorshift(old(self).rng.state),
            *final(self) == (GameState { rng: SimRng { state: r }, ..*old(self) }),
    {
        self.rng.next_u64()
    }

    /// A pseudo-random draw uniform over `[0, n)`.
    pub fn random_below(&mut self, n: u64) -> (r: u64)
        requires
            n >= 1,
        ensures
            r < n,
            r == spec_xorshift(old(self).rng.state) % n,
            *final(self) == (GameState {
                rng: SimRng { state: spec_xorshift(old(self).rng.state) },
                ..*old(self)
            }),
    {
        self.rng.below(n)
    }

    /// The next fresh visitor identifier; the counter wraps at its top.
    pub fn next_guest_id(&mut self) -> (r: u32)
        ensures
            r == old(self).next_guest_id,
            *final(self) == (GameState {
                next_guest_id: (old(self).next_guest_id + 1) as u32,
                ..*old(self)
            }) || (old(self).next_guest_id == u32::MAX && *final(self) == (GameState {
                next_guest_id: 0u32,
                ..*old(self)
            })),
    {
        let id = self.next_guest_id;
        self.next_guest_id = self.next_guest_id.wrapping_add(1);
        id
    }

    /// Whether the coordinates name a cell of the grid.
    pub fn in_bounds(&self, x: i32, y: i32) -> (r: bool)
        ensures
            r == (0 <= x < self.grid_size && 0 <= y < self.grid_size),
    {
        x >= 0 && y >= 0 && (x as usize) < self.grid_size && (y as usize) < self.grid_size
    }

    /// The tile at the given coordinates, or nothing when they fall outside
    /// the grid; never a fault.
    pub fn get_tile(&self, x: i32, y: i32) -> (r: Option<&Tile>)
        ensures
            match r {
                Some(t) => 0 <= y < self.grid@.len() && 0 <= x < self.grid@[y as int]@.len()
                    && *t == self.grid@[y as int]@[x as int],
                None => !(0 <= y < self.grid@.len() && 0 <= x && x < self.grid@[
                    if 0 <= y < self.grid@.len() {
                        y as int
                    } else {
                        0
                    }
                ]@.len()),
            },
    {
        if x < 0 || y < 0 {
            return None;
        }
        if (y as usize) < self.grid.len() {
            let row = &self.grid[y as usize];
            if (x as usize) < row.len() {
                return Some(&row[x as usize]);
            }
        }
        None
    }

    /// Replaces the tile at the given coordinates; returns whether the
    /// coordinates were inside the grid.
    pub fn set_tile(&mut self, x: i32, y: i32, tile: Tile) -> (r: bool)
        ensures
            r == (0 <= y < old(self).grid@.len() && 0 <= x && (0 <= y < old(self).grid@.len()
                ==> x < old(self).grid@[y as int]@.len())),
            r ==> *final(self) == (GameState {
                grid: final(self).grid,
                ..*old(self)
            }) && final(self).grid@.len() == old(self).grid@.len()
                && final(self).grid@[y as int]@ == old(self).grid@[y as int]@.update(
                x as int,
                tile,
            ) && (forall|j: int|
                0 <= j < old(self).grid@.len() && j != y ==> (#[trigger] final(self).grid@[j])@
                    == old(self).grid@[j]@),
            !r ==> *final(self) == *old(self),
    {
        if x < 0 || y < 0 {
            return false;
        }
        if (y as usize) < self.grid.len() {
            let row_len = self.grid[y as usize].len();
            if (x as usize) < row_len {
                self.grid[y as usize].set(x as usize, tile);
                return true;
            }
        }
        false
    }

    /// Advances the calendar by one tick: daytime ticks add a quarter
    /// minute, nighttime ticks three minutes, with full rollover.
    pub fn advance_time(&mut self)
        requires
            clock_wf(*old(self)),
        ensures
            final(self).tick == (old(self).tick + 1) as u32 || (old(self).tick == u32::MAX
                && final(self).tick == 0),
            (final(self).minute as int, final(self).hour as int, final(self).day as int,
                final(self).month as int, final(self).year as int) == spec_next_clock(
                old(self).minute as int,
                old(self).hour as int,
                old(self).day as int,
                old(self).month as int,
                old(self).year as int,
                spec_minute_inc(old(self).hour as int),
            ),
            clock_wf(*final(self)),
            *final(self) == (GameState {
                tick: final(self).tick,
                minute: final(self).minute,
                hour: final(self).hour,
                day: final(self).day,
                month: final(self).month,
                year: final(self).year,
                ..*old(self)
            }),
    {
        self.tick = self.tick.wrapping_add(1);
        let is_daytime = self.hour >= 7 && self.hour < 18;
        let minute_increment: u16 = if is_daytime {
            1
        } else {
            12
        };
        self.minute = self.minute + minute_increment;
        if self.minute >= 240 {
            self.minute = self.minute - 240;
            self.hour = self.hour + 1;
            if self.hour >= 24 {
                self.hour = 0;
                self.day = self.day + 1;
                if self.day > 30 {
                    self.day = 1;
                    self.month = self.month + 1;
                    if self.month > 12 {
                        self.month = 1;
                        if self.year < u32::MAX {
                            self.year = self.year + 1;
                        }
                    }
                }
            }
        }
    }

    /// Every boundary path tile of the grid: the entrances where new
    /// visitors appear. The result holds exactly the entrance tiles.
    pub fn find_entrance_tiles(&self) -> (r: Vec<(i32, i32)>)
        requires
            self.grid_size <= GRID_LIMIT,
            grid_wf(self.grid@, self.grid_size as int),
        ensures
            forall|k: int|
                0 <= k < r.len() ==> is_entrance(*self, (#[trigger] r@[k]).0 as int, r@[k].1 as int),
            forall|x: i32, y: i32| is_entrance(*self, x as int, y as int) ==> r@.contains((x, y)),
    {
        let mut entrances: Vec<(i32, i32)> = Vec::new();
        let size = self.grid_size;
        let mut i: usize = 0;
        #[verifier::loop_isolation(false)]
        while i < size
            invariant
                i <= size,
                forall|k: int|
                    0 <= k < entrances.len() ==> is_entrance(
                        *self,
                        (#[trigger] entrances@[k]).0 as int,
                        entrances@[k].1 as int,
                    ),
                forall|x: i32, y: i32|
                    is_entrance(*self, x as int, y as int) && ((x == 0 && y < i) || (x
                        == size - 1 && y < i) || (y == 0 && x < i) || (y == size - 1 && x
                        < i)) ==> entrances@.contains((x, y)),
            decreases size - i,
        {
            let ix = i as i32;
            let last = (size - 1) as i32;
            if self.grid[i][0].path {
                proof {
                    lemma_push_contains(entrances@, (0i32, ix));
                }
                entrances.push((0, ix));
            }
            if self.grid[i][size - 1].path {
                proof {
                    lemma_push_contains(entrances@, (last, ix));
                }
                entrances.push((last, ix));
            }
            if self.grid[0][i].path {
                proof {
                    lemma_push_contains(entrances@, (ix, 0i32));
                }
                entrances.push((ix, 0));
            }
            if self.grid[size - 1][i].path {
                proof {
                    lemma_push_contains(entrances@, (ix, last));
                }
                entrances.push((ix, last));
            }
            i += 1;
        }
        entrances
    }

    /// Recomputes the park rating as ten times the mean visitor happiness,
    /// capped at one thousand; with no visitors the rating keeps its value.
    pub fn update_park_rating(&mut self)
        requires
            old(self).guests.len() <= GUEST_LIMIT,
            0 <= old(self).park_rating <= 1000,
            forall|i: int|
                0 <= i < old(self).guests.len() ==> (#[trigger] old(self).guests@[i]).happiness
                    <= 100_000,
        ensures
            old(self).guests.len() == 0 ==> *final(self) == *old(self),
            old(self).guests.len() > 0 ==> *final(self) == (GameState {
                park_rating: (spec_rating(old(self).guests@)) as i32,
                ..*old(self)
            }),
            0 <= final(self).park_rating <= 1000,
            final(self).guests == old(self).guests,
    {
        if self.guests.len() == 0 {
            return;
        }
        let n = self.guests.len();
        let mut sum: u64 = 0;
        let mut i: usize = 0;
        #[verifier::loop_isolation(false)]
        while i < n
            invariant
                i <= n,
                sum == sum_happiness(self.guests@.take(i as int)),
                sum <= i * 100_000,
            decreases n - i,
        {
            proof {
                assert(self.guests@.take(i + 1).drop_last() =~= self.guests@.take(i as int));
                assert(self.guests@.take(i + 1).last() == self.guests@[i as int]);
            }
            sum = sum + self.guests[i].happiness as u64;
            i += 1;
        }
        proof {
            assert(self.guests@.take(n as int) =~= self.guests@);
        }
        let denom: u64 = (n as u64) * 100;
        let avg: u64 = sum / denom;
        let rating: i32 = if avg > 1000 {
            1000
        } else {
            avg as i32
        };
        proof {
            lemma_sum_happiness_bound(self.guests@);
        }
        self.park_rating = rating;
    }

    /// The park's entry fee.
    pub fn entry_fee() -> (r: i32)
        ensures
            r == 20,
    {
        20
    }

    /// Admits a candidate visitor if, and only if, they can pay the entry
    /// fee: the fee moves from their cash to the treasury and they join the
    /// active set; otherwise the world is unchanged and the candidate is
    /// discarded.
    pub fn admit_guest(&mut self, guest: Guest) -> (admitted: bool)
        requires
            old(self).guests.len() < GUEST_LIMIT,
            old(self).cash >= 0,
            guest_wf(guest),
        ensures
            admitted == (guest.cash >= 20),
            !admitted ==> *final(self) == *old(self),
            admitted ==> final(self).guests@ == old(self).guests@.push(Guest {
                cash: (guest.cash - 20) as i32,
                total_spent: (guest.total_spent + 20) as i32,
                ..guest
            }),
            admitted ==> final(self).cash == sat_add_i64(old(self).cash as int, 20),
            admitted ==> *final(self) == (GameState {
                guests: final(self).guests,
                cash: final(self).cash,
                ..*old(self)
            }),
            final(self).guests.len() <= old(self).guests.len() + 1,
            admitted ==> guest_wf(final(self).guests@.last()),
    {
        if guest.cash >= 20 {
            let mut guest = guest;
            guest.cash = guest.cash - 20;
            guest.total_spent = guest.total_spent + 20;
            self.cash = credit(self.cash, 20);
            self.guests.push(guest);
            true
        } else {
            false
        }
    }

    /// Selects the tool named by the string; an unknown name leaves the
    /// selection unchanged.
    pub fn set_tool_from_string(&mut self, tool_str: &str)
        ensures
            match spec_tool_from_name(tool_str@) {
                Some(t) => *final(self) == (GameState { selected_tool: t, ..*old(self) }),
                None => *final(self) == *old(self),
            },
    {
        if let Some(tool) = Tool::from_string(tool_str) {
            self.selected_tool = tool;
        }
    }
}

} // verus!

verus! {

impl GameState {
    /// A square grid of fresh grass tiles.
    fn initialize_grid(&mut self)
        requires
            old(self).grid_size <= GRID_LIMIT,
        ensures
            grid_wf(final(self).grid@, final(self).grid_size as int),
            *final(self) == (GameState { grid: final(self).grid, ..*old(self) }),
    {
        let n = self.grid_size;
        let mut grid: Vec<Vec<Tile>> = Vec::new();
        let mut y: usize = 0;
        #[verifier::loop_isolation(false)]
        while y < n
            invariant
                y <= n,
                grid@.len() == y,
                forall|j: int| 0 <= j < y ==> (#[trigger] grid@[j])@.len() == n,
            decreases n - y,
        {
            let mut row: Vec<Tile> = Vec::new();
            let mut x: usize = 0;
            #[verifier::loop_isolation(false)]
            while x < n
                invariant
                    x <= n,
                    y < n,
                    row@.len() == x,
                decreases n - x,
            {
                row.push(Tile::new(x as i32, y as i32));
                x += 1;
            }
            grid.push(row);
            y += 1;
        }
        self.grid = grid;
    }

    /// Digs a few round lakes into the terrain, keeping their centers away
    /// from the edges and from each other. Only the terrain and the random
    /// generator change; the grid keeps its shape.
    fn generate_lakes(&mut self)
        requires
            old(self).grid_size <= GRID_LIMIT,
            grid_wf(old(self).grid@, old(self).grid_size as int),
        ensures
            grid_wf(final(self).grid@, final(self).grid_size as int),
            *final(self) == (GameState {
                grid: final(self).grid,
                rng: final(self).rng,
                ..*old(self)
            }),
    {
        let n = self.grid_size;
        let lake_count: usize = 2 + self.random_below(2) as usize;
        let e1 = (n / 20) * 3;
        let min_edge: i64 = if e1 > 8 {
            e1 as i64
        } else {
            8
        };
        let mut lake_centers: Vec<(i64, i64)> = Vec::new();
        let mut l: usize = 0;
        #[verifier::loop_isolation(false)]
        while l < lake_count
            invariant
                self.grid_size == n,
                n <= GRID_LIMIT,
                grid_wf(self.grid@, n as int),
                8 <= min_edge <= GRID_LIMIT as int,
                forall|j: int|
                    0 <= j < lake_centers.len() ==> {
                        let p = #[trigger] lake_centers@[j];
                        -0x20000 <= p.0 <= 0x20000 && -0x20000 <= p.1 <= 0x20000
                    },
                *self == (GameState { grid: self.grid, rng: self.rng, ..*old(self) }),
            decreases lake_count - l,
        {
            let mut attempts: usize = 0;
            #[verifier::loop_isolation(false)]
            loop
                invariant
                    attempts <= 51,
                    self.grid_size == n,
                    n <= GRID_LIMIT,
                    grid_wf(self.grid@, n as int),
                    8 <= min_edge <= GRID_LIMIT as int,
                    forall|j: int|
                    0 <= j < lake_centers.len() ==> {
                        let p = #[trigger] lake_centers@[j];
                        -0x20000 <= p.0 <= 0x20000 && -0x20000 <= p.1 <= 0x20000
                    },
                *self == (GameState { grid: self.grid, rng: self.rng, ..*old(self) }),
                decreases 51 - attempts,
            {
                if attempts > 50 {
                    break;
                }
                attempts += 1;
                let span = n as i64 - 2 * min_edge;
                if span <= 0 {
                    break;
                }
                let cx = min_edge + self.random_below(span as u64) as i64;
                let cy = min_edge + self.random_below(span as u64) as i64;
                let d1 = (n / 5) as i64;
                let min_lake_dist: i64 = if d1 > 10 {
                    d1
                } else {
                    10
                };
                let mut too_close = false;
                let mut c: usize = 0;
                #[verifier::loop_isolation(false)]
                while c < lake_centers.len()
                    invariant
                        c <= lake_centers.len(),
                        forall|j: int|
                            0 <= j < lake_centers.len() ==> {
                                let p = #[trigger] lake_centers@[j];
                                -0x20000 <= p.0 <= 0x20000 && -0x20000 <= p.1 <= 0x20000
                            },
                        -0x20000 <= cx <= 0x20000,
                        -0x20000 <= cy <= 0x20000,
                        10 <= min_lake_dist <= 0x10000,
                    decreases lake_centers.len() - c,
                {
                    let (lx, ly) = lake_centers[c];
                    let dx = cx - lx;
                    let dy = cy - ly;
                    proof {
                        assert(-0x2_0000_0000_0000i64 <= dx * dx <= 0x2_0000_0000_0000i64
                            && -0x2_0000_0000_0000i64 <= dy * dy <= 0x2_0000_0000_0000i64
                            && 0 <= min_lake_dist * min_lake_dist <= 0x1_0000_0000_0000i64)
                            by (nonlinear_arith)
                            requires
                                -0x40000 <= dx <= 0x40000,
                                -0x40000 <= dy <= 0x40000,
                                0 <= min_lake_dist <= 0x10000,
                        {}
                    }
                    if dx * dx + dy * dy < min_lake_dist * min_lake_dist {
                        too_close = true;
                    }
                    c += 1;
                }
                if !too_close {
                    if lake_centers.len() < 8 {
                        lake_centers.push((cx, cy));
                    }
                    break;
                }
            }
            l += 1;
        }
        let mut c: usize = 0;
        #[verifier::loop_isolation(false)]
        while c < lake_centers.len()
            invariant
                self.grid_size == n,
                n <= GRID_LIMIT,
                grid_wf(self.grid@, n as int),
                *self == (GameState { grid: self.grid, rng: self.rng, ..*old(self) }),
                forall|j: int|
                    0 <= j < lake_centers.len() ==> {
                        let p = #[trigger] lake_centers@[j];
                        -0x20000 <= p.0 <= 0x20000 && -0x20000 <= p.1 <= 0x20000
                    },
            decreases lake_centers.len() - c,
        {
            let (cx, cy) = lake_centers[c];
            let radius_mu: u64 = 4000 + self.random_below(6000);
            let reach: i64 = (radius_mu / 1000) as i64 + 2;
            let side: usize = (2 * reach + 1) as usize;
            let mut row: usize = 0;
            #[verifier::loop_isolation(false)]
            while row < side
                invariant
                    row <= side,
                    side == 2 * reach + 1,
                    6 <= reach <= 11,
                    4000 <= radius_mu <= 9999,
                    -0x20000 <= cx <= 0x20000,
                    -0x20000 <= cy <= 0x20000,
                    self.grid_size == n,
                    n <= GRID_LIMIT,
                    grid_wf(self.grid@, n as int),
                    *self == (GameState { grid: self.grid, rng: self.rng, ..*old(self) }),
                decreases side - row,
            {
                let dy = row as i64 - reach;
                let mut col: usize = 0;
                #[verifier::loop_isolation(false)]
                while col < side
                    invariant
                        col <= side,
                        row < side,
                        side == 2 * reach + 1,
                        6 <= reach <= 11,
                        4000 <= radius_mu <= 9999,
                        dy == row as i64 - reach,
                        -0x20000 <= cx <= 0x20000,
                        -0x20000 <= cy <= 0x20000,
                        self.grid_size == n,
                        n <= GRID_LIMIT,
                        grid_wf(self.grid@, n as int),
                        *self == (GameState { grid: self.grid, rng: self.rng, ..*old(self) }),
                    decreases side - col,
                {
                    let dx = col as i64 - reach;
                    let nx = cx + dx;
                    let ny = cy + dy;
                    if nx >= 0 && ny >= 0 && nx < n as i64 && ny < n as i64 {
                        let noise_mu: i64 = self.random_below(2000) as i64 - 1000;
                        let er_mu: i64 = radius_mu as i64 + noise_mu * 3 / 2;
                        proof {
                            assert(0 <= dx * dx <= 400 && 0 <= dy * dy <= 400 && (er_mu >= 0
                                ==> 0 <= er_mu * er_mu <= 0x1_0000_0000i64)) by (nonlinear_arith)
                                requires
                                    -20 <= dx <= 20,
                                    -20 <= dy <= 20,
                                    -2000 <= er_mu <= 20000,
                            {}
                        }
                        let dist_sq: i64 = (dx * dx + dy * dy) * 1_000_000;
                        if er_mu >= 0 && dist_sq <= er_mu * er_mu {
                            let mut tile = self.grid[ny as usize][nx as usize].clone();
                            tile.terrain = Terrain::Water;
                            self.set_tile(nx as i32, ny as i32, tile);
                        }
                    }
                    col += 1;
                }
                row += 1;
            }
            c += 1;
        }
    }
}

} // verus!

verus! {

impl GameState {
    /// Lays a path surface (and grass) on the tile, if it is inside the
    /// grid.
    fn place_path_tile(&mut self, x: i32, y: i32)
        requires
            old(self).grid_size <= GRID_LIMIT,
            grid_wf(old(self).grid@, old(self).grid_size as int),
        ensures
            grid_wf(final(self).grid@, final(self).grid_size as int),
            *final(self) == (GameState { grid: final(self).grid, ..*old(self) }),
    {
        if self.in_bounds(x, y) {
            let mut tile = self.grid[y as usize][x as usize].clone();
            tile.terrain = Terrain::Grass;
            tile.path = true;
            self.set_tile(x, y, tile);
        }
    }

    /// Places a structure on the tile (and grass under it), if it is
    /// inside the grid.
    fn place_building_tile(&mut self, x: i32, y: i32, building_type: BuildingType)
        requires
            old(self).grid_size <= GRID_LIMIT,
            grid_wf(old(self).grid@, old(self).grid_size as int),
        ensures
            grid_wf(final(self).grid@, final(self).grid_size as int),
            *final(self) == (GameState { grid: final(self).grid, ..*old(self) }),
    {
        if self.in_bounds(x, y) {
            let mut tile = self.grid[y as usize][x as usize].clone();
            tile.terrain = Terrain::Grass;
            tile.building = Some(Building::new(building_type));
            self.set_tile(x, y, tile);
        }
    }

    /// Marks the tile as carrying coaster track of the given track, if it
    /// is inside the grid.
    fn mark_track_tile(&mut self, x: i32, y: i32, track_id: u32)
        requires
            old(self).grid_size <= GRID_LIMIT,
            grid_wf(old(self).grid@, old(self).grid_size as int),
        ensures
            grid_wf(final(self).grid@, final(self).grid_size as int),
            *final(self) == (GameState { grid: final(self).grid, ..*old(self) }),
    {
        if self.in_bounds(x, y) {
            let mut tile = self.grid[y as usize][x as usize].clone();
            tile.terrain = Terrain::Grass;
            tile.has_coaster_track = true;
            tile.coaster_track_id = Some(track_id);
            self.set_tile(x, y, tile);
        }
    }

    /// Builds the ready-made demonstration coaster: a rectangular closed
    /// loop of track east of the grid's center, one train of three cars,
    /// operating from the start.
    fn create_demo_coaster(&mut self)
        requires
            old(self).grid_size <= GRID_LIMIT,
            grid_wf(old(self).grid@, old(self).grid_size as int),
            forall|i: int|
                0 <= i < old(self).coasters.len() ==> coaster_wf(
                    #[trigger] old(self).coasters@[i],
                ),
        ensures
            grid_wf(final(self).grid@, final(self).grid_size as int),
            final(self).coasters.len() == old(self).coasters.len() + 1,
            forall|i: int|
                0 <= i < final(self).coasters.len() ==> coaster_wf(
                    #[trigger] final(self).coasters@[i],
                ),
            *final(self) == (GameState {
                grid: final(self).grid,
                coasters: final(self).coasters,
                active_coaster_id: final(self).active_coaster_id,
                ..*old(self)
            }),
    {
        let base_x = (self.grid_size as i32) / 2 + 6;
        let base_y = (self.grid_size as i32) / 2 - 8;
        let mut track_tiles: Vec<(i32, i32)> = Vec::new();
        let mut x: i32 = 0;
        #[verifier::loop_isolation(false)]
        while x < 6
            invariant
                0 <= x <= 6,
                track_tiles.len() == x,
                0 <= base_x <= 0x8006,
                -8 <= base_y <= 0x7ff8,
            decreases 6 - x,
        {
            track_tiles.push((base_x + x, base_y));
            x += 1;
        }
        let mut y: i32 = 1;
        #[verifier::loop_isolation(false)]
        while y < 6
            invariant
                1 <= y <= 6,
                track_tiles.len() == 5 + y,
            decreases 6 - y,
        {
            track_tiles.push((base_x + 5, base_y + y));
            y += 1;
        }
        let mut x2: i32 = 4;
        #[verifier::loop_isolation(false)]
        while x2 >= 0
            invariant
                -1 <= x2 <= 4,
                track_tiles.len() == 15 - x2,
            decreases x2 + 1,
        {
            track_tiles.push((base_x + x2, base_y + 5));
            x2 -= 1;
        }
        let mut y2: i32 = 4;
        #[verifier::loop_isolation(false)]
        while y2 >= 1
            invariant
                0 <= y2 <= 4,
                track_tiles.len() == 20 - y2,
            decreases y2,
        {
            track_tiles.push((base_x, base_y + y2));
            y2 -= 1;
        }
        let mut coaster = Coaster::new(0, "Steel Loop".to_owned(), CoasterType::SteelSitDown);
        coaster.station_tile = track_tiles[0];
        let strut = coaster.coaster_type.strut_style();
        let mut track_pieces: Vec<TrackPiece> = Vec::new();
        let mut last_direction = TrackDirection::East;
        let len = track_tiles.len();
        let mut i: usize = 0;
        #[verifier::loop_isolation(false)]
        while i < len
            invariant
                i <= len,
                len == track_tiles.len(),
                track_pieces.len() == i,
            decreases len - i,
        {
            let current = track_tiles[i];
            let next = track_tiles[if i + 1 == len {
                0
            } else {
                i + 1
            }];
            let dx = next.0 as i64 - current.0 as i64;
            let dy = next.1 as i64 - current.1 as i64;
            let direction = if dx == 1 && dy == 0 {
                TrackDirection::East
            } else if dx == -1 && dy == 0 {
                TrackDirection::West
            } else if dx == 0 && dy == 1 {
                TrackDirection::South
            } else if dx == 0 && dy == -1 {
                TrackDirection::North
            } else {
                last_direction
            };
            let piece_type = if i == 0 {
                TrackPieceType::Station
            } else if direction == last_direction {
                TrackPieceType::StraightFlat
            } else {
                let turn_left = (last_direction == TrackDirection::North && direction
                    == TrackDirection::West) || (last_direction == TrackDirection::West
                    && direction == TrackDirection::South) || (last_direction
                    == TrackDirection::South && direction == TrackDirection::East) || (
                last_direction == TrackDirection::East && direction == TrackDirection::North);
                if turn_left {
                    TrackPieceType::TurnLeftFlat
                } else {
                    TrackPieceType::TurnRightFlat
                }
            };
            let mut piece = TrackPiece::new(piece_type, direction, 0);
            piece.strut_style = strut;
            track_pieces.push(piece);
            last_direction = direction;
            i += 1;
        }
        coaster.track_tiles = track_tiles;
        coaster.track_pieces = track_pieces;
        coaster.operating = true;
        coaster.add_trains(1, 3);
        let mut k: usize = 0;
        let nmark = coaster.track_tiles.len();
        #[verifier::loop_isolation(false)]
        while k < nmark
            invariant
                k <= nmark,
                nmark == coaster.track_tiles.len(),
                self.grid_size == old(self).grid_size,
                self.grid_size <= GRID_LIMIT,
                grid_wf(self.grid@, self.grid_size as int),
                *self == (GameState { grid: self.grid, ..*old(self) }),
            decreases nmark - k,
        {
            let t = coaster.track_tiles[k];
            self.mark_track_tile(t.0, t.1, 0);
            k += 1;
        }
        self.coasters.push(coaster);
        self.active_coaster_id = Some(0);
    }

    /// Lays out the starter park: a main path in from the west edge, a
    /// crossing branch, a park entrance, a food stand, and the
    /// demonstration coaster.
    fn setup_default_park(&mut self)
        requires
            old(self).grid_size <= GRID_LIMIT,
            grid_wf(old(self).grid@, old(self).grid_size as int),
            forall|i: int|
                0 <= i < old(self).coasters.len() ==> coaster_wf(
                    #[trigger] old(self).coasters@[i],
                ),
        ensures
            grid_wf(final(self).grid@, final(self).grid_size as int),
            final(self).coasters.len() == old(self).coasters.len() + 1,
            forall|i: int|
                0 <= i < final(self).coasters.len() ==> coaster_wf(
                    #[trigger] final(self).coasters@[i],
                ),
            *final(self) == (GameState {
                grid: final(self).grid,
                coasters: final(self).coasters,
                active_coaster_id: final(self).active_coaster_id,
                ..*old(self)
            }),
    {
        let mid = (self.grid_size as i32) / 2;
        let mut x: i32 = 0;
        #[verifier::loop_isolation(false)]
        while x < 8
            invariant
                0 <= x <= 8,
                self.grid_size == old(self).grid_size,
                self.grid_size <= GRID_LIMIT,
                grid_wf(self.grid@, self.grid_size as int),
                *self == (GameState { grid: self.grid, ..*old(self) }),
            decreases 8 - x,
        {
            self.place_path_tile(x, mid);
            x += 1;
        }
        let mut off: i32 = -4;
        #[verifier::loop_isolation(false)]
        while off <= 4
            invariant
                -4 <= off <= 5,
                -0x8000 <= mid <= 0x8000,
                self.grid_size == old(self).grid_size,
                self.grid_size <= GRID_LIMIT,
                grid_wf(self.grid@, self.grid_size as int),
                *self == (GameState { grid: self.grid, ..*old(self) }),
            decreases 5 - off,
        {
            self.place_path_tile(5, mid + off);
            off += 1;
        }
        self.place_building_tile(2, mid - 1, BuildingType::ParkEntrance);
        self.place_building_tile(6, mid - 1, BuildingType::FoodHotdog);
        self.create_demo_coaster();
    }

    /// A fresh world: a square grid of the given size with lakes dug in, a
    /// starter park laid out, a demonstration coaster running, fifty
    /// thousand in the treasury, a middling rating, normal speed, nine in
    /// the morning of the first of March, and a fixed random seed.
    pub fn new(grid_size: usize) -> (r: GameState)
        requires
            grid_size <= GRID_LIMIT,
        ensures
            state_wf(r),
            r.grid_size == grid_size,
            r.tick == 0,
            r.speed == 1,
            r.year == 1,
            r.month == 3,
            r.day == 1,
            r.hour == 9,
            r.minute == 0,
            r.guests@ == Seq::<Guest>::empty(),
            r.coasters.len() == 1,
            r.cash == 50000,
            r.park_rating == 500,
            r.selected_tool == Tool::Select,
            r.next_guest_id == 1,
    {
        let mut state = GameState {
            grid: Vec::new(),
            grid_size,
            tick: 0,
            speed: 1,
            year: 1,
            month: 3,
            day: 1,
            hour: 9,
            minute: 0,
            guests: Vec::new(),
            coasters: Vec::new(),
            active_coaster_id: None,
            cash: 50000,
            park_rating: 500,
            selected_tool: Tool::Select,
            rng: SimRng::new(12345),
            next_guest_id: 1,
        };
        state.initialize_grid();
        state.generate_lakes();
        state.setup_default_park();
        state
    }

    /// One tick of the whole simulation, in fixed order: nothing while
    /// paused; otherwise the calendar advances, every visitor is updated,
    /// a spawn is attempted, every train moves, and the park rating is
    /// recomputed. The treasury never shrinks during a tick.
    pub fn tick(&mut self)
        requires
            state_wf(*old(self)),
        ensures
            state_wf(*final(self)),
            old(self).speed == 0 ==> *final(self) == *old(self),
            old(self).speed != 0 ==> (final(self).minute as int, final(self).hour as int,
                final(self).day as int, final(self).month as int, final(self).year as int)
                == spec_next_clock(
                old(self).minute as int,
                old(self).hour as int,
                old(self).day as int,
                old(self).month as int,
                old(self).year as int,
                spec_minute_inc(old(self).hour as int),
            ),
            final(self).cash >= old(self).cash,
            old(self).guests.len() <= final(self).guests.len() <= old(self).guests.len() + 1,
            final(self).grid == old(self).grid,
            final(self).grid_size == old(self).grid_size,
            final(self).selected_tool == old(self).selected_tool,
            final(self).speed == old(self).speed,
            // The rating stands recomputed over the final visitors.
            old(self).speed != 0 && final(self).guests.len() > 0 ==> final(self).park_rating
                == spec_rating(final(self).guests@) as i32,
            // Visitors survive the tick; at most one new one joins.
            old(self).speed != 0 ==> (spec_guest_ids(final(self).guests@) == spec_guest_ids(
                old(self).guests@,
            ) || (exists|gid: u32|
                spec_guest_ids(final(self).guests@) == #[trigger] spec_guest_ids(
                    old(self).guests@,
                ).insert(gid))),
            // Every operating coaster's trains take the exact per-tick step.
            old(self).speed != 0 ==> final(self).coasters.len() == old(self).coasters.len()
                && (forall|i: int, t: int|
                0 <= i < final(self).coasters.len() && 0 <= t
                    < final(self).coasters@[i].trains.len() && old(self).coasters@[i].operating
                    && old(self).coasters@[i].track_pieces.len() > 0
                    ==> crate::trains::train_stepped(
                    old(self).coasters@[i].track_pieces@,
                    crate::trains::spec_station_idx(old(self).coasters@[i]),
                    crate::trains::spec_speed_halves(old(self).speed),
                    old(self).coasters@[i].trains@[t],
                    (#[trigger] final(self).coasters@[i].trains@[t]),
                )),
            // A coaster not operating, or without track, is untouched.
            old(self).speed != 0 ==> forall|i: int|
                0 <= i < final(self).coasters.len() && (!old(self).coasters@[i].operating || old(self).coasters@[i].track_pieces.len() == 0) ==> #[trigger] final(self).coasters@[i]
                    == old(self).coasters@[i],
    {
        if self.speed == 0 {
            return;
        }
        self.advance_time();
        crate::guest_ai::update_guests(self);
        let ghost mid = *self;
        crate::guest_ai::spawn_guests(self);
        proof {
            if self.guests@.len() == mid.guests@.len() + 1 {
                assert(self.guests@ =~= mid.guests@.push(self.guests@.last()));
                lemma_guest_ids_push(mid.guests@, self.guests@.last());
            }
        }
        crate::trains::update_trains(self);
        self.update_park_rating();
    }
}

} // verus!

verus! {

/// Extends a track by one piece at the given tile, if the tile continues
/// the track: it must be orthogonally adjacent to the last laid tile, and
/// the track must have room. A track that closes into a complete loop
/// starts operating with one three-car train.
fn extend_track(c: &mut Coaster, grid_x: i32, grid_y: i32, piece_type: TrackPieceType) -> (added:
    bool)
    requires
        coaster_wf(*old(c)),
    ensures
        coaster_wf(*final(c)),
        !added ==> *final(c) == *old(c),
        added ==> final(c).track_tiles@ == old(c).track_tiles@.push((grid_x, grid_y)),
        final(c).id == old(c).id,
        final(c).name == old(c).name,
        final(c).coaster_type == old(c).coaster_type,
        final(c).station_tile == old(c).station_tile,
{
    let len = c.track_tiles.len();
    if len == 0 || len >= MAX_TRACK_PIECES {
        return false;
    }
    let last = c.track_tiles[len - 1];
    let dx = grid_x as i64 - last.0 as i64;
    let dy = grid_y as i64 - last.1 as i64;
    let adx: i64 = if dx >= 0 {
        dx
    } else {
        -dx
    };
    let ady: i64 = if dy >= 0 {
        dy
    } else {
        -dy
    };
    if adx + ady != 1 {
        return false;
    }
    let direction = if dx == 1 && dy == 0 {
        TrackDirection::East
    } else if dx == -1 && dy == 0 {
        TrackDirection::West
    } else if dx == 0 && dy == 1 {
        TrackDirection::South
    } else {
        TrackDirection::North
    };
    let start_height = c.track_pieces[len - 1].end_height;
    if start_height > 1_000_000 || start_height < -1_000_000 {
        return false;
    }
    let mut piece = TrackPiece::new(piece_type, direction, start_height);
    piece.strut_style = c.coaster_type.strut_style();
    c.track_tiles.push((grid_x, grid_y));
    c.track_pieces.push(piece);
    if c.is_complete() {
        c.operating = true;
        c.add_trains(1, 3);
    }
    true
}

/// Wraps every car's position into a track of length `m`; positions
/// already inside it are unchanged.
fn wrap_train(train: &mut Train, m: u64)
    requires
        m >= 1,
    ensures
        final(train).cars.len() == old(train).cars.len(),
        train_bounded(*final(train), m as int) || old(train).cars.len() == 0,
        old(train).cars.len() >= 1 ==> train_bounded(*final(train), m as int),
        *final(train) == (Train { cars: final(train).cars, ..*old(train) }),
        forall|i: int|
            0 <= i < final(train).cars.len() ==> (#[trigger] final(train).cars@[i]).track_progress
                == old(train).cars@[i].track_progress as int % m as int && final(train).cars@[i].velocity == old(train).cars@[i].velocity,
    {
    let n = train.cars.len();
    let ghost tsnap = *train;
    let mut i: usize = 0;
    #[verifier::loop_isolation(false)]
    while i < n
        invariant
            n == train.cars.len(),
            i <= n,
            *train == (Train { cars: train.cars, ..tsnap }),
            forall|j: int| i <= j < n ==> #[trigger] train.cars@[j] == tsnap.cars@[j],
            forall|j: int|
                0 <= j < i ==> (#[trigger] train.cars@[j]).track_progress == tsnap.cars@[
                    j].track_progress as int % m as int && train.cars@[j].track_progress < m
                    && train.cars@[j].velocity == tsnap.cars@[j].velocity,
        decreases n - i,
    {
        let car = train.cars[i];
        train.cars.set(
            i,
            TrainCar { track_progress: car.track_progress % m, velocity: car.velocity },
        );
        i += 1;
    }
}

/// The decimal digits of a non-negative number.
pub open spec fn spec_decimal(n: int) -> Seq<char>
    decreases n,
{
    if n < 0 {
        Seq::empty()
    } else if n < 10 {
        seq![spec_digit(n)]
    } else {
        spec_decimal(n / 10).push(spec_digit(n % 10))
    }
}

/// The character of one decimal digit.
pub open spec fn spec_digit(d: int) -> char {
    if d == 0 {
        '0'
    } else if d == 1 {
        '1'
    } else if d == 2 {
        '2'
    } else if d == 3 {
        '3'
    } else if d == 4 {
        '4'
    } else if d == 5 {
        '5'
    } else if d == 6 {
        '6'
    } else if d == 7 {
        '7'
    } else if d == 8 {
        '8'
    } else {
        '9'
    }
}

/// Relies on std's `format!`: it renders the number after the fixed
/// prefix in decimal, most significant digit first.
#[verifier::external_body]
fn custom_coaster_name(n: u32) -> (r: String)
    ensures
        r@ == "Custom Coaster "@ + spec_decimal(n as int),
{
    format!("Custom Coaster {}", n)
}

/// Removes every track record at the given tile from a track; the station
/// moves to the first remaining tile if it was removed. A track left
/// shorter than two tiles, or no longer a closed loop, stops operating
/// and loses its trains; one still complete has its trains re-pinned to
/// the shortened track.
fn remove_track_piece(c: &mut Coaster, grid_x: i32, grid_y: i32)
    requires
        coaster_wf(*old(c)),
    ensures
        coaster_wf(*final(c)),
        final(c).id == old(c).id,
        final(c).name == old(c).name,
        final(c).coaster_type == old(c).coaster_type,
{
    let len = c.track_tiles.len();
    let mut new_tiles: Vec<(i32, i32)> = Vec::new();
    let mut new_pieces: Vec<TrackPiece> = Vec::new();
    let mut removed_station = false;
    let mut k: usize = 0;
    #[verifier::loop_isolation(false)]
    while k < len
        invariant
            k <= len,
            len == c.track_tiles.len(),
            c.track_pieces.len() == len,
            new_tiles.len() == new_pieces.len(),
            new_tiles.len() <= k,
        decreases len - k,
    {
        let t = c.track_tiles[k];
        if t.0 == grid_x && t.1 == grid_y {
            if c.station_tile.0 == t.0 && c.station_tile.1 == t.1 {
                removed_station = true;
            }
        } else {
            new_tiles.push(t);
            new_pieces.push(c.track_pieces[k]);
        }
        k += 1;
    }
    c.track_tiles = new_tiles;
    c.track_pieces = new_pieces;
    if removed_station && c.track_tiles.len() > 0 {
        c.station_tile = c.track_tiles[0];
    }
    let ghost old_after_rebuild: Coaster = *c;
    let short = c.track_tiles.len() < 2;
    if short || !c.is_complete() {
        c.operating = false;
        c.trains = Vec::new();
    } else {
        // A still-complete track keeps its trains; their positions wrap
        // into the shortened track.
        let m: u64 = (c.track_pieces.len() as u64) * POS_SCALE;
        let nt = c.trains.len();
        let mut t: usize = 0;
        #[verifier::loop_isolation(false)]
        while t < nt
            invariant
                nt == c.trains.len(),
                t <= nt,
                m == spec_track_len(*c),
                m >= 1,
                *c == (Coaster { trains: c.trains, ..old_after_rebuild }),
                forall|j: int|
                    0 <= j < nt ==> (#[trigger] c.trains@[j]).cars.len()
                        == old_after_rebuild.trains@[j].cars.len(),
                forall|j: int|
                    0 <= j < t ==> train_bounded(#[trigger] c.trains@[j], m as int),
            decreases nt - t,
        {
            wrap_train(&mut c.trains[t], m);
            t += 1;
        }
    }
}

impl GameState {
    /// The index of the active track: the one the active identifier
    /// names, or the first track when none is named.
    fn active_coaster_index(&self) -> (r: Option<usize>)
        ensures
            match r {
                Some(i) => i < self.coasters.len() && (match self.active_coaster_id {
                    Some(id) => self.coasters@[i as int].id == id,
                    None => i == 0,
                }),
                None => match self.active_coaster_id {
                    Some(id) => forall|j: int|
                        0 <= j < self.coasters.len() ==> (#[trigger] self.coasters@[j]).id != id,
                    None => self.coasters.len() == 0,
                },
            },
    {
        match self.active_coaster_id {
            Some(id) => {
                let n = self.coasters.len();
                let mut i: usize = 0;
                #[verifier::loop_isolation(false)]
                while i < n
                    invariant
                        i <= n,
                        n == self.coasters.len(),
                        forall|j: int|
                            0 <= j < i ==> (#[trigger] self.coasters@[j]).id != id,
                    decreases n - i,
                {
                    if self.coasters[i].id == id {
                        return Some(i);
                    }
                    i += 1;
                }
                None
            },
            None => if self.coasters.len() > 0 {
                Some(0)
            } else {
                None
            },
        }
    }

    /// Starts a new track with a station piece on the tile, if the tile is
    /// free of water, structures and track and the cost is covered. The
    /// new track becomes the active one.
    fn place_coaster_station(&mut self, grid_x: i32, grid_y: i32, cost: i32)
        requires
            state_wf(*old(self)),
            0 <= cost <= 30000,
        ensures
            state_wf(*final(self)),
            old(self).cash - cost <= final(self).cash <= old(self).cash,
            *final(self) == (GameState {
                grid: final(self).grid,
                coasters: final(self).coasters,
                active_coaster_id: final(self).active_coaster_id,
                cash: final(self).cash,
                ..*old(self)
            }),
    {
        if self.cash < cost as i64 {
            return;
        }
        if !self.in_bounds(grid_x, grid_y) {
            return;
        }
        let tile = self.grid[grid_y as usize][grid_x as usize].clone();
        if matches!(tile.terrain, Terrain::Water) || tile.building.is_some()
            || tile.has_coaster_track {
            return;
        }
        if self.coasters.len() >= 0xffff {
            return;
        }
        let coaster_id = (self.coasters.len() + 1) as u32;
        let mut coaster = Coaster::new(
            coaster_id,
            custom_coaster_name(coaster_id),
            CoasterType::SteelSitDown,
        );
        coaster.station_tile = (grid_x, grid_y);
        let mut piece = TrackPiece::new(TrackPieceType::Station, TrackDirection::East, 0);
        piece.strut_style = coaster.coaster_type.strut_style();
        coaster.track_tiles.push((grid_x, grid_y));
        coaster.track_pieces.push(piece);
        self.coasters.push(coaster);
        self.active_coaster_id = Some(coaster_id);
        self.mark_track_tile_keep_terrain(grid_x, grid_y, coaster_id);
        self.cash = self.cash - cost as i64;
    }

    /// Marks the tile as carrying coaster track, leaving its terrain as it
    /// is, if it is inside the grid.
    fn mark_track_tile_keep_terrain(&mut self, x: i32, y: i32, track_id: u32)
        requires
            old(self).grid_size <= GRID_LIMIT,
            grid_wf(old(self).grid@, old(self).grid_size as int),
        ensures
            grid_wf(final(self).grid@, final(self).grid_size as int),
            *final(self) == (GameState { grid: final(self).grid, ..*old(self) }),
    {
        if self.in_bounds(x, y) {
            let mut tile = self.grid[y as usize][x as usize].clone();
            tile.has_coaster_track = true;
            tile.coaster_track_id = Some(track_id);
            self.set_tile(x, y, tile);
        }
    }

    /// Lays one piece of the given type onto the active track at the tile,
    /// if the tile is free, continues the track, and the cost is covered.
    fn place_coaster_track(&mut self, grid_x: i32, grid_y: i32, piece_type: TrackPieceType,
        cost: i32)
        requires
            state_wf(*old(self)),
            0 <= cost <= 30000,
        ensures
            state_wf(*final(self)),
            old(self).cash - cost <= final(self).cash <= old(self).cash,
            *final(self) == (GameState {
                grid: final(self).grid,
                coasters: final(self).coasters,
                cash: final(self).cash,
                ..*old(self)
            }),
    {
        if self.cash < cost as i64 {
            return;
        }
        if !self.in_bounds(grid_x, grid_y) {
            return;
        }
        let tile = self.grid[grid_y as usize][grid_x as usize].clone();
        if matches!(tile.terrain, Terrain::Water) || tile.building.is_some()
            || tile.has_coaster_track {
            return;
        }
        let idx = match self.active_coaster_index() {
            Some(i) => i,
            None => {
                return ;
            },
        };
        let added = extend_track(&mut self.coasters[idx], grid_x, grid_y, piece_type);
        if added {
            let track_id = self.coasters[idx].id;
            self.mark_track_tile_keep_terrain(grid_x, grid_y, track_id);
            self.cash = self.cash - cost as i64;
        }
    }

    /// Clears coaster track from the tile, removing the matching record
    /// from its owning track; reports whether anything was cleared.
    fn clear_track_tile(&mut self, grid_x: i32, grid_y: i32) -> (r: bool)
        requires
            state_wf(*old(self)),
        ensures
            state_wf(*final(self)),
            *final(self) == (GameState {
                grid: final(self).grid,
                coasters: final(self).coasters,
                ..*old(self)
            }),
            !r ==> *final(self) == *old(self),
    {
        if !self.in_bounds(grid_x, grid_y) {
            return false;
        }
        let tile = self.grid[grid_y as usize][grid_x as usize].clone();
        if !tile.has_coaster_track {
            return false;
        }
        let track_id = tile.coaster_track_id;
        let mut cleared = tile;
        cleared.has_coaster_track = false;
        cleared.coaster_track_id = None;
        self.set_tile(grid_x, grid_y, cleared);
        if let Some(id) = track_id {
            let n = self.coasters.len();
            let mut i: usize = 0;
            #[verifier::loop_isolation(false)]
            while i < n
                invariant
                    i <= n,
                    n == self.coasters.len(),
                    state_wf(*self),
                    *self == (GameState {
                        grid: self.grid,
                        coasters: self.coasters,
                        ..*old(self)
                    }),
                decreases n - i,
            {
                if self.coasters[i].id == id {
                    remove_track_piece(&mut self.coasters[i], grid_x, grid_y);
                    return true;
                }
                i += 1;
            }
        }
        true
    }
}

} // verus!

verus! {

impl GameState {
    /// Applies the selected tool at a grid cell, spending at most the
    /// tool's cost, and only when the tool did something.
    ///
    /// A path or queue surface is laid exactly when the tile accepts one
    /// and the cost is covered; a structure is placed exactly when the
    /// tile is free grass and the cost is covered; the bulldozer removes
    /// the tile's structure, surface, or nearby track; the coaster tools
    /// grow the active track. Coordinates outside the grid do nothing.
    pub fn apply_tool(&mut self, grid_x: i32, grid_y: i32)
        requires
            state_wf(*old(self)),
        ensures
            state_wf(*final(self)),
            old(self).cash - spec_tool_cost(old(self).selected_tool) <= final(self).cash
                <= old(self).cash,
            *final(self) == (GameState {
                grid: final(self).grid,
                coasters: final(self).coasters,
                active_coaster_id: final(self).active_coaster_id,
                cash: final(self).cash,
                ..*old(self)
            }),
            !(0 <= grid_x < old(self).grid_size && 0 <= grid_y < old(self).grid_size)
                ==> *final(self) == *old(self),
            old(self).selected_tool == Tool::Select ==> *final(self) == *old(self),
            (0 <= grid_x < old(self).grid_size && 0 <= grid_y < old(self).grid_size
                && old(self).selected_tool == Tool::Path) ==> ({
                let t = old(self).grid@[grid_y as int]@[grid_x as int];
                if t.terrain == Terrain::Grass && t.building is None && !t.has_coaster_track
                    && old(self).cash >= 10 {
                    final(self).grid@[grid_y as int]@[grid_x as int].path && final(self).cash
                        == old(self).cash - 10
                } else {
                    *final(self) == *old(self)
                }
            }),
            (0 <= grid_x < old(self).grid_size && 0 <= grid_y < old(self).grid_size
                && old(self).selected_tool == Tool::Queue) ==> ({
                let t = old(self).grid@[grid_y as int]@[grid_x as int];
                if t.terrain == Terrain::Grass && t.building is None && !t.has_coaster_track
                    && old(self).cash >= 15 {
                    final(self).grid@[grid_y as int]@[grid_x as int].queue && final(self).cash
                        == old(self).cash - 15
                } else {
                    *final(self) == *old(self)
                }
            }),
            (0 <= grid_x < old(self).grid_size && 0 <= grid_y < old(self).grid_size
                && spec_tool_building(old(self).selected_tool) is Some) ==> ({
                let t = old(self).grid@[grid_y as int]@[grid_x as int];
                let b = spec_tool_building(old(self).selected_tool)->0;
                if t.terrain == Terrain::Grass && t.building is None && !t.path && !t.queue
                    && !t.has_coaster_track && old(self).cash >= spec_tool_cost(
                    old(self).selected_tool,
                ) {
                    final(self).grid@[grid_y as int]@[grid_x as int].building == Some(
                        Building { building_type: b },
                    ) && final(self).cash == old(self).cash - spec_tool_cost(
                        old(self).selected_tool,
                    )
                } else {
                    *final(self) == *old(self)
                }
            }),
    {
        if grid_x < 0 || grid_y < 0 {
            return;
        }
        let x = grid_x as usize;
        let y = grid_y as usize;
        if x >= self.grid_size || y >= self.grid_size {
            return;
        }
        let cost = self.selected_tool.cost();
        match self.selected_tool {
            Tool::Select => {},
            Tool::Bulldoze => {
                if self.cash < cost as i64 {
                    return;
                }
                let tile = self.grid[y][x].clone();
                let mut did_remove = false;
                if tile.building.is_some() {
                    let mut t2 = tile;
                    t2.building = None;
                    self.set_tile(grid_x, grid_y, t2);
                    did_remove = true;
                } else if tile.path {
                    let mut t2 = tile;
                    t2.path = false;
                    self.set_tile(grid_x, grid_y, t2);
                    did_remove = true;
                } else if tile.queue {
                    let mut t2 = tile;
                    t2.queue = false;
                    t2.queue_ride_id = None;
                    self.set_tile(grid_x, grid_y, t2);
                    did_remove = true;
                } else {
                    if self.clear_track_tile(grid_x, grid_y) {
                        did_remove = true;
                    } else {
                        let mut k: usize = 0;
                        #[verifier::loop_isolation(false)]
                        while k < 4
                            invariant
                                k <= 4,
                                0 <= grid_x < self.grid_size,
                                0 <= grid_y < self.grid_size,
                                state_wf(*self),
                                *self == (GameState {
                                    grid: self.grid,
                                    coasters: self.coasters,
                                    ..*old(self)
                                }),
                            decreases 4 - k,
                        {
                            let (dx, dy): (i32, i32) = if k == 0 {
                                (1, 0)
                            } else if k == 1 {
                                (-1, 0)
                            } else if k == 2 {
                                (0, 1)
                            } else {
                                (0, -1)
                            };
                            if self.clear_track_tile(grid_x + dx, grid_y + dy) {
                                did_remove = true;
                                break;
                            }
                            k += 1;
                        }
                    }
                }
                if did_remove {
                    self.cash = self.cash - cost as i64;
                }
            },
            Tool::Path => {
                let tile = self.grid[y][x].clone();
                if tile.can_place_path() && self.cash >= cost as i64 {
                    let mut t2 = tile;
                    t2.path = true;
                    self.set_tile(grid_x, grid_y, t2);
                    self.cash = self.cash - cost as i64;
                }
            },
            Tool::Queue => {
                let tile = self.grid[y][x].clone();
                if tile.can_place_path() && self.cash >= cost as i64 {
                    let mut t2 = tile;
                    t2.queue = true;
                    self.set_tile(grid_x, grid_y, t2);
                    self.cash = self.cash - cost as i64;
                }
            },
            Tool::CoasterStation => {
                self.place_coaster_station(grid_x, grid_y, cost);
            },
            Tool::CoasterTrackStraight => {
                self.place_coaster_track(grid_x, grid_y, TrackPieceType::StraightFlat, cost);
            },
            Tool::CoasterTrackTurnLeft => {
                self.place_coaster_track(grid_x, grid_y, TrackPieceType::TurnLeftFlat, cost);
            },
            Tool::CoasterTrackTurnRight => {
                self.place_coaster_track(grid_x, grid_y, TrackPieceType::TurnRightFlat, cost);
            },
            Tool::CoasterTrackSlopeUp => {
                self.place_coaster_track(grid_x, grid_y, TrackPieceType::SlopeUpSmall, cost);
            },
            Tool::CoasterTrackSlopeDown => {
                self.place_coaster_track(grid_x, grid_y, TrackPieceType::SlopeDownSmall, cost);
            },
            Tool::CoasterTrackSlopeUpMedium => {
                self.place_coaster_track(grid_x, grid_y, TrackPieceType::SlopeUpMedium, cost);
            },
            Tool::CoasterTrackSlopeDownMedium => {
                self.place_coaster_track(grid_x, grid_y, TrackPieceType::SlopeDownMedium, cost);
            },
            Tool::CoasterTrackLiftHill => {
                self.place_coaster_track(grid_x, grid_y, TrackPieceType::LiftHill, cost);
            },
            Tool::CoasterTrackLoop => {
                self.place_coaster_track(grid_x, grid_y, TrackPieceType::LoopVertical, cost);
            },
            Tool::CoasterTrackCorkscrew => {
                self.place_coaster_track(grid_x, grid_y, TrackPieceType::Corkscrew, cost);
            },
            Tool::CoasterTrackBrakes => {
                self.place_coaster_track(grid_x, grid_y, TrackPieceType::Brakes, cost);
            },
            _ => {
                let tile = self.grid[y][x].clone();
                if let Some(building_type) = self.selected_tool.building_type() {
                    if tile.can_build() && self.cash >= cost as i64 {
                        let mut t2 = tile;
                        t2.building = Some(Building::new(building_type));
                        self.set_tile(grid_x, grid_y, t2);
                        self.cash = self.cash - cost as i64;
                    }
                }
            },
        }
    }
}

} // verus!
