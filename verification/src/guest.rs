//! Visitor agents: their behavioural state, decaying needs, wallet and
//! appearance. Needs, happiness, timers and the walk interpolation are held
//! in thousandths, clamped to their documented ranges.

use vstd::prelude::*;
use crate::rng::SimRng;

verus! {

/// The highest value a need or happiness may take: one hundred points, in
/// thousandths.
pub const NEED_MAX: u32 = 100_000;

/// The behavioural state of a visitor.
#[derive(Clone, Copy, PartialEq, Eq, Structural, Debug)]
pub enum GuestState {
    Entering,
    Walking,
    Queuing,
    Riding,
    Eating,
    Shopping,
    Leaving,
    ExitingBuilding,
}

/// Visitors enter the park in the entering state.
impl Default for GuestState {
    fn default() -> (r: GuestState)
        ensures
            r == GuestState::Entering,
    {
        GuestState::Entering
    }
}

/// The facing of a visitor.
#[derive(Clone, Copy, PartialEq, Eq, Structural, Debug)]
pub enum Direction {
    North,
    East,
    South,
    West,
}

/// Visitors face south until they move.
impl Default for Direction {
    fn default() -> (r: Direction)
        ensures
            r == Direction::South,
    {
        Direction::South
    }
}

/// The kind of destination a visitor heads for.
#[derive(Clone, Copy, PartialEq, Eq, Structural, Debug)]
pub enum TargetKind {
    Ride,
    Food,
    Shop,
}

/// A visitor's color palette.
#[derive(Clone, Debug)]
pub struct GuestColors {
    pub skin: String,
    pub shirt: String,
    pub pants: String,
    pub hat: String,
}

/// The skin tones visitors are drawn with.
pub open spec fn spec_skin_color(idx: int) -> &'static str {
    if idx == 0 { "#ffd5b4" }
    else if idx == 1 { "#f5c9a6" }
    else if idx == 2 { "#e5b898" }
    else if idx == 3 { "#d4a574" }
    else if idx == 4 { "#c49462" }
    else if idx == 5 { "#a67b5b" }
    else { "#8b6b4a" }
}

/// The shirt colors visitors are drawn with.
pub open spec fn spec_shirt_color(idx: int) -> &'static str {
    if idx == 0 { "#ef4444" }
    else if idx == 1 { "#f97316" }
    else if idx == 2 { "#eab308" }
    else if idx == 3 { "#22c55e" }
    else if idx == 4 { "#3b82f6" }
    else if idx == 5 { "#8b5cf6" }
    else if idx == 6 { "#ec4899" }
    else if idx == 7 { "#06b6d4" }
    else { "#f43f5e" }
}

/// The pants colors visitors are drawn with.
pub open spec fn spec_pants_color(idx: int) -> &'static str {
    if idx == 0 { "#1e293b" }
    else if idx == 1 { "#475569" }
    else if idx == 2 { "#64748b" }
    else if idx == 3 { "#0f172a" }
    else if idx == 4 { "#1e3a5a" }
    else { "#422006" }
}

/// The hat colors visitors are drawn with.
pub open spec fn spec_hat_color(idx: int) -> &'static str {
    if idx == 0 { "#ef4444" }
    else if idx == 1 { "#f97316" }
    else if idx == 2 { "#eab308" }
    else if idx == 3 { "#22c55e" }
    else if idx == 4 { "#3b82f6" }
    else if idx == 5 { "#8b5cf6" }
    else { "#ffffff" }
}

/// The skin tone at the given palette index.
pub fn skin_color(idx: u64) -> (r: &'static str)
    requires
        idx < 7,
    ensures
        r == spec_skin_color(idx as int),
{
    match idx {
        0 => "#ffd5b4",
        1 => "#f5c9a6",
        2 => "#e5b898",
        3 => "#d4a574",
        4 => "#c49462",
        5 => "#a67b5b",
        _ => "#8b6b4a",
    }
}

/// The shirt color at the given palette index.
pub fn shirt_color(idx: u64) -> (r: &'static str)
    requires
        idx < 9,
    ensures
        r == spec_shirt_color(idx as int),
{
    match idx {
        0 => "#ef4444",
        1 => "#f97316",
        2 => "#eab308",
        3 => "#22c55e",
        4 => "#3b82f6",
        5 => "#8b5cf6",
        6 => "#ec4899",
        7 => "#06b6d4",
        _ => "#f43f5e",
    }
}

/// The pants color at the given palette index.
pub fn pants_color(idx: u64) -> (r: &'static str)
    requires
        idx < 6,
    ensures
        r == spec_pants_color(idx as int),
{
    match idx {
        0 => "#1e293b",
        1 => "#475569",
        2 => "#64748b",
        3 => "#0f172a",
        4 => "#1e3a5a",
        _ => "#422006",
    }
}

/// The hat color at the given palette index.
pub fn hat_color(idx: u64) -> (r: &'static str)
    requires
        idx < 7,
    ensures
        r == spec_hat_color(idx as int),
{
    match idx {
        0 => "#ef4444",
        1 => "#f97316",
        2 => "#eab308",
        3 => "#22c55e",
        4 => "#3b82f6",
        5 => "#8b5cf6",
        _ => "#ffffff",
    }
}

/// A visitor in the park.
///
/// Positions are tile coordinates plus a walk interpolation `progress` in
/// thousandths of a tile; needs and happiness are points in thousandths,
/// clamped to `[0, NEED_MAX]`; timers are ticks in thousandths. The
/// destination reference is a weak grid key: the structure it names may
/// have been removed, and a lookup must tolerate the miss.
pub struct Guest {
    pub id: u32,
    pub tile_x: i32,
    pub tile_y: i32,
    pub target_x: i32,
    pub target_y: i32,
    pub progress: u32,
    pub direction: Direction,
    pub state: GuestState,
    pub last_state: GuestState,
    pub target_building_id: Option<(i32, i32)>,
    pub target_building_kind: Option<TargetKind>,
    pub path: Vec<(i32, i32)>,
    pub path_index: usize,
    pub queue_ride_id: Option<u32>,
    pub queue_timer: u32,
    pub hunger: u32,
    pub thirst: u32,
    pub bathroom: u32,
    pub energy: u32,
    pub happiness: u32,
    pub nausea: u32,
    pub cash: i32,
    pub total_spent: i32,
    pub time_in_park: u32,
    pub decision_cooldown: u32,
    pub colors: GuestColors,
    pub has_hat: bool,
    pub walk_offset: u32,
}

/// Needs and happiness sit inside their documented range.
pub open spec fn needs_wf(g: Guest) -> bool {
    &&& g.hunger <= NEED_MAX
    &&& g.thirst <= NEED_MAX
    &&& g.bathroom <= NEED_MAX
    &&& g.energy <= NEED_MAX
    &&& g.happiness <= NEED_MAX
    &&& g.nausea <= NEED_MAX
}

/// The wallet never goes negative, and what was spent stays accounted for.
pub open spec fn wallet_wf(g: Guest) -> bool {
    &&& g.cash >= 0
    &&& g.total_spent >= 0
    &&& g.cash + g.total_spent <= i32::MAX
}

/// A well-formed visitor: needs in range, wallet sound, walk interpolation
/// below one tile, and the waypoint cursor inside the waypoint sequence.
pub open spec fn guest_wf(g: Guest) -> bool {
    &&& needs_wf(g)
    &&& wallet_wf(g)
    &&& g.progress < 1000
    &&& g.path_index <= g.path.len()
}

impl Guest {
    /// A fresh visitor at the given entrance tile of a square grid,
    /// stepping inward from the edge it entered on, with randomized needs,
    /// cash and appearance.
    pub fn new(id: u32, entrance_x: i32, entrance_y: i32, grid_size: usize, rng: &mut SimRng)
        -> (r: Guest)
        requires
            grid_size <= 0x10000,
            0 <= entrance_x < grid_size,
            0 <= entrance_y < grid_size,
        ensures
            r.id == id,
            r.tile_x == entrance_x,
            r.tile_y == entrance_y,
            entrance_x == 0 ==> r.target_x == entrance_x + 1 && r.target_y == entrance_y
                && r.direction == Direction::South,
            entrance_x != 0 && entrance_x == grid_size - 1 ==> r.target_x == entrance_x - 1
                && r.target_y == entrance_y && r.direction == Direction::North,
            entrance_x != 0 && entrance_x != grid_size - 1 && entrance_y == 0
                ==> r.target_x == entrance_x && r.target_y == entrance_y + 1
                && r.direction == Direction::West,
            entrance_x != 0 && entrance_x != grid_size - 1 && entrance_y != 0
                && entrance_y == grid_size - 1 ==> r.target_x == entrance_x
                && r.target_y == entrance_y - 1 && r.direction == Direction::East,
            entrance_x != 0 && entrance_x != grid_size - 1 && entrance_y != 0
                && entrance_y != grid_size - 1 ==> r.target_x == entrance_x
                && r.target_y == entrance_y + 1 && r.direction == Direction::South,
            r.progress == 0,
            r.state == GuestState::Entering,
            r.last_state == GuestState::Entering,
            r.target_building_id is None,
            r.target_building_kind is None,
            r.path@ == Seq::<(i32, i32)>::empty(),
            r.path_index == 0,
            r.queue_ride_id is None,
            r.queue_timer == 0,
            20_000 <= r.hunger < 50_000,
            20_000 <= r.thirst < 50_000,
            10_000 <= r.bathroom < 30_000,
            80_000 <= r.energy < 100_000,
            70_000 <= r.happiness < 100_000,
            r.nausea == 0,
            30 <= r.cash <= 99,
            r.total_spent == 0,
            r.time_in_park == 0,
            20_000 <= r.decision_cooldown < 60_000,
            guest_wf(r),
    {
        let size = grid_size as i32;
        let (target_x, target_y, direction) = if entrance_x == 0 {
            (entrance_x + 1, entrance_y, Direction::South)
        } else if entrance_x == size - 1 {
            (entrance_x - 1, entrance_y, Direction::North)
        } else if entrance_y == 0 {
            (entrance_x, entrance_y + 1, Direction::West)
        } else if entrance_y == size - 1 {
            (entrance_x, entrance_y - 1, Direction::East)
        } else {
            (entrance_x, entrance_y + 1, Direction::South)
        };
        let skin_idx = rng.below(7);
        let shirt_idx = rng.below(9);
        let pants_idx = rng.below(6);
        let hat_idx = rng.below(7);
        let hunger: u32 = 20_000 + rng.below(30_000) as u32;
        let thirst: u32 = 20_000 + rng.below(30_000) as u32;
        let bathroom: u32 = 10_000 + rng.below(20_000) as u32;
        let energy: u32 = 80_000 + rng.below(20_000) as u32;
        let happiness: u32 = 70_000 + rng.below(30_000) as u32;
        let cash: i32 = 30 + rng.below(70) as i32;
        let decision_cooldown: u32 = 20_000 + rng.below(40_000) as u32;
        let has_hat = rng.milli() > 700;
        let walk_offset: u32 = rng.below(6283) as u32;
        Guest {
            id,
            tile_x: entrance_x,
            tile_y: entrance_y,
            target_x,
            target_y,
            progress: 0,
            direction,
            state: GuestState::Entering,
            last_state: GuestState::Entering,
            target_building_id: None,
            target_building_kind: None,
            path: Vec::new(),
            path_index: 0,
            queue_ride_id: None,
            queue_timer: 0,
            hunger,
            thirst,
            bathroom,
            energy,
            happiness,
            nausea: 0,
            cash,
            total_spent: 0,
            time_in_park: 0,
            decision_cooldown,
            colors: GuestColors {
                skin: skin_color(skin_idx).to_owned(),
                shirt: shirt_color(shirt_idx).to_owned(),
                pants: pants_color(pants_idx).to_owned(),
                hat: hat_color(hat_idx).to_owned(),
            },
            has_hat,
            walk_offset,
        }
    }
}

} // verus!
