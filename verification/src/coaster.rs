//! Coaster tracks, track pieces and trains.
//!
//! A track is an ordered, cyclic sequence of (tile, piece) records; a train
//! is an ordered sequence of cars whose lead car moves along the track and
//! whose trailing cars are derived from it at a fixed spacing. Positions
//! are measured in thousandths of a track piece, so a track of `n` pieces
//! is `1000 * n` units long.

use vstd::prelude::*;
use crate::modmath::pos_mod;
use crate::modmath::lemma_pos_mod_sub;
use crate::modmath::lemma_pos_mod_unique;
use crate::modmath::wrap_sub;

verus! {

/// Thousandths of a track piece per position unit.
pub const POS_SCALE: u64 = 1000;

/// The fixed spacing between consecutive cars of a train, in thousandths of
/// a track piece.
pub const CAR_SPACING: u64 = 180;

/// The most track pieces a single track may hold.
pub const MAX_TRACK_PIECES: usize = 0x10000;

/// The facing of a track piece.
#[derive(Clone, Copy, PartialEq, Eq, Structural, Debug)]
pub enum TrackDirection {
    North,
    East,
    South,
    West,
}

/// Tracks face north until laid.
impl Default for TrackDirection {
    fn default() -> (r: TrackDirection)
        ensures
            r == TrackDirection::North,
    {
        TrackDirection::North
    }
}

/// The geometry of one track piece.
#[derive(Clone, Copy, PartialEq, Eq, Structural, Debug)]
pub enum TrackPieceType {
    StraightFlat,
    TurnLeftFlat,
    TurnRightFlat,
    SlopeUpSmall,
    SlopeUpMedium,
    SlopeDownSmall,
    SlopeDownMedium,
    LoopVertical,
    Corkscrew,
    Station,
    LiftHill,
    Brakes,
}

/// A plain straight piece is the default geometry.
impl Default for TrackPieceType {
    fn default() -> (r: TrackPieceType)
        ensures
            r == TrackPieceType::StraightFlat,
    {
        TrackPieceType::StraightFlat
    }
}

/// The visual style of a track's support struts.
#[derive(Clone, Copy, PartialEq, Eq, Structural, Debug)]
pub enum StrutStyle {
    Wood,
    Metal,
}

/// Metal struts are the default.
impl Default for StrutStyle {
    fn default() -> (r: StrutStyle)
        ensures
            r == StrutStyle::Metal,
    {
        StrutStyle::Metal
    }
}

/// The style of a coaster: its vehicles and default colors.
#[derive(Clone, Copy, PartialEq, Eq, Structural, Debug)]
pub enum CoasterType {
    WoodenClassic,
    WoodenTwister,
    SteelSitDown,
    SteelInverted,
    SteelFloorless,
    SteelWing,
    SteelFlying,
    MineTrain,
    WaterCoaster,
    LaunchCoaster,
    HyperCoaster,
    GigaCoaster,
}

/// A plain steel sit-down coaster is the default style.
impl Default for CoasterType {
    fn default() -> (r: CoasterType)
        ensures
            r == CoasterType::SteelSitDown,
    {
        CoasterType::SteelSitDown
    }
}

/// The strut style of each coaster style: wood for the wooden coasters,
/// metal for all others.
pub open spec fn spec_strut_style(t: CoasterType) -> StrutStyle {
    match t {
        CoasterType::WoodenClassic | CoasterType::WoodenTwister => StrutStyle::Wood,
        _ => StrutStyle::Metal,
    }
}

/// The default primary color of each coaster style.
pub open spec fn spec_primary_color(t: CoasterType) -> &'static str {
    match t {
        CoasterType::WoodenClassic => "#8B4513",
        CoasterType::WoodenTwister => "#A0522D",
        CoasterType::SteelSitDown => "#dc2626",
        CoasterType::SteelInverted => "#2563eb",
        CoasterType::SteelFloorless => "#059669",
        CoasterType::SteelWing => "#ea580c",
        CoasterType::SteelFlying => "#0891b2",
        CoasterType::MineTrain => "#92400e",
        CoasterType::WaterCoaster => "#0ea5e9",
        CoasterType::LaunchCoaster => "#e11d48",
        CoasterType::HyperCoaster => "#0d9488",
        CoasterType::GigaCoaster => "#4f46e5",
    }
}

/// The default secondary color of each coaster style.
pub open spec fn spec_secondary_color(t: CoasterType) -> &'static str {
    match t {
        CoasterType::WoodenClassic => "#D2691E",
        CoasterType::WoodenTwister => "#CD853F",
        CoasterType::SteelSitDown => "#fbbf24",
        CoasterType::SteelInverted => "#60a5fa",
        CoasterType::SteelFloorless => "#34d399",
        CoasterType::SteelWing => "#fb923c",
        CoasterType::SteelFlying => "#22d3ee",
        CoasterType::MineTrain => "#fcd34d",
        CoasterType::WaterCoaster => "#38bdf8",
        CoasterType::LaunchCoaster => "#fda4af",
        CoasterType::HyperCoaster => "#5eead4",
        CoasterType::GigaCoaster => "#a5b4fc",
    }
}

/// The default support color of each coaster style.
pub open spec fn spec_support_color(t: CoasterType) -> &'static str {
    match t {
        CoasterType::WoodenClassic => "#5C3317",
        CoasterType::WoodenTwister => "#654321",
        CoasterType::SteelSitDown => "#374151",
        CoasterType::SteelInverted => "#1e3a8a",
        CoasterType::SteelFloorless => "#064e3b",
        CoasterType::SteelWing => "#7c2d12",
        CoasterType::SteelFlying => "#164e63",
        CoasterType::MineTrain => "#451a03",
        CoasterType::WaterCoaster => "#0c4a6e",
        CoasterType::LaunchCoaster => "#9f1239",
        CoasterType::HyperCoaster => "#134e4a",
        CoasterType::GigaCoaster => "#312e81",
    }
}

impl CoasterType {
    /// The strut style used for this coaster style.
    pub fn strut_style(&self) -> (r: StrutStyle)
        ensures
            r == spec_strut_style(*self),
    {
        match self {
            CoasterType::WoodenClassic | CoasterType::WoodenTwister => StrutStyle::Wood,
            _ => StrutStyle::Metal,
        }
    }

    /// The default primary color of each coaster style.
    pub fn default_primary_color(&self) -> (r: &'static str)
        ensures
            r == spec_primary_color(*self),
    {
        match self {
            CoasterType::WoodenClassic => "#8B4513",
            CoasterType::WoodenTwister => "#A0522D",
            CoasterType::SteelSitDown => "#dc2626",
            CoasterType::SteelInverted => "#2563eb",
            CoasterType::SteelFloorless => "#059669",
            CoasterType::SteelWing => "#ea580c",
            CoasterType::SteelFlying => "#0891b2",
            CoasterType::MineTrain => "#92400e",
            CoasterType::WaterCoaster => "#0ea5e9",
            CoasterType::LaunchCoaster => "#e11d48",
            CoasterType::HyperCoaster => "#0d9488",
            CoasterType::GigaCoaster => "#4f46e5",
        }
    }

    /// The default secondary color of each coaster style.
    pub fn default_secondary_color(&self) -> (r: &'static str)
        ensures
            r == spec_secondary_color(*self),
    {
        match self {
            CoasterType::WoodenClassic => "#D2691E",
            CoasterType::WoodenTwister => "#CD853F",
            CoasterType::SteelSitDown => "#fbbf24",
            CoasterType::SteelInverted => "#60a5fa",
            CoasterType::SteelFloorless => "#34d399",
            CoasterType::SteelWing => "#fb923c",
            CoasterType::SteelFlying => "#22d3ee",
            CoasterType::MineTrain => "#fcd34d",
            CoasterType::WaterCoaster => "#38bdf8",
            CoasterType::LaunchCoaster => "#fda4af",
            CoasterType::HyperCoaster => "#5eead4",
            CoasterType::GigaCoaster => "#a5b4fc",
        }
    }

    /// The default support color of each coaster style.
    pub fn default_support_color(&self) -> (r: &'static str)
        ensures
            r == spec_support_color(*self),
    {
        match self {
            CoasterType::WoodenClassic => "#5C3317",
            CoasterType::WoodenTwister => "#654321",
            CoasterType::SteelSitDown => "#374151",
            CoasterType::SteelInverted => "#1e3a8a",
            CoasterType::SteelFloorless => "#064e3b",
            CoasterType::SteelWing => "#7c2d12",
            CoasterType::SteelFlying => "#164e63",
            CoasterType::MineTrain => "#451a03",
            CoasterType::WaterCoaster => "#0c4a6e",
            CoasterType::LaunchCoaster => "#9f1239",
            CoasterType::HyperCoaster => "#134e4a",
            CoasterType::GigaCoaster => "#312e81",
        }
    }

}

/// The end elevation a piece of the given type reaches from a start
/// elevation: small slopes and the lift hill change it by one level, medium
/// slopes by two, everything else keeps it level.
pub open spec fn spec_end_height(t: TrackPieceType, start: int) -> int {
    match t {
        TrackPieceType::SlopeUpSmall | TrackPieceType::LiftHill => start + 1,
        TrackPieceType::SlopeUpMedium => start + 2,
        TrackPieceType::SlopeDownSmall => start - 1,
        TrackPieceType::SlopeDownMedium => start - 2,
        _ => start,
    }
}

/// One piece of coaster track, owned by its track.
#[derive(Clone, Copy, PartialEq, Eq, Structural, Debug)]
pub struct TrackPiece {
    pub piece_type: TrackPieceType,
    pub direction: TrackDirection,
    pub start_height: i32,
    pub end_height: i32,
    pub chain_lift: bool,
    pub strut_style: StrutStyle,
}

impl TrackPiece {
    /// A new piece of the given type at the given start elevation; the end
    /// elevation is derived from the type.
    pub fn new(piece_type: TrackPieceType, direction: TrackDirection, height: i32) -> (r:
        TrackPiece)
        requires
            i32::MIN + 2 <= height <= i32::MAX - 2,
        ensures
            r.piece_type == piece_type,
            r.direction == direction,
            r.start_height == height,
            r.end_height == spec_end_height(piece_type, height as int),
            !r.chain_lift,
            r.strut_style == StrutStyle::Metal,
    {
        let end_h: i32 = match piece_type {
            TrackPieceType::SlopeUpSmall | TrackPieceType::LiftHill => height + 1,
            TrackPieceType::SlopeUpMedium => height + 2,
            TrackPieceType::SlopeDownSmall => height - 1,
            TrackPieceType::SlopeDownMedium => height - 2,
            _ => height,
        };
        TrackPiece {
            piece_type,
            direction,
            start_height: height,
            end_height: end_h,
            chain_lift: false,
            strut_style: StrutStyle::Metal,
        }
    }
}

/// The color scheme of a track.
#[derive(Clone, Debug)]
pub struct CoasterColor {
    pub primary: String,
    pub secondary: String,
    pub supports: String,
}

/// A neutral blue-and-slate scheme is the default.
impl Default for CoasterColor {
    fn default() -> (r: CoasterColor)
        ensures
            r.primary@ == "#3b82f6"@,
            r.secondary@ == "#1e293b"@,
            r.supports@ == "#6b7280"@,
    {
        CoasterColor {
            primary: "#3b82f6".to_owned(),
            secondary: "#1e293b".to_owned(),
            supports: "#6b7280".to_owned(),
        }
    }
}

/// The dispatch cycle of a train. Transitions only ever step forward
/// through this cycle: loading, dispatching, running, braking, and back to
/// loading.
#[derive(Clone, Copy, PartialEq, Eq, Structural, Debug)]
pub enum TrainState {
    Loading,
    Dispatching,
    Running,
    Braking,
}

/// Trains start out loading.
impl Default for TrainState {
    fn default() -> (r: TrainState)
        ensures
            r == TrainState::Loading,
    {
        TrainState::Loading
    }
}

/// The successor of each state in the dispatch cycle.
pub open spec fn next_train_state(s: TrainState) -> TrainState {
    match s {
        TrainState::Loading => TrainState::Dispatching,
        TrainState::Dispatching => TrainState::Running,
        TrainState::Running => TrainState::Braking,
        TrainState::Braking => TrainState::Loading,
    }
}

/// The length, in thousandths of a piece, of a track of this many pieces.
pub open spec fn spec_track_len(c: Coaster) -> int {
    c.track_pieces.len() * (POS_SCALE as int)
}

/// One car of a train: a continuous track position in thousandths of a
/// piece, and the velocity it moved with this tick.
#[derive(Clone, Copy, PartialEq, Eq, Structural, Debug)]
pub struct TrainCar {
    pub track_progress: u64,
    pub velocity: u64,
}

impl TrainCar {
    /// A car resting at the given position.
    pub fn new(progress: u64) -> (r: TrainCar)
        ensures
            r.track_progress == progress,
            r.velocity == 0,
    {
        TrainCar { track_progress: progress, velocity: 0 }
    }
}

/// Car `i` trails the lead car by `i` spacings, wrapping at track length
/// `m`; every car sits inside `[0, m)`.
pub open spec fn cars_spaced(cars: Seq<TrainCar>, m: int) -> bool {
    forall|i: int|
        0 <= i < cars.len() ==> (#[trigger] cars[i].track_progress) == pos_mod(
            cars[0].track_progress - i * (CAR_SPACING as int),
            m,
        )
}

/// A train on a track: its cars, its dispatch state and the state timer, in
/// thousandths of a tick.
#[derive(Clone, Debug)]
pub struct Train {
    pub id: u32,
    pub cars: Vec<TrainCar>,
    pub state: TrainState,
    pub state_timer: u64,
}

impl Train {
    /// A new loading train of `num_cars` cars whose lead car sits at
    /// `start_progress` on a track of length `track_len`, the rest trailing
    /// at the fixed spacing.
    pub fn new(id: u32, num_cars: usize, start_progress: u64, track_len: u64) -> (r: Train)
        requires
            track_len > 0,
            start_progress < track_len,
        ensures
            r.id == id,
            r.cars.len() == num_cars,
            r.state == TrainState::Loading,
            r.state_timer == 5000,
            num_cars > 0 ==> r.cars@[0].track_progress == start_progress,
            cars_spaced(r.cars@, track_len as int),
            forall|i: int| 0 <= i < num_cars ==> (#[trigger] r.cars@[i]).track_progress
                < track_len,
            forall|i: int| 0 <= i < num_cars ==> (#[trigger] r.cars@[i]).velocity == 0,
    {
        let mut cars: Vec<TrainCar> = Vec::new();
        let mut pos = start_progress;
        let mut i: usize = 0;
        proof {
            lemma_pos_mod_unique(
                start_progress as int,
                0,
                start_progress as int,
                track_len as int,
            );
        }
        #[verifier::loop_isolation(false)]
        while i < num_cars
            invariant
                i <= num_cars,
                cars.len() == i,
                pos < track_len,
                pos == pos_mod(
                    start_progress - i * (CAR_SPACING as int),
                    track_len as int,
                ),
                i > 0 ==> cars@[0].track_progress == start_progress,
                cars_spaced(cars@, track_len as int),
                forall|j: int| 0 <= j < i ==> (#[trigger] cars@[j]).track_progress
                    < track_len,
                forall|j: int| 0 <= j < i ==> (#[trigger] cars@[j]).velocity == 0,
            decreases num_cars - i,
        {
            proof {
                lemma_pos_mod_unique(
                    start_progress as int,
                    0,
                    start_progress as int,
                    track_len as int,
                );
                if i == 0 {
                    assert(start_progress - i * (CAR_SPACING as int)
                        == start_progress as int);
                    assert(pos == start_progress);
                }
            }
            cars.push(TrainCar::new(pos));
            proof {
                assert(cars@[0].track_progress == start_progress);
            }
            pos = wrap_sub(pos, CAR_SPACING, track_len);
            proof {
                lemma_pos_mod_sub(
                    start_progress - i * (CAR_SPACING as int),
                    CAR_SPACING as int,
                    track_len as int,
                );
                assert(start_progress - i * (CAR_SPACING as int) - CAR_SPACING as int
                    == start_progress - (i + 1) * (CAR_SPACING as int)) by (nonlinear_arith);
            }
            i += 1;
        }
        Train { id, cars, state: TrainState::Loading, state_timer: 5000 }
    }
}

/// A train that fits its track: it has a lead car and every car sits
/// inside `[0, m)`.
pub open spec fn train_bounded(t: Train, m: int) -> bool {
    &&& t.cars.len() >= 1
    &&& forall|i: int| 0 <= i < t.cars.len() ==> (#[trigger] t.cars@[i]).track_progress < m
}

/// A well-formed train on a track of length `m`: it fits the track and
/// its cars keep their fixed spacing.
pub open spec fn train_wf(t: Train, m: int) -> bool {
    &&& train_bounded(t, m)
    &&& cars_spaced(t.cars@, m)
}

/// A complete coaster: its identity, its ordered (tile, piece) records, the
/// station, its trains and its operating flag.
pub struct Coaster {
    pub id: u32,
    pub name: String,
    pub coaster_type: CoasterType,
    pub color: CoasterColor,
    pub track_tiles: Vec<(i32, i32)>,
    pub track_pieces: Vec<TrackPiece>,
    pub station_tile: (i32, i32),
    pub trains: Vec<Train>,
    pub operating: bool,
    pub excitement: u32,
    pub intensity: u32,
    pub nausea: u32,
}

/// A well-formed coaster: tiles and pieces index-aligned and bounded, and
/// every train well-formed on the track; a coaster with trains has track.
pub open spec fn coaster_wf(c: Coaster) -> bool {
    &&& c.track_tiles.len() == c.track_pieces.len()
    &&& c.track_pieces.len() <= MAX_TRACK_PIECES
    &&& (c.trains.len() > 0 ==> c.track_pieces.len() > 0)
    &&& forall|t: int|
        0 <= t < c.trains.len() ==> train_bounded(#[trigger] c.trains@[t], spec_track_len(c))
}

/// Two grid cells at Manhattan distance exactly one.
pub open spec fn manhattan_adjacent(a: (i32, i32), b: (i32, i32)) -> bool {
    (a.1 == b.1 && (a.0 - b.0 == 1 || b.0 - a.0 == 1)) || (a.0 == b.0 && (a.1 - b.1 == 1
        || b.1 - a.1 == 1))
}

/// A closed ring of tiles: at least four of them, and every consecutive
/// pair, last to first included, Manhattan-adjacent.
pub open spec fn spec_ring_closed(tiles: Seq<(i32, i32)>) -> bool {
    tiles.len() >= 4 && forall|i: int|
        0 <= i < tiles.len() ==> manhattan_adjacent(
            #[trigger] tiles[i],
            tiles[if i + 1 == tiles.len() {
                0
            } else {
                i + 1
            }],
        )
}

/// Whether two grid cells are Manhattan-adjacent.
pub fn adjacent(a: (i32, i32), b: (i32, i32)) -> (r: bool)
    ensures
        r == manhattan_adjacent(a, b),
{
    let dx: i64 = a.0 as i64 - b.0 as i64;
    let dy: i64 = a.1 as i64 - b.1 as i64;
    let adx: i64 = if dx >= 0 { dx } else { -dx };
    let ady: i64 = if dy >= 0 { dy } else { -dy };
    (adx == 1 && ady == 0) || (adx == 0 && ady == 1)
}

impl Coaster {
    /// A new, empty, inoperative track in the default colors of its style.
    pub fn new(id: u32, name: String, coaster_type: CoasterType) -> (r: Coaster)
        ensures
            r.id == id,
            r.name@ == name@,
            r.coaster_type == coaster_type,
            r.color.primary@ == spec_primary_color(coaster_type)@,
            r.color.secondary@ == spec_secondary_color(coaster_type)@,
            r.color.supports@ == spec_support_color(coaster_type)@,
            r.track_tiles@ == Seq::<(i32, i32)>::empty(),
            r.track_pieces@ == Seq::<TrackPiece>::empty(),
            r.station_tile == (0i32, 0i32),
            r.trains@ == Seq::<Train>::empty(),
            !r.operating,
            r.excitement == 0,
            r.intensity == 0,
            r.nausea == 0,
    {
        let color = CoasterColor {
            primary: coaster_type.default_primary_color().to_owned(),
            secondary: coaster_type.default_secondary_color().to_owned(),
            supports: coaster_type.default_support_color().to_owned(),
        };
        Coaster {
            id,
            name,
            coaster_type,
            color,
            track_tiles: Vec::new(),
            track_pieces: Vec::new(),
            station_tile: (0, 0),
            trains: Vec::new(),
            operating: false,
            excitement: 0,
            intensity: 0,
            nausea: 0,
        }
    }

    /// Whether the track forms a complete closed loop: a ring of at least
    /// four tiles in which every consecutive pair, last to first included,
    /// is Manhattan-adjacent.
    pub fn is_complete(&self) -> (r: bool)
        ensures
            r == spec_ring_closed(self.track_tiles@),
    {
        let len = self.track_tiles.len();
        if len < 4 {
            return false;
        }
        let mut i: usize = 0;
        #[verifier::loop_isolation(false)]
        while i < len
            invariant
                i <= len,
                forall|j: int|
                    0 <= j < i ==> manhattan_adjacent(
                        #[trigger] self.track_tiles@[j],
                        self.track_tiles@[if j + 1 == len {
                            0
                        } else {
                            j + 1
                        }],
                    ),
            decreases len - i,
        {
            let next: usize = if i + 1 == len {
                0
            } else {
                i + 1
            };
            if !adjacent(self.track_tiles[i], self.track_tiles[next]) {
                return false;
            }
            i += 1;
        }
        true
    }

    /// Replaces this track's trains with `count` fresh loading trains of
    /// `cars_per_train` cars each, spread evenly around the track. A track
    /// with no pieces is left unchanged.
    pub fn add_trains(&mut self, count: usize, cars_per_train: usize)
        requires
            count >= 1,
            count <= 0x10000,
            cars_per_train >= 1,
            old(self).track_pieces.len() <= MAX_TRACK_PIECES,
        ensures
            *final(self) == (Coaster { trains: final(self).trains, ..*old(self) }),
            old(self).track_pieces.len() == 0 ==> *final(self) == *old(self),
            old(self).track_pieces.len() > 0 ==> {
                &&& final(self).trains.len() == count
                &&& forall|t: int|
                    0 <= t < count ==> {
                        let train = #[trigger] final(self).trains@[t];
                        &&& train.cars.len() == cars_per_train
                        &&& train.state == TrainState::Loading
                        &&& train.state_timer == 5000
                        &&& train.id == t
                        &&& train.cars@[0].track_progress == (t * spec_track_len(*old(self))
                            / (count as int)) % spec_track_len(*old(self))
                        &&& train_wf(train, spec_track_len(*old(self)))
                    }
            },
    {
        let pieces = self.track_pieces.len();
        if pieces == 0 {
            return;
        }
        let track_len: u64 = (pieces as u64) * POS_SCALE;
        self.trains.clear();
        let mut i: usize = 0;
        #[verifier::loop_isolation(false)]
        while i < count
            invariant
                i <= count,
                self.trains.len() == i,
                *self == (Coaster { trains: self.trains, ..*old(self) }),
                track_len == pieces * POS_SCALE as int,
                track_len > 0,
                forall|t: int|
                    0 <= t < i ==> {
                        let train = #[trigger] self.trains@[t];
                        &&& train.cars.len() == cars_per_train
                        &&& train.state == TrainState::Loading
                        &&& train.state_timer == 5000
                        &&& train.id == t
                        &&& train.cars@[0].track_progress == (t * (track_len as int)
                            / (count as int)) % (track_len as int)
                        &&& train_wf(train, track_len as int)
                    },
            decreases count - i,
        {
            proof {
                assert(track_len as int <= 0x10000 * 1000) by (nonlinear_arith)
                    requires
                        track_len == pieces * (POS_SCALE as int),
                        pieces <= 0x10000,
                {}
                assert((i as int) * (track_len as int) <= 0x10000 * 0x3e80000)
                    by (nonlinear_arith)
                    requires
                        0 <= i <= 0x10000,
                        0 <= track_len <= 0x3e80000,
                {}
            }
            let start_progress: u64 = ((i as u64) * track_len / (count as u64)) % track_len;
            let train = Train::new(i as u32, cars_per_train, start_progress, track_len);
            self.trains.push(train);
            i += 1;
        }
    }
}

} // verus!
