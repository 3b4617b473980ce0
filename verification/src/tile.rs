//! Tiles of the world grid: terrain, walkable surfaces, and occupancy by
//! structures or coaster track.

use vstd::prelude::*;
use crate::building::Building;

verus! {

/// The terrain of a tile.
#[derive(Clone, Copy, PartialEq, Eq, Structural, Debug)]
pub enum Terrain {
    Grass,
    Water,
    Sand,
    Rock,
}

/// One cell of the world grid.
///
/// A tile may carry at most one of a structure, a path surface or a queue
/// surface; coaster track occupancy is a separate flag with the identifier
/// of the owning track. The editing layer enforces the exclusivity; the
/// simulation only reads these flags.
#[derive(Clone, Copy, Debug)]
pub struct Tile {
    pub x: i32,
    pub y: i32,
    pub terrain: Terrain,
    pub building: Option<Building>,
    pub path: bool,
    pub queue: bool,
    pub queue_ride_id: Option<u32>,
    pub has_coaster_track: bool,
    pub coaster_track_id: Option<u32>,
    pub elevation: i32,
}

/// Whether visitors may stand on the tile: it carries a path or a queue
/// surface.
pub open spec fn spec_is_walkable(t: Tile) -> bool {
    t.path || t.queue
}

impl Tile {
    /// A fresh grass tile at the given coordinates, carrying nothing.
    pub fn new(x: i32, y: i32) -> (r: Tile)
        ensures
            r.x == x,
            r.y == y,
            r.terrain == Terrain::Grass,
            r.building is None,
            !r.path,
            !r.queue,
            r.queue_ride_id is None,
            !r.has_coaster_track,
            r.coaster_track_id is None,
            r.elevation == 0,
    {
        Tile {
            x,
            y,
            terrain: Terrain::Grass,
            building: None,
            path: false,
            queue: false,
            queue_ride_id: None,
            has_coaster_track: false,
            coaster_track_id: None,
            elevation: 0,
        }
    }

    /// A fresh water tile at the given coordinates.
    pub fn new_water(x: i32, y: i32) -> (r: Tile)
        ensures
            r.x == x,
            r.y == y,
            r.terrain == Terrain::Water,
            r.building is None,
            !r.path,
            !r.queue,
            r.queue_ride_id is None,
            !r.has_coaster_track,
            r.coaster_track_id is None,
            r.elevation == 0,
    {
        let mut tile = Self::new(x, y);
        tile.terrain = Terrain::Water;
        tile
    }

    /// Whether a structure may be placed here: grass, and nothing on the
    /// tile yet.
    pub fn can_build(&self) -> (r: bool)
        ensures
            r == (self.terrain == Terrain::Grass && self.building is None && !self.path
                && !self.queue && !self.has_coaster_track),
    {
        self.terrain == Terrain::Grass && self.building.is_none() && !self.path && !self.queue
            && !self.has_coaster_track
    }

    /// Whether a path or queue surface may be placed here: grass, no
    /// structure, no track. An existing surface may be laid over.
    pub fn can_place_path(&self) -> (r: bool)
        ensures
            r == (self.terrain == Terrain::Grass && self.building is None
                && !self.has_coaster_track),
    {
        self.terrain == Terrain::Grass && self.building.is_none() && !self.has_coaster_track
    }

    /// Whether visitors may stand on this tile.
    pub fn is_walkable(&self) -> (r: bool)
        ensures
            r == spec_is_walkable(*self),
    {
        self.path || self.queue
    }

    /// Whether this tile lies on the outer boundary of a square grid of the
    /// given size.
    pub fn is_edge(&self, grid_size: usize) -> (r: bool)
        requires
            grid_size <= 0x10000,
        ensures
            r == (self.x == 0 || self.y == 0 || self.x == grid_size - 1
                || self.y == grid_size - 1),
    {
        let size = grid_size as i32;
        self.x == 0 || self.y == 0 || self.x == size - 1 || self.y == size - 1
    }
}

/// Depth key for painter's-order sorting of tiles: greater is drawn later.
pub fn tile_depth(grid_x: i32, grid_y: i32) -> (r: i32)
    requires
        i32::MIN <= grid_x + grid_y <= i32::MAX,
    ensures
        r == grid_x + grid_y,
{
    grid_x + grid_y
}

} // verus!
