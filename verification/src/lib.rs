//! Core simulation of a grid-based theme-park builder.
//!
//! The crate advances a shared world one discrete tick at a time: it keeps a
//! square grid of tiles, routes visitor agents across the walkable network
//! with a breadth-first search, drives each visitor's needs and behaviour
//! state machine, and moves coaster trains along closed track loops under a
//! dispatch/run/brake cycle. All quantities that the design treats as
//! fractional (needs, interpolation fractions, track positions, timers)
//! are held as integers in thousandths, so every update is exact.

pub mod building;
pub mod coaster;
pub mod guest;
pub mod guest_ai;
pub mod modmath;
pub mod pathfinding;
pub mod rng;
pub mod state;
pub mod strcmp;
pub mod tile;
pub mod tool;
pub mod trains;

pub use building::Building;
pub use building::BuildingType;
pub use coaster::Coaster;
pub use coaster::Train;
pub use coaster::TrainState;
pub use guest::Guest;
pub use guest::GuestState;
pub use guest::TargetKind;
pub use state::GameState;
pub use tile::Terrain;
pub use tile::Tile;
pub use tool::Tool;
