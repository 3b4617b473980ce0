//! The structure and tool catalogs: classification, costs and names.

use isocoaster::building::{Building, BuildingType};
use isocoaster::tile::{tile_depth, Terrain, Tile};
use isocoaster::tool::Tool;

#[test]
fn food_stand_classification_and_cost() {
    let b = BuildingType::FoodHotdog;
    assert!(b.is_food());
    assert!(!b.is_shop());
    assert!(!b.is_ride());
    assert_eq!(b.cost(), 200);
    assert!(b.needs_grey_base());
    assert_eq!(b.sprite_sheet_id(), Some("food"));
    assert_eq!(b.sprite_name(), "food_hotdog");
}

#[test]
fn shop_and_ride_classification() {
    assert!(BuildingType::ShopSouvenir.is_shop());
    assert_eq!(BuildingType::ShopSouvenir.cost(), 400);
    assert!(BuildingType::RideCarousel.is_ride());
    assert_eq!(BuildingType::RideCarousel.cost(), 5000);
    assert!(BuildingType::TreeOak.sprite_sheet_id() == Some("trees"));
    assert!(!BuildingType::TreeOak.is_food());
    assert_eq!(BuildingType::TreeOak.cost(), 30);
    assert!(!BuildingType::TreeOak.needs_grey_base());
    assert_eq!(BuildingType::Empty.sprite_sheet_id(), None);
}

#[test]
fn building_new_keeps_its_type() {
    let b = Building::new(BuildingType::Restroom);
    assert!(matches!(b.building_type, BuildingType::Restroom));
}

#[test]
fn tool_names_round_trip() {
    let tools = [
        Tool::Select,
        Tool::Bulldoze,
        Tool::Path,
        Tool::Queue,
        Tool::FoodHotdog,
        Tool::ShopSouvenir,
        Tool::RideCarousel,
        Tool::CoasterStation,
        Tool::CoasterTrackSlopeDown,
    ];
    for t in tools {
        assert_eq!(Tool::from_string(t.as_str()), Some(t));
    }
    assert_eq!(Tool::from_string("no_such_tool"), None);
}

#[test]
fn tool_costs() {
    assert_eq!(Tool::Select.cost(), 0);
    assert_eq!(Tool::Bulldoze.cost(), 10);
    assert_eq!(Tool::Path.cost(), 10);
    assert_eq!(Tool::Queue.cost(), 15);
    assert_eq!(Tool::CoasterStation.cost(), 50);
    assert_eq!(Tool::FoodHotdog.cost(), 200);
    assert_eq!(Tool::FoodHotdog.building_type(), Some(BuildingType::FoodHotdog));
    assert_eq!(Tool::Bulldoze.building_type(), None);
}

#[test]
fn tile_flags_and_walkability() {
    let mut t = Tile::new(3, 4);
    assert!(matches!(t.terrain, Terrain::Grass));
    assert!(t.can_build());
    assert!(t.can_place_path());
    assert!(!t.is_walkable());
    t.path = true;
    assert!(t.is_walkable());
    assert!(!t.can_build());
    let w = Tile::new_water(0, 0);
    assert!(!w.can_build());
    assert!(!w.can_place_path());
}

#[test]
fn edge_detection_and_depth() {
    let t = Tile::new(0, 5);
    assert!(t.is_edge(16));
    let inner = Tile::new(5, 5);
    assert!(!inner.is_edge(16));
    let corner = Tile::new(15, 15);
    assert!(corner.is_edge(16));
    assert_eq!(tile_depth(3, 4), 7);
}
