//! Tools of the world-editing surface: selection, bulldozing, surfaces,
//! structures and coaster track pieces. The simulation core only reads the
//! selected tool; placement itself is driven by the host.

use vstd::prelude::*;
use crate::building::BuildingType;
use crate::building::spec_cost;

verus! {

/// Every tool the editing surface offers.
#[derive(Clone, Copy, PartialEq, Eq, Structural, Debug)]
pub enum Tool {
    Select,
    Bulldoze,
    Path,
    Queue,
    TreeOak,
    TreeMaple,
    TreePine,
    TreePalm,
    TreeCherry,
    BushHedge,
    FlowersBed,
    BenchWooden,
    BenchMetal,
    LampVictorian,
    LampModern,
    TrashCanBasic,
    TrashCanFancy,
    FoodHotdog,
    FoodBurger,
    FoodIcecream,
    DrinkSoda,
    SnackPopcorn,
    ShopSouvenir,
    ShopToys,
    Restroom,
    FirstAid,
    FountainSmall1,
    FountainMedium1,
    FountainLarge1,
    PondSmall,
    ThemeCastleTower,
    ThemePirateShip,
    ThemeTempleRuins,
    ThemeHauntedTree,
    ThemeCircusTent,
    ThemeGeometric,
    RideCarousel,
    RideTeacups,
    RideBumperCars,
    RideFerrisClassic,
    RideDropTower,
    RideLogFlume,
    CoasterStation,
    CoasterTrackStraight,
    CoasterTrackTurnLeft,
    CoasterTrackTurnRight,
    CoasterTrackSlopeUp,
    CoasterTrackSlopeDown,
    CoasterTrackSlopeUpMedium,
    CoasterTrackSlopeDownMedium,
    CoasterTrackLiftHill,
    CoasterTrackLoop,
    CoasterTrackCorkscrew,
    CoasterTrackBrakes,
}

/// The canonical name of each tool.
pub open spec fn spec_tool_name(t: Tool) -> &'static str {
    match t {
        Tool::Select => "select",
        Tool::Bulldoze => "bulldoze",
        Tool::Path => "path",
        Tool::Queue => "queue",
        Tool::TreeOak => "tree_oak",
        Tool::TreeMaple => "tree_maple",
        Tool::TreePine => "tree_pine",
        Tool::TreePalm => "tree_palm",
        Tool::TreeCherry => "tree_cherry",
        Tool::BushHedge => "bush_hedge",
        Tool::FlowersBed => "flowers_bed",
        Tool::BenchWooden => "bench_wooden",
        Tool::BenchMetal => "bench_metal",
        Tool::LampVictorian => "lamp_victorian",
        Tool::LampModern => "lamp_modern",
        Tool::TrashCanBasic => "trash_can_basic",
        Tool::TrashCanFancy => "trash_can_fancy",
        Tool::FoodHotdog => "food_hotdog",
        Tool::FoodBurger => "food_burger",
        Tool::FoodIcecream => "food_icecream",
        Tool::DrinkSoda => "drink_soda",
        Tool::SnackPopcorn => "snack_popcorn",
        Tool::ShopSouvenir => "shop_souvenir",
        Tool::ShopToys => "shop_toys",
        Tool::Restroom => "restroom",
        Tool::FirstAid => "first_aid",
        Tool::FountainSmall1 => "fountain_small_1",
        Tool::FountainMedium1 => "fountain_medium_1",
        Tool::FountainLarge1 => "fountain_large_1",
        Tool::PondSmall => "pond_small",
        Tool::ThemeCastleTower => "theme_castle_tower",
        Tool::ThemePirateShip => "theme_pirate_ship",
        Tool::ThemeTempleRuins => "theme_temple_ruins",
        Tool::ThemeHauntedTree => "theme_haunted_tree",
        Tool::ThemeCircusTent => "theme_circus_tent",
        Tool::ThemeGeometric => "theme_geometric",
        Tool::RideCarousel => "ride_carousel",
        Tool::RideTeacups => "ride_teacups",
        Tool::RideBumperCars => "ride_bumper_cars",
        Tool::RideFerrisClassic => "ride_ferris_classic",
        Tool::RideDropTower => "ride_drop_tower",
        Tool::RideLogFlume => "ride_log_flume",
        Tool::CoasterStation => "coaster_station",
        Tool::CoasterTrackStraight => "coaster_track_straight",
        Tool::CoasterTrackTurnLeft => "coaster_track_turn_left",
        Tool::CoasterTrackTurnRight => "coaster_track_turn_right",
        Tool::CoasterTrackSlopeUp => "coaster_track_slope_up",
        Tool::CoasterTrackSlopeDown => "coaster_track_slope_down",
        Tool::CoasterTrackSlopeUpMedium => "coaster_track_slope_up_medium",
        Tool::CoasterTrackSlopeDownMedium => "coaster_track_slope_down_medium",
        Tool::CoasterTrackLiftHill => "coaster_track_lift_hill",
        Tool::CoasterTrackLoop => "coaster_track_loop",
        Tool::CoasterTrackCorkscrew => "coaster_track_corkscrew",
        Tool::CoasterTrackBrakes => "coaster_track_brakes",
    }
}

/// The tool named by a string, if any.
pub open spec fn spec_tool_from_name(s: Seq<char>) -> Option<Tool> {
    if s == "select"@ {
        Some(Tool::Select)
    } else if s == "bulldoze"@ {
        Some(Tool::Bulldoze)
    } else if s == "path"@ {
        Some(Tool::Path)
    } else if s == "queue"@ {
        Some(Tool::Queue)
    } else if s == "tree_oak"@ {
        Some(Tool::TreeOak)
    } else if s == "tree_maple"@ {
        Some(Tool::TreeMaple)
    } else if s == "tree_pine"@ {
        Some(Tool::TreePine)
    } else if s == "tree_palm"@ {
        Some(Tool::TreePalm)
    } else if s == "tree_cherry"@ {
        Some(Tool::TreeCherry)
    } else if s == "bush_hedge"@ {
        Some(Tool::BushHedge)
    } else if s == "flowers_bed"@ {
        Some(Tool::FlowersBed)
    } else if s == "bench_wooden"@ {
        Some(Tool::BenchWooden)
    } else if s == "bench_metal"@ {
        Some(Tool::BenchMetal)
    } else if s == "lamp_victorian"@ {
        Some(Tool::LampVictorian)
    } else if s == "lamp_modern"@ {
        Some(Tool::LampModern)
    } else if s == "trash_can_basic"@ {
        Some(Tool::TrashCanBasic)
    } else if s == "trash_can_fancy"@ {
        Some(Tool::TrashCanFancy)
    } else if s == "food_hotdog"@ {
        Some(Tool::FoodHotdog)
    } else if s == "food_burger"@ {
        Some(Tool::FoodBurger)
    } else if s == "food_icecream"@ {
        Some(Tool::FoodIcecream)
    } else if s == "drink_soda"@ {
        Some(Tool::DrinkSoda)
    } else if s == "snack_popcorn"@ {
        Some(Tool::SnackPopcorn)
    } else if s == "shop_souvenir"@ {
        Some(Tool::ShopSouvenir)
    } else if s == "shop_toys"@ {
        Some(Tool::ShopToys)
    } else if s == "restroom"@ {
        Some(Tool::Restroom)
    } else if s == "first_aid"@ {
        Some(Tool::FirstAid)
    } else if s == "fountain_small_1"@ {
        Some(Tool::FountainSmall1)
    } else if s == "fountain_medium_1"@ {
        Some(Tool::FountainMedium1)
    } else if s == "fountain_large_1"@ {
        Some(Tool::FountainLarge1)
    } else if s == "pond_small"@ {
        Some(Tool::PondSmall)
    } else if s == "theme_castle_tower"@ {
        Some(Tool::ThemeCastleTower)
    } else if s == "theme_pirate_ship"@ {
        Some(Tool::ThemePirateShip)
    } else if s == "theme_temple_ruins"@ {
        Some(Tool::ThemeTempleRuins)
    } else if s == "theme_haunted_tree"@ {
        Some(Tool::ThemeHauntedTree)
    } else if s == "theme_circus_tent"@ {
        Some(Tool::ThemeCircusTent)
    } else if s == "theme_geometric"@ {
        Some(Tool::ThemeGeometric)
    } else if s == "ride_carousel"@ {
        Some(Tool::RideCarousel)
    } else if s == "ride_teacups"@ {
        Some(Tool::RideTeacups)
    } else if s == "ride_bumper_cars"@ {
        Some(Tool::RideBumperCars)
    } else if s == "ride_ferris_classic"@ {
        Some(Tool::RideFerrisClassic)
    } else if s == "ride_drop_tower"@ {
        Some(Tool::RideDropTower)
    } else if s == "ride_log_flume"@ {
        Some(Tool::RideLogFlume)
    } else if s == "coaster_station"@ {
        Some(Tool::CoasterStation)
    } else if s == "coaster_track_straight"@ {
        Some(Tool::CoasterTrackStraight)
    } else if s == "coaster_track_turn_left"@ {
        Some(Tool::CoasterTrackTurnLeft)
    } else if s == "coaster_track_turn_right"@ {
        Some(Tool::CoasterTrackTurnRight)
    } else if s == "coaster_track_slope_up"@ {
        Some(Tool::CoasterTrackSlopeUp)
    } else if s == "coaster_track_slope_down"@ {
        Some(Tool::CoasterTrackSlopeDown)
    } else if s == "coaster_track_slope_up_medium"@ {
        Some(Tool::CoasterTrackSlopeUpMedium)
    } else if s == "coaster_track_slope_down_medium"@ {
        Some(Tool::CoasterTrackSlopeDownMedium)
    } else if s == "coaster_track_lift_hill"@ {
        Some(Tool::CoasterTrackLiftHill)
    } else if s == "coaster_track_loop"@ {
        Some(Tool::CoasterTrackLoop)
    } else if s == "coaster_track_corkscrew"@ {
        Some(Tool::CoasterTrackCorkscrew)
    } else if s == "coaster_track_brakes"@ {
        Some(Tool::CoasterTrackBrakes)
    } else {
        None
    }
}

/// The structure kind each tool places, if it places one.
pub open spec fn spec_tool_building(t: Tool) -> Option<BuildingType> {
    match t {
        Tool::TreeOak => Some(BuildingType::TreeOak),
        Tool::TreeMaple => Some(BuildingType::TreeMaple),
        Tool::TreePine => Some(BuildingType::TreePine),
        Tool::TreePalm => Some(BuildingType::TreePalm),
        Tool::TreeCherry => Some(BuildingType::TreeCherry),
        Tool::BushHedge => Some(BuildingType::BushHedge),
        Tool::FlowersBed => Some(BuildingType::FlowersBed),
        Tool::BenchWooden => Some(BuildingType::BenchWooden),
        Tool::BenchMetal => Some(BuildingType::BenchMetal),
        Tool::LampVictorian => Some(BuildingType::LampVictorian),
        Tool::LampModern => Some(BuildingType::LampModern),
        Tool::TrashCanBasic => Some(BuildingType::TrashCanBasic),
        Tool::TrashCanFancy => Some(BuildingType::TrashCanFancy),
        Tool::FoodHotdog => Some(BuildingType::FoodHotdog),
        Tool::FoodBurger => Some(BuildingType::FoodBurger),
        Tool::FoodIcecream => Some(BuildingType::FoodIcecream),
        Tool::DrinkSoda => Some(BuildingType::DrinkSoda),
        Tool::SnackPopcorn => Some(BuildingType::SnackPopcorn),
        Tool::ShopSouvenir => Some(BuildingType::ShopSouvenir),
        Tool::ShopToys => Some(BuildingType::ShopToys),
        Tool::Restroom => Some(BuildingType::Restroom),
        Tool::FirstAid => Some(BuildingType::FirstAid),
        Tool::FountainSmall1 => Some(BuildingType::FountainSmall1),
        Tool::FountainMedium1 => Some(BuildingType::FountainMedium1),
        Tool::FountainLarge1 => Some(BuildingType::FountainLarge1),
        Tool::PondSmall => Some(BuildingType::PondSmall),
        Tool::ThemeCastleTower => Some(BuildingType::ThemeCastleTower),
        Tool::ThemePirateShip => Some(BuildingType::ThemePirateShip),
        Tool::ThemeTempleRuins => Some(BuildingType::ThemeTempleRuins),
        Tool::ThemeHauntedTree => Some(BuildingType::ThemeHauntedTree),
        Tool::ThemeCircusTent => Some(BuildingType::ThemeCircusTent),
        Tool::ThemeGeometric => Some(BuildingType::ThemeGeometric),
        Tool::RideCarousel => Some(BuildingType::RideCarousel),
        Tool::RideTeacups => Some(BuildingType::RideTeacups),
        Tool::RideBumperCars => Some(BuildingType::RideBumperCars),
        Tool::RideFerrisClassic => Some(BuildingType::RideFerrisClassic),
        Tool::RideDropTower => Some(BuildingType::RideDropTower),
        Tool::RideLogFlume => Some(BuildingType::RideLogFlume),
        _ => None,
    }
}

/// The cost of one use of each tool.
pub open spec fn spec_tool_cost(t: Tool) -> int {
    match t {
        Tool::Select => 0,
        Tool::Bulldoze => 10,
        Tool::Path => 10,
        Tool::Queue => 15,
        Tool::CoasterStation
        | Tool::CoasterTrackStraight
        | Tool::CoasterTrackTurnLeft
        | Tool::CoasterTrackTurnRight
        | Tool::CoasterTrackSlopeUp
        | Tool::CoasterTrackSlopeDown
        | Tool::CoasterTrackSlopeUpMedium
        | Tool::CoasterTrackSlopeDownMedium
        | Tool::CoasterTrackLiftHill
        | Tool::CoasterTrackLoop
        | Tool::CoasterTrackCorkscrew
        | Tool::CoasterTrackBrakes => 50,
        _ => match spec_tool_building(t) {
            Some(b) => spec_cost(b),
            None => 0,
        },
    }
}

impl Tool {
    /// The canonical name of this tool.
    pub fn as_str(&self) -> (r: &'static str)
        ensures
            r == spec_tool_name(*self),
    {
        match self {
            Tool::Select => "select",
            Tool::Bulldoze => "bulldoze",
            Tool::Path => "path",
            Tool::Queue => "queue",
            Tool::TreeOak => "tree_oak",
            Tool::TreeMaple => "tree_maple",
            Tool::TreePine => "tree_pine",
            Tool::TreePalm => "tree_palm",
            Tool::TreeCherry => "tree_cherry",
            Tool::BushHedge => "bush_hedge",
            Tool::FlowersBed => "flowers_bed",
            Tool::BenchWooden => "bench_wooden",
            Tool::BenchMetal => "bench_metal",
            Tool::LampVictorian => "lamp_victorian",
            Tool::LampModern => "lamp_modern",
            Tool::TrashCanBasic => "trash_can_basic",
            Tool::TrashCanFancy => "trash_can_fancy",
            Tool::FoodHotdog => "food_hotdog",
            Tool::FoodBurger => "food_burger",
            Tool::FoodIcecream => "food_icecream",
            Tool::DrinkSoda => "drink_soda",
            Tool::SnackPopcorn => "snack_popcorn",
            Tool::ShopSouvenir => "shop_souvenir",
            Tool::ShopToys => "shop_toys",
            Tool::Restroom => "restroom",
            Tool::FirstAid => "first_aid",
            Tool::FountainSmall1 => "fountain_small_1",
            Tool::FountainMedium1 => "fountain_medium_1",
            Tool::FountainLarge1 => "fountain_large_1",
            Tool::PondSmall => "pond_small",
            Tool::ThemeCastleTower => "theme_castle_tower",
            Tool::ThemePirateShip => "theme_pirate_ship",
            Tool::ThemeTempleRuins => "theme_temple_ruins",
            Tool::ThemeHauntedTree => "theme_haunted_tree",
            Tool::ThemeCircusTent => "theme_circus_tent",
            Tool::ThemeGeometric => "theme_geometric",
            Tool::RideCarousel => "ride_carousel",
            Tool::RideTeacups => "ride_teacups",
            Tool::RideBumperCars => "ride_bumper_cars",
            Tool::RideFerrisClassic => "ride_ferris_classic",
            Tool::RideDropTower => "ride_drop_tower",
            Tool::RideLogFlume => "ride_log_flume",
            Tool::CoasterStation => "coaster_station",
            Tool::CoasterTrackStraight => "coaster_track_straight",
            Tool::CoasterTrackTurnLeft => "coaster_track_turn_left",
            Tool::CoasterTrackTurnRight => "coaster_track_turn_right",
            Tool::CoasterTrackSlopeUp => "coaster_track_slope_up",
            Tool::CoasterTrackSlopeDown => "coaster_track_slope_down",
            Tool::CoasterTrackSlopeUpMedium => "coaster_track_slope_up_medium",
            Tool::CoasterTrackSlopeDownMedium => "coaster_track_slope_down_medium",
            Tool::CoasterTrackLiftHill => "coaster_track_lift_hill",
            Tool::CoasterTrackLoop => "coaster_track_loop",
            Tool::CoasterTrackCorkscrew => "coaster_track_corkscrew",
            Tool::CoasterTrackBrakes => "coaster_track_brakes",
        }
    }

    /// Parse a tool from its canonical name.
    pub fn from_string(s: &str) -> (r: Option<Tool>)
        ensures
            r == spec_tool_from_name(s@),
    {
        if crate::strcmp::str_eq(s, "select") {
            Some(Tool::Select)
        } else if crate::strcmp::str_eq(s, "bulldoze") {
            Some(Tool::Bulldoze)
        } else if crate::strcmp::str_eq(s, "path") {
            Some(Tool::Path)
        } else if crate::strcmp::str_eq(s, "queue") {
            Some(Tool::Queue)
        } else if crate::strcmp::str_eq(s, "tree_oak") {
            Some(Tool::TreeOak)
        } else if crate::strcmp::str_eq(s, "tree_maple") {
            Some(Tool::TreeMaple)
        } else if crate::strcmp::str_eq(s, "tree_pine") {
            Some(Tool::TreePine)
        } else if crate::strcmp::str_eq(s, "tree_palm") {
            Some(Tool::TreePalm)
        } else if crate::strcmp::str_eq(s, "tree_cherry") {
            Some(Tool::TreeCherry)
        } else if crate::strcmp::str_eq(s, "bush_hedge") {
            Some(Tool::BushHedge)
        } else if crate::strcmp::str_eq(s, "flowers_bed") {
            Some(Tool::FlowersBed)
        } else if crate::strcmp::str_eq(s, "bench_wooden") {
            Some(Tool::BenchWooden)
        } else if crate::strcmp::str_eq(s, "bench_metal") {
            Some(Tool::BenchMetal)
        } else if crate::strcmp::str_eq(s, "lamp_victorian") {
            Some(Tool::LampVictorian)
        } else if crate::strcmp::str_eq(s, "lamp_modern") {
            Some(Tool::LampModern)
        } else if crate::strcmp::str_eq(s, "trash_can_basic") {
            Some(Tool::TrashCanBasic)
        } else if crate::strcmp::str_eq(s, "trash_can_fancy") {
            Some(Tool::TrashCanFancy)
        } else if crate::strcmp::str_eq(s, "food_hotdog") {
            Some(Tool::FoodHotdog)
        } else if crate::strcmp::str_eq(s, "food_burger") {
            Some(Tool::FoodBurger)
        } else if crate::strcmp::str_eq(s, "food_icecream") {
            Some(Tool::FoodIcecream)
        } else if crate::strcmp::str_eq(s, "drink_soda") {
            Some(Tool::DrinkSoda)
        } else if crate::strcmp::str_eq(s, "snack_popcorn") {
            Some(Tool::SnackPopcorn)
        } else if crate::strcmp::str_eq(s, "shop_souvenir") {
            Some(Tool::ShopSouvenir)
        } else if crate::strcmp::str_eq(s, "shop_toys") {
            Some(Tool::ShopToys)
        } else if crate::strcmp::str_eq(s, "restroom") {
            Some(Tool::Restroom)
        } else if crate::strcmp::str_eq(s, "first_aid") {
            Some(Tool::FirstAid)
        } else if crate::strcmp::str_eq(s, "fountain_small_1") {
            Some(Tool::FountainSmall1)
        } else if crate::strcmp::str_eq(s, "fountain_medium_1") {
            Some(Tool::FountainMedium1)
        } else if crate::strcmp::str_eq(s, "fountain_large_1") {
            Some(Tool::FountainLarge1)
        } else if crate::strcmp::str_eq(s, "pond_small") {
            Some(Tool::PondSmall)
        } else if crate::strcmp::str_eq(s, "theme_castle_tower") {
            Some(Tool::ThemeCastleTower)
        } else if crate::strcmp::str_eq(s, "theme_pirate_ship") {
            Some(Tool::ThemePirateShip)
        } else if crate::strcmp::str_eq(s, "theme_temple_ruins") {
            Some(Tool::ThemeTempleRuins)
        } else if crate::strcmp::str_eq(s, "theme_haunted_tree") {
            Some(Tool::ThemeHauntedTree)
        } else if crate::strcmp::str_eq(s, "theme_circus_tent") {
            Some(Tool::ThemeCircusTent)
        } else if crate::strcmp::str_eq(s, "theme_geometric") {
            Some(Tool::ThemeGeometric)
        } else if crate::strcmp::str_eq(s, "ride_carousel") {
            Some(Tool::RideCarousel)
        } else if crate::strcmp::str_eq(s, "ride_teacups") {
            Some(Tool::RideTeacups)
        } else if crate::strcmp::str_eq(s, "ride_bumper_cars") {
            Some(Tool::RideBumperCars)
        } else if crate::strcmp::str_eq(s, "ride_ferris_classic") {
            Some(Tool::RideFerrisClassic)
        } else if crate::strcmp::str_eq(s, "ride_drop_tower") {
            Some(Tool::RideDropTower)
        } else if crate::strcmp::str_eq(s, "ride_log_flume") {
            Some(Tool::RideLogFlume)
        } else if crate::strcmp::str_eq(s, "coaster_station") {
            Some(Tool::CoasterStation)
        } else if crate::strcmp::str_eq(s, "coaster_track_straight") {
            Some(Tool::CoasterTrackStraight)
        } else if crate::strcmp::str_eq(s, "coaster_track_turn_left") {
            Some(Tool::CoasterTrackTurnLeft)
        } else if crate::strcmp::str_eq(s, "coaster_track_turn_right") {
            Some(Tool::CoasterTrackTurnRight)
        } else if crate::strcmp::str_eq(s, "coaster_track_slope_up") {
            Some(Tool::CoasterTrackSlopeUp)
        } else if crate::strcmp::str_eq(s, "coaster_track_slope_down") {
            Some(Tool::CoasterTrackSlopeDown)
        } else if crate::strcmp::str_eq(s, "coaster_track_slope_up_medium") {
            Some(Tool::CoasterTrackSlopeUpMedium)
        } else if crate::strcmp::str_eq(s, "coaster_track_slope_down_medium") {
            Some(Tool::CoasterTrackSlopeDownMedium)
        } else if crate::strcmp::str_eq(s, "coaster_track_lift_hill") {
            Some(Tool::CoasterTrackLiftHill)
        } else if crate::strcmp::str_eq(s, "coaster_track_loop") {
            Some(Tool::CoasterTrackLoop)
        } else if crate::strcmp::str_eq(s, "coaster_track_corkscrew") {
            Some(Tool::CoasterTrackCorkscrew)
        } else if crate::strcmp::str_eq(s, "coaster_track_brakes") {
            Some(Tool::CoasterTrackBrakes)
        } else {
            None
        }
    }

    /// The structure kind this tool places, if it places one.
    pub fn building_type(&self) -> (r: Option<BuildingType>)
        ensures
            r == spec_tool_building(*self),
    {
        match self {
            Tool::TreeOak => Some(BuildingType::TreeOak),
            Tool::TreeMaple => Some(BuildingType::TreeMaple),
            Tool::TreePine => Some(BuildingType::TreePine),
            Tool::TreePalm => Some(BuildingType::TreePalm),
            Tool::TreeCherry => Some(BuildingType::TreeCherry),
            Tool::BushHedge => Some(BuildingType::BushHedge),
            Tool::FlowersBed => Some(BuildingType::FlowersBed),
            Tool::BenchWooden => Some(BuildingType::BenchWooden),
            Tool::BenchMetal => Some(BuildingType::BenchMetal),
            Tool::LampVictorian => Some(BuildingType::LampVictorian),
            Tool::LampModern => Some(BuildingType::LampModern),
            Tool::TrashCanBasic => Some(BuildingType::TrashCanBasic),
            Tool::TrashCanFancy => Some(BuildingType::TrashCanFancy),
            Tool::FoodHotdog => Some(BuildingType::FoodHotdog),
            Tool::FoodBurger => Some(BuildingType::FoodBurger),
            Tool::FoodIcecream => Some(BuildingType::FoodIcecream),
            Tool::DrinkSoda => Some(BuildingType::DrinkSoda),
            Tool::SnackPopcorn => Some(BuildingType::SnackPopcorn),
            Tool::ShopSouvenir => Some(BuildingType::ShopSouvenir),
            Tool::ShopToys => Some(BuildingType::ShopToys),
            Tool::Restroom => Some(BuildingType::Restroom),
            Tool::FirstAid => Some(BuildingType::FirstAid),
            Tool::FountainSmall1 => Some(BuildingType::FountainSmall1),
            Tool::FountainMedium1 => Some(BuildingType::FountainMedium1),
            Tool::FountainLarge1 => Some(BuildingType::FountainLarge1),
            Tool::PondSmall => Some(BuildingType::PondSmall),
            Tool::ThemeCastleTower => Some(BuildingType::ThemeCastleTower),
            Tool::ThemePirateShip => Some(BuildingType::ThemePirateShip),
            Tool::ThemeTempleRuins => Some(BuildingType::ThemeTempleRuins),
            Tool::ThemeHauntedTree => Some(BuildingType::ThemeHauntedTree),
            Tool::ThemeCircusTent => Some(BuildingType::ThemeCircusTent),
            Tool::ThemeGeometric => Some(BuildingType::ThemeGeometric),
            Tool::RideCarousel => Some(BuildingType::RideCarousel),
            Tool::RideTeacups => Some(BuildingType::RideTeacups),
            Tool::RideBumperCars => Some(BuildingType::RideBumperCars),
            Tool::RideFerrisClassic => Some(BuildingType::RideFerrisClassic),
            Tool::RideDropTower => Some(BuildingType::RideDropTower),
            Tool::RideLogFlume => Some(BuildingType::RideLogFlume),
            _ => None,
        }
    }

    /// The cost of one use of this tool.
    pub fn cost(&self) -> (r: i32)
        ensures
            r == spec_tool_cost(*self),
            0 <= r <= 30000,
    {
        match self {
            Tool::Select => 0,
            Tool::Bulldoze => 10,
            Tool::Path => 10,
            Tool::Queue => 15,
            Tool::CoasterStation
            | Tool::CoasterTrackStraight
            | Tool::CoasterTrackTurnLeft
            | Tool::CoasterTrackTurnRight
            | Tool::CoasterTrackSlopeUp
            | Tool::CoasterTrackSlopeDown
            | Tool::CoasterTrackSlopeUpMedium
            | Tool::CoasterTrackSlopeDownMedium
            | Tool::CoasterTrackLiftHill
            | Tool::CoasterTrackLoop
            | Tool::CoasterTrackCorkscrew
            | Tool::CoasterTrackBrakes => 50,
            _ => match self.building_type() {
                Some(b) => b.cost(),
                None => 0,
            },
        }
    }
}

/// A fresh editing surface starts with plain selection.
impl Default for Tool {
    fn default() -> (r: Tool)
        ensures
            r == Tool::Select,
    {
        Tool::Select
    }
}

} // verus!
