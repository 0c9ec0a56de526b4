//! Food and drink. These are alchemy items in the game, but they get their
//! own icons, picked from food and container keywords.

use vstd::prelude::*;

use super::color::{color_from_keywords, first_keyword_color, InvColor};
use super::{HasIcon, HasKeywords};
use crate::images::icons::Icon;
use crate::plugin::Color;

verus! {

/// The icon for a food item, and the inventory color to draw it in.
#[derive(Clone, Copy, Debug, PartialEq, Eq, Hash, Structural)]
pub struct FoodType {
    pub icon: Icon,
    pub color: InvColor,
}

impl Default for FoodType {
    fn default() -> (r: Self)
        ensures
            r == (FoodType { icon: Icon::IconDefault, color: InvColor::White }),
    {
        FoodType { icon: Icon::IconDefault, color: InvColor::White }
    }
}

impl HasIcon for FoodType {
    fn color(&self) -> (r: Color)
        ensures
            r == self.color.spec_color(),
    {
        self.color.color()
    }

    fn icon(&self) -> (r: &Icon)
        ensures
            *r == self.icon,
    {
        &self.icon
    }
}

/// Groups of food and container keywords, one per icon, in priority order.
#[derive(Clone, Copy, Debug, PartialEq, Eq, Hash, Structural)]
pub enum FoodGroup {
    Tea,
    Water,
    Wine,
    Bread,
    Carrot,
    Cheese,
    Fish,
    Meat,
    Pie,
    Stew,
    Teacup,
    WineBottle,
    Mead,
    Skooma,
    WaterJug,
    StewBowl,
}

/// Whether `keyword` is one of the keywords of group `g`.
pub open spec fn in_food_group(g: FoodGroup, keyword: Seq<char>) -> bool {
    match g {
        FoodGroup::Tea => keyword == "OCF_AlchDrink_Coffee"@ || keyword == "OCF_AlchDrink_Tea"@,
        FoodGroup::Water => keyword == "OCF_AlchDrink_Juice"@ || keyword == "OCF_AlchDrink_Milk"@ || keyword == "OCF_AlchDrink_Water"@ || keyword == "OCF_AlchDrink_MilkRaw"@ || keyword == "OCF_AlchDrink_WaterRaw"@,
        FoodGroup::Wine => keyword == "MAG_FoodTypeWine"@,
        FoodGroup::Bread => keyword == "OCF_AlchFood_Bread"@,
        FoodGroup::Carrot => keyword == "OCF_AlchFood_Vegetable"@,
        FoodGroup::Cheese => keyword == "OCF_AlchFood_Cheese"@,
        FoodGroup::Fish => keyword == "OCF_AlchFood_Fish"@ || keyword == "OCF_AlchFood_FishRaw"@ || keyword == "OCF_AlchFood_Seafood"@ || keyword == "OCF_AlchFood_SeafoodRaw"@,
        FoodGroup::Meat => keyword == "OCF_AlchFood_Meat"@ || keyword == "OCF_AlchFood_MeatSmall"@ || keyword == "OCF_AlchFood_MeatRaw"@,
        FoodGroup::Pie => keyword == "OCF_AlchFood_Meal"@ || keyword == "OCF_AlchFood_Treat"@ || keyword == "MAG_FoodTypePie"@ || keyword == "OCF_AlchFood_Baked"@,
        FoodGroup::Stew => keyword == "OCF_AlchFood_Stew"@ || keyword == "OCF_AlchFood_Treat"@,
        FoodGroup::Teacup => keyword == "OCF_VesselCup"@,
        FoodGroup::WineBottle => keyword == "_SH_WineBottleKeyword"@,
        FoodGroup::Mead => keyword == "_SH_MeadBottleKeyword"@ || keyword == "OCF_VesselBottle"@ || keyword == "OCF_VesselFlagon"@ || keyword == "OCF_VesselTankard"@,
        FoodGroup::Skooma => keyword == "OCF_VesselBottleSkooma"@ || keyword == "OCF_VesselVial"@,
        FoodGroup::WaterJug => keyword == "OCF_VesselWaterskin"@ || keyword == "OCF_VesselFlask"@ || keyword == "OCF_VesselJug"@,
        FoodGroup::StewBowl => keyword == "OCF_VesselBowl"@,
    }
}

/// Whether `keyword` is one of the keywords of group `g`.
pub fn is_in_food_group(g: FoodGroup, keyword: &String) -> (r: bool)
    ensures
        r == in_food_group(g, keyword@),
{
    match g {
        FoodGroup::Tea => *keyword == String::from_str("OCF_AlchDrink_Coffee") || *keyword == String::from_str("OCF_AlchDrink_Tea"),
        FoodGroup::Water => *keyword == String::from_str("OCF_AlchDrink_Juice") || *keyword == String::from_str("OCF_AlchDrink_Milk") || *keyword == String::from_str("OCF_AlchDrink_Water") || *keyword == String::from_str("OCF_AlchDrink_MilkRaw") || *keyword == String::from_str("OCF_AlchDrink_WaterRaw"),
        FoodGroup::Wine => *keyword == String::from_str("MAG_FoodTypeWine"),
        FoodGroup::Bread => *keyword == String::from_str("OCF_AlchFood_Bread"),
        FoodGroup::Carrot => *keyword == String::from_str("OCF_AlchFood_Vegetable"),
        FoodGroup::Cheese => *keyword == String::from_str("OCF_AlchFood_Cheese"),
        FoodGroup::Fish => *keyword == String::from_str("OCF_AlchFood_Fish") || *keyword == String::from_str("OCF_AlchFood_FishRaw") || *keyword == String::from_str("OCF_AlchFood_Seafood") || *keyword == String::from_str("OCF_AlchFood_SeafoodRaw"),
        FoodGroup::Meat => *keyword == String::from_str("OCF_AlchFood_Meat") || *keyword == String::from_str("OCF_AlchFood_MeatSmall") || *keyword == String::from_str("OCF_AlchFood_MeatRaw"),
        FoodGroup::Pie => *keyword == String::from_str("OCF_AlchFood_Meal") || *keyword == String::from_str("OCF_AlchFood_Treat") || *keyword == String::from_str("MAG_FoodTypePie") || *keyword == String::from_str("OCF_AlchFood_Baked"),
        FoodGroup::Stew => *keyword == String::from_str("OCF_AlchFood_Stew") || *keyword == String::from_str("OCF_AlchFood_Treat"),
        FoodGroup::Teacup => *keyword == String::from_str("OCF_VesselCup"),
        FoodGroup::WineBottle => *keyword == String::from_str("_SH_WineBottleKeyword"),
        FoodGroup::Mead => *keyword == String::from_str("_SH_MeadBottleKeyword") || *keyword == String::from_str("OCF_VesselBottle") || *keyword == String::from_str("OCF_VesselFlagon") || *keyword == String::from_str("OCF_VesselTankard"),
        FoodGroup::Skooma => *keyword == String::from_str("OCF_VesselBottleSkooma") || *keyword == String::from_str("OCF_VesselVial"),
        FoodGroup::WaterJug => *keyword == String::from_str("OCF_VesselWaterskin") || *keyword == String::from_str("OCF_VesselFlask") || *keyword == String::from_str("OCF_VesselJug"),
        FoodGroup::StewBowl => *keyword == String::from_str("OCF_VesselBowl"),
    }
}

/// Whether some keyword belongs to group `g`.
pub open spec fn has_food_group(keywords: Seq<Seq<char>>, g: FoodGroup) -> bool {
    exists|i: int| 0 <= i < keywords.len() && #[trigger] in_food_group(g, keywords[i])
}

/// Whether some keyword belongs to group `g`.
pub fn any_in_food_group(keywords: &[String], g: FoodGroup) -> (r: bool)
    ensures
        r == has_food_group(keywords@.map_values(|k: String| k@), g),
{
    let ghost ks = keywords@.map_values(|k: String| k@);
    let mut i: usize = 0;
    while i < keywords.len()
        invariant
            i <= keywords@.len(),
            ks == keywords@.map_values(|k: String| k@),
            forall|j: int| 0 <= j < i ==> !#[trigger] in_food_group(g, ks[j]),
        decreases keywords.len() - i,
    {
        if is_in_food_group(g, &keywords[i]) {
            assert(in_food_group(g, ks[i as int]));
            return true;
        }
        i += 1;
    }
    false
}

/// The icon for food with these keywords: the first group, in priority order,
/// that some keyword belongs to; the generic food icon when none does.
pub open spec fn food_icon(keywords: Seq<Seq<char>>) -> Icon {
    if has_food_group(keywords, FoodGroup::Tea) {
        Icon::DrinkTea
    }
    else if has_food_group(keywords, FoodGroup::Water) {
        Icon::DrinkWater
    }
    else if has_food_group(keywords, FoodGroup::Wine) {
        Icon::DrinkWine
    }
    else if has_food_group(keywords, FoodGroup::Bread) {
        Icon::FoodBread
    }
    else if has_food_group(keywords, FoodGroup::Carrot) {
        Icon::FoodCarrot
    }
    else if has_food_group(keywords, FoodGroup::Cheese) {
        Icon::FoodCheese
    }
    else if has_food_group(keywords, FoodGroup::Fish) {
        Icon::FoodFish
    }
    else if has_food_group(keywords, FoodGroup::Meat) {
        Icon::FoodMeat
    }
    else if has_food_group(keywords, FoodGroup::Pie) {
        Icon::FoodPie
    }
    else if has_food_group(keywords, FoodGroup::Stew) {
        Icon::FoodStew
    }
    else if has_food_group(keywords, FoodGroup::Teacup) {
        Icon::DrinkTea
    }
    else if has_food_group(keywords, FoodGroup::WineBottle) {
        Icon::DrinkWine
    }
    else if has_food_group(keywords, FoodGroup::Mead) {
        Icon::DrinkMead
    }
    else if has_food_group(keywords, FoodGroup::Skooma) {
        Icon::PotionSkooma
    }
    else if has_food_group(keywords, FoodGroup::WaterJug) {
        Icon::DrinkWater
    }
    else if has_food_group(keywords, FoodGroup::StewBowl) {
        Icon::FoodStew
    }
    else {
        Icon::Food
    }
}

fn food_icon_for(keywords: &[String]) -> (r: Icon)
    ensures
        r == food_icon(keywords@.map_values(|k: String| k@)),
{
    if any_in_food_group(keywords, FoodGroup::Tea) {
        Icon::DrinkTea
    }
    else if any_in_food_group(keywords, FoodGroup::Water) {
        Icon::DrinkWater
    }
    else if any_in_food_group(keywords, FoodGroup::Wine) {
        Icon::DrinkWine
    }
    else if any_in_food_group(keywords, FoodGroup::Bread) {
        Icon::FoodBread
    }
    else if any_in_food_group(keywords, FoodGroup::Carrot) {
        Icon::FoodCarrot
    }
    else if any_in_food_group(keywords, FoodGroup::Cheese) {
        Icon::FoodCheese
    }
    else if any_in_food_group(keywords, FoodGroup::Fish) {
        Icon::FoodFish
    }
    else if any_in_food_group(keywords, FoodGroup::Meat) {
        Icon::FoodMeat
    }
    else if any_in_food_group(keywords, FoodGroup::Pie) {
        Icon::FoodPie
    }
    else if any_in_food_group(keywords, FoodGroup::Stew) {
        Icon::FoodStew
    }
    else if any_in_food_group(keywords, FoodGroup::Teacup) {
        Icon::DrinkTea
    }
    else if any_in_food_group(keywords, FoodGroup::WineBottle) {
        Icon::DrinkWine
    }
    else if any_in_food_group(keywords, FoodGroup::Mead) {
        Icon::DrinkMead
    }
    else if any_in_food_group(keywords, FoodGroup::Skooma) {
        Icon::PotionSkooma
    }
    else if any_in_food_group(keywords, FoodGroup::WaterJug) {
        Icon::DrinkWater
    }
    else if any_in_food_group(keywords, FoodGroup::StewBowl) {
        Icon::FoodStew
    }
    else {
        Icon::Food
    }
}

impl FoodType {
    /// The food type for these keywords: the icon of `food_icon` and the color
    /// of the first color keyword, white when there is none.
    pub open spec fn spec_classify(keywords: Seq<Seq<char>>) -> FoodType {
        FoodType {
            icon: food_icon(keywords),
            color: match first_keyword_color(keywords) {
                Some(c) => c,
                None => InvColor::White,
            },
        }
    }
}

impl HasKeywords for FoodType {
    fn classify(name: &str, keywords: Vec<String>, twohanded: bool) -> (r: Self)
        ensures
            r == FoodType::spec_classify(keywords@.map_values(|k: String| k@)),
    {
        let color = color_from_keywords(keywords.as_slice());
        let icon = food_icon_for(keywords.as_slice());
        FoodType { icon, color }
    }
}

} // verus!
