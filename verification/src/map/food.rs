//! The food of the game.

use vstd::prelude::*;
use crate::combat::Damage;
use crate::items::{Food, Item};

verus! {

/// The name of the food that [`bread_roll`] makes.
pub const BREAD_ROLL_NAME: &'static str = "Bread roll";

/// The description of the food that [`bread_roll`] makes.
pub const BREAD_ROLL_DESCRIPTION: &'static str =
    "A soft white bread roll. It's tasty, but not substantial.";

/// The name of the food that [`bar_of_chocolate`] makes.
pub const BAR_OF_CHOCOLATE_NAME: &'static str = "Bar of Chocolate";

/// The description of the food that [`bar_of_chocolate`] makes.
pub const BAR_OF_CHOCOLATE_DESCRIPTION: &'static str =
    "A bar of dark chocolate. It says on the label that it's made from real cacao, bred from plants that trace their lineage all the way back to Earth!";

/// Whether `item` is the bread roll.
pub open spec fn is_bread_roll(item: Item) -> bool {
    &&& item is Food
    &&& item->Food_0.name == BREAD_ROLL_NAME
    &&& item->Food_0.description == BREAD_ROLL_DESCRIPTION
    &&& item->Food_0.heals_for@ == 5
}

/// Whether `item` is the bar of chocolate.
pub open spec fn is_bar_of_chocolate(item: Item) -> bool {
    &&& item is Food
    &&& item->Food_0.name == BAR_OF_CHOCOLATE_NAME
    &&& item->Food_0.description == BAR_OF_CHOCOLATE_DESCRIPTION
    &&& item->Food_0.heals_for@ == 10
}

/// Makes the 'bread roll' item
pub fn bread_roll() -> (r: Item)
    ensures
        is_bread_roll(r),
{
    Item::Food(Food { name: BREAD_ROLL_NAME, description: BREAD_ROLL_DESCRIPTION, heals_for: Damage::new(5) })
}

/// Makes the 'bar of chocolate' item
pub fn bar_of_chocolate() -> (r: Item)
    ensures
        is_bar_of_chocolate(r),
{
    Item::Food(Food { name: BAR_OF_CHOCOLATE_NAME, description: BAR_OF_CHOCOLATE_DESCRIPTION, heals_for: Damage::new(10) })
}

} // verus!
