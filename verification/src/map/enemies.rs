//! The enemies of the game.

use vstd::prelude::*;
use crate::combat::{Enemy, Health};
use crate::items::Item;
use crate::map::weapons;

verus! {

/// The description of the enemy that [`cook`] makes.
pub const COOK_DESCRIPTION: &'static str =
    "The ship's cook. There's not much to do when there aren't any troops, so they're sitting around watching the game.";

/// The description of the enemy that [`mechanic`] makes.
pub const MECHANIC_DESCRIPTION: &'static str =
    "The ship's mechanic. They check the ship every cycle and fix anything that's broken. They were previously a high ranking ISPD officer and still carry a taser everywhere with them. \
At the moment they're checking the ship's comms, while listening to music through a pair of particularly bulky headphones. Bad practice, of course, but you don't mind.";

/// The description of the enemy that [`skipper`] makes.
pub const SKIPPER_DESCRIPTION: &'static str =
    "The ship's captain. Having served in the 2143-2152 inter-system war, they have great experience in combat. On the other hand, they're very good at forgetting things.";

/// Makes the 'cook' enemy
pub fn cook() -> (r: Enemy)
    ensures
        r.name == "Cook",
        r.description == COOK_DESCRIPTION,
        r.inventory@.len() == 1,
        r.inventory@[0] is Weapon,
        r.inventory@[0]->Weapon_0.name == weapons::STANDARD_BLASTER_NAME,
        r.health@ == 7,
        r.max_health@ == 7,
        r.wf(),
{
    let mut inventory: Vec<Item> = Vec::new();
    inventory.push(weapons::standard_blaster());
    Enemy {
        name: "Cook",
        description: COOK_DESCRIPTION,
        inventory,
        health: Health::new(7),
        max_health: Health::new(7),
    }
}

/// Makes the 'mechanic' enemy
pub fn mechanic() -> (r: Enemy)
    ensures
        r.name == "Mechanic",
        r.description == MECHANIC_DESCRIPTION,
        r.inventory@.len() == 1,
        r.inventory@[0] is Weapon,
        r.inventory@[0]->Weapon_0.name == weapons::ISPD_TASER_NAME,
        r.health@ == 10,
        r.max_health@ == 10,
        r.wf(),
{
    let mut inventory: Vec<Item> = Vec::new();
    inventory.push(weapons::ispd_taser());
    Enemy {
        name: "Mechanic",
        description: MECHANIC_DESCRIPTION,
        inventory,
        health: Health::new(10),
        max_health: Health::new(10),
    }
}

/// Makes the 'skipper' enemy
pub fn skipper() -> (r: Enemy)
    ensures
        r.name == "Skipper",
        r.description == SKIPPER_DESCRIPTION,
        r.inventory@.len() == 0,
        r.health@ == 15,
        r.max_health@ == 15,
        r.wf(),
{
    let inventory: Vec<Item> = Vec::new();
    Enemy {
        name: "Skipper",
        description: SKIPPER_DESCRIPTION,
        inventory,
        health: Health::new(15),
        max_health: Health::new(15),
    }
}

} // verus!
