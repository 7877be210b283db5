//! The weapons of the game.

use vstd::prelude::*;
use crate::combat::Damage;
use crate::items::{Item, Weapon};

verus! {

/// The name of the weapon that [`intruders_blaster`] makes.
pub const INTRUDERS_BLASTER_NAME: &'static str = "Intruders Blaster";

/// The description of the weapon that [`intruders_blaster`] makes.
pub const INTRUDERS_BLASTER_DESCRIPTION: &'static str =
    "An energy weapon kept on the wall in the bridge to use if an enemy boards the ship.";

/// The name of the weapon that [`captains_blaster`] makes.
pub const CAPTAINS_BLASTER_NAME: &'static str = "Captain's Blaster";

/// The description of the weapon that [`captains_blaster`] makes.
pub const CAPTAINS_BLASTER_DESCRIPTION: &'static str =
    "An energy weapon which the captain keeps by their side through sunshine and rain, through of course they've seen neither in a long time.";

/// The name of the weapon that [`standard_blaster`] makes.
pub const STANDARD_BLASTER_NAME: &'static str = "Standard Issue Blaster";

/// The description of the weapon that [`standard_blaster`] makes.
pub const STANDARD_BLASTER_DESCRIPTION: &'static str =
    "The blaster issued to every serving troop. It's slow, but well made.";

/// The name of the weapon that [`ispd_taser`] makes.
pub const ISPD_TASER_NAME: &'static str = "ISPD Taser";

/// The description of the weapon that [`ispd_taser`] makes.
pub const ISPD_TASER_DESCRIPTION: &'static str =
    "A high-powered taser given to every officer in the Interstellar Police Department. It's fast and lethal if you're not careful (or if you are).";

/// The name of the weapon that [`throwing_dart_set`] makes.
pub const THROWING_DART_SET_NAME: &'static str = "Set of Throwing Darts";

/// The description of the weapon that [`throwing_dart_set`] makes.
pub const THROWING_DART_SET_DESCRIPTION: &'static str =
    "A set of sharp darts from the darts set in the bunks. They're not too sharp, but you can throw them fast as anything.";

/// The name of the weapon that [`shaving_razor`] makes.
pub const SHAVING_RAZOR_NAME: &'static str = "Shaving Razor";

/// The description of the weapon that [`shaving_razor`] makes.
pub const SHAVING_RAZOR_DESCRIPTION: &'static str =
    "A razor you found in the wash room. It's sharp, but it's not really a weapon.";

/// The name of the weapon that [`wrench`] makes.
pub const WRENCH_NAME: &'static str = "Wrench";

/// The description of the weapon that [`wrench`] makes.
pub const WRENCH_DESCRIPTION: &'static str =
    "A wrench from the engine room. It's weighty and you could do some good damage with it.";

/// The name of the weapon that [`eating_knife`] makes.
pub const EATING_KNIFE_NAME: &'static str = "Eating Knife";

/// The description of the weapon that [`eating_knife`] makes.
pub const EATING_KNIFE_DESCRIPTION: &'static str =
    "A sharp steel knife. Synthetic protein is tough, so it's sharp and sturdy";

/// Makes the 'intruders blaster' item
pub fn intruders_blaster() -> (r: Item)
    ensures
        r is Weapon,
        r->Weapon_0.name == INTRUDERS_BLASTER_NAME,
        r->Weapon_0.description == INTRUDERS_BLASTER_DESCRIPTION,
        r->Weapon_0.straight_damage@ == 5,
        r->Weapon_0.dodge_damage@ == 3,
        r->Weapon_0.speed == 3,
{
    Item::Weapon(
        Weapon {
            name: INTRUDERS_BLASTER_NAME,
            description: INTRUDERS_BLASTER_DESCRIPTION,
            straight_damage: Damage::new(5),
            dodge_damage: Damage::new(3),
            speed: 3,
        },
    )
}

/// Makes the 'captain's blaster' item
pub fn captains_blaster() -> (r: Item)
    ensures
        r is Weapon,
        r->Weapon_0.name == CAPTAINS_BLASTER_NAME,
        r->Weapon_0.description == CAPTAINS_BLASTER_DESCRIPTION,
        r->Weapon_0.straight_damage@ == 7,
        r->Weapon_0.dodge_damage@ == 5,
        r->Weapon_0.speed == 3,
{
    Item::Weapon(
        Weapon {
            name: CAPTAINS_BLASTER_NAME,
            description: CAPTAINS_BLASTER_DESCRIPTION,
            straight_damage: Damage::new(7),
            dodge_damage: Damage::new(5),
            speed: 3,
        },
    )
}

/// Makes the 'standard blaster' item
pub fn standard_blaster() -> (r: Item)
    ensures
        r is Weapon,
        r->Weapon_0.name == STANDARD_BLASTER_NAME,
        r->Weapon_0.description == STANDARD_BLASTER_DESCRIPTION,
        r->Weapon_0.straight_damage@ == 5,
        r->Weapon_0.dodge_damage@ == 2,
        r->Weapon_0.speed == 4,
{
    Item::Weapon(
        Weapon {
            name: STANDARD_BLASTER_NAME,
            description: STANDARD_BLASTER_DESCRIPTION,
            straight_damage: Damage::new(5),
            dodge_damage: Damage::new(2),
            speed: 4,
        },
    )
}

/// Makes the 'ISPD taser' item
pub fn ispd_taser() -> (r: Item)
    ensures
        r is Weapon,
        r->Weapon_0.name == ISPD_TASER_NAME,
        r->Weapon_0.description == ISPD_TASER_DESCRIPTION,
        r->Weapon_0.straight_damage@ == 10,
        r->Weapon_0.dodge_damage@ == 5,
        r->Weapon_0.speed == 2,
{
    Item::Weapon(
        Weapon {
            name: ISPD_TASER_NAME,
            description: ISPD_TASER_DESCRIPTION,
            straight_damage: Damage::new(10),
            dodge_damage: Damage::new(5),
            speed: 2,
        },
    )
}

/// Makes the 'throwing dart set' item
pub fn throwing_dart_set() -> (r: Item)
    ensures
        r is Weapon,
        r->Weapon_0.name == THROWING_DART_SET_NAME,
        r->Weapon_0.description == THROWING_DART_SET_DESCRIPTION,
        r->Weapon_0.straight_damage@ == 2,
        r->Weapon_0.dodge_damage@ == 2,
        r->Weapon_0.speed == 1,
{
    Item::Weapon(
        Weapon {
            name: THROWING_DART_SET_NAME,
            description: THROWING_DART_SET_DESCRIPTION,
            straight_damage: Damage::new(2),
            dodge_damage: Damage::new(2),
            speed: 1,
        },
    )
}

/// Makes the 'shaving razor' item
pub fn shaving_razor() -> (r: Item)
    ensures
        r is Weapon,
        r->Weapon_0.name == SHAVING_RAZOR_NAME,
        r->Weapon_0.description == SHAVING_RAZOR_DESCRIPTION,
        r->Weapon_0.straight_damage@ == 3,
        r->Weapon_0.dodge_damage@ == 2,
        r->Weapon_0.speed == 5,
{
    Item::Weapon(
        Weapon {
            name: SHAVING_RAZOR_NAME,
            description: SHAVING_RAZOR_DESCRIPTION,
            straight_damage: Damage::new(3),
            dodge_damage: Damage::new(2),
            speed: 5,
        },
    )
}

/// Makes the 'wrench' item
pub fn wrench() -> (r: Item)
    ensures
        r is Weapon,
        r->Weapon_0.name == WRENCH_NAME,
        r->Weapon_0.description == WRENCH_DESCRIPTION,
        r->Weapon_0.straight_damage@ == 6,
        r->Weapon_0.dodge_damage@ == 4,
        r->Weapon_0.speed == 3,
{
    Item::Weapon(
        Weapon {
            name: WRENCH_NAME,
            description: WRENCH_DESCRIPTION,
            straight_damage: Damage::new(6),
            dodge_damage: Damage::new(4),
            speed: 3,
        },
    )
}

/// Makes the 'eating knife' item
pub fn eating_knife() -> (r: Item)
    ensures
        r is Weapon,
        r->Weapon_0.name == EATING_KNIFE_NAME,
        r->Weapon_0.description == EATING_KNIFE_DESCRIPTION,
        r->Weapon_0.straight_damage@ == 5,
        r->Weapon_0.dodge_damage@ == 5,
        r->Weapon_0.speed == 2,
{
    Item::Weapon(
        Weapon {
            name: EATING_KNIFE_NAME,
            description: EATING_KNIFE_DESCRIPTION,
            straight_damage: Damage::new(5),
            dodge_damage: Damage::new(5),
            speed: 2,
        },
    )
}

} // verus!
