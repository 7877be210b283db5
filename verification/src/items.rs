//! Items: food, weapons and the things that only the story needs.

use vstd::prelude::*;
use crate::combat::Damage;

verus! {

/// A food item, which heals whoever eats it.
#[derive(Debug, Hash)]
pub struct Food {
    /// The name of the food
    pub name: &'static str,
    /// A description of the food
    pub description: &'static str,
    /// How much health the player or an enemy gains by eating the food
    pub heals_for: Damage,
}

/// A weapon, which can be used in a battle.
#[derive(Debug, Hash)]
pub struct Weapon {
    /// The name of the weapon
    pub name: &'static str,
    /// A description of the weapon
    pub description: &'static str,
    /// How much damage the weapon deals if it hits an opponent who didn't dodge
    pub straight_damage: Damage,
    /// How much damage the weapon deals if it hits an opponent who dodged
    pub dodge_damage: Damage,
    /// The weapon's speed. A lower speed means the weapon acts faster.
    pub speed: usize,
}

/// An item that the player or an enemy can carry.
#[derive(Debug, Hash)]
pub enum Item {
    /// A food item
    Food(Food),
    /// A weapon
    Weapon(Weapon),
    /// The maps which are needed to fly the escape pod
    Maps,
    /// The keys to the escape pod
    EscapePodKeys,
    /// Dust: what is to be had from the air vents
    Dust,
    /// Shame: what is to be had from the mainframe
    Shame,
    /// The captain's diary, with the page that is read next
    CaptainsDiary(u8),
}

/// The name of the maps.
pub const MAPS_NAME: &'static str = "Galactic Maps 2168 Edition";

/// The name of the escape pod keys.
pub const ESCAPE_POD_KEYS_NAME: &'static str = "Escape Pod Keys";

/// The name of the dust.
pub const DUST_NAME: &'static str = "A thin layer of dust";

/// The name of the shame.
pub const SHAME_NAME: &'static str = "A sense of shame";

/// The name of the captain's diary.
pub const CAPTAINS_DIARY_NAME: &'static str = "The Captain's Diary";

/// The description of the maps.
pub const MAPS_DESCRIPTION: &'static str =
    "A map of the galaxy in the format which spacecraft use to plot routes";

/// The description of the escape pod keys.
pub const ESCAPE_POD_KEYS_DESCRIPTION: &'static str =
    "A key card labelled 'escape pod'. The label is beginning to wear.";

/// The description of the dust.
pub const DUST_DESCRIPTION: &'static str =
    "You'd think air vents would be clean like the rest of the ship, but evidently not. If this were an Arnithian ship, you could climb into the vents just fine.";

/// The description of the shame.
pub const SHAME_DESCRIPTION: &'static str =
    "Maybe you're not cut out to be a soldier in the 22nd century. SQL databases have been resigned to museums for centennials.";

/// The description of the captain's diary.
pub const CAPTAINS_DIARY_DESCRIPTION: &'static str =
    "The diary you found underneath the bunks. It's physical paper and the handwriting is awful.";

/// A list of the first `n` of `items`: for each a line with a bullet, the
/// item's name and its description.
pub open spec fn item_lines(items: Seq<Item>, n: int) -> Seq<char>
    decreases n,
{
    if n <= 0 {
        Seq::empty()
    } else {
        item_lines(items, n - 1) + "\u{2022} "@ + items[n - 1].name()@ + " - "@ + items[n
            - 1].description()@ + "\n"@
    }
}

/// Appends to `out` a list of `items`: for each a line with a bullet, the
/// item's name and its description.
pub fn push_item_lines(out: &mut String, items: &Vec<Item>)
    ensures
        final(out)@ == old(out)@ + item_lines(items@, items@.len() as int),
{
    let mut i: usize = 0;
    while i < items.len()
        invariant
            i <= items@.len(),
            out@ == old(out)@ + item_lines(items@, i as int),
        decreases items@.len() - i,
    {
        let ghost before = out@;
        out.append("\u{2022} ");
        out.append(items[i].get_name());
        out.append(" - ");
        out.append(items[i].get_description());
        out.append("\n");
        assert(out@ =~= old(out)@ + item_lines(items@, i + 1));
        i = i + 1;
    }
}

impl Item {
    /// The name of the item, as a specification.
    pub open spec fn name(&self) -> &'static str {
        match self {
            Item::Food(f) => f.name,
            Item::Weapon(w) => w.name,
            Item::Maps => MAPS_NAME,
            Item::EscapePodKeys => ESCAPE_POD_KEYS_NAME,
            Item::Dust => DUST_NAME,
            Item::Shame => SHAME_NAME,
            Item::CaptainsDiary(_) => CAPTAINS_DIARY_NAME,
        }
    }

    /// The description of the item, as a specification.
    pub open spec fn description(&self) -> &'static str {
        match self {
            Item::Food(f) => f.description,
            Item::Weapon(w) => w.description,
            Item::Maps => MAPS_DESCRIPTION,
            Item::EscapePodKeys => ESCAPE_POD_KEYS_DESCRIPTION,
            Item::Dust => DUST_DESCRIPTION,
            Item::Shame => SHAME_DESCRIPTION,
            Item::CaptainsDiary(_) => CAPTAINS_DIARY_DESCRIPTION,
        }
    }

    /// Gets the name of the item.
    #[verifier::when_used_as_spec(name)]
    pub fn get_name(&self) -> (r: &'static str)
        ensures
            r == self.name(),
    {
        match self {
            Item::Food(f) => f.name,
            Item::Weapon(w) => w.name,
            Item::Maps => MAPS_NAME,
            Item::EscapePodKeys => ESCAPE_POD_KEYS_NAME,
            Item::Dust => DUST_NAME,
            Item::Shame => SHAME_NAME,
            Item::CaptainsDiary(_) => CAPTAINS_DIARY_NAME,
        }
    }

    /// Gets the description of the item.
    #[verifier::when_used_as_spec(description)]
    pub fn get_description(&self) -> (r: &'static str)
        ensures
            r == self.description(),
    {
        match self {
            Item::Food(f) => f.description,
            Item::Weapon(w) => w.description,
            Item::Maps => MAPS_DESCRIPTION,
            Item::EscapePodKeys => ESCAPE_POD_KEYS_DESCRIPTION,
            Item::Dust => DUST_DESCRIPTION,
            Item::Shame => SHAME_DESCRIPTION,
            Item::CaptainsDiary(_) => CAPTAINS_DIARY_DESCRIPTION,
        }
    }
}

} // verus!
