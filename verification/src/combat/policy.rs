//! How an enemy chooses its action for a turn.

use vstd::prelude::*;
use crate::combat::mixing::{
    mix,
    mix_inventory,
    mix_items,
    mix_str,
    mix_text,
    mix_word,
    scramble_word,
    state_hash,
    SEED,
};
use crate::combat::{Action, Enemy};
use crate::items::Item;

verus! {

/// The place of the first food at or after `from` in `inventory`, if there
/// is one.
pub open spec fn first_food_from(inventory: Seq<Item>, from: int) -> Option<usize>
    decreases inventory.len() - from,
{
    if from < 0 || from >= inventory.len() {
        None
    } else if inventory[from] is Food {
        Some(from as usize)
    } else {
        first_food_from(inventory, from + 1)
    }
}

/// The place of the first weapon at or after `from` in `inventory`, if
/// there is one.
pub open spec fn first_weapon_from(inventory: Seq<Item>, from: int) -> Option<usize>
    decreases inventory.len() - from,
{
    if from < 0 || from >= inventory.len() {
        None
    } else if inventory[from] is Weapon {
        Some(from as usize)
    } else {
        first_weapon_from(inventory, from + 1)
    }
}

/// The place of the first food in `inventory`, if it holds any.
pub open spec fn first_food(inventory: Seq<Item>) -> Option<usize> {
    first_food_from(inventory, 0)
}

/// The place of the first weapon in `inventory`, if it holds any.
pub open spec fn first_weapon(inventory: Seq<Item>) -> Option<usize> {
    first_weapon_from(inventory, 0)
}

/// What [`first_food_from`] finds is a food, nothing before it from `from`
/// on is one, and it finds nothing only where there is no food from `from`
/// on.
pub proof fn lemma_first_food_from(inventory: Seq<Item>, from: int)
    requires
        0 <= from,
        inventory.len() <= usize::MAX,
    ensures
        match first_food_from(inventory, from) {
            Some(i) => from <= i < inventory.len() && inventory[i as int] is Food && forall|j: int|
                from <= j < i ==> !(inventory[j] is Food),
            None => forall|j: int| from <= j < inventory.len() ==> !(inventory[j] is Food),
        },
    decreases inventory.len() - from,
{
    if from < inventory.len() && !(inventory[from] is Food) {
        lemma_first_food_from(inventory, from + 1);
    }
}

/// What an enemy that holds a weapon at `weapon` does for a hash of `hash`:
/// of eight cases, three are a straight attack, one each an attack to the
/// left and to the right, one each a dodge to the left and to the right, and
/// one is to do nothing.
pub open spec fn armed_choice(hash: u64, weapon: usize) -> Action {
    let case = hash % 8;
    if case == 0 {
        Action::AttackLeft(weapon)
    } else if case <= 3 {
        Action::AttackStraight(weapon)
    } else if case == 4 {
        Action::AttackRight(weapon)
    } else if case == 5 {
        Action::DodgeLeft
    } else if case == 6 {
        Action::DodgeRight
    } else {
        Action::Nothing
    }
}

/// What an enemy without a weapon does for a hash of `hash`: of seven cases,
/// two are a dodge to the left, three are to do nothing, and two are a dodge
/// to the right.
pub open spec fn unarmed_choice(hash: u64) -> Action {
    let case = hash % 7;
    if case <= 1 {
        Action::DodgeLeft
    } else if case <= 4 {
        Action::Nothing
    } else {
        Action::DodgeRight
    }
}

/// Whether an enemy with these hit points is at half of its maximum or
/// below.
pub open spec fn at_half_health_or_below(health: nat, max_health: nat) -> bool {
    health * 2 <= max_health
}

/// The action of an enemy with this health and inventory for a hash of
/// `hash`. An enemy at half health or below that holds food eats the first
/// food it holds, whatever the hash. Any other enemy goes by the hash, with
/// the first weapon it holds if it holds one.
pub open spec fn decide(health: nat, max_health: nat, inventory: Seq<Item>, hash: u64) -> Action {
    if at_half_health_or_below(health, max_health) && first_food(inventory) is Some {
        Action::EatFood(first_food(inventory)->0)
    } else {
        match first_weapon(inventory) {
            Some(weapon) => armed_choice(hash, weapon),
            None => unarmed_choice(hash),
        }
    }
}

/// Finds the first food in `inventory`.
pub fn find_first_food(inventory: &Vec<Item>) -> (r: Option<usize>)
    ensures
        r == first_food(inventory@),
        r matches Some(i) ==> i < inventory@.len() && inventory@[i as int] is Food,
{
    let mut i: usize = 0;
    while i < inventory.len()
        invariant
            i <= inventory@.len(),
            first_food(inventory@) == first_food_from(inventory@, i as int),
        decreases inventory@.len() - i,
    {
        if let Item::Food(_) = &inventory[i] {
            return Some(i);
        }
        i = i + 1;
    }
    None
}

/// Finds the first weapon in `inventory`.
pub fn find_first_weapon(inventory: &Vec<Item>) -> (r: Option<usize>)
    ensures
        r == first_weapon(inventory@),
        r matches Some(i) ==> i < inventory@.len() && inventory@[i as int] is Weapon,
{
    let mut i: usize = 0;
    while i < inventory.len()
        invariant
            i <= inventory@.len(),
            first_weapon(inventory@) == first_weapon_from(inventory@, i as int),
        decreases inventory@.len() - i,
    {
        if let Item::Weapon(_) = &inventory[i] {
            return Some(i);
        }
        i = i + 1;
    }
    None
}

/// The action for an enemy's state and a hash.
pub fn decide_action(enemy: &Enemy, hash: u64) -> (r: Action)
    ensures
        r == decide(enemy.health@, enemy.max_health@, enemy.inventory@, hash),
        r.valid_for(enemy.inventory@),
{
    let health = enemy.health.as_usize();
    let max_health = enemy.max_health.as_usize();
    // `health * 2 <= max_health` without a product that could overflow
    if health <= max_health / 2 {
        if let Some(food_index) = find_first_food(&enemy.inventory) {
            return Action::EatFood(food_index);
        }
    }
    match find_first_weapon(&enemy.inventory) {
        Some(weapon_index) => {
            let case = hash % 8;
            if case == 0 {
                Action::AttackLeft(weapon_index)
            } else if case <= 3 {
                Action::AttackStraight(weapon_index)
            } else if case == 4 {
                Action::AttackRight(weapon_index)
            } else if case == 5 {
                Action::DodgeLeft
            } else if case == 6 {
                Action::DodgeRight
            } else {
                Action::Nothing
            }
        },
        None => {
            let case = hash % 7;
            if case <= 1 {
                Action::DodgeLeft
            } else if case <= 4 {
                Action::Nothing
            } else {
                Action::DodgeRight
            }
        },
    }
}

impl Enemy {
    /// What the enemy does on the turn `turn_number`: a function of its state
    /// and of the turn number, and of nothing else.
    pub open spec fn choice(&self, turn_number: usize) -> Action {
        decide(self.health@, self.max_health@, self.inventory@, state_hash(*self, turn_number))
    }

    /// Gets a hash of the enemy's state and the provided turn number.
    pub fn hash_with_turn(&self, turn_number: usize) -> (r: u64)
        ensures
            r == state_hash(*self, turn_number),
    {
        let named = mix_text(mix_text(SEED, self.name), self.description);
        let armed = mix_inventory(mix_word(named, self.inventory.len() as u64), &self.inventory);
        let alive = mix_word(
            mix_word(armed, self.health.as_usize() as u64),
            self.max_health.as_usize() as u64,
        );
        scramble_word(mix_word(alive, turn_number as u64))
    }

    /// Determines what action the enemy takes this turn. The enemy itself is
    /// left as it is.
    pub fn choose_combat_action(&mut self, turn_number: usize) -> (r: Action)
        ensures
            *final(self) == *old(self),
            r == old(self).choice(turn_number),
            r.valid_for(old(self).inventory@),
            at_half_health_or_below(old(self).health@, old(self).max_health@) && first_food(
                old(self).inventory@,
            ) is Some ==> r == Action::EatFood(first_food(old(self).inventory@)->0),
    {
        let hash = self.hash_with_turn(turn_number);
        decide_action(self, hash)
    }
}

/// Whether two items are of the same kind and hold the same.
pub open spec fn same_item(x: Item, y: Item) -> bool {
    match (x, y) {
        (Item::Food(f), Item::Food(g)) => f.name@ == g.name@ && f.description@ == g.description@
            && f.heals_for == g.heals_for,
        (Item::Weapon(v), Item::Weapon(w)) => v.name@ == w.name@ && v.description@
            == w.description@ && v.straight_damage == w.straight_damage && v.dodge_damage
            == w.dodge_damage && v.speed == w.speed,
        (Item::Maps, Item::Maps) => true,
        (Item::EscapePodKeys, Item::EscapePodKeys) => true,
        (Item::Dust, Item::Dust) => true,
        (Item::Shame, Item::Shame) => true,
        (Item::CaptainsDiary(p), Item::CaptainsDiary(q)) => p == q,
        _ => false,
    }
}

/// Whether two lists of items hold the same items in the same order.
pub open spec fn same_items(xs: Seq<Item>, ys: Seq<Item>) -> bool {
    &&& xs.len() == ys.len()
    &&& forall|k: int| 0 <= k < xs.len() ==> same_item(#[trigger] xs[k], ys[k])
}

/// Whether two enemies are in the same state: they are called and described
/// the same, are as healthy as one another, and hold the same.
pub open spec fn same_state(a: Enemy, b: Enemy) -> bool {
    &&& a.name@ == b.name@
    &&& a.description@ == b.description@
    &&& a.health == b.health
    &&& a.max_health == b.max_health
    &&& same_items(a.inventory@, b.inventory@)
}

/// The hash of a list of items depends on nothing but what the items hold.
pub proof fn lemma_same_items_mix_alike(h: u64, xs: Seq<Item>, ys: Seq<Item>)
    requires
        same_items(xs, ys),
    ensures
        mix_items(h, xs) == mix_items(h, ys),
    decreases xs.len(),
{
    if xs.len() > 0 {
        assert(same_item(xs[xs.len() - 1], ys[ys.len() - 1]));
        assert(same_items(xs.drop_last(), ys.drop_last())) by {
            assert forall|k: int| 0 <= k < xs.drop_last().len() implies same_item(
                #[trigger] xs.drop_last()[k],
                ys.drop_last()[k],
            ) by {
                assert(same_item(xs[k], ys[k]));
            }
        }
        lemma_same_items_mix_alike(h, xs.drop_last(), ys.drop_last());
    }
}

/// Where the first food and the first weapon are depends on nothing but
/// what the items hold.
pub proof fn lemma_same_items_found_alike(xs: Seq<Item>, ys: Seq<Item>, from: int)
    requires
        same_items(xs, ys),
        0 <= from,
    ensures
        first_food_from(xs, from) == first_food_from(ys, from),
        first_weapon_from(xs, from) == first_weapon_from(ys, from),
    decreases xs.len() - from,
{
    if from < xs.len() {
        assert(same_item(xs[from], ys[from]));
        lemma_same_items_found_alike(xs, ys, from + 1);
    }
}

/// An enemy in the same state chooses the same action on the same turn,
/// however often it is asked and whichever enemy in that state is asked:
/// the choice depends on nothing but what the state holds and the number of
/// the turn.
pub proof fn lemma_choice_is_deterministic(a: Enemy, b: Enemy, turn_number: usize)
    requires
        same_state(a, b),
    ensures
        a.choice(turn_number) == b.choice(turn_number),
{
    let named = mix_str(mix_str(SEED, a.name), a.description);
    lemma_same_items_mix_alike(mix(named, a.inventory@.len() as u64), a.inventory@, b.inventory@);
    lemma_same_items_found_alike(a.inventory@, b.inventory@, 0);
}

/// An enemy at half of its maximum health or below that holds food eats the
/// first food it holds, whatever the hash and so whatever the turn.
pub proof fn lemma_survival_comes_first(
    health: nat,
    max_health: nat,
    inventory: Seq<Item>,
    hash: u64,
    food: int,
)
    requires
        health * 2 <= max_health,
        0 <= food < inventory.len(),
        inventory[food] is Food,
        inventory.len() <= usize::MAX,
    ensures
        decide(health, max_health, inventory, hash) is EatFood,
        decide(health, max_health, inventory, hash)->EatFood_0 <= food,
        inventory[decide(health, max_health, inventory, hash)->EatFood_0 as int] is Food,
        forall|j: int|
            0 <= j < decide(health, max_health, inventory, hash)->EatFood_0 ==> !(inventory[j] is Food),
{
    lemma_first_food_from(inventory, 0);
}

} // verus!
