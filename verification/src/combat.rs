//! Combat: health arithmetic, the actions of a turn, the enemy's policy and
//! the resolution of a turn.

pub mod battle;
pub mod health;
pub mod mixing;
pub mod policy;
pub mod turn;

use vstd::prelude::*;
use crate::items::Item;

pub use health::{after_damage, heal_increase, Damage, Health};

verus! {

/// An enemy which can be battled
#[derive(Debug, Hash)]
pub struct Enemy {
    /// The enemy's name
    pub name: &'static str,
    /// A short description of the enemy
    pub description: &'static str,
    /// The items the enemy can use in battle. What is left of them at the end
    /// of a battle that the player wins goes to the player.
    pub inventory: Vec<Item>,
    /// The enemy's current health
    pub health: Health,
    /// The maximum health the enemy can reach
    pub max_health: Health,
}

/// The result of a battle. After a [`BattleResult::PlayerLoss`] the player
/// has died and the time loop starts again.
#[must_use]
#[derive(Debug, Clone, Copy, PartialEq, Eq, Structural)]
pub enum BattleResult {
    /// The player won the battle
    PlayerWin,
    /// The player lost the battle
    PlayerLoss,
}

/// An action which either the player or an enemy can take on one turn of a
/// battle. The index in a variant is a place in the inventory of the one who
/// acts.
#[derive(Debug, Clone, Copy, PartialEq, Eq, Structural)]
pub enum Action {
    /// The combatant does nothing
    Nothing,
    /// The combatant attempts to eat the food at the given index. A straight
    /// hit taken on the same turn prevents it.
    EatFood(usize),
    /// The combatant attacks straight with the weapon at the given index.
    /// This connects unless the opponent dodges or attacks straight with a
    /// faster weapon.
    AttackStraight(usize),
    /// The combatant attacks to the left with the weapon at the given index.
    /// This connects only if the opponent dodges to the left.
    AttackLeft(usize),
    /// The combatant attacks to the right with the weapon at the given index.
    /// This connects only if the opponent dodges to the right.
    AttackRight(usize),
    /// The combatant dodges to the left, out of the way of a straight attack
    /// and into the way of an attack to the left.
    DodgeLeft,
    /// The combatant dodges to the right, out of the way of a straight attack
    /// and into the way of an attack to the right.
    DodgeRight,
}

impl Action {
    /// The place in the inventory that the action uses, if it uses one.
    pub open spec fn item_index(self) -> Option<usize> {
        match self {
            Action::EatFood(i) => Some(i),
            Action::AttackStraight(i) => Some(i),
            Action::AttackLeft(i) => Some(i),
            Action::AttackRight(i) => Some(i),
            _ => None,
        }
    }

    /// Whether the action is an attack, in whatever direction.
    pub open spec fn is_attack(self) -> bool {
        self is AttackStraight || self is AttackLeft || self is AttackRight
    }

    /// Whether the action neither attacks nor eats.
    pub open spec fn is_passive(self) -> bool {
        self is Nothing || self is DodgeLeft || self is DodgeRight
    }

    /// Whether the action names an item that `inventory` holds.
    pub open spec fn in_range(self, inventory: Seq<Item>) -> bool {
        self.item_index() matches Some(i) ==> i < inventory.len()
    }

    /// Whether the action can be chosen by one who holds `inventory`: an
    /// attack names a weapon in it, and eating names a food in it.
    pub open spec fn valid_for(self, inventory: Seq<Item>) -> bool {
        match self {
            Action::EatFood(i) => i < inventory.len() && inventory[i as int] is Food,
            Action::AttackStraight(i) => i < inventory.len() && inventory[i as int] is Weapon,
            Action::AttackLeft(i) => i < inventory.len() && inventory[i as int] is Weapon,
            Action::AttackRight(i) => i < inventory.len() && inventory[i as int] is Weapon,
            _ => true,
        }
    }
}

impl Enemy {
    /// The enemy's health is not above its maximum.
    pub open spec fn wf(&self) -> bool {
        self.health@ <= self.max_health@
    }

    /// Tells whether the enemy's health is not above its maximum.
    pub fn is_wf(&self) -> (r: bool)
        ensures
            r == self.wf(),
    {
        self.health.as_usize() <= self.max_health.as_usize()
    }

    /// The sentence that tells of the enemy taking `action`.
    pub open spec fn action_text(&self, action: Action) -> Seq<char> {
        match action {
            Action::AttackLeft(w) => "The "@ + self.name@ + " attacks to the left with their "@
                + self.inventory@[w as int].name()@,
            Action::AttackRight(w) => "The "@ + self.name@ + " attacks to the right with their "@
                + self.inventory@[w as int].name()@,
            Action::AttackStraight(w) => "The "@ + self.name@
                + " attacks in front of you with their "@ + self.inventory@[w as int].name()@,
            Action::EatFood(f) => "The "@ + self.name@ + " attempts to eat their "@
                + self.inventory@[f as int].name()@,
            Action::DodgeLeft => "The "@ + self.name@ + " dodges to the left"@,
            Action::DodgeRight => "The "@ + self.name@ + " dodges to the right"@,
            Action::Nothing => "The "@ + self.name@ + " does nothing"@,
        }
    }

    /// Gets a string describing the enemy carrying out a provided action
    pub fn describe_combat_action(&self, action: Action) -> (r: String)
        requires
            action.in_range(self.inventory@),
        ensures
            r@ == self.action_text(action),
    {
        let subject = String::from_str("The ").concat(self.name);
        match action {
            Action::AttackLeft(w) => subject.concat(" attacks to the left with their ").concat(
                self.inventory[w].get_name(),
            ),
            Action::AttackRight(w) => subject.concat(" attacks to the right with their ").concat(
                self.inventory[w].get_name(),
            ),
            Action::AttackStraight(w) => subject.concat(
                " attacks in front of you with their ",
            ).concat(self.inventory[w].get_name()),
            Action::EatFood(f) => subject.concat(" attempts to eat their ").concat(
                self.inventory[f].get_name(),
            ),
            Action::DodgeLeft => subject.concat(" dodges to the left"),
            Action::DodgeRight => subject.concat(" dodges to the right"),
            Action::Nothing => subject.concat(" does nothing"),
        }
    }
}

} // verus!

pub use battle::{battle, win_battle};
pub use turn::execute_actions;
