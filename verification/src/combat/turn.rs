//! The resolution of one turn: what the two chosen actions do to the two
//! combatants, and how the turn is told.

use vstd::prelude::*;
use vstd::pervasive::unreached;
use crate::combat::{after_damage, heal_increase, Action, Damage, Enemy};
use crate::items::{Food, Item, Weapon};
use crate::numerals::decimal;
use crate::player::Player;

verus! {

/// The ways in which a turn can come out. Of the two actions of a turn, the
/// first that fits in this order decides: a straight attack, food on both
/// sides, food on one side, an attack to a side that meets a dodge, nothing
/// but dodging and waiting, an attack of the player that misses, an attack of
/// the enemy that misses.
#[derive(Debug, Clone, Copy, PartialEq, Eq, Structural)]
pub enum Outcome {
    /// The player's straight attack lands: the enemy neither dodged nor
    /// attacked straight.
    PlayerHits,
    /// The enemy's straight attack lands: the player neither dodged nor
    /// attacked straight.
    EnemyHits,
    /// Both attacked straight and the player's weapon is the faster one: only
    /// the player's attack lands.
    PlayerFaster,
    /// Both attacked straight and the enemy's weapon is the faster one: only
    /// the enemy's attack lands.
    EnemyFaster,
    /// Both attacked straight with weapons of the same speed: both attacks
    /// land.
    BothHit,
    /// Both eat.
    BothEat,
    /// The player eats, and the enemy does not attack straight.
    PlayerEats,
    /// The enemy eats, and the player does not attack straight.
    EnemyEats,
    /// The player attacks to the side to which the enemy dodges.
    PlayerCatches,
    /// The enemy attacks to the side to which the player dodges.
    EnemyCatches,
    /// Neither attacks or eats.
    Stalemate,
    /// The player attacks and the attack does not connect.
    PlayerMisses,
    /// The enemy attacks and the attack does not connect.
    EnemyMisses,
}

/// A combatant as a turn sees it.
pub struct Fighter {
    /// The hit points
    pub health: nat,
    /// The most that the hit points can reach
    pub max_health: nat,
    /// The items held
    pub inventory: Seq<Item>,
}

impl Fighter {
    /// The weapon at place `i`.
    pub open spec fn weapon(self, i: usize) -> Weapon {
        self.inventory[i as int]->Weapon_0
    }

    /// The food at place `i`.
    pub open spec fn food(self, i: usize) -> Food {
        self.inventory[i as int]->Food_0
    }

    /// The combatant after taking `damage`.
    pub open spec fn struck(self, damage: Damage) -> Fighter {
        Fighter { health: after_damage(self.health, damage@), ..self }
    }

    /// By how much eating the food at place `i` raises the health.
    pub open spec fn gain(self, i: usize) -> nat {
        heal_increase(self.health, self.food(i).heals_for@, self.max_health)
    }

    /// The combatant after eating the food at place `i`: the food is gone
    /// from the inventory, and the health is raised by what the food heals
    /// for, but not above the maximum.
    pub open spec fn fed(self, i: usize) -> Fighter {
        Fighter {
            health: self.health + self.gain(i),
            max_health: self.max_health,
            inventory: self.inventory.remove(i as int),
        }
    }
}

impl Player {
    /// The player as a turn sees them.
    pub open spec fn fighter(&self) -> Fighter {
        Fighter {
            health: self.health@,
            max_health: self.max_health@,
            inventory: self.inventory@,
        }
    }
}

impl Enemy {
    /// The enemy as a turn sees it.
    pub open spec fn fighter(&self) -> Fighter {
        Fighter {
            health: self.health@,
            max_health: self.max_health@,
            inventory: self.inventory@,
        }
    }
}

/// How the turn comes out on which the player, holding `player_items`, takes
/// `player_action` and the enemy, holding `enemy_items`, takes
/// `enemy_action`.
pub open spec fn outcome(
    player_action: Action,
    enemy_action: Action,
    player_items: Seq<Item>,
    enemy_items: Seq<Item>,
) -> Outcome {
    if player_action is AttackStraight && enemy_action is AttackStraight {
        let player_speed = player_items[player_action->AttackStraight_0 as int]->Weapon_0.speed;
        let enemy_speed = enemy_items[enemy_action->AttackStraight_0 as int]->Weapon_0.speed;
        if player_speed < enemy_speed {
            Outcome::PlayerFaster
        } else if player_speed > enemy_speed {
            Outcome::EnemyFaster
        } else {
            Outcome::BothHit
        }
    } else if player_action is AttackStraight && !(enemy_action is DodgeLeft)
        && !(enemy_action is DodgeRight) {
        Outcome::PlayerHits
    } else if enemy_action is AttackStraight && !(player_action is DodgeLeft)
        && !(player_action is DodgeRight) {
        Outcome::EnemyHits
    } else if player_action is EatFood && enemy_action is EatFood {
        Outcome::BothEat
    } else if player_action is EatFood {
        Outcome::PlayerEats
    } else if enemy_action is EatFood {
        Outcome::EnemyEats
    } else if (player_action is AttackLeft && enemy_action is DodgeLeft) || (player_action
        is AttackRight && enemy_action is DodgeRight) {
        Outcome::PlayerCatches
    } else if (player_action is DodgeLeft && enemy_action is AttackLeft) || (player_action
        is DodgeRight && enemy_action is AttackRight) {
        Outcome::EnemyCatches
    } else if player_action.is_passive() && enemy_action.is_passive() {
        Outcome::Stalemate
    } else if player_action.is_attack() {
        Outcome::PlayerMisses
    } else {
        Outcome::EnemyMisses
    }
}

/// The player after the turn.
pub open spec fn player_after(
    player: Fighter,
    enemy: Fighter,
    player_action: Action,
    enemy_action: Action,
) -> Fighter {
    match outcome(player_action, enemy_action, player.inventory, enemy.inventory) {
        Outcome::EnemyHits | Outcome::EnemyFaster | Outcome::BothHit => player.struck(
            enemy.weapon(enemy_action->AttackStraight_0).straight_damage,
        ),
        Outcome::BothEat | Outcome::PlayerEats => player.fed(player_action->EatFood_0),
        Outcome::EnemyCatches => player.struck(
            enemy.weapon(enemy_action.item_index()->0).dodge_damage,
        ),
        _ => player,
    }
}

/// The enemy after the turn.
pub open spec fn enemy_after(
    player: Fighter,
    enemy: Fighter,
    player_action: Action,
    enemy_action: Action,
) -> Fighter {
    match outcome(player_action, enemy_action, player.inventory, enemy.inventory) {
        Outcome::PlayerHits | Outcome::PlayerFaster | Outcome::BothHit => enemy.struck(
            player.weapon(player_action->AttackStraight_0).straight_damage,
        ),
        Outcome::BothEat | Outcome::EnemyEats => enemy.fed(enemy_action->EatFood_0),
        Outcome::PlayerCatches => enemy.struck(
            player.weapon(player_action.item_index()->0).dodge_damage,
        ),
        _ => enemy,
    }
}

/// What is told of how the turn came out. A hit that meets a dodge is told
/// with the hit points that it took, which near zero are fewer than the
/// weapon deals; food is told with the hit points that it gave.
pub open spec fn outcome_text(
    player: Fighter,
    enemy: Fighter,
    enemy_name: Seq<char>,
    player_action: Action,
    enemy_action: Action,
) -> Seq<char> {
    match outcome(player_action, enemy_action, player.inventory, enemy.inventory) {
        Outcome::PlayerHits => {
            let weapon = player.weapon(player_action->AttackStraight_0);
            "You hit the "@ + enemy_name + " with your "@ + weapon.name@ + " and dealt "@ + decimal(
                weapon.straight_damage@,
            ) + " damage."@
        },
        Outcome::EnemyHits => {
            let weapon = enemy.weapon(enemy_action->AttackStraight_0);
            "The "@ + enemy_name + " hit you with their "@ + weapon.name@ + " and dealt "@
                + decimal(weapon.straight_damage@) + " damage."@
        },
        Outcome::PlayerFaster => "You both attacked, and you were faster and got away unscathed"@,
        Outcome::EnemyFaster => "You both attacked, but the "@ + enemy_name
            + " was faster and you couldn't get a hit in."@,
        Outcome::BothHit => "You both attacked with the same speed, and you both got hit."@,
        Outcome::BothEat => {
            let player_food = player_action->EatFood_0;
            let enemy_food = enemy_action->EatFood_0;
            "You both took some time out of the fight to eat some food - how peaceful.\nYou ate your "@
                + player.food(player_food).name@ + " and were healed "@ + decimal(
                player.gain(player_food),
            ) + " HP. The "@ + enemy_name + " ate their "@ + enemy.food(enemy_food).name@
                + " and was healed "@ + decimal(enemy.gain(enemy_food)) + " HP."@
        },
        Outcome::PlayerEats => {
            let food = player_action->EatFood_0;
            "You ate your "@ + player.food(food).name@ + " and were healed by "@ + decimal(
                player.gain(food),
            ) + " HP"@
        },
        Outcome::EnemyEats => {
            let food = enemy_action->EatFood_0;
            "The "@ + enemy_name + " ate their "@ + enemy.food(food).name@
                + " and was healed by "@ + decimal(enemy.gain(food)) + " HP"@
        },
        Outcome::PlayerCatches => {
            let damage = player.weapon(player_action.item_index()->0).dodge_damage;
            "The "@ + enemy_name + " dodged, but you caught them and dealt "@ + decimal(
                (enemy.health - after_damage(enemy.health, damage@)) as nat,
            ) + " damage."@
        },
        Outcome::EnemyCatches => {
            let damage = enemy.weapon(enemy_action.item_index()->0).dodge_damage;
            "You dodged, but the "@ + enemy_name + " caught you and dealt "@ + decimal(
                (player.health - after_damage(player.health, damage@)) as nat,
            ) + " damage."@
        },
        Outcome::Stalemate => "Neither of you attacked. What a waste of time."@,
        Outcome::PlayerMisses => "You attacked but it didn't connect"@,
        Outcome::EnemyMisses => "The enemy attacked but it didn't connect."@,
    }
}

/// What is told of a whole turn: what the player does, what the enemy does
/// and how it comes out, each on a line of its own.
pub open spec fn turn_text(
    player: Player,
    enemy: Enemy,
    player_action: Action,
    enemy_action: Action,
) -> Seq<char> {
    player.action_text(player_action) + "\n"@ + enemy.action_text(enemy_action) + "\n"@
        + outcome_text(player.fighter(), enemy.fighter(), enemy.name@, player_action, enemy_action)
}

/// Of two straight attacks, the one with the weapon of the strictly lower
/// speed value is the only one that lands; with equal speeds both land.
pub proof fn lemma_faster_weapon_strikes_alone(
    player: Fighter,
    enemy: Fighter,
    player_weapon: usize,
    enemy_weapon: usize,
)
    ensures
        ({
            let player_action = Action::AttackStraight(player_weapon);
            let enemy_action = Action::AttackStraight(enemy_weapon);
            let player_speed = player.weapon(player_weapon).speed;
            let enemy_speed = enemy.weapon(enemy_weapon).speed;
            let player_struck = player.struck(enemy.weapon(enemy_weapon).straight_damage);
            let enemy_struck = enemy.struck(player.weapon(player_weapon).straight_damage);
            &&& player_speed < enemy_speed ==> player_after(
                player,
                enemy,
                player_action,
                enemy_action,
            ) == player && enemy_after(player, enemy, player_action, enemy_action)
                == enemy_struck
            &&& player_speed > enemy_speed ==> player_after(
                player,
                enemy,
                player_action,
                enemy_action,
            ) == player_struck && enemy_after(player, enemy, player_action, enemy_action)
                == enemy
            &&& player_speed == enemy_speed ==> player_after(
                player,
                enemy,
                player_action,
                enemy_action,
            ) == player_struck && enemy_after(player, enemy, player_action, enemy_action)
                == enemy_struck
        }),
{
}

/// A turn leaves each combatant's health at or below its maximum, and takes
/// from an inventory at most the one food that was eaten.
pub proof fn lemma_turn_keeps_health_in_bounds(
    player: Fighter,
    enemy: Fighter,
    player_action: Action,
    enemy_action: Action,
)
    requires
        player.health <= player.max_health,
        enemy.health <= enemy.max_health,
    ensures
        player_after(player, enemy, player_action, enemy_action).health <= player.max_health,
        enemy_after(player, enemy, player_action, enemy_action).health <= enemy.max_health,
        player_after(player, enemy, player_action, enemy_action).max_health == player.max_health,
        enemy_after(player, enemy, player_action, enemy_action).max_health == enemy.max_health,
{
}

/// The weapon at place `i` of `inventory`.
pub fn weapon_at(inventory: &Vec<Item>, i: usize) -> (w: &Weapon)
    requires
        i < inventory@.len(),
        inventory@[i as int] is Weapon,
    ensures
        *w == inventory@[i as int]->Weapon_0,
{
    match &inventory[i] {
        Item::Weapon(w) => w,
        _ => unreached(),
    }
}

/// Takes the food at place `i` out of `inventory`.
pub fn take_food(inventory: &mut Vec<Item>, i: usize) -> (f: Food)
    requires
        i < old(inventory)@.len(),
        old(inventory)@[i as int] is Food,
    ensures
        f == old(inventory)@[i as int]->Food_0,
        final(inventory)@ == old(inventory)@.remove(i as int),
{
    match inventory.remove(i) {
        Item::Food(f) => f,
        _ => unreached(),
    }
}

/// Finds how a turn comes out.
pub fn find_outcome(
    player_items: &Vec<Item>,
    enemy_items: &Vec<Item>,
    player_action: Action,
    enemy_action: Action,
) -> (r: Outcome)
    requires
        player_action.valid_for(player_items@),
        enemy_action.valid_for(enemy_items@),
    ensures
        r == outcome(player_action, enemy_action, player_items@, enemy_items@),
{
    match (player_action, enemy_action) {
        (Action::AttackStraight(p), Action::AttackStraight(e)) => {
            let player_speed = weapon_at(player_items, p).speed;
            let enemy_speed = weapon_at(enemy_items, e).speed;
            if player_speed < enemy_speed {
                Outcome::PlayerFaster
            } else if player_speed > enemy_speed {
                Outcome::EnemyFaster
            } else {
                Outcome::BothHit
            }
        },
        (Action::AttackStraight(_), Action::DodgeLeft) => Outcome::PlayerMisses,
        (Action::AttackStraight(_), Action::DodgeRight) => Outcome::PlayerMisses,
        (Action::AttackStraight(_), _) => Outcome::PlayerHits,
        (Action::DodgeLeft, Action::AttackStraight(_)) => Outcome::EnemyMisses,
        (Action::DodgeRight, Action::AttackStraight(_)) => Outcome::EnemyMisses,
        (_, Action::AttackStraight(_)) => Outcome::EnemyHits,
        (Action::EatFood(_), Action::EatFood(_)) => Outcome::BothEat,
        (Action::EatFood(_), _) => Outcome::PlayerEats,
        (_, Action::EatFood(_)) => Outcome::EnemyEats,
        (Action::AttackLeft(_), Action::DodgeLeft) => Outcome::PlayerCatches,
        (Action::AttackRight(_), Action::DodgeRight) => Outcome::PlayerCatches,
        (Action::DodgeLeft, Action::AttackLeft(_)) => Outcome::EnemyCatches,
        (Action::DodgeRight, Action::AttackRight(_)) => Outcome::EnemyCatches,
        (Action::AttackLeft(_), _) => Outcome::PlayerMisses,
        (Action::AttackRight(_), _) => Outcome::PlayerMisses,
        (_, Action::AttackLeft(_)) => Outcome::EnemyMisses,
        (_, Action::AttackRight(_)) => Outcome::EnemyMisses,
        (_, _) => Outcome::Stalemate,
    }
}

/// The place in the inventory that `action` uses.
pub fn used_index(action: Action) -> (i: usize)
    requires
        action.item_index() is Some,
    ensures
        action.item_index() == Some(i),
{
    match action {
        Action::EatFood(i) => i,
        Action::AttackStraight(i) => i,
        Action::AttackLeft(i) => i,
        Action::AttackRight(i) => i,
        _ => unreached(),
    }
}

/// Carries out the actions that the player and the enemy chose for a turn,
/// and returns what is told of the turn. Both actions were chosen before
/// anything changes, for the inventories as they are on entry.
pub fn execute_actions(
    player: &mut Player,
    enemy: &mut Enemy,
    player_action: Action,
    enemy_action: Action,
) -> (r: String)
    requires
        old(player).health@ <= old(player).max_health@,
        old(enemy).wf(),
        player_action.valid_for(old(player).inventory@),
        enemy_action.valid_for(old(enemy).inventory@),
    ensures
        final(player).fighter() == player_after(
            old(player).fighter(),
            old(enemy).fighter(),
            player_action,
            enemy_action,
        ),
        final(enemy).fighter() == enemy_after(
            old(player).fighter(),
            old(enemy).fighter(),
            player_action,
            enemy_action,
        ),
        r@ == turn_text(*old(player), *old(enemy), player_action, enemy_action),
        final(player).health@ <= final(player).max_health@,
        final(enemy).wf(),
        final(player).max_health == old(player).max_health,
        final(enemy).max_health == old(enemy).max_health,
        final(player).room == old(player).room,
        final(player).remaining_turns == old(player).remaining_turns,
        final(player).room_graph == old(player).room_graph,
        final(enemy).name == old(enemy).name,
        final(enemy).description == old(enemy).description,
{
    let player_line = player.describe_combat_action(player_action);
    let enemy_line = enemy.describe_combat_action(enemy_action);
    let told = match find_outcome(&player.inventory, &enemy.inventory, player_action, enemy_action) {
        Outcome::PlayerHits => {
            let weapon = weapon_at(&player.inventory, used_index(player_action));
            let damage = weapon.straight_damage;
            enemy.health = enemy.health - damage;
            String::from_str("You hit the ").concat(enemy.name).concat(" with your ").concat(
                weapon.name,
            ).concat(" and dealt ").concat(damage.to_string().as_str()).concat(" damage.")
        },
        Outcome::EnemyHits => {
            let weapon = weapon_at(&enemy.inventory, used_index(enemy_action));
            let damage = weapon.straight_damage;
            player.health = player.health - damage;
            String::from_str("The ").concat(enemy.name).concat(" hit you with their ").concat(
                weapon.name,
            ).concat(" and dealt ").concat(damage.to_string().as_str()).concat(" damage.")
        },
        Outcome::PlayerFaster => {
            let damage = weapon_at(&player.inventory, used_index(player_action)).straight_damage;
            enemy.health = enemy.health - damage;
            String::from_str("You both attacked, and you were faster and got away unscathed")
        },
        Outcome::EnemyFaster => {
            let damage = weapon_at(&enemy.inventory, used_index(enemy_action)).straight_damage;
            player.health = player.health - damage;
            String::from_str("You both attacked, but the ").concat(enemy.name).concat(
                " was faster and you couldn't get a hit in.",
            )
        },
        Outcome::BothHit => {
            let player_damage = weapon_at(
                &player.inventory,
                used_index(player_action),
            ).straight_damage;
            let enemy_damage = weapon_at(&enemy.inventory, used_index(enemy_action)).straight_damage;
            enemy.health = enemy.health - player_damage;
            player.health = player.health - enemy_damage;
            String::from_str("You both attacked with the same speed, and you both got hit.")
        },
        Outcome::BothEat => {
            let player_food = take_food(&mut player.inventory, used_index(player_action));
            let enemy_food = take_food(&mut enemy.inventory, used_index(enemy_action));
            let player_gain = player.health.heal_to_max(player_food.heals_for, player.max_health);
            let enemy_gain = enemy.health.heal_to_max(enemy_food.heals_for, enemy.max_health);
            String::from_str(
                "You both took some time out of the fight to eat some food - how peaceful.\nYou ate your ",
            ).concat(player_food.name).concat(" and were healed ").concat(
                player_gain.to_string().as_str(),
            ).concat(" HP. The ").concat(enemy.name).concat(" ate their ").concat(
                enemy_food.name,
            ).concat(" and was healed ").concat(enemy_gain.to_string().as_str()).concat(" HP.")
        },
        Outcome::PlayerEats => {
            let food = take_food(&mut player.inventory, used_index(player_action));
            let gain = player.health.heal_to_max(food.heals_for, player.max_health);
            String::from_str("You ate your ").concat(food.name).concat(
                " and were healed by ",
            ).concat(gain.to_string().as_str()).concat(" HP")
        },
        Outcome::EnemyEats => {
            let food = take_food(&mut enemy.inventory, used_index(enemy_action));
            let gain = enemy.health.heal_to_max(food.heals_for, enemy.max_health);
            String::from_str("The ").concat(enemy.name).concat(" ate their ").concat(
                food.name,
            ).concat(" and was healed by ").concat(gain.to_string().as_str()).concat(" HP")
        },
        Outcome::PlayerCatches => {
            let damage = weapon_at(&player.inventory, used_index(player_action)).dodge_damage;
            let before = enemy.health;
            enemy.health = enemy.health - damage;
            let taken = before - enemy.health;
            String::from_str("The ").concat(enemy.name).concat(
                " dodged, but you caught them and dealt ",
            ).concat(taken.to_string().as_str()).concat(" damage.")
        },
        Outcome::EnemyCatches => {
            let damage = weapon_at(&enemy.inventory, used_index(enemy_action)).dodge_damage;
            let before = player.health;
            player.health = player.health - damage;
            let taken = before - player.health;
            String::from_str("You dodged, but the ").concat(enemy.name).concat(
                " caught you and dealt ",
            ).concat(taken.to_string().as_str()).concat(" damage.")
        },
        Outcome::Stalemate => String::from_str("Neither of you attacked. What a waste of time."),
        Outcome::PlayerMisses => String::from_str("You attacked but it didn't connect"),
        Outcome::EnemyMisses => String::from_str("The enemy attacked but it didn't connect."),
    };
    player_line.concat("\n").concat(enemy_line.as_str()).concat("\n").concat(told.as_str())
}

} // verus!
