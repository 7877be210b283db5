use timeloop::combat::battle::{battle_turn, judge, sighting, spoils, turn_summary};
use timeloop::combat::mixing::{mix_text, mix_word, scramble_word, SEED};
use timeloop::combat::policy::{decide_action, find_first_food, find_first_weapon};
use timeloop::combat::turn::{find_outcome, Outcome};
use timeloop::combat::{battle, execute_actions, Action, BattleResult, Damage, Enemy, Health};
use timeloop::items::{Food, Item, Weapon};
use timeloop::menu::MockMenu;
use timeloop::player::Player;

fn weapon(name: &'static str, straight: usize, dodge: usize, speed: usize) -> Item {
    Item::Weapon(Weapon {
        name,
        description: "",
        straight_damage: Damage::new(straight),
        dodge_damage: Damage::new(dodge),
        speed,
    })
}

fn food(name: &'static str, heals_for: usize) -> Item {
    Item::Food(Food { name, description: "", heals_for: Damage::new(heals_for) })
}

fn player_with(health: usize, max_health: usize, inventory: Vec<Item>) -> Player {
    let mut player = Player::init();
    player.health = Health::new(health);
    player.max_health = Health::new(max_health);
    player.inventory = inventory;
    player
}

fn guard(health: usize, max_health: usize, inventory: Vec<Item>) -> Enemy {
    Enemy {
        name: "Guard",
        description: "a guard",
        inventory,
        health: Health::new(health),
        max_health: Health::new(max_health),
    }
}

#[test]
fn healing_stops_at_the_maximum() {
    let mut health = Health::new(5);
    let gain = health.heal_to_max(Damage::new(3), Health::new(10));
    assert_eq!(health, Health::new(8));
    assert_eq!(gain, Damage::new(3));

    let mut health = Health::new(5);
    let gain = health.heal_to_max(Damage::new(10), Health::new(10));
    assert_eq!(health, Health::new(10));
    assert_eq!(gain, Damage::new(5));

    let mut health = Health::new(10);
    let gain = health.heal_to_max(Damage::new(usize::MAX), Health::new(10));
    assert_eq!(health, Health::new(10));
    assert_eq!(gain, Damage::new(0));
}

#[test]
fn damage_stops_at_zero() {
    assert_eq!(Health::new(3) - Damage::new(5), Health::new(0));
    assert_eq!(Health::new(3) - Damage::new(3), Health::new(0));
    assert_eq!(Health::new(3) - Damage::new(2), Health::new(1));
    assert_eq!(Health::new(0) - Damage::new(usize::MAX), Health::new(0));
    let mut health = Health::new(4);
    health -= Damage::new(9);
    assert!(health.is_0());
}

#[test]
fn health_arithmetic() {
    assert_eq!(Health::new(3) + Damage::new(4), Health::new(7));
    assert_eq!(Health::new(9) - Health::new(4), Damage::new(5));
    let mut health = Health::new(1);
    health += Damage::new(2);
    assert_eq!(health.as_usize(), 3);
    assert!(!health.is_0());
    assert!(Health::new(0).is_0());
}

#[test]
fn health_is_shown_as_a_plain_number() {
    assert_eq!(Health::new(0).to_string(), "0");
    assert_eq!(Health::new(7).to_string(), "7");
    assert_eq!(Health::new(10).to_string(), "10");
    assert_eq!(Damage::new(1234567890).to_string(), "1234567890");
    assert_eq!(Health::new(usize::MAX).to_string(), format!("{}", usize::MAX));
}

#[test]
fn faster_straight_attack_is_the_only_one_to_land() {
    let mut player = player_with(10, 10, vec![weapon("Blaster", 5, 3, 3)]);
    let mut enemy = guard(7, 7, vec![weapon("Rifle", 5, 2, 4)]);
    let told = execute_actions(
        &mut player,
        &mut enemy,
        Action::AttackStraight(0),
        Action::AttackStraight(0),
    );
    assert_eq!(enemy.health, Health::new(2));
    assert_eq!(enemy.max_health, Health::new(7));
    assert_eq!(player.health, Health::new(10));
    assert_eq!(
        told,
        "You attack in front of you with your Blaster\nThe Guard attacks in front of you with their Rifle\nYou both attacked, and you were faster and got away unscathed"
    );
}

#[test]
fn slower_straight_attack_does_not_land() {
    let mut player = player_with(10, 10, vec![weapon("Blaster", 5, 3, 5)]);
    let mut enemy = guard(7, 7, vec![weapon("Rifle", 4, 2, 4)]);
    let told = execute_actions(
        &mut player,
        &mut enemy,
        Action::AttackStraight(0),
        Action::AttackStraight(0),
    );
    assert_eq!(enemy.health, Health::new(7));
    assert_eq!(player.health, Health::new(6));
    assert!(told.ends_with(
        "\nYou both attacked, but the Guard was faster and you couldn't get a hit in."
    ));
}

#[test]
fn straight_attacks_of_the_same_speed_both_land() {
    let mut player = player_with(3, 10, vec![weapon("Blaster", 5, 3, 4)]);
    let mut enemy = guard(7, 7, vec![weapon("Rifle", 4, 2, 4)]);
    let told = execute_actions(
        &mut player,
        &mut enemy,
        Action::AttackStraight(0),
        Action::AttackStraight(0),
    );
    assert_eq!(enemy.health, Health::new(2));
    assert_eq!(player.health, Health::new(0));
    assert!(told.ends_with("\nYou both attacked with the same speed, and you both got hit."));
}

#[test]
fn straight_attack_lands_on_one_who_eats() {
    let mut player = player_with(10, 10, vec![weapon("Blaster", 5, 3, 3)]);
    let mut enemy = guard(3, 7, vec![food("Apple", 5)]);
    let told = execute_actions(&mut player, &mut enemy, Action::AttackStraight(0), Action::EatFood(0));
    assert_eq!(enemy.health, Health::new(0));
    assert_eq!(enemy.inventory.len(), 1);
    assert_eq!(
        told,
        "You attack in front of you with your Blaster\nThe Guard attempts to eat their Apple\nYou hit the Guard with your Blaster and dealt 5 damage."
    );
}

#[test]
fn enemy_straight_attack_lands_on_a_flank_attack() {
    let mut player = player_with(10, 10, vec![weapon("Blaster", 5, 3, 3)]);
    let mut enemy = guard(7, 7, vec![weapon("Rifle", 4, 2, 4)]);
    let told = execute_actions(&mut player, &mut enemy, Action::AttackLeft(0), Action::AttackStraight(0));
    assert_eq!(player.health, Health::new(6));
    assert_eq!(enemy.health, Health::new(7));
    assert_eq!(
        told,
        "You attack to the left with your Blaster\nThe Guard attacks in front of you with their Rifle\nThe Guard hit you with their Rifle and dealt 4 damage."
    );
}

#[test]
fn straight_attack_misses_a_dodge() {
    let mut player = player_with(10, 10, vec![weapon("Blaster", 5, 3, 3)]);
    let mut enemy = guard(7, 7, vec![weapon("Rifle", 4, 2, 4)]);
    let told = execute_actions(&mut player, &mut enemy, Action::AttackStraight(0), Action::DodgeRight);
    assert_eq!(enemy.health, Health::new(7));
    assert_eq!(
        told,
        "You attack in front of you with your Blaster\nThe Guard dodges to the right\nYou attacked but it didn't connect"
    );
    let told = execute_actions(&mut player, &mut enemy, Action::DodgeLeft, Action::AttackStraight(0));
    assert_eq!(player.health, Health::new(10));
    assert_eq!(
        told,
        "You dodge to the left\nThe Guard attacks in front of you with their Rifle\nThe enemy attacked but it didn't connect."
    );
}

#[test]
fn both_eat() {
    let mut player = player_with(5, 10, vec![weapon("Blaster", 5, 3, 3), food("Bread", 3)]);
    let mut enemy = guard(3, 7, vec![food("Apple", 5), weapon("Rifle", 4, 2, 4)]);
    let told = execute_actions(&mut player, &mut enemy, Action::EatFood(1), Action::EatFood(0));
    assert_eq!(player.health, Health::new(8));
    assert_eq!(enemy.health, Health::new(7));
    assert_eq!(player.inventory.len(), 1);
    assert_eq!(player.inventory[0].get_name(), "Blaster");
    assert_eq!(enemy.inventory.len(), 1);
    assert_eq!(enemy.inventory[0].get_name(), "Rifle");
    assert_eq!(
        told,
        "You attempt to eat your Bread\nThe Guard attempts to eat their Apple\nYou both took some time out of the fight to eat some food - how peaceful.\nYou ate your Bread and were healed 3 HP. The Guard ate their Apple and was healed 4 HP."
    );
}

#[test]
fn one_side_eats() {
    let mut player = player_with(9, 10, vec![food("Bread", 3)]);
    let mut enemy = guard(7, 7, vec![weapon("Rifle", 4, 2, 4)]);
    let told = execute_actions(&mut player, &mut enemy, Action::EatFood(0), Action::AttackLeft(0));
    assert_eq!(player.health, Health::new(10));
    assert!(player.inventory.is_empty());
    assert_eq!(
        told,
        "You attempt to eat your Bread\nThe Guard attacks to the left with their Rifle\nYou ate your Bread and were healed by 1 HP"
    );

    let mut player = player_with(9, 10, vec![]);
    let mut enemy = guard(1, 7, vec![food("Apple", 2)]);
    let told = execute_actions(&mut player, &mut enemy, Action::DodgeLeft, Action::EatFood(0));
    assert_eq!(enemy.health, Health::new(3));
    assert!(enemy.inventory.is_empty());
    assert_eq!(
        told,
        "You dodge to the left\nThe Guard attempts to eat their Apple\nThe Guard ate their Apple and was healed by 2 HP"
    );
}

#[test]
fn flank_attack_catches_a_dodge_to_the_same_side() {
    let mut player = player_with(10, 10, vec![weapon("Blaster", 5, 3, 3)]);
    let mut enemy = guard(2, 7, vec![weapon("Rifle", 4, 2, 4)]);
    let told = execute_actions(&mut player, &mut enemy, Action::AttackLeft(0), Action::DodgeLeft);
    assert_eq!(enemy.health, Health::new(0));
    assert_eq!(
        told,
        "You attack to the left with your Blaster\nThe Guard dodges to the left\nThe Guard dodged, but you caught them and dealt 2 damage."
    );
    let told = execute_actions(&mut player, &mut enemy, Action::DodgeRight, Action::AttackRight(0));
    assert_eq!(player.health, Health::new(8));
    assert_eq!(
        told,
        "You dodge to the right\nThe Guard attacks to the right with their Rifle\nYou dodged, but the Guard caught you and dealt 2 damage."
    );
}

#[test]
fn flank_attack_misses_anything_else() {
    let mut player = player_with(10, 10, vec![weapon("Blaster", 5, 3, 3)]);
    let mut enemy = guard(7, 7, vec![weapon("Rifle", 4, 2, 4)]);
    for enemy_action in [Action::Nothing, Action::DodgeRight, Action::AttackLeft(0), Action::AttackRight(0)] {
        let told = execute_actions(&mut player, &mut enemy, Action::AttackLeft(0), enemy_action);
        assert!(told.ends_with("\nYou attacked but it didn't connect"));
    }
    for player_action in [Action::Nothing, Action::DodgeLeft] {
        let told = execute_actions(&mut player, &mut enemy, player_action, Action::AttackRight(0));
        assert!(told.ends_with("\nThe enemy attacked but it didn't connect."));
    }
    assert_eq!(player.health, Health::new(10));
    assert_eq!(enemy.health, Health::new(7));
}

#[test]
fn nothing_happens_when_neither_attacks_or_eats() {
    let mut player = player_with(10, 10, vec![]);
    let mut enemy = guard(7, 7, vec![]);
    let told = execute_actions(&mut player, &mut enemy, Action::Nothing, Action::DodgeLeft);
    assert_eq!(
        told,
        "You do nothing\nThe Guard dodges to the left\nNeither of you attacked. What a waste of time."
    );
    let told = execute_actions(&mut player, &mut enemy, Action::DodgeRight, Action::Nothing);
    assert_eq!(
        told,
        "You dodge to the right\nThe Guard does nothing\nNeither of you attacked. What a waste of time."
    );
    assert_eq!(player.health, Health::new(10));
    assert_eq!(enemy.health, Health::new(7));
}

#[test]
fn every_pair_of_actions_has_its_outcome() {
    let player_items = vec![weapon("Blaster", 5, 3, 3), food("Bread", 3)];
    let enemy_items = vec![weapon("Rifle", 4, 2, 4), food("Apple", 5)];
    let actions = [
        Action::Nothing,
        Action::EatFood(1),
        Action::AttackStraight(0),
        Action::AttackLeft(0),
        Action::AttackRight(0),
        Action::DodgeLeft,
        Action::DodgeRight,
    ];
    let expected = [
        [Outcome::Stalemate, Outcome::EnemyEats, Outcome::EnemyHits, Outcome::EnemyMisses, Outcome::EnemyMisses, Outcome::Stalemate, Outcome::Stalemate],
        [Outcome::PlayerEats, Outcome::BothEat, Outcome::EnemyHits, Outcome::PlayerEats, Outcome::PlayerEats, Outcome::PlayerEats, Outcome::PlayerEats],
        [Outcome::PlayerHits, Outcome::PlayerHits, Outcome::PlayerFaster, Outcome::PlayerHits, Outcome::PlayerHits, Outcome::PlayerMisses, Outcome::PlayerMisses],
        [Outcome::PlayerMisses, Outcome::EnemyEats, Outcome::EnemyHits, Outcome::PlayerMisses, Outcome::PlayerMisses, Outcome::PlayerCatches, Outcome::PlayerMisses],
        [Outcome::PlayerMisses, Outcome::EnemyEats, Outcome::EnemyHits, Outcome::PlayerMisses, Outcome::PlayerMisses, Outcome::PlayerMisses, Outcome::PlayerCatches],
        [Outcome::Stalemate, Outcome::EnemyEats, Outcome::EnemyMisses, Outcome::EnemyCatches, Outcome::EnemyMisses, Outcome::Stalemate, Outcome::Stalemate],
        [Outcome::Stalemate, Outcome::EnemyEats, Outcome::EnemyMisses, Outcome::EnemyMisses, Outcome::EnemyCatches, Outcome::Stalemate, Outcome::Stalemate],
    ];
    for (p, player_action) in actions.iter().enumerate() {
        for (e, enemy_action) in actions.iter().enumerate() {
            assert_eq!(
                find_outcome(&player_items, &enemy_items, *player_action, *enemy_action),
                expected[p][e]
            );
        }
    }
}

#[test]
fn enemy_at_half_health_eats_its_first_food() {
    let mut enemy = guard(3, 7, vec![food("Apple", 5)]);
    for turn in 0..50 {
        assert_eq!(enemy.choose_combat_action(turn), Action::EatFood(0));
    }
    let mut enemy = guard(5, 10, vec![weapon("Rifle", 4, 2, 4), Item::Dust, food("Apple", 5), food("Pear", 1)]);
    for turn in [0, 1, 7, 1000, usize::MAX] {
        assert_eq!(enemy.choose_combat_action(turn), Action::EatFood(2));
    }
    assert_eq!(find_first_food(&enemy.inventory), Some(2));
    assert_eq!(find_first_weapon(&enemy.inventory), Some(0));
}

#[test]
fn enemy_above_half_health_does_not_eat() {
    let mut enemy = guard(4, 7, vec![food("Apple", 5)]);
    for turn in 0..50 {
        let action = enemy.choose_combat_action(turn);
        assert!(matches!(action, Action::DodgeLeft | Action::Nothing | Action::DodgeRight));
    }
}

#[test]
fn enemy_chooses_the_same_whenever_asked_again() {
    let mut enemy = guard(7, 7, vec![weapon("Blaster", 5, 2, 4)]);
    let mut twin = guard(7, 7, vec![weapon("Blaster", 5, 2, 4)]);
    for turn in 0..100 {
        let first = enemy.choose_combat_action(turn);
        assert_eq!(enemy.choose_combat_action(turn), first);
        assert_eq!(twin.choose_combat_action(turn), first);
    }
}

#[test]
fn hash_of_an_enemy_and_a_turn() {
    assert_eq!(mix_word(SEED, 0), 0xaf63bd4c8601b7df);
    assert_eq!(scramble_word(1), 0xb456bcfc34c2cb2c);
    assert_eq!(mix_text(SEED, ""), mix_word(SEED, 0));
    let armed = guard(7, 7, vec![weapon("Blaster", 5, 2, 4)]);
    assert_eq!(armed.hash_with_turn(0), 0x1cc8d02c9d3678c2);
    assert_eq!(armed.hash_with_turn(1), 0x4f8461d611568698);
    assert_eq!(armed.hash_with_turn(11), 0xdd0d77cbf19cb405);
    let unarmed = guard(7, 7, vec![]);
    assert_eq!(unarmed.hash_with_turn(0), 0xf449e78a61b05463);
    assert_eq!(unarmed.hash_with_turn(6), 0xb1c38f08786c1fac);
}

#[test]
fn armed_enemy_goes_by_the_hash() {
    let mut enemy = guard(7, 7, vec![Item::Maps, weapon("Blaster", 5, 2, 4)]);
    let by_case = [
        Action::AttackLeft(1),
        Action::AttackStraight(1),
        Action::AttackStraight(1),
        Action::AttackStraight(1),
        Action::AttackRight(1),
        Action::DodgeLeft,
        Action::DodgeRight,
        Action::Nothing,
    ];
    for hash in 0..64u64 {
        assert_eq!(decide_action(&enemy, hash), by_case[(hash % 8) as usize]);
    }
    assert_eq!(decide_action(&enemy, u64::MAX), Action::Nothing);
    for turn in 0..20 {
        let hash = enemy.hash_with_turn(turn);
        assert_eq!(enemy.choose_combat_action(turn), by_case[(hash % 8) as usize]);
    }
    let mut armed = guard(7, 7, vec![weapon("Blaster", 5, 2, 4)]);
    assert_eq!(armed.choose_combat_action(0), Action::AttackStraight(0));
    assert_eq!(armed.choose_combat_action(1), Action::AttackLeft(0));
    assert_eq!(armed.choose_combat_action(2), Action::Nothing);
    assert_eq!(armed.choose_combat_action(4), Action::AttackRight(0));
    assert_eq!(armed.choose_combat_action(6), Action::DodgeRight);
    assert_eq!(armed.choose_combat_action(11), Action::DodgeLeft);
}

#[test]
fn unarmed_enemy_goes_by_the_hash() {
    let mut enemy = guard(7, 7, vec![Item::Maps]);
    let by_case = [
        Action::DodgeLeft,
        Action::DodgeLeft,
        Action::Nothing,
        Action::Nothing,
        Action::Nothing,
        Action::DodgeRight,
        Action::DodgeRight,
    ];
    for hash in 0..70u64 {
        assert_eq!(decide_action(&enemy, hash), by_case[(hash % 7) as usize]);
    }
    for turn in 0..20 {
        let hash = enemy.hash_with_turn(turn);
        assert_eq!(enemy.choose_combat_action(turn), by_case[(hash % 7) as usize]);
    }
    let mut unarmed = guard(7, 7, vec![]);
    assert_eq!(unarmed.choose_combat_action(0), Action::DodgeLeft);
    assert_eq!(unarmed.choose_combat_action(1), Action::Nothing);
    assert_eq!(unarmed.choose_combat_action(6), Action::DodgeRight);
}

#[test]
fn enemy_describes_its_actions() {
    let enemy = guard(7, 7, vec![weapon("Rifle", 4, 2, 4), food("Apple", 5)]);
    assert_eq!(
        enemy.describe_combat_action(Action::AttackLeft(0)),
        "The Guard attacks to the left with their Rifle"
    );
    assert_eq!(
        enemy.describe_combat_action(Action::AttackRight(0)),
        "The Guard attacks to the right with their Rifle"
    );
    assert_eq!(
        enemy.describe_combat_action(Action::AttackStraight(0)),
        "The Guard attacks in front of you with their Rifle"
    );
    assert_eq!(
        enemy.describe_combat_action(Action::EatFood(1)),
        "The Guard attempts to eat their Apple"
    );
    assert_eq!(enemy.describe_combat_action(Action::DodgeLeft), "The Guard dodges to the left");
    assert_eq!(enemy.describe_combat_action(Action::DodgeRight), "The Guard dodges to the right");
    assert_eq!(enemy.describe_combat_action(Action::Nothing), "The Guard does nothing");
}

#[test]
fn battle_is_lost_when_both_fall_on_the_same_turn() {
    let player = player_with(0, 10, vec![]);
    assert_eq!(judge(&player, &guard(0, 7, vec![])), Some(BattleResult::PlayerLoss));
    assert_eq!(judge(&player, &guard(1, 7, vec![])), Some(BattleResult::PlayerLoss));
    let player = player_with(1, 10, vec![]);
    assert_eq!(judge(&player, &guard(0, 7, vec![])), Some(BattleResult::PlayerWin));
    assert_eq!(judge(&player, &guard(1, 7, vec![])), None);
}

#[test]
fn battle_texts() {
    let enemy = guard(2, 7, vec![weapon("Rifle", 4, 2, 4), Item::Maps]);
    let (title, content) = sighting(&enemy);
    assert_eq!(title, "You are spotted by Guard");
    assert_eq!(content, "The a guard sees you and blocks your path.");
    let player = player_with(9, 10, vec![]);
    assert_eq!(
        turn_summary("What happened.".to_string(), &player, &enemy),
        "What happened.\nYou are now at 9/10 HP.\nThe Guard is now at 2/7 HP"
    );
    assert_eq!(
        spoils(&enemy),
        "You won the battle!\n\nYou pick up the items that the Guard was carrying:\n\u{2022} Rifle - \n\u{2022} Galactic Maps 2168 Edition - A map of the galaxy in the format which spacecraft use to plot routes\n"
    );
    assert_eq!(spoils(&guard(0, 7, vec![])), "You won the battle!\n\n");
}

#[test]
fn one_turn_of_a_battle() {
    let mut player = player_with(10, 10, vec![weapon("Blaster", 5, 3, 3)]);
    let mut enemy = guard(7, 7, vec![weapon("Blaster", 5, 2, 4)]);
    // on turn 0 this enemy attacks straight
    let report = battle_turn(&mut player, &mut enemy, 0, Action::AttackStraight(0));
    assert_eq!(report.enemy_action, Action::AttackStraight(0));
    assert_eq!(report.result, None);
    assert_eq!(enemy.health, Health::new(2));
    assert_eq!(player.health, Health::new(10));
    assert_eq!(
        report.summary,
        "You attack in front of you with your Blaster\nThe Guard attacks in front of you with their Blaster\nYou both attacked, and you were faster and got away unscathed\nYou are now at 10/10 HP.\nThe Guard is now at 2/7 HP"
    );
}

#[test]
fn won_battle_gives_the_player_what_the_enemy_carried() {
    let mut player = player_with(10, 10, vec![weapon("Blaster", 7, 3, 1)]);
    let enemy = guard(7, 7, vec![Item::Maps]);
    let mut turn_number = 3;
    // the player attacks straight on the first turn: pick the fourth option, then "straight"
    let mut menu = MockMenu::with_choices(vec![Some(3), Some(1)]);
    let result = battle(&mut player, enemy, &mut turn_number, &mut menu).unwrap();
    assert_eq!(result, BattleResult::PlayerWin);
    // the one turn of the battle is counted
    assert_eq!(turn_number, 4);
    assert_eq!(player.inventory.len(), 2);
    assert_eq!(player.inventory[1].get_name(), "Galactic Maps 2168 Edition");
    let (title, content) = menu.last_screen().unwrap();
    assert_eq!(title, "Battle Result");
    assert_eq!(
        content,
        "You won the battle!\n\nYou pick up the items that the Guard was carrying:\n\u{2022} Galactic Maps 2168 Edition - A map of the galaxy in the format which spacecraft use to plot routes\n"
    );
}

#[test]
fn lost_battle_gives_the_player_nothing() {
    let mut player = player_with(0, 10, vec![]);
    let enemy = guard(7, 7, vec![Item::Maps]);
    let mut turn_number = 0;
    let mut menu = MockMenu::with_choices(vec![Some(0)]);
    let result = battle(&mut player, enemy, &mut turn_number, &mut menu).unwrap();
    assert_eq!(result, BattleResult::PlayerLoss);
    assert_eq!(turn_number, 1);
    assert!(player.inventory.is_empty());
    let (title, _) = menu.last_screen().unwrap();
    assert_eq!(title, "Turn Result");
}

#[test]
fn battle_counts_the_turns_after_which_it_goes_on() {
    let mut player = player_with(10, 10, vec![weapon("Blaster", 3, 3, 1)]);
    let enemy = guard(7, 7, vec![]);
    let mut turn_number = 10;
    // three straight attacks of 3 against an unarmed enemy with 7 hit points,
    // unless the enemy dodges
    let mut answers = Vec::new();
    for _ in 0..40 {
        answers.push(Some(3));
        answers.push(Some(1));
    }
    let mut menu = MockMenu::with_choices(answers);
    let result = battle(&mut player, enemy, &mut turn_number, &mut menu).unwrap();
    assert_eq!(result, BattleResult::PlayerWin);
    // each of the three turns or more is counted, the last one too
    assert!(turn_number >= 13);
    assert_eq!(player.health, Health::new(10));
}

#[test]
fn battle_fails_when_the_front_end_fails() {
    let mut player = player_with(10, 10, vec![]);
    let enemy = guard(7, 7, vec![]);
    let mut turn_number = 0;
    let mut menu = MockMenu::with_choices(vec![]);
    assert!(battle(&mut player, enemy, &mut turn_number, &mut menu).is_err());
    // no turn was completed
    assert_eq!(turn_number, 0);
}
