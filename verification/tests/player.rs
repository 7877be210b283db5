use timeloop::combat::{Action, Damage, Health};
use timeloop::items::{Food, Item, Weapon};
use timeloop::menu::{Menu, MockMenu};
use timeloop::player::{PassiveAction, Player};
use timeloop::rooms::Room;

/// Tests that the [`Player::get_remaining_time`] function returns correct results
#[test]
fn test_time_format() {
    let mut player = Player::init();

    player.remaining_turns = 0;
    assert_eq!(player.get_remaining_time(), "0:00");

    player.remaining_turns = 1;
    assert_eq!(player.get_remaining_time(), "0:20");

    player.remaining_turns = 3;
    assert_eq!(player.get_remaining_time(), "1:00");

    player.remaining_turns = 5;
    assert_eq!(player.get_remaining_time(), "1:40");

    player.remaining_turns = 10;
    assert_eq!(player.get_remaining_time(), "3:20");
}

#[test]
fn test_use_item() {
    // Eating food should heal by the right number of health
    {
        let mut player = Player::init();
        player.health = Health::new(5);
        player.max_health = Health::new(10);

        player.inventory.push(Item::Food(Food {
            name: "",
            description: "",
            heals_for: Damage::new(3),
        }));

        player.use_item(&mut MockMenu::default(), 0).unwrap();
        assert_eq!(player.health, Health::new(8));
    }

    // Eating food should not heal past the player's maximum health
    {
        let mut player = Player::init();
        player.health = Health::new(5);
        player.max_health = Health::new(10);

        player.inventory.push(Item::Food(Food {
            name: "",
            description: "",
            heals_for: Damage::new(10),
        }));

        player.use_item(&mut MockMenu::new().unwrap(), 0).unwrap();
        assert_eq!(player.health, Health::new(10));
    }
}

#[test]
fn the_player_starts_in_the_cells_with_nothing() {
    let player = Player::init();
    assert_eq!(player.room, Room::Cells);
    assert!(player.inventory.is_empty());
    assert_eq!(player.health, Health::new(10));
    assert_eq!(player.max_health, Health::new(10));
    assert_eq!(player.remaining_turns, 30);
    assert_eq!(player.room_graph.rooms.len(), 15);
    assert_eq!(player.get_room_state().room, Room::Cells);
}

#[test]
fn eating_uses_the_food_up_and_tells_of_it() {
    let mut player = Player::init();
    player.health = Health::new(5);
    player.inventory.push(Item::Dust);
    player.inventory.push(Item::Food(Food { name: "Bread", description: "", heals_for: Damage::new(7) }));
    let (title, content) = player.apply_item(1);
    assert_eq!(title, "You ate your Bread");
    assert_eq!(content, "You are healed by 5 HP.\nYou are now at 10/10 HP.");
    assert_eq!(player.inventory.len(), 1);
    assert!(matches!(player.inventory[0], Item::Dust));
}

#[test]
fn reading_the_diary_turns_its_page() {
    let mut player = Player::init();
    player.inventory.push(Item::CaptainsDiary(0));
    let (title, _) = player.apply_item(0);
    assert_eq!(title, "You read the last page: 15/08/2168 - Found someone in the cold");
    assert!(matches!(player.inventory[0], Item::CaptainsDiary(1)));
    for page in 1..8u8 {
        player.apply_item(0);
        assert!(matches!(player.inventory[0], Item::CaptainsDiary(p) if p == page + 1));
    }
    let (title, content) = player.apply_item(0);
    assert_eq!(title, "There's no more pages");
    assert_eq!(content, "How disappointing.");
    assert!(matches!(player.inventory[0], Item::CaptainsDiary(8)));
    player.inventory[0] = Item::CaptainsDiary(200);
    let (title, _) = player.apply_item(0);
    assert_eq!(title, "There's no more pages");
    assert!(matches!(player.inventory[0], Item::CaptainsDiary(200)));
}

#[test]
fn the_player_describes_their_actions() {
    let mut player = Player::init();
    player.inventory.push(Item::Weapon(Weapon {
        name: "Blaster",
        description: "",
        straight_damage: Damage::new(5),
        dodge_damage: Damage::new(3),
        speed: 3,
    }));
    player.inventory.push(Item::Food(Food { name: "Bread", description: "", heals_for: Damage::new(7) }));
    assert_eq!(player.describe_combat_action(Action::AttackLeft(0)), "You attack to the left with your Blaster");
    assert_eq!(player.describe_combat_action(Action::AttackRight(0)), "You attack to the right with your Blaster");
    assert_eq!(
        player.describe_combat_action(Action::AttackStraight(0)),
        "You attack in front of you with your Blaster"
    );
    assert_eq!(player.describe_combat_action(Action::EatFood(1)), "You attempt to eat your Bread");
    assert_eq!(player.describe_combat_action(Action::DodgeLeft), "You dodge to the left");
    assert_eq!(player.describe_combat_action(Action::DodgeRight), "You dodge to the right");
    assert_eq!(player.describe_combat_action(Action::Nothing), "You do nothing");
}

#[test]
fn the_options_of_a_turn_of_a_battle() {
    let mut player = Player::init();
    player.inventory.push(Item::Dust);
    player.inventory.push(Item::Weapon(Weapon {
        name: "Blaster",
        description: "",
        straight_damage: Damage::new(5),
        dodge_damage: Damage::new(3),
        speed: 3,
    }));
    player.inventory.push(Item::Food(Food { name: "Bread", description: "", heals_for: Damage::new(7) }));
    let (options, texts) = player.combat_choices();
    assert_eq!(
        options,
        vec![
            Action::Nothing,
            Action::DodgeLeft,
            Action::DodgeRight,
            Action::AttackStraight(1),
            Action::EatFood(2)
        ]
    );
    assert_eq!(
        texts,
        vec!["Do nothing", "Dodge to the left", "Dodge to the right", "Attack with your Blaster", "Eat your Bread"]
    );
    assert_eq!(Player::action_for_choice(&options, 3, 0), Action::AttackLeft(1));
    assert_eq!(Player::action_for_choice(&options, 3, 1), Action::AttackStraight(1));
    assert_eq!(Player::action_for_choice(&options, 3, 2), Action::AttackRight(1));
    assert_eq!(Player::action_for_choice(&options, 4, 0), Action::EatFood(2));
    assert_eq!(Player::action_for_choice(&options, 1, 2), Action::DodgeLeft);

    let mut menu = MockMenu::with_choices(vec![Some(3), Some(2), Some(4)]);
    assert_eq!(player.choose_combat_action(&mut menu).unwrap(), Action::AttackRight(1));
    let (prompt, shown) = menu.last_list().unwrap();
    assert_eq!(prompt, "Which way do you attack?");
    assert_eq!(shown, vec!["Attack Left", "Attack Straight", "Attack Right"]);
    assert_eq!(player.choose_combat_action(&mut menu).unwrap(), Action::EatFood(2));
    let (prompt, shown) = menu.last_list().unwrap();
    assert_eq!(prompt, "10:00 - What do you do?");
    assert_eq!(shown, texts);
    assert!(player.choose_combat_action(&mut menu).is_err());
}

#[test]
fn the_options_outside_of_a_battle() {
    let mut player = Player::init();
    player.room = Room::Kitchen;
    player.inventory.push(Item::CaptainsDiary(0));
    player.inventory.push(Item::Maps);
    player.inventory.push(Item::Food(Food { name: "Bread", description: "", heals_for: Damage::new(7) }));
    let (options, texts) = player.passive_choices();
    assert_eq!(
        options,
        vec![
            PassiveAction::CheckState,
            PassiveAction::GoToRoom(0),
            PassiveAction::PickUpItem(0),
            PassiveAction::PickUpItem(1),
            PassiveAction::UseItem(0),
            PassiveAction::UseItem(2),
        ]
    );
    assert_eq!(
        texts,
        vec![
            "Check how you're doing",
            "Go to the Mess Hall",
            "Pick up the Bread roll - A soft white bread roll. It's tasty, but not substantial.",
            "Pick up the Eating Knife - A sharp steel knife. Synthetic protein is tough, so it's sharp and sturdy",
            "Read the captain's diary",
            "Eat your Bread",
        ]
    );
    player.room = Room::Cells;
    let (options, texts) = player.passive_choices();
    assert_eq!(options[2], PassiveAction::RoomAction(0));
    assert_eq!(texts[1], "Go to the Upper Corridor");
    assert_eq!(texts[2], "Climb into the air vent");
    player.room = Room::CrewArea;
    let (_, texts) = player.passive_choices();
    assert_eq!(texts[3], "Go to the Escape Pod");
}

#[test]
fn a_passive_action_takes_a_turn() {
    let mut player = Player::init();
    let mut menu = MockMenu::with_choices(vec![Some(1)]);
    player.take_passive_action(&mut menu).unwrap();
    assert_eq!(player.remaining_turns, 29);
    assert_eq!(player.room, Room::UpperCorridor);
    let (title, content) = menu.last_screen().unwrap();
    assert_eq!(title, "You go to the Upper Corridor");
    assert_eq!(
        content,
        "You sneak through the busted door and hope nobody notices you.\nYou are now in the Upper Corridor - A corridor connecting the bridge to the rest of the ship."
    );
    let (prompt, _) = menu.last_list().unwrap();
    assert_eq!(prompt, "9:40 - What do you do?");
}

#[test]
fn picking_up_takes_the_item_out_of_the_room() {
    let mut player = Player::init();
    player.room = Room::Kitchen;
    player.pick_up_item_from_room(1);
    assert_eq!(player.inventory.len(), 1);
    assert_eq!(player.inventory[0].get_name(), "Eating Knife");
    assert_eq!(player.get_room_state().items.len(), 1);
    assert_eq!(player.get_room_state().items[0].get_name(), "Bread roll");
    player.pick_up_item(Item::Shame);
    assert_eq!(player.inventory[1].get_name(), "A sense of shame");
    player.get_room_state_mut().items.clear();
    assert!(player.room_graph.get_state(Room::Kitchen).items.is_empty());
}

#[test]
fn the_state_of_the_player_as_text() {
    let mut player = Player::init();
    player.health = Health::new(4);
    player.remaining_turns = 7;
    player.inventory.push(Item::Dust);
    assert_eq!(
        player.describe_state(),
        "You are in the Cells - Where they keep prisoners such as yourself. The ship is on a skeleton crew on its way to pick up troops and the security isn't up to scratch, so you managed to force open the door.\nYou are at 4/10 HP\nYou have:\n\u{2022} A thin layer of dust - You'd think air vents would be clean like the rest of the ship, but evidently not. If this were an Arnithian ship, you could climb into the vents just fine.\n\u{2022} 2:20 to get off the ship\n"
    );
    assert_eq!(player.room_title(), "You are in the Cells.");
    let mut menu = MockMenu::with_choices(vec![]);
    player.print_state(&mut menu).unwrap();
    assert_eq!(menu.last_screen().unwrap().0, "You take a moment to rest and check your body for injuries");
    player.print_room(&mut menu).unwrap();
    assert_eq!(menu.last_screen().unwrap().0, "You are in the Cells.");
}

#[test]
fn the_win_screen_knows_of_food() {
    let mut player = Player::init();
    assert_eq!(
        player.win_screen().content,
        "Or maybe not so long - it's only been a few minutes, after all. You buckle in for the long ride and allow yourself to relax, finally."
    );
    player.inventory.push(Item::Food(Food { name: "Bread", description: "", heals_for: Damage::new(7) }));
    assert!(player.win_screen().content.ends_with("but at least you brought some food."));
    assert_eq!(player.win_screen().title, "Freedom at long last");
    let mut menu = MockMenu::with_choices(vec![]);
    player.show_win_screen(&mut menu).unwrap();
    assert_eq!(menu.last_screen().unwrap().0, "Freedom at long last");
}
