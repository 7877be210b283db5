use timeloop::combat::{Damage, Health};
use timeloop::config::{MAX_TURNS, PLAYER_START_HEALTH, PLAYER_START_MAX_HEALTH, STARTING_ROOM};
use timeloop::items::{Food, Item};
use timeloop::map::actions::{find_locked_door, has_maps, open_door};
use timeloop::map::{enemies, food, init, transitions, weapons, RoomAction, RoomActionResult};
use timeloop::menu::{MockMenu, Screen};
use timeloop::numerals::{digit_str, to_decimal};
use timeloop::player::diary::read_page;
use timeloop::player::{print_room_transition, transition_screen, PassiveAction, Player};
use timeloop::rooms::{Room, RoomGraph, RoomState, RoomTransition, ROOM_COUNT};

const ALL_ROOMS: [Room; 15] = [
    Room::Bridge,
    Room::UpperCorridor,
    Room::StrategyRoom,
    Room::Cells,
    Room::MessHall,
    Room::Kitchen,
    Room::Stairwell,
    Room::CrewArea,
    Room::StoreRoom,
    Room::LowerCorridor,
    Room::WashRoom,
    Room::Bunks,
    Room::EngineRoom,
    Room::EscapeCraft,
    Room::Escape,
];

#[test]
fn numbers_are_written_in_decimal() {
    assert_eq!(to_decimal(0), "0");
    assert_eq!(to_decimal(5), "5");
    assert_eq!(to_decimal(10), "10");
    assert_eq!(to_decimal(2168), "2168");
    assert_eq!(to_decimal(usize::MAX), format!("{}", usize::MAX));
    for d in 0..10 {
        assert_eq!(digit_str(d), format!("{d}"));
    }
}

#[test]
fn every_room_has_its_state_at_its_place() {
    let graph = init();
    assert_eq!(graph.rooms.len(), ROOM_COUNT);
    for (place, room) in ALL_ROOMS.iter().enumerate() {
        assert_eq!(room.slot(), place);
        assert_eq!(graph.rooms[place].room, *room);
        assert_eq!(graph.get_state(*room).room, *room);
    }
}

#[test]
fn rooms_have_names_and_descriptions() {
    assert_eq!(Room::Bridge.get_name(), "Bridge");
    assert_eq!(Room::UpperCorridor.get_name(), "Upper Corridor");
    assert_eq!(Room::EscapeCraft.get_name(), "Escape Craft");
    assert_eq!(Room::Escape.get_name(), "");
    assert_eq!(Room::Escape.get_description(), "");
    assert_eq!(Room::LowerCorridor.get_description(), "A corridor connecting the crew area to the engine room.");
    assert_eq!(Room::Bunks.get_description(), "The soldiers will sleep here when they are on board");
    for room in ALL_ROOMS {
        assert_eq!(room.get_name().is_empty(), room == Room::Escape);
    }
}

#[test]
fn the_world_at_the_start_of_a_loop() {
    let graph = init();
    let kitchen = graph.get_state(Room::Kitchen);
    assert_eq!(kitchen.items.len(), 2);
    assert_eq!(kitchen.items[0].get_name(), "Bread roll");
    assert_eq!(kitchen.items[1].get_name(), "Eating Knife");
    assert!(kitchen.enemy.is_none());
    assert_eq!(kitchen.connections.len(), 1);
    assert_eq!(kitchen.connections[0].to, Room::MessHall);

    let mess_hall = graph.get_state(Room::MessHall);
    assert_eq!(mess_hall.enemy.as_ref().unwrap().name, "Cook");
    assert!(matches!(mess_hall.actions[0], RoomAction::MessHallWatchTheGame));
    assert_eq!(mess_hall.connections.len(), 3);

    let engine_room = graph.get_state(Room::EngineRoom);
    assert_eq!(engine_room.enemy.as_ref().unwrap().name, "Mechanic");
    assert!(matches!(engine_room.actions[0], RoomAction::EngineRoomTakeKeys));
    assert_eq!(engine_room.items[0].get_name(), "Wrench");

    assert_eq!(graph.get_state(Room::StrategyRoom).enemy.as_ref().unwrap().name, "Skipper");
    assert!(matches!(graph.get_state(Room::EscapeCraft).actions[0], RoomAction::EscapePodTakeOff));
    assert!(graph.get_state(Room::Escape).connections.is_empty());

    let crew_area = graph.get_state(Room::CrewArea);
    assert_eq!(crew_area.connections.len(), 4);
    assert_eq!(crew_area.connections[2].prompt_text, Some("Escape Pod"));
    assert_eq!(crew_area.connections[2].to, Room::CrewArea);
    assert_eq!(crew_area.connections[2].get_label(), "Escape Pod");
    assert_eq!(crew_area.connections[0].get_label(), "Stairwell");
    assert_eq!(find_locked_door(&crew_area.connections), Some(2));
    assert_eq!(find_locked_door(&kitchen.connections), None);
}

#[test]
fn ways_lead_where_they_say() {
    let way = transitions::bridge_to_upper_corridor();
    assert_eq!(way.to, Room::UpperCorridor);
    assert_eq!(way.prompt_text, None);
    assert_eq!(
        way.message,
        "You walk out into the corridor and the door to the bridge slides closed behind you."
    );
    assert_eq!(transitions::upper_corridor_to_cells().message, "You return to where it all starts.");
    assert_eq!(transitions::lower_corridor_to_engine_room().to, Room::EngineRoom);
    assert_eq!(transitions::escape_pod_to_crew_area().to, Room::CrewArea);
    let (title, content) = transition_screen(&transitions::upper_corridor_to_cells());
    assert_eq!(title, "You go to the Cells");
    assert!(content.starts_with("You return to where it all starts.\nYou are now in the Cells - Where they keep"));
    let (title, _) = transition_screen(&transitions::crew_area_to_escape_pod());
    assert_eq!(title, "You go to the Escape Pod");
    let mut menu = MockMenu::with_choices(vec![]);
    print_room_transition(&transitions::kitchen_to_mess_hall(), &mut menu).unwrap();
    assert_eq!(menu.last_screen().unwrap().0, "You go to the Mess Hall");
}

#[test]
fn weapons_food_and_enemies() {
    let Item::Weapon(taser) = weapons::ispd_taser() else { panic!("not a weapon") };
    assert_eq!(taser.name, "ISPD Taser");
    assert_eq!(taser.straight_damage, Damage::new(10));
    assert_eq!(taser.dodge_damage, Damage::new(5));
    assert_eq!(taser.speed, 2);
    let Item::Weapon(darts) = weapons::throwing_dart_set() else { panic!("not a weapon") };
    assert_eq!((darts.straight_damage, darts.dodge_damage, darts.speed), (Damage::new(2), Damage::new(2), 1));
    for (weapon, name, straight, dodge, speed) in [
        (weapons::intruders_blaster(), "Intruders Blaster", 5, 3, 3),
        (weapons::captains_blaster(), "Captain's Blaster", 7, 5, 3),
        (weapons::standard_blaster(), "Standard Issue Blaster", 5, 2, 4),
        (weapons::shaving_razor(), "Shaving Razor", 3, 2, 5),
        (weapons::wrench(), "Wrench", 6, 4, 3),
        (weapons::eating_knife(), "Eating Knife", 5, 5, 2),
    ] {
        let Item::Weapon(w) = weapon else { panic!("not a weapon") };
        assert_eq!(w.name, name);
        assert_eq!(w.straight_damage, Damage::new(straight));
        assert_eq!(w.dodge_damage, Damage::new(dodge));
        assert_eq!(w.speed, speed);
    }
    let Item::Food(roll) = food::bread_roll() else { panic!("not food") };
    assert_eq!(roll.name, "Bread roll");
    assert_eq!(roll.heals_for, Damage::new(5));
    let Item::Food(chocolate) = food::bar_of_chocolate() else { panic!("not food") };
    assert_eq!(chocolate.name, "Bar of Chocolate");
    assert_eq!(chocolate.heals_for, Damage::new(10));

    let cook = enemies::cook();
    assert_eq!((cook.name, cook.health, cook.max_health), ("Cook", Health::new(7), Health::new(7)));
    assert_eq!(cook.inventory[0].get_name(), "Standard Issue Blaster");
    let mechanic = enemies::mechanic();
    assert_eq!((mechanic.name, mechanic.health, mechanic.max_health), ("Mechanic", Health::new(10), Health::new(10)));
    assert_eq!(mechanic.inventory[0].get_name(), "ISPD Taser");
    let skipper = enemies::skipper();
    assert_eq!((skipper.name, skipper.health, skipper.max_health), ("Skipper", Health::new(15), Health::new(15)));
    assert!(skipper.inventory.is_empty());
}

#[test]
fn items_have_names_and_descriptions() {
    assert_eq!(Item::Maps.get_name(), "Galactic Maps 2168 Edition");
    assert_eq!(Item::EscapePodKeys.get_name(), "Escape Pod Keys");
    assert_eq!(Item::Dust.get_name(), "A thin layer of dust");
    assert_eq!(Item::Shame.get_name(), "A sense of shame");
    assert_eq!(Item::CaptainsDiary(3).get_name(), "The Captain's Diary");
    assert_eq!(
        Item::EscapePodKeys.get_description(),
        "A key card labelled 'escape pod'. The label is beginning to wear."
    );
    let bread = Item::Food(Food { name: "Bread", description: "Plain.", heals_for: Damage::new(1) });
    assert_eq!(bread.get_name(), "Bread");
    assert_eq!(bread.get_description(), "Plain.");
    assert_eq!(weapons::wrench().get_description(), "A wrench from the engine room. It's weighty and you could do some good damage with it.");
}

#[test]
fn the_configuration() {
    assert_eq!(PLAYER_START_HEALTH, 10);
    assert_eq!(PLAYER_START_MAX_HEALTH, 10);
    assert_eq!(MAX_TURNS, 30);
    assert_eq!(STARTING_ROOM, Room::Cells);
}

#[test]
fn room_states_are_built_up() {
    let state = RoomState::new(Room::Bunks, vec![transitions::bunks_to_lower_corridor()])
        .add_item(Item::Dust)
        .add_item(Item::Shame)
        .add_action(RoomAction::BunksGetDiary)
        .with_enemy(enemies::cook());
    assert_eq!(state.room, Room::Bunks);
    assert_eq!(state.items.len(), 2);
    assert_eq!(state.items[1].get_name(), "A sense of shame");
    assert_eq!(state.actions.len(), 1);
    assert_eq!(state.enemy.unwrap().name, "Cook");
    assert_eq!(state.connections.len(), 1);
    let mut graph: RoomGraph = init();
    graph.get_state_mut(Room::Bunks).items.clear();
    assert!(graph.get_state(Room::Bunks).items.is_empty());
}

#[test]
fn room_actions_are_offered_by_what_they_do() {
    assert_eq!(RoomAction::StrategyRoomTakeMaps.get_description(), "Take the drive from the computer");
    assert_eq!(RoomAction::EngineRoomTakeKeys.get_description(), "Check out the cabinet in the corner");
    assert_eq!(RoomAction::EscapePodTakeOff.get_description(), "Take off");
    assert_eq!(RoomAction::StoreRoomFindChocolate.get_description(), "Search the tops of the shelves");
    assert_eq!(RoomAction::CellsClimbIntoVents.get_description(), "Climb into the air vent");
    assert_eq!(RoomAction::BridgeHackTheMainframe.get_description(), "Hack the mainframe");
    assert_eq!(RoomAction::MessHallWatchTheGame.get_description(), "Watch the game");
    assert_eq!(RoomAction::BunksGetDiary.get_description(), "Search underneath the beds");
    let result = RoomActionResult::new(Some(Screen { title: "t", content: "c" }), true);
    assert!(result.show_again);
    assert_eq!(result.message.unwrap().title, "t");
}

#[test]
fn room_actions_find_things() {
    let mut player = Player::init();
    let result = RoomAction::StrategyRoomTakeMaps.execute(&mut player);
    assert!(!result.show_again);
    assert_eq!(result.message.unwrap().title, "You take the drive");
    assert!(matches!(player.inventory[0], Item::Maps));

    let result = RoomAction::StoreRoomFindChocolate.execute(&mut player);
    assert!(!result.show_again);
    assert_eq!(player.inventory[1].get_name(), "Bar of Chocolate");

    let result = RoomAction::CellsClimbIntoVents.execute(&mut player);
    assert!(result.show_again);
    assert!(matches!(player.inventory[2], Item::Dust));

    let result = RoomAction::BridgeHackTheMainframe.execute(&mut player);
    assert!(result.show_again);
    assert!(matches!(player.inventory[3], Item::Shame));

    let result = RoomAction::BunksGetDiary.execute(&mut player);
    assert!(!result.show_again);
    assert!(matches!(player.inventory[4], Item::CaptainsDiary(0)));

    let result = RoomAction::MessHallWatchTheGame.execute(&mut player);
    assert!(!result.show_again);
    assert_eq!(result.message.unwrap().title, "You take a seat and watch the half-G volleyball");
    assert_eq!(player.inventory.len(), 5);
    assert_eq!(player.room, Room::Cells);
}

#[test]
fn the_keys_open_the_escape_pod() {
    let mut player = Player::init();
    let result = RoomAction::EngineRoomTakeKeys.execute(&mut player);
    assert!(!result.show_again);
    assert_eq!(result.message.unwrap().title, "You look through the drawers");
    assert!(matches!(player.inventory[0], Item::EscapePodKeys));
    let crew_area = player.room_graph.get_state(Room::CrewArea);
    assert_eq!(crew_area.connections.len(), 4);
    assert_eq!(crew_area.connections[2].to, Room::EscapeCraft);
    assert_eq!(crew_area.connections[2].prompt_text, None);
    assert!(crew_area.connections[2].message.starts_with("You walk up to the door, the same as any other."));
    assert_eq!(crew_area.connections[1].to, Room::StoreRoom);
    assert_eq!(find_locked_door(&crew_area.connections), None);
    // without the locked door there is nothing left to open
    RoomAction::EngineRoomTakeKeys.execute(&mut player);
    assert_eq!(player.room_graph.get_state(Room::CrewArea).connections[2].to, Room::EscapeCraft);
    assert_eq!(player.inventory.len(), 2);

    let mut state = RoomState::new(
        Room::Bunks,
        vec![
            transitions::bunks_to_lower_corridor(),
            RoomTransition { message: "", to: Room::Bunks, prompt_text: Some("Escape Pod") },
            RoomTransition { message: "", to: Room::Bunks, prompt_text: Some("Escape Pod") },
        ],
    );
    open_door(&mut state);
    assert_eq!(state.connections[1].to, Room::EscapeCraft);
    assert_eq!(state.connections[2].to, Room::Bunks);
}

#[test]
fn taking_off_needs_the_maps() {
    let mut player = Player::init();
    player.room = Room::EscapeCraft;
    assert!(!has_maps(&player.inventory));
    let result = RoomAction::EscapePodTakeOff.execute(&mut player);
    assert!(result.show_again);
    assert_eq!(result.message.unwrap().title, "You try to launch, but there's an error.");
    assert_eq!(player.room, Room::EscapeCraft);

    player.inventory.push(Item::Dust);
    player.inventory.push(Item::Maps);
    assert!(has_maps(&player.inventory));
    let result = RoomAction::EscapePodTakeOff.execute(&mut player);
    assert!(!result.show_again);
    assert_eq!(result.message.unwrap().title, "You plug in the maps and blast off");
    assert_eq!(player.room, Room::Escape);
}

#[test]
fn what_was_done_is_gone_from_the_room_unless_it_can_be_repeated() {
    let mut player = Player::init();
    // climbing into the vents can be tried again
    let message = player.run_room_action(0).unwrap();
    assert_eq!(message.title, "You take out the grate and go to lift yourself up");
    assert_eq!(player.get_room_state().actions.len(), 1);
    assert!(matches!(player.inventory[0], Item::Dust));
    // the diary is found once
    player.room = Room::Bunks;
    let message = player.run_room_action(0).unwrap();
    assert_eq!(message.title, "You poke your head under the beds");
    assert!(player.get_room_state().actions.is_empty());
    // a take-off that succeeds leaves the escape craft without it
    player.room = Room::EscapeCraft;
    player.inventory.push(Item::Maps);
    player.run_room_action(0).unwrap();
    assert_eq!(player.room, Room::Escape);
    assert!(player.room_graph.get_state(Room::EscapeCraft).actions.is_empty());
}

#[test]
fn the_diary_page_by_page() {
    let (screen, next) = read_page(0);
    assert_eq!(screen.title, "You read the last page: 15/08/2168 - Found someone in the cold");
    assert_eq!(next, 1);
    let (screen, next) = read_page(4);
    assert_eq!(screen.title, "05/04/2168 - Home is in sight");
    assert_eq!(
        screen.content,
        "The commander says I can have a few scores off after we pick up the new recruits. Sounds good to me."
    );
    assert_eq!(next, 5);
    let (screen, next) = read_page(7);
    assert_eq!(screen.title, "10/07/2168 - Had to confiscate the darts");
    assert_eq!(next, 8);
    let (screen, next) = read_page(8);
    assert_eq!(screen.title, "There's no more pages");
    assert_eq!(next, 8);
    assert_eq!(read_page(255).1, 255);
}

#[test]
fn a_way_through_the_game() {
    let mut player = Player::init();
    // cells -> upper corridor -> strategy room
    let mut menu = MockMenu::with_choices(vec![Some(1), Some(2)]);
    player.take_passive_action(&mut menu).unwrap();
    player.take_passive_action(&mut menu).unwrap();
    assert_eq!(player.room, Room::StrategyRoom);
    assert_eq!(player.remaining_turns, 28);
    assert!(player.get_room_state_mut().enemy.take().is_some());
    // take the maps: the only thing to do there
    player.take_action(PassiveAction::RoomAction(0), &mut menu).unwrap();
    assert!(matches!(player.inventory[0], Item::Maps));
    assert_eq!(menu.last_screen().unwrap().0, "You take the drive");
    assert!(player.get_room_state().actions.is_empty());
    // check the state: nothing changes
    player.take_action(PassiveAction::CheckState, &mut menu).unwrap();
    assert_eq!(player.room, Room::StrategyRoom);
    // the keys, then through the opened door and off
    RoomAction::EngineRoomTakeKeys.execute(&mut player);
    player.room = Room::CrewArea;
    player.take_action(PassiveAction::GoToRoom(2), &mut menu).unwrap();
    assert_eq!(player.room, Room::EscapeCraft);
    player.take_action(PassiveAction::RoomAction(0), &mut menu).unwrap();
    assert_eq!(player.room, Room::Escape);
    assert_eq!(menu.last_screen().unwrap().0, "You plug in the maps and blast off");
}

#[test]
fn the_locked_door_leads_nowhere() {
    let mut player = Player::init();
    player.room = Room::CrewArea;
    let mut menu = MockMenu::with_choices(vec![]);
    player.take_action(PassiveAction::GoToRoom(2), &mut menu).unwrap();
    assert_eq!(player.room, Room::CrewArea);
    assert_eq!(menu.last_screen().unwrap().0, "You go to the Escape Pod");
}
