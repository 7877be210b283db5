//! The world as it is at the start of each time loop.

pub mod actions;
pub mod enemies;
pub mod food;
pub mod transitions;
pub mod weapons;

use vstd::prelude::*;
use crate::rooms::{Room, RoomGraph, RoomState, RoomTransition};
use transitions::{
    bridge_to_upper_corridor,
    bunks_to_lower_corridor,
    cells_to_upper_corridor,
    crew_area_to_escape_pod,
    crew_area_to_lower_corridor,
    crew_area_to_stairwell,
    crew_area_to_store_room,
    engine_room_to_lower_corridor,
    escape_pod_to_crew_area,
    kitchen_to_mess_hall,
    lower_corridor_to_bunks,
    lower_corridor_to_crew_area,
    lower_corridor_to_engine_room,
    lower_corridor_to_wash_room,
    mess_hall_to_kitchen,
    mess_hall_to_stairwell,
    mess_hall_to_upper_corridor,
    stairwell_to_crew_area,
    stairwell_to_mess_hall,
    store_room_to_crew_area,
    strategy_room_to_upper_corridor,
    upper_corridor_to_bridge,
    upper_corridor_to_cells,
    upper_corridor_to_mess_hall,
    upper_corridor_to_strategy_room,
    wash_room_to_lower_corridor,
};

pub use actions::{RoomAction, RoomActionResult};

verus! {

/// The ways out of a room that has one.
fn one_way(a: RoomTransition) -> (r: Vec<RoomTransition>)
    ensures
        r@ == seq![a],
{
    let mut ways = Vec::new();
    ways.push(a);
    ways
}

/// The ways out of a room that has two.
fn two_ways(a: RoomTransition, b: RoomTransition) -> (r: Vec<RoomTransition>)
    ensures
        r@ == seq![a, b],
{
    let mut ways = one_way(a);
    ways.push(b);
    ways
}

/// The ways out of a room that has three.
fn three_ways(a: RoomTransition, b: RoomTransition, c: RoomTransition) -> (r: Vec<
    RoomTransition,
>)
    ensures
        r@ == seq![a, b, c],
{
    let mut ways = two_ways(a, b);
    ways.push(c);
    ways
}

/// The ways out of a room that has four.
fn four_ways(a: RoomTransition, b: RoomTransition, c: RoomTransition, d: RoomTransition) -> (r:
    Vec<RoomTransition>)
    ensures
        r@ == seq![a, b, c, d],
{
    let mut ways = three_ways(a, b, c);
    ways.push(d);
    ways
}

/// The crew area at the start: four ways out, the second of which is the
/// locked door of the escape pod.
fn crew_area() -> (r: RoomState)
    ensures
        r.room == Room::CrewArea,
        r.has_locked_door(),
{
    let r = RoomState::new(
        Room::CrewArea,
        four_ways(
            crew_area_to_stairwell(),
            crew_area_to_store_room(),
            crew_area_to_escape_pod(),
            crew_area_to_lower_corridor(),
        ),
    );
    assert(r.locked_door_at(2));
    r
}

/// Initialise a new [`RoomGraph`]: every room as it is when a time loop
/// starts.
pub fn init() -> (r: RoomGraph)
    ensures
        r.wf(),
        r.state(Room::CrewArea).has_locked_door(),
{
    let bridge = RoomState::new(Room::Bridge, one_way(bridge_to_upper_corridor())).add_item(
        weapons::intruders_blaster(),
    ).add_action(RoomAction::BridgeHackTheMainframe);

    let upper_corridor = RoomState::new(
        Room::UpperCorridor,
        four_ways(
            upper_corridor_to_bridge(),
            upper_corridor_to_strategy_room(),
            upper_corridor_to_cells(),
            upper_corridor_to_mess_hall(),
        ),
    );

    let strategy_room = RoomState::new(
        Room::StrategyRoom,
        one_way(strategy_room_to_upper_corridor()),
    ).with_enemy(enemies::skipper()).add_action(RoomAction::StrategyRoomTakeMaps);

    let cells = RoomState::new(Room::Cells, one_way(cells_to_upper_corridor())).add_action(
        RoomAction::CellsClimbIntoVents,
    );

    let mess_hall = RoomState::new(
        Room::MessHall,
        three_ways(mess_hall_to_upper_corridor(), mess_hall_to_kitchen(), mess_hall_to_stairwell()),
    ).with_enemy(enemies::cook()).add_action(RoomAction::MessHallWatchTheGame);

    let kitchen = RoomState::new(Room::Kitchen, one_way(kitchen_to_mess_hall())).add_item(
        food::bread_roll(),
    ).add_item(weapons::eating_knife());

    let stairwell = RoomState::new(
        Room::Stairwell,
        two_ways(stairwell_to_mess_hall(), stairwell_to_crew_area()),
    );

    let crew_area = crew_area();

    let store_room = RoomState::new(Room::StoreRoom, one_way(store_room_to_crew_area())).add_action(
        RoomAction::StoreRoomFindChocolate,
    );

    let lower_corridor = RoomState::new(
        Room::LowerCorridor,
        four_ways(
            lower_corridor_to_crew_area(),
            lower_corridor_to_bunks(),
            lower_corridor_to_wash_room(),
            lower_corridor_to_engine_room(),
        ),
    );

    let wash_room = RoomState::new(
        Room::WashRoom,
        one_way(wash_room_to_lower_corridor()),
    ).add_item(weapons::shaving_razor());

    let bunks = RoomState::new(Room::Bunks, one_way(bunks_to_lower_corridor())).add_item(
        weapons::throwing_dart_set(),
    ).add_action(RoomAction::BunksGetDiary);

    let engine_room = RoomState::new(
        Room::EngineRoom,
        one_way(engine_room_to_lower_corridor()),
    ).with_enemy(enemies::mechanic()).add_action(RoomAction::EngineRoomTakeKeys).add_item(
        weapons::wrench(),
    );

    let escape_pod = RoomState::new(
        Room::EscapeCraft,
        one_way(escape_pod_to_crew_area()),
    ).add_action(RoomAction::EscapePodTakeOff);

    let mut rooms: Vec<RoomState> = Vec::new();
    rooms.push(bridge);
    rooms.push(upper_corridor);
    rooms.push(strategy_room);
    rooms.push(cells);
    rooms.push(mess_hall);
    rooms.push(kitchen);
    rooms.push(stairwell);
    rooms.push(crew_area);
    rooms.push(store_room);
    rooms.push(lower_corridor);
    rooms.push(wash_room);
    rooms.push(bunks);
    rooms.push(engine_room);
    rooms.push(escape_pod);
    rooms.push(RoomState::new(Room::Escape, Vec::new()));
    RoomGraph { rooms }
}

} // verus!
