//! The ways from room to room as they are at the start of a time loop.

use vstd::prelude::*;
use crate::rooms::{Room, RoomTransition};

verus! {

/// What the way into the escape pod is called as long as it is locked.
pub const ESCAPE_POD_PROMPT: &'static str = "Escape Pod";

/// What is told on the way from `Bridge` to `UpperCorridor`.
pub const BRIDGE_TO_UPPER_CORRIDOR_MESSAGE: &'static str =
    "You walk out into the corridor and the door to the bridge slides closed behind you.";

/// What is told on the way from `UpperCorridor` to `Bridge`.
pub const UPPER_CORRIDOR_TO_BRIDGE_MESSAGE: &'static str =
    "You walk up to a large metal door and it splits into three pieces and retracts into the walls and ceiling.";

/// What is told on the way from `UpperCorridor` to `StrategyRoom`.
pub const UPPER_CORRIDOR_TO_STRATEGY_ROOM_MESSAGE: &'static str =
    "You peer through a window and see the skipper. They don't move. You go in.";

/// What is told on the way from `UpperCorridor` to `Cells`.
pub const UPPER_CORRIDOR_TO_CELLS_MESSAGE: &'static str =
    "You return to where it all starts.";

/// What is told on the way from `UpperCorridor` to `MessHall`.
pub const UPPER_CORRIDOR_TO_MESS_HALL_MESSAGE: &'static str =
    "You walk towards the door opposite the bridge. With all these identical doors, you wonder how anyone finds their way around.";

/// What is told on the way from `StrategyRoom` to `UpperCorridor`.
pub const STRATEGY_ROOM_TO_UPPER_CORRIDOR_MESSAGE: &'static str =
    "You leave the strategy room, trying not to think about what happened there.";

/// What is told on the way from `Cells` to `UpperCorridor`.
pub const CELLS_TO_UPPER_CORRIDOR_MESSAGE: &'static str =
    "You sneak through the busted door and hope nobody notices you.";

/// What is told on the way from `MessHall` to `UpperCorridor`.
pub const MESS_HALL_TO_UPPER_CORRIDOR_MESSAGE: &'static str =
    "You walk back away from the mess hall. You'd like to watch the game, but there's no time.";

/// What is told on the way from `MessHall` to `Kitchen`.
pub const MESS_HALL_TO_KITCHEN_MESSAGE: &'static str =
    "You stroll into the kitchen. You smell sweet potato soup, but you know it's synthetic. It's been at least six scores since you've had food that was actually grown on a planet.";

/// What is told on the way from `MessHall` to `Stairwell`.
pub const MESS_HALL_TO_STAIRWELL_MESSAGE: &'static str =
    "You jog over to the stairwell. If there's anyone downstairs, they've surely heard you by now.";

/// What is told on the way from `Kitchen` to `MessHall`.
pub const KITCHEN_TO_MESS_HALL_MESSAGE: &'static str =
    "You walk back out into the mess hall, craving real food.";

/// What is told on the way from `Stairwell` to `MessHall`.
pub const STAIRWELL_TO_MESS_HALL_MESSAGE: &'static str =
    "You feel you have unfinished business upstairs, and you go back up.";

/// What is told on the way from `Stairwell` to `CrewArea`.
pub const STAIRWELL_TO_CREW_AREA_MESSAGE: &'static str =
    "You cautiously approach the bottom of the stairs. You walk out into an empty room. It feels like there should be people here, but there aren't.";

/// What is told on the way from `CrewArea` to `Stairwell`.
pub const CREW_AREA_TO_STAIRWELL_MESSAGE: &'static str =
    "You walk up the stairs, taking in the view as you go.";

/// What is told on the way from `CrewArea` to `StoreRoom`.
pub const CREW_AREA_TO_STORE_ROOM_MESSAGE: &'static str =
    "You walk into the store room, and the light is far too dim. It's been broken for scores, but there are no replacements on board.";

/// What is told on the way from `CrewArea` to `CrewArea`.
pub const CREW_AREA_TO_ESCAPE_POD_MESSAGE: &'static str =
    "You walk up to the door of the escape pod. It stays shut: there is a card reader beside it, and you have nothing to show it.";

/// What is told on the way from `CrewArea` to `LowerCorridor`.
pub const CREW_AREA_TO_LOWER_CORRIDOR_MESSAGE: &'static str =
    "You head down another corridor and peek into the rooms on either side. It's unnerving how there's nobody here.";

/// What is told on the way from `StoreRoom` to `CrewArea`.
pub const STORE_ROOM_TO_CREW_AREA_MESSAGE: &'static str =
    "You turn to go out the door, and have to squint because of the light";

/// What is told on the way from `LowerCorridor` to `CrewArea`.
pub const LOWER_CORRIDOR_TO_CREW_AREA_MESSAGE: &'static str =
    "You go back to the crew area. You see the escape pod on your left and dream of being the first person ever to escape from an enemy craft";

/// What is told on the way from `LowerCorridor` to `WashRoom`.
pub const LOWER_CORRIDOR_TO_WASH_ROOM_MESSAGE: &'static str =
    "As you walk into the wash room, you look at yourself in the mirror. You haven't showered in six cycles, and it shows.";

/// What is told on the way from `LowerCorridor` to `Bunks`.
pub const LOWER_CORRIDOR_TO_BUNKS_MESSAGE: &'static str =
    "You walk into the empty bunks and think about how much you want to take a nap. When this is all over, you'll have the best sleep of your life.";

/// What is told on the way from `LowerCorridor` to `EngineRoom`.
pub const LOWER_CORRIDOR_TO_ENGINE_ROOM_MESSAGE: &'static str =
    "The door to the engine room slides up. You see lots of wires, pipes, and tanks. That's what a spaceship is supposed to look like.";

/// What is told on the way from `Bunks` to `LowerCorridor`.
pub const BUNKS_TO_LOWER_CORRIDOR_MESSAGE: &'static str =
    "You leave the bunks, fighting the urge to go back and lie down.";

/// What is told on the way from `WashRoom` to `LowerCorridor`.
pub const WASH_ROOM_TO_LOWER_CORRIDOR_MESSAGE: &'static str =
    "You leave the wash room and now the rest of the ship looks positively grubby in comparison.";

/// What is told on the way from `EngineRoom` to `LowerCorridor`.
pub const ENGINE_ROOM_TO_LOWER_CORRIDOR_MESSAGE: &'static str =
    "You leave the engine room and it becomes even more apparent to you just how soulless the ship is.";

/// What is told on the way from `EscapeCraft` to `CrewArea`.
pub const ESCAPE_POD_TO_CREW_AREA_MESSAGE: &'static str =
    "You climb back out of the pod into the crew area.";

/// The way from `Bridge` to `UpperCorridor`.
pub fn bridge_to_upper_corridor() -> (r: RoomTransition)
    ensures
        r.message == BRIDGE_TO_UPPER_CORRIDOR_MESSAGE,
        r.to == Room::UpperCorridor,
        r.prompt_text is None,
{
    RoomTransition { message: BRIDGE_TO_UPPER_CORRIDOR_MESSAGE, to: Room::UpperCorridor, prompt_text: None }
}

/// The way from `UpperCorridor` to `Bridge`.
pub fn upper_corridor_to_bridge() -> (r: RoomTransition)
    ensures
        r.message == UPPER_CORRIDOR_TO_BRIDGE_MESSAGE,
        r.to == Room::Bridge,
        r.prompt_text is None,
{
    RoomTransition { message: UPPER_CORRIDOR_TO_BRIDGE_MESSAGE, to: Room::Bridge, prompt_text: None }
}

/// The way from `UpperCorridor` to `StrategyRoom`.
pub fn upper_corridor_to_strategy_room() -> (r: RoomTransition)
    ensures
        r.message == UPPER_CORRIDOR_TO_STRATEGY_ROOM_MESSAGE,
        r.to == Room::StrategyRoom,
        r.prompt_text is None,
{
    RoomTransition { message: UPPER_CORRIDOR_TO_STRATEGY_ROOM_MESSAGE, to: Room::StrategyRoom, prompt_text: None }
}

/// The way from `UpperCorridor` to `Cells`.
pub fn upper_corridor_to_cells() -> (r: RoomTransition)
    ensures
        r.message == UPPER_CORRIDOR_TO_CELLS_MESSAGE,
        r.to == Room::Cells,
        r.prompt_text is None,
{
    RoomTransition { message: UPPER_CORRIDOR_TO_CELLS_MESSAGE, to: Room::Cells, prompt_text: None }
}

/// The way from `UpperCorridor` to `MessHall`.
pub fn upper_corridor_to_mess_hall() -> (r: RoomTransition)
    ensures
        r.message == UPPER_CORRIDOR_TO_MESS_HALL_MESSAGE,
        r.to == Room::MessHall,
        r.prompt_text is None,
{
    RoomTransition { message: UPPER_CORRIDOR_TO_MESS_HALL_MESSAGE, to: Room::MessHall, prompt_text: None }
}

/// The way from `StrategyRoom` to `UpperCorridor`.
pub fn strategy_room_to_upper_corridor() -> (r: RoomTransition)
    ensures
        r.message == STRATEGY_ROOM_TO_UPPER_CORRIDOR_MESSAGE,
        r.to == Room::UpperCorridor,
        r.prompt_text is None,
{
    RoomTransition { message: STRATEGY_ROOM_TO_UPPER_CORRIDOR_MESSAGE, to: Room::UpperCorridor, prompt_text: None }
}

/// The way from `Cells` to `UpperCorridor`.
pub fn cells_to_upper_corridor() -> (r: RoomTransition)
    ensures
        r.message == CELLS_TO_UPPER_CORRIDOR_MESSAGE,
        r.to == Room::UpperCorridor,
        r.prompt_text is None,
{
    RoomTransition { message: CELLS_TO_UPPER_CORRIDOR_MESSAGE, to: Room::UpperCorridor, prompt_text: None }
}

/// The way from `MessHall` to `UpperCorridor`.
pub fn mess_hall_to_upper_corridor() -> (r: RoomTransition)
    ensures
        r.message == MESS_HALL_TO_UPPER_CORRIDOR_MESSAGE,
        r.to == Room::UpperCorridor,
        r.prompt_text is None,
{
    RoomTransition { message: MESS_HALL_TO_UPPER_CORRIDOR_MESSAGE, to: Room::UpperCorridor, prompt_text: None }
}

/// The way from `MessHall` to `Kitchen`.
pub fn mess_hall_to_kitchen() -> (r: RoomTransition)
    ensures
        r.message == MESS_HALL_TO_KITCHEN_MESSAGE,
        r.to == Room::Kitchen,
        r.prompt_text is None,
{
    RoomTransition { message: MESS_HALL_TO_KITCHEN_MESSAGE, to: Room::Kitchen, prompt_text: None }
}

/// The way from `MessHall` to `Stairwell`.
pub fn mess_hall_to_stairwell() -> (r: RoomTransition)
    ensures
        r.message == MESS_HALL_TO_STAIRWELL_MESSAGE,
        r.to == Room::Stairwell,
        r.prompt_text is None,
{
    RoomTransition { message: MESS_HALL_TO_STAIRWELL_MESSAGE, to: Room::Stairwell, prompt_text: None }
}

/// The way from `Kitchen` to `MessHall`.
pub fn kitchen_to_mess_hall() -> (r: RoomTransition)
    ensures
        r.message == KITCHEN_TO_MESS_HALL_MESSAGE,
        r.to == Room::MessHall,
        r.prompt_text is None,
{
    RoomTransition { message: KITCHEN_TO_MESS_HALL_MESSAGE, to: Room::MessHall, prompt_text: None }
}

/// The way from `Stairwell` to `MessHall`.
pub fn stairwell_to_mess_hall() -> (r: RoomTransition)
    ensures
        r.message == STAIRWELL_TO_MESS_HALL_MESSAGE,
        r.to == Room::MessHall,
        r.prompt_text is None,
{
    RoomTransition { message: STAIRWELL_TO_MESS_HALL_MESSAGE, to: Room::MessHall, prompt_text: None }
}

/// The way from `Stairwell` to `CrewArea`.
pub fn stairwell_to_crew_area() -> (r: RoomTransition)
    ensures
        r.message == STAIRWELL_TO_CREW_AREA_MESSAGE,
        r.to == Room::CrewArea,
        r.prompt_text is None,
{
    RoomTransition { message: STAIRWELL_TO_CREW_AREA_MESSAGE, to: Room::CrewArea, prompt_text: None }
}

/// The way from `CrewArea` to `Stairwell`.
pub fn crew_area_to_stairwell() -> (r: RoomTransition)
    ensures
        r.message == CREW_AREA_TO_STAIRWELL_MESSAGE,
        r.to == Room::Stairwell,
        r.prompt_text is None,
{
    RoomTransition { message: CREW_AREA_TO_STAIRWELL_MESSAGE, to: Room::Stairwell, prompt_text: None }
}

/// The way from `CrewArea` to `StoreRoom`.
pub fn crew_area_to_store_room() -> (r: RoomTransition)
    ensures
        r.message == CREW_AREA_TO_STORE_ROOM_MESSAGE,
        r.to == Room::StoreRoom,
        r.prompt_text is None,
{
    RoomTransition { message: CREW_AREA_TO_STORE_ROOM_MESSAGE, to: Room::StoreRoom, prompt_text: None }
}

/// The locked door of the escape pod: a way that leads back into the crew
/// area.
pub fn crew_area_to_escape_pod() -> (r: RoomTransition)
    ensures
        r.message == CREW_AREA_TO_ESCAPE_POD_MESSAGE,
        r.to == Room::CrewArea,
        r.prompt_text == Some(ESCAPE_POD_PROMPT),
{
    RoomTransition { message: CREW_AREA_TO_ESCAPE_POD_MESSAGE, to: Room::CrewArea, prompt_text: Some(ESCAPE_POD_PROMPT) }
}

/// The way from `CrewArea` to `LowerCorridor`.
pub fn crew_area_to_lower_corridor() -> (r: RoomTransition)
    ensures
        r.message == CREW_AREA_TO_LOWER_CORRIDOR_MESSAGE,
        r.to == Room::LowerCorridor,
        r.prompt_text is None,
{
    RoomTransition { message: CREW_AREA_TO_LOWER_CORRIDOR_MESSAGE, to: Room::LowerCorridor, prompt_text: None }
}

/// The way from `StoreRoom` to `CrewArea`.
pub fn store_room_to_crew_area() -> (r: RoomTransition)
    ensures
        r.message == STORE_ROOM_TO_CREW_AREA_MESSAGE,
        r.to == Room::CrewArea,
        r.prompt_text is None,
{
    RoomTransition { message: STORE_ROOM_TO_CREW_AREA_MESSAGE, to: Room::CrewArea, prompt_text: None }
}

/// The way from `LowerCorridor` to `CrewArea`.
pub fn lower_corridor_to_crew_area() -> (r: RoomTransition)
    ensures
        r.message == LOWER_CORRIDOR_TO_CREW_AREA_MESSAGE,
        r.to == Room::CrewArea,
        r.prompt_text is None,
{
    RoomTransition { message: LOWER_CORRIDOR_TO_CREW_AREA_MESSAGE, to: Room::CrewArea, prompt_text: None }
}

/// The way from `LowerCorridor` to `WashRoom`.
pub fn lower_corridor_to_wash_room() -> (r: RoomTransition)
    ensures
        r.message == LOWER_CORRIDOR_TO_WASH_ROOM_MESSAGE,
        r.to == Room::WashRoom,
        r.prompt_text is None,
{
    RoomTransition { message: LOWER_CORRIDOR_TO_WASH_ROOM_MESSAGE, to: Room::WashRoom, prompt_text: None }
}

/// The way from `LowerCorridor` to `Bunks`.
pub fn lower_corridor_to_bunks() -> (r: RoomTransition)
    ensures
        r.message == LOWER_CORRIDOR_TO_BUNKS_MESSAGE,
        r.to == Room::Bunks,
        r.prompt_text is None,
{
    RoomTransition { message: LOWER_CORRIDOR_TO_BUNKS_MESSAGE, to: Room::Bunks, prompt_text: None }
}

/// The way from `LowerCorridor` to `EngineRoom`.
pub fn lower_corridor_to_engine_room() -> (r: RoomTransition)
    ensures
        r.message == LOWER_CORRIDOR_TO_ENGINE_ROOM_MESSAGE,
        r.to == Room::EngineRoom,
        r.prompt_text is None,
{
    RoomTransition { message: LOWER_CORRIDOR_TO_ENGINE_ROOM_MESSAGE, to: Room::EngineRoom, prompt_text: None }
}

/// The way from `Bunks` to `LowerCorridor`.
pub fn bunks_to_lower_corridor() -> (r: RoomTransition)
    ensures
        r.message == BUNKS_TO_LOWER_CORRIDOR_MESSAGE,
        r.to == Room::LowerCorridor,
        r.prompt_text is None,
{
    RoomTransition { message: BUNKS_TO_LOWER_CORRIDOR_MESSAGE, to: Room::LowerCorridor, prompt_text: None }
}

/// The way from `WashRoom` to `LowerCorridor`.
pub fn wash_room_to_lower_corridor() -> (r: RoomTransition)
    ensures
        r.message == WASH_ROOM_TO_LOWER_CORRIDOR_MESSAGE,
        r.to == Room::LowerCorridor,
        r.prompt_text is None,
{
    RoomTransition { message: WASH_ROOM_TO_LOWER_CORRIDOR_MESSAGE, to: Room::LowerCorridor, prompt_text: None }
}

/// The way from `EngineRoom` to `LowerCorridor`.
pub fn engine_room_to_lower_corridor() -> (r: RoomTransition)
    ensures
        r.message == ENGINE_ROOM_TO_LOWER_CORRIDOR_MESSAGE,
        r.to == Room::LowerCorridor,
        r.prompt_text is None,
{
    RoomTransition { message: ENGINE_ROOM_TO_LOWER_CORRIDOR_MESSAGE, to: Room::LowerCorridor, prompt_text: None }
}

/// The way from `EscapeCraft` to `CrewArea`.
pub fn escape_pod_to_crew_area() -> (r: RoomTransition)
    ensures
        r.message == ESCAPE_POD_TO_CREW_AREA_MESSAGE,
        r.to == Room::CrewArea,
        r.prompt_text is None,
{
    RoomTransition { message: ESCAPE_POD_TO_CREW_AREA_MESSAGE, to: Room::CrewArea, prompt_text: None }
}

} // verus!
