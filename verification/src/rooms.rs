//! Rooms: their names, what is in them and how they are connected.

use vstd::prelude::*;
use crate::combat::Enemy;
use crate::items::Item;
use crate::map::transitions::ESCAPE_POD_PROMPT;
use crate::map::RoomAction;
use crate::text::same_text;

verus! {

/// One of the game's rooms. This is an identifier only: what is in a room is
/// its [`RoomState`].
#[derive(Debug, Clone, Copy, PartialEq, Eq, Hash, Structural)]
pub enum Room {
    /// The bridge
    Bridge,
    /// The corridor on the upper floor
    UpperCorridor,
    /// The strategy room
    StrategyRoom,
    /// The cells where the player starts
    Cells,
    /// The mess hall
    MessHall,
    /// The kitchen
    Kitchen,
    /// The stairwell connecting the two floors
    Stairwell,
    /// The crew area
    CrewArea,
    /// The store room
    StoreRoom,
    /// The corridor on the lower floor
    LowerCorridor,
    /// The wash room
    WashRoom,
    /// The crew's bunks
    Bunks,
    /// The engine room
    EngineRoom,
    /// The escape craft
    EscapeCraft,
    /// The room which stands for having won the game
    Escape,
}

/// The number of rooms.
pub const ROOM_COUNT: usize = 15;

/// The description of the room `Bridge`.
pub const BRIDGE_DESCRIPTION: &'static str =
    "The control centre of the ship. Through the front window you can see into the darkness of space.";

/// The description of the room `UpperCorridor`.
pub const UPPER_CORRIDOR_DESCRIPTION: &'static str =
    "A corridor connecting the bridge to the rest of the ship.";

/// The description of the room `StrategyRoom`.
pub const STRATEGY_ROOM_DESCRIPTION: &'static str =
    "Where important tactical decisions are made. Before you arrived, the most important decision since since leaving the front lines had been what galactic time zone to use.";

/// The description of the room `Cells`.
pub const CELLS_DESCRIPTION: &'static str =
    "Where they keep prisoners such as yourself. The ship is on a skeleton crew on its way to pick up troops and the security isn't up to scratch, so you managed to force open the door.";

/// The description of the room `MessHall`.
pub const MESS_HALL_DESCRIPTION: &'static str =
    "Where the crew eat their meals. A holo-screen in the corner is playing a game of half-G volleyball.";

/// The description of the room `Kitchen`.
pub const KITCHEN_DESCRIPTION: &'static str =
    "An immaculately clean kitchen area. All the appliances are electric - no open flames are allowed on the ship.";

/// The description of the room `Stairwell`.
pub const STAIRWELL_DESCRIPTION: &'static str =
    "A stairwell. There's not much to do, but out the window you can see the ship's engines pushing you forward into your captors' grip.";

/// The description of the room `CrewArea`.
pub const CREW_AREA_DESCRIPTION: &'static str =
    "Where the soldiers relax after a long cycle. If there were any, that is. There's a darts board on the wall, but no darts anywhere.";

/// The description of the room `StoreRoom`.
pub const STORE_ROOM_DESCRIPTION: &'static str =
    "A small room with many shelves containing various things. The light is broken so you can only make out shapes close to the door.";

/// The description of the room `LowerCorridor`.
pub const LOWER_CORRIDOR_DESCRIPTION: &'static str =
    "A corridor connecting the crew area to the engine room.";

/// The description of the room `WashRoom`.
pub const WASH_ROOM_DESCRIPTION: &'static str =
    "A spotless wash room containing a few showers and a few toilets. This is a military vessel, so there's no need for privacy.";

/// The description of the room `Bunks`.
pub const BUNKS_DESCRIPTION: &'static str =
    "The soldiers will sleep here when they are on board";

/// The description of the room `EngineRoom`.
pub const ENGINE_ROOM_DESCRIPTION: &'static str =
    "Where the ship's internals are serviced from. The actual engines are at the back of the ship, but this is where the boiler and the electrical breakers are.";

/// The description of the room `EscapeCraft`.
pub const ESCAPE_CRAFT_DESCRIPTION: &'static str =
    "A pod big enough for only two people. It has enough fuel to get you to safety, but only just.";

impl Room {
    /// The name of the room, as a specification.
    pub open spec fn name(self) -> &'static str {
        match self {
            Room::Bridge => "Bridge",
            Room::UpperCorridor => "Upper Corridor",
            Room::StrategyRoom => "Strategy Room",
            Room::Cells => "Cells",
            Room::MessHall => "Mess Hall",
            Room::Kitchen => "Kitchen",
            Room::Stairwell => "Stairwell",
            Room::CrewArea => "Crew Area",
            Room::StoreRoom => "Store Room",
            Room::LowerCorridor => "Lower Corridor",
            Room::WashRoom => "Wash Room",
            Room::Bunks => "Bunks",
            Room::EngineRoom => "Engine Room",
            Room::EscapeCraft => "Escape Craft",
            Room::Escape => "",
        }
    }

    /// The description of the room, as a specification.
    pub open spec fn description(self) -> &'static str {
        match self {
            Room::Bridge => BRIDGE_DESCRIPTION,
            Room::UpperCorridor => UPPER_CORRIDOR_DESCRIPTION,
            Room::StrategyRoom => STRATEGY_ROOM_DESCRIPTION,
            Room::Cells => CELLS_DESCRIPTION,
            Room::MessHall => MESS_HALL_DESCRIPTION,
            Room::Kitchen => KITCHEN_DESCRIPTION,
            Room::Stairwell => STAIRWELL_DESCRIPTION,
            Room::CrewArea => CREW_AREA_DESCRIPTION,
            Room::StoreRoom => STORE_ROOM_DESCRIPTION,
            Room::LowerCorridor => LOWER_CORRIDOR_DESCRIPTION,
            Room::WashRoom => WASH_ROOM_DESCRIPTION,
            Room::Bunks => BUNKS_DESCRIPTION,
            Room::EngineRoom => ENGINE_ROOM_DESCRIPTION,
            Room::EscapeCraft => ESCAPE_CRAFT_DESCRIPTION,
            Room::Escape => "",
        }
    }

    /// The place of the room's state in a [`RoomGraph`].
    pub open spec fn index(self) -> nat {
        match self {
            Room::Bridge => 0,
            Room::UpperCorridor => 1,
            Room::StrategyRoom => 2,
            Room::Cells => 3,
            Room::MessHall => 4,
            Room::Kitchen => 5,
            Room::Stairwell => 6,
            Room::CrewArea => 7,
            Room::StoreRoom => 8,
            Room::LowerCorridor => 9,
            Room::WashRoom => 10,
            Room::Bunks => 11,
            Room::EngineRoom => 12,
            Room::EscapeCraft => 13,
            Room::Escape => 14,
        }
    }

    /// Get the name of a room
    #[verifier::when_used_as_spec(name)]
    pub fn get_name(self) -> (r: &'static str)
        ensures
            r == self.name(),
    {
        match self {
            Room::Bridge => "Bridge",
            Room::UpperCorridor => "Upper Corridor",
            Room::StrategyRoom => "Strategy Room",
            Room::Cells => "Cells",
            Room::MessHall => "Mess Hall",
            Room::Kitchen => "Kitchen",
            Room::Stairwell => "Stairwell",
            Room::CrewArea => "Crew Area",
            Room::StoreRoom => "Store Room",
            Room::LowerCorridor => "Lower Corridor",
            Room::WashRoom => "Wash Room",
            Room::Bunks => "Bunks",
            Room::EngineRoom => "Engine Room",
            Room::EscapeCraft => "Escape Craft",
            Room::Escape => "",
        }
    }

    /// Get a short description of a room
    #[verifier::when_used_as_spec(description)]
    pub fn get_description(self) -> (r: &'static str)
        ensures
            r == self.description(),
    {
        match self {
            Room::Bridge => BRIDGE_DESCRIPTION,
            Room::UpperCorridor => UPPER_CORRIDOR_DESCRIPTION,
            Room::StrategyRoom => STRATEGY_ROOM_DESCRIPTION,
            Room::Cells => CELLS_DESCRIPTION,
            Room::MessHall => MESS_HALL_DESCRIPTION,
            Room::Kitchen => KITCHEN_DESCRIPTION,
            Room::Stairwell => STAIRWELL_DESCRIPTION,
            Room::CrewArea => CREW_AREA_DESCRIPTION,
            Room::StoreRoom => STORE_ROOM_DESCRIPTION,
            Room::LowerCorridor => LOWER_CORRIDOR_DESCRIPTION,
            Room::WashRoom => WASH_ROOM_DESCRIPTION,
            Room::Bunks => BUNKS_DESCRIPTION,
            Room::EngineRoom => ENGINE_ROOM_DESCRIPTION,
            Room::EscapeCraft => ESCAPE_CRAFT_DESCRIPTION,
            Room::Escape => "",
        }
    }

    /// The place of the room's state in a [`RoomGraph`].
    pub fn slot(self) -> (r: usize)
        ensures
            r == self.index(),
            r < ROOM_COUNT,
    {
        match self {
            Room::Bridge => 0,
            Room::UpperCorridor => 1,
            Room::StrategyRoom => 2,
            Room::Cells => 3,
            Room::MessHall => 4,
            Room::Kitchen => 5,
            Room::Stairwell => 6,
            Room::CrewArea => 7,
            Room::StoreRoom => 8,
            Room::LowerCorridor => 9,
            Room::WashRoom => 10,
            Room::Bunks => 11,
            Room::EngineRoom => 12,
            Room::EscapeCraft => 13,
            Room::Escape => 14,
        }
    }
}

/// A transition between two [`Room`]s
#[derive(Debug)]
pub struct RoomTransition {
    /// A message to display when moving
    pub message: &'static str,
    /// Which [`Room`] to go to
    pub to: Room,
    /// What option to show the player. If [`None`], it is the name of
    /// [`Self::to`]
    pub prompt_text: Option<&'static str>,
}

impl RoomTransition {
    /// How the transition is offered to the player: its prompt text if it has
    /// one, else the name of the room that it leads to.
    pub open spec fn label(&self) -> &'static str {
        match self.prompt_text {
            Some(text) => text,
            None => self.to.name(),
        }
    }

    /// How the transition is offered to the player.
    #[verifier::when_used_as_spec(label)]
    pub fn get_label(&self) -> (r: &'static str)
        ensures
            r == self.label(),
    {
        match self.prompt_text {
            Some(text) => text,
            None => self.to.get_name(),
        }
    }
}

/// The state of a room
#[derive(Debug)]
pub struct RoomState {
    /// Which room this is the state of
    pub room: Room,
    /// What items are in the room for the player to pick up
    pub items: Vec<Item>,
    /// An [`Enemy`], if there is one
    pub enemy: Option<Enemy>,
    /// Which other rooms the player can go to from this one
    pub connections: Vec<RoomTransition>,
    /// What the player can do in this room
    pub actions: Vec<RoomAction>,
}

impl RoomTransition {
    /// Whether the way is the locked door of the escape pod: it is known by
    /// what it is called.
    pub open spec fn is_locked_door(&self) -> bool {
        self.prompt_text matches Some(text) && same_text(text, ESCAPE_POD_PROMPT)
    }
}

impl RoomState {
    /// Whether the way out at place `j` is the locked door of the escape pod.
    pub open spec fn locked_door_at(&self, j: int) -> bool {
        0 <= j < self.connections@.len() && self.connections@[j].is_locked_door()
    }

    /// Whether the room has the locked door of the escape pod among its ways
    /// out.
    pub open spec fn has_locked_door(&self) -> bool {
        exists|j: int| self.locked_door_at(j)
    }

    /// The state of `room` with the given ways out, and with no item, no
    /// enemy and nothing to do in it.
    pub fn new(room: Room, connections: Vec<RoomTransition>) -> (r: Self)
        ensures
            r.room == room,
            r.connections == connections,
            r.items@.len() == 0,
            r.enemy.is_none(),
            r.actions@.len() == 0,
    {
        Self { room, items: Vec::new(), enemy: None, connections, actions: Vec::new() }
    }

    /// The same state with `item` added after the items that lie in the room.
    pub fn add_item(self, item: Item) -> (r: Self)
        ensures
            r.items@ == self.items@.push(item),
            r.room == self.room,
            r.enemy == self.enemy,
            r.connections == self.connections,
            r.actions == self.actions,
    {
        let mut state = self;
        state.items.push(item);
        state
    }

    /// The same state with `action` added after what can be done in the room.
    pub fn add_action(self, action: RoomAction) -> (r: Self)
        ensures
            r.actions@ == self.actions@.push(action),
            r.room == self.room,
            r.enemy == self.enemy,
            r.connections == self.connections,
            r.items == self.items,
    {
        let mut state = self;
        state.actions.push(action);
        state
    }

    /// The same state with `enemy` in the room, in place of any other.
    pub fn with_enemy(self, enemy: Enemy) -> (r: Self)
        ensures
            r.enemy == Some(enemy),
            r.room == self.room,
            r.items == self.items,
            r.connections == self.connections,
            r.actions == self.actions,
    {
        let mut state = self;
        state.enemy = Some(enemy);
        state
    }
}

/// The state of all rooms
#[derive(Debug)]
pub struct RoomGraph {
    /// The state of each room that has one, at the place that
    /// [`Room::index`] gives
    pub rooms: Vec<RoomState>,
}

impl RoomGraph {
    /// Every room has its state at its place.
    pub open spec fn wf(&self) -> bool {
        &&& self.rooms@.len() == ROOM_COUNT
        &&& forall|i: int| 0 <= i < self.rooms@.len() ==> (#[trigger] self.rooms@[i]).room.index() == i
    }

    /// Tells whether every room has its state at its place.
    pub fn is_wf(&self) -> (r: bool)
        ensures
            r == self.wf(),
    {
        if self.rooms.len() != ROOM_COUNT {
            return false;
        }
        let mut i: usize = 0;
        while i < ROOM_COUNT
            invariant
                i <= ROOM_COUNT,
                self.rooms@.len() == ROOM_COUNT,
                forall|k: int| 0 <= k < i ==> (#[trigger] self.rooms@[k]).room.index() == k,
            decreases ROOM_COUNT - i,
        {
            if self.rooms[i].room.slot() != i {
                return false;
            }
            i = i + 1;
        }
        true
    }

    /// The state of `room`, as a specification.
    pub open spec fn state(&self, room: Room) -> RoomState {
        self.rooms@[room.index() as int]
    }

    /// Get a shared reference to the [`RoomState`] for a given [`Room`]
    pub fn get_state(&self, room: Room) -> (r: &RoomState)
        requires
            self.wf(),
        ensures
            *r == self.state(room),
            r.room == room,
    {
        let r = &self.rooms[room.slot()];
        proof {
            lemma_index_injective(r.room, room);
        }
        r
    }

    /// Get a mutable reference to the [`RoomState`] for a given [`Room`]
    pub fn get_state_mut(&mut self, room: Room) -> (r: &mut RoomState)
        requires
            old(self).wf(),
        ensures
            *r == old(self).state(room),
            r.room == room,
            final(self).rooms@ == old(self).rooms@.update(room.index() as int, *final(r)),
    {
        proof {
            lemma_index_injective(self.rooms@[room.index() as int].room, room);
        }
        &mut self.rooms[room.slot()]
    }
}

/// Two rooms at the same place are the same room.
pub proof fn lemma_index_injective(a: Room, b: Room)
    requires
        a.index() == b.index(),
    ensures
        a == b,
{
}

} // verus!
