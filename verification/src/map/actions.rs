//! What the player can do in a room besides moving on and picking things up.

use vstd::prelude::*;
use crate::items::Item;
use crate::map::food;
use crate::map::transitions::ESCAPE_POD_PROMPT;
use crate::menu::Screen;
use crate::player::Player;
use crate::rooms::{Room, RoomState, RoomTransition};
use crate::text::is_same_text;

verus! {

/// An action that can be performed in a room
#[derive(Debug)]
pub enum RoomAction {
    /// Take the maps in the strategy room
    StrategyRoomTakeMaps,
    /// Take the key in the engine room
    EngineRoomTakeKeys,
    /// Take off in the escape craft
    EscapePodTakeOff,
    /// Find chocolate in the store room
    StoreRoomFindChocolate,
    /// Try to climb into the air vents in the cells
    CellsClimbIntoVents,
    /// Try to hack the computer on the bridge
    BridgeHackTheMainframe,
    /// Watch the half-G volleyball in the mess hall
    MessHallWatchTheGame,
    /// Find the captain's diary in the bunks
    BunksGetDiary,
}

/// The result of a [`RoomAction`]
#[derive(Debug)]
pub struct RoomActionResult<'a> {
    /// A message to show the player
    pub message: Option<Screen<'a>>,
    /// Whether this action should be listed on future turns in this room
    pub show_again: bool,
}

impl<'a> RoomActionResult<'a> {
    /// Creates a [`RoomActionResult`] from the given optional message and
    /// whether to show the action again
    pub fn new(message: Option<Screen<'a>>, show_again: bool) -> (r: Self)
        ensures
            r.message == message,
            r.show_again == show_again,
    {
        Self { message, show_again }
    }
}

/// What is told on the way through the door of the escape pod once the keys
/// have opened it.
pub const OPENED_DOOR_MESSAGE: &'static str =
    "You walk up to the door, the same as any other. This time, it detects the key card in your pocket and slides open. \
It clearly hasn't opened in scores and makes a grating sound. You would worry if there were anyone left alive.";

/// The title of the screen `TAKE_MAPS`.
pub const TAKE_MAPS_TITLE: &'static str =
    "You take the drive";

/// The text of the screen `TAKE_MAPS`.
pub const TAKE_MAPS_TEXT: &'static str =
    "You take the drive, and read its description - 'Galactic Maps 2168 Edition'";

/// The title of the screen `TAKE_KEYS`.
pub const TAKE_KEYS_TITLE: &'static str =
    "You look through the drawers";

/// The text of the screen `TAKE_KEYS`.
pub const TAKE_KEYS_TEXT: &'static str =
    "You search every drawer. You don't find anything interesting until you get to the second-last one, which has a key card in it. You flip it over and it is labelled 'escape pod'.";

/// The title of the screen `TAKE_OFF_REFUSED`.
pub const TAKE_OFF_REFUSED_TITLE: &'static str =
    "You try to launch, but there's an error.";

/// The text of the screen `TAKE_OFF_REFUSED`.
pub const TAKE_OFF_REFUSED_TEXT: &'static str =
    "\"Maps out of date: pod cannot launch without in-date maps\". You try to override the message but you can't figure it out.";

/// The title of the screen `TAKE_OFF`.
pub const TAKE_OFF_TITLE: &'static str =
    "You plug in the maps and blast off";

/// The text of the screen `TAKE_OFF`.
pub const TAKE_OFF_TEXT: &'static str =
    "It's a bit anticlimactic at first but then the thrusters kick in and you feel yourself shuddering home.";

/// The title of the screen `FIND_CHOCOLATE`.
pub const FIND_CHOCOLATE_TITLE: &'static str =
    "You run your hands around the top of each shelf in turn";

/// The text of the screen `FIND_CHOCOLATE`.
pub const FIND_CHOCOLATE_TEXT: &'static str =
    "You eventually feel something - a thin, solid rectangle. You bring it into the light and read - 'Real Cacao'. You pocket it.";

/// The title of the screen `CLIMB_INTO_VENTS`.
pub const CLIMB_INTO_VENTS_TITLE: &'static str =
    "You take out the grate and go to lift yourself up";

/// The text of the screen `CLIMB_INTO_VENTS`.
pub const CLIMB_INTO_VENTS_TEXT: &'static str =
    "You push as hard as you can, but the opening's just not big enough.";

/// The title of the screen `HACK_THE_MAINFRAME`.
pub const HACK_THE_MAINFRAME_TITLE: &'static str =
    "You walk over to the computer";

/// The text of the screen `HACK_THE_MAINFRAME`.
pub const HACK_THE_MAINFRAME_TEXT: &'static str =
    "You type ' OR 1 = 1'. Nothing happens. 
You type 'a; DROP TABLE Prisoners'. Nothing happens. 
You type '<script>alert(\"This is easier in the movies\")</script>'. Nothing happens.
You leave the computer and pretend nothing ever happened (which it didn't).";

/// The title of the screen `WATCH_THE_GAME`.
pub const WATCH_THE_GAME_TITLE: &'static str =
    "You take a seat and watch the half-G volleyball";

/// The text of the screen `WATCH_THE_GAME`.
pub const WATCH_THE_GAME_TEXT: &'static str =
    "That's half-G relative to Earth's g=9.8Nkg-1, of course, not the Arnithian standard of g=11Nkg-1. It's a quirk of history, really. \
The Martian Moonmen are doing awfully well, but you know you should really be cheering for the Venutian Vikings instead. Even with half gravity it's impressive how high they punt the ball. \
You look up and realise its been a long while since you sat down. That was a nice break, but you've got more important things to do.";

/// The title of the screen `GET_DIARY`.
pub const GET_DIARY_TITLE: &'static str =
    "You poke your head under the beds";

/// The text of the screen `GET_DIARY`.
pub const GET_DIARY_TEXT: &'static str =
    "You see a small messy paper book. You take it out and read the title - 'Captain's Diary - Private'";

/// The place of the locked door of the escape pod among `ways`, if it is
/// among them.
pub fn find_locked_door(ways: &Vec<RoomTransition>) -> (r: Option<usize>)
    ensures
        match r {
            Some(j) => j < ways@.len() && ways@[j as int].is_locked_door() && forall|k: int|
                0 <= k < j ==> !ways@[k].is_locked_door(),
            None => forall|k: int| 0 <= k < ways@.len() ==> !ways@[k].is_locked_door(),
        },
{
    let mut j: usize = 0;
    while j < ways.len()
        invariant
            j <= ways@.len(),
            forall|k: int| 0 <= k < j ==> !ways@[k].is_locked_door(),
        decreases ways@.len() - j,
    {
        if let Some(text) = ways[j].prompt_text {
            if is_same_text(text, ESCAPE_POD_PROMPT) {
                return Some(j);
            }
        }
        j = j + 1;
    }
    None
}

/// Whether `items` holds the maps.
pub open spec fn holds_maps(items: Seq<Item>) -> bool {
    exists|k: int| 0 <= k < items.len() && (#[trigger] items[k]) is Maps
}

/// Tells whether `items` holds the maps.
pub fn has_maps(items: &Vec<Item>) -> (r: bool)
    ensures
        r == holds_maps(items@),
{
    let mut k: usize = 0;
    while k < items.len()
        invariant
            k <= items@.len(),
            forall|j: int| 0 <= j < k ==> !((#[trigger] items@[j]) is Maps),
        decreases items@.len() - k,
    {
        if let Item::Maps = &items[k] {
            return true;
        }
        k = k + 1;
    }
    false
}

/// Whether `after` is `before` with the locked door of the escape pod
/// replaced by the open way into the escape craft, and nothing else changed.
pub open spec fn opens_door(before: RoomState, after: RoomState) -> bool {
    &&& after.room == before.room
    &&& after.items == before.items
    &&& after.enemy == before.enemy
    &&& after.actions == before.actions
    &&& exists|j: int|
        {
            &&& #[trigger] before.locked_door_at(j)
            &&& forall|k: int| 0 <= k < j ==> !before.connections@[k].is_locked_door()
            &&& after.connections@ == before.connections@.update(
                j,
                (RoomTransition {
                    message: OPENED_DOOR_MESSAGE,
                    to: Room::EscapeCraft,
                    prompt_text: None,
                }),
            )
        }
}

/// Replaces the locked door of the escape pod among the ways out of `state`
/// by the open way into the escape craft. A room without that door stays as
/// it is.
pub fn open_door(state: &mut RoomState)
    ensures
        if old(state).has_locked_door() {
            opens_door(*old(state), *final(state))
        } else {
            *final(state) == *old(state)
        },
{
    match find_locked_door(&state.connections) {
        Some(j) => {
            state.connections[j] = RoomTransition {
                message: OPENED_DOOR_MESSAGE,
                to: Room::EscapeCraft,
                prompt_text: None,
            };
            assert(old(state).locked_door_at(j as int));
        },
        None => {
            assert forall|j: int| !old(state).locked_door_at(j) by {}
        },
    }
}

impl RoomAction {
    /// How the action is offered to the player, as a specification.
    pub open spec fn description(&self) -> &'static str {
        match self {
            RoomAction::StrategyRoomTakeMaps => "Take the drive from the computer",
            RoomAction::EngineRoomTakeKeys => "Check out the cabinet in the corner",
            RoomAction::EscapePodTakeOff => "Take off",
            RoomAction::StoreRoomFindChocolate => "Search the tops of the shelves",
            RoomAction::CellsClimbIntoVents => "Climb into the air vent",
            RoomAction::BridgeHackTheMainframe => "Hack the mainframe",
            RoomAction::MessHallWatchTheGame => "Watch the game",
            RoomAction::BunksGetDiary => "Search underneath the beds",
        }
    }

    /// Whether the action adds `item` to the player's inventory.
    pub open spec fn finds(&self, item: Item) -> bool {
        match self {
            RoomAction::StrategyRoomTakeMaps => item is Maps,
            RoomAction::EngineRoomTakeKeys => item is EscapePodKeys,
            RoomAction::StoreRoomFindChocolate => food::is_bar_of_chocolate(item),
            RoomAction::CellsClimbIntoVents => item is Dust,
            RoomAction::BridgeHackTheMainframe => item is Shame,
            RoomAction::BunksGetDiary => item == Item::CaptainsDiary(0),
            _ => false,
        }
    }

    /// Whether the action adds anything to the player's inventory: all do
    /// but taking off and watching the game.
    pub open spec fn finds_something(&self) -> bool {
        !(self is EscapePodTakeOff) && !(self is MessHallWatchTheGame)
    }

    /// Whether the action stays on offer after the player, who holds
    /// `items`, has taken it: trying the vents and the mainframe can be
    /// repeated, and so can a take-off that fails for want of the maps.
    pub open spec fn stays(&self, items: Seq<Item>) -> bool {
        match self {
            RoomAction::EscapePodTakeOff => !holds_maps(items),
            RoomAction::CellsClimbIntoVents => true,
            RoomAction::BridgeHackTheMainframe => true,
            _ => false,
        }
    }

    /// The title of the screen that tells of the action when it is taken by
    /// a player who holds `items`.
    pub open spec fn told_title(&self, items: Seq<Item>) -> &'static str {
        match self {
            RoomAction::StrategyRoomTakeMaps => TAKE_MAPS_TITLE,
            RoomAction::EngineRoomTakeKeys => TAKE_KEYS_TITLE,
            RoomAction::EscapePodTakeOff => if holds_maps(items) {
                TAKE_OFF_TITLE
            } else {
                TAKE_OFF_REFUSED_TITLE
            },
            RoomAction::StoreRoomFindChocolate => FIND_CHOCOLATE_TITLE,
            RoomAction::CellsClimbIntoVents => CLIMB_INTO_VENTS_TITLE,
            RoomAction::BridgeHackTheMainframe => HACK_THE_MAINFRAME_TITLE,
            RoomAction::MessHallWatchTheGame => WATCH_THE_GAME_TITLE,
            RoomAction::BunksGetDiary => GET_DIARY_TITLE,
        }
    }

    /// The text of the screen that tells of the action when it is taken by a
    /// player who holds `items`.
    pub open spec fn told_text(&self, items: Seq<Item>) -> &'static str {
        match self {
            RoomAction::StrategyRoomTakeMaps => TAKE_MAPS_TEXT,
            RoomAction::EngineRoomTakeKeys => TAKE_KEYS_TEXT,
            RoomAction::EscapePodTakeOff => if holds_maps(items) {
                TAKE_OFF_TEXT
            } else {
                TAKE_OFF_REFUSED_TEXT
            },
            RoomAction::StoreRoomFindChocolate => FIND_CHOCOLATE_TEXT,
            RoomAction::CellsClimbIntoVents => CLIMB_INTO_VENTS_TEXT,
            RoomAction::BridgeHackTheMainframe => HACK_THE_MAINFRAME_TEXT,
            RoomAction::MessHallWatchTheGame => WATCH_THE_GAME_TEXT,
            RoomAction::BunksGetDiary => GET_DIARY_TEXT,
        }
    }

    /// Gets the text which is shown to the player when they are picking an
    /// action
    #[verifier::when_used_as_spec(description)]
    pub fn get_description(&self) -> (r: &'static str)
        ensures
            r == self.description(),
    {
        match self {
            RoomAction::StrategyRoomTakeMaps => "Take the drive from the computer",
            RoomAction::EngineRoomTakeKeys => "Check out the cabinet in the corner",
            RoomAction::EscapePodTakeOff => "Take off",
            RoomAction::StoreRoomFindChocolate => "Search the tops of the shelves",
            RoomAction::CellsClimbIntoVents => "Climb into the air vent",
            RoomAction::BridgeHackTheMainframe => "Hack the mainframe",
            RoomAction::MessHallWatchTheGame => "Watch the game",
            RoomAction::BunksGetDiary => "Search underneath the beds",
        }
    }

    /// Runs the action: the player finds what the action has to find, the
    /// keys open the door of the escape pod, and taking off with the maps
    /// ends the game. The result holds the screen that tells of it.
    pub fn execute(&self, player: &mut Player) -> (r: RoomActionResult<'static>)
        requires
            old(player).room_graph.wf(),
        ensures
            r.message matches Some(screen) && screen.title == self.told_title(
                old(player).inventory@,
            ) && screen.content == self.told_text(old(player).inventory@),
            r.show_again == self.stays(old(player).inventory@),
            if self.finds_something() {
                &&& final(player).inventory@.len() == old(player).inventory@.len() + 1
                &&& final(player).inventory@.drop_last() == old(player).inventory@
                &&& self.finds(final(player).inventory@.last())
            } else {
                final(player).inventory@ == old(player).inventory@
            },
            final(player).room == if *self is EscapePodTakeOff && holds_maps(
                old(player).inventory@,
            ) {
                Room::Escape
            } else {
                old(player).room
            },
            final(player).health == old(player).health,
            final(player).max_health == old(player).max_health,
            final(player).remaining_turns == old(player).remaining_turns,
            final(player).room_graph.wf(),
            !(*self is EngineRoomTakeKeys) ==> final(player).room_graph == old(player).room_graph,
            *self is EngineRoomTakeKeys ==> (if old(player).room_graph.state(
                Room::CrewArea,
            ).has_locked_door() {
                opens_door(
                    old(player).room_graph.state(Room::CrewArea),
                    final(player).room_graph.state(Room::CrewArea),
                )
            } else {
                final(player).room_graph.state(Room::CrewArea) == old(player).room_graph.state(
                    Room::CrewArea,
                )
            }) && forall|i: int|
                0 <= i < old(player).room_graph.rooms@.len() && i != Room::CrewArea.index()
                    ==> final(player).room_graph.rooms@[i] == old(player).room_graph.rooms@[i],
    {
        match self {
            RoomAction::StrategyRoomTakeMaps => {
                player.pick_up_item(Item::Maps);
                RoomActionResult::new(
                    Some(Screen { title: TAKE_MAPS_TITLE, content: TAKE_MAPS_TEXT }),
                    false,
                )
            },
            RoomAction::EngineRoomTakeKeys => {
                let crew_area = player.room_graph.get_state_mut(Room::CrewArea);
                open_door(crew_area);
                player.pick_up_item(Item::EscapePodKeys);
                RoomActionResult::new(
                    Some(Screen { title: TAKE_KEYS_TITLE, content: TAKE_KEYS_TEXT }),
                    false,
                )
            },
            RoomAction::EscapePodTakeOff => {
                if !has_maps(&player.inventory) {
                    return RoomActionResult::new(
                        Some(Screen { title: TAKE_OFF_REFUSED_TITLE, content: TAKE_OFF_REFUSED_TEXT }),
                        true,
                    );
                }
                player.room = Room::Escape;
                RoomActionResult::new(
                    Some(Screen { title: TAKE_OFF_TITLE, content: TAKE_OFF_TEXT }),
                    false,
                )
            },
            RoomAction::StoreRoomFindChocolate => {
                player.pick_up_item(food::bar_of_chocolate());
                RoomActionResult::new(
                    Some(Screen { title: FIND_CHOCOLATE_TITLE, content: FIND_CHOCOLATE_TEXT }),
                    false,
                )
            },
            RoomAction::CellsClimbIntoVents => {
                player.pick_up_item(Item::Dust);
                RoomActionResult::new(
                    Some(Screen { title: CLIMB_INTO_VENTS_TITLE, content: CLIMB_INTO_VENTS_TEXT }),
                    true,
                )
            },
            RoomAction::BridgeHackTheMainframe => {
                player.pick_up_item(Item::Shame);
                RoomActionResult::new(
                    Some(
                        Screen { title: HACK_THE_MAINFRAME_TITLE, content: HACK_THE_MAINFRAME_TEXT },
                    ),
                    true,
                )
            },
            RoomAction::MessHallWatchTheGame => {
                RoomActionResult::new(
                    Some(Screen { title: WATCH_THE_GAME_TITLE, content: WATCH_THE_GAME_TEXT }),
                    false,
                )
            },
            RoomAction::BunksGetDiary => {
                player.pick_up_item(Item::CaptainsDiary(0));
                RoomActionResult::new(
                    Some(Screen { title: GET_DIARY_TITLE, content: GET_DIARY_TEXT }),
                    false,
                )
            },
        }
    }
}

} // verus!
