//! The player: where they are, what they carry and what they do.

pub mod diary;

use vstd::prelude::*;
use crate::combat::policy::{find_first_food, first_food};
use crate::combat::{heal_increase, Action, Health};
use crate::config::{MAX_TURNS, PLAYER_START_HEALTH, PLAYER_START_MAX_HEALTH, STARTING_ROOM};
use crate::items::{item_lines, push_item_lines, Item};
use crate::map::actions::holds_maps;
use crate::menu::{option_texts, Error, Menu, OptionList, Screen};
use crate::numerals::{decimal, to_decimal};
use crate::rooms::{Room, RoomGraph, RoomState, RoomTransition};
use diary::{page_after, page_text, page_title, read_page};

verus! {

/// The state of the player
#[derive(Debug)]
pub struct Player {
    /// Which [`Room`] the player is in
    pub room: Room,
    /// The player's inventory
    pub inventory: Vec<Item>,
    /// The player's current health
    pub health: Health,
    /// The maximum health the player can reach
    pub max_health: Health,
    /// The number of turns the player has left before the loop resets
    pub remaining_turns: usize,
    /// The current state of the rooms
    pub room_graph: RoomGraph,
}

/// An action the player can take outside of a battle. The index in a variant
/// is a place in the list that the variant speaks of.
#[derive(Debug, Clone, Copy, PartialEq, Eq, Structural)]
pub enum PassiveAction {
    /// Look at the player's own state
    CheckState,
    /// Go through one of the ways out of the current room
    GoToRoom(usize),
    /// Use one of the items in the player's inventory
    UseItem(usize),
    /// Pick up one of the items that lie in the current room
    PickUpItem(usize),
    /// Do one of the things that can be done in the current room
    RoomAction(usize),
}

/// The title of the screen that shows the player's state.
pub const STATE_TITLE: &'static str = "You take a moment to rest and check your body for injuries";

/// The title of the screen that ends the game.
pub const WIN_TITLE: &'static str = "Freedom at long last";

/// What the screen that ends the game tells a player who brought food.
pub const WIN_TEXT_WITH_FOOD: &'static str =
    "Or maybe not so long - it's only been a few minutes, after all. You buckle in for the long ride and allow yourself to relax, finally. You won't get back to New Arnith for a cycle and a half, but at least you brought some food.";

/// What the screen that ends the game tells a player without food.
pub const WIN_TEXT: &'static str =
    "Or maybe not so long - it's only been a few minutes, after all. You buckle in for the long ride and allow yourself to relax, finally.";

/// Whether an item can be used outside of a battle: food can be eaten and the
/// diary can be read.
pub open spec fn usable(item: Item) -> bool {
    item is Food || item is CaptainsDiary
}

/// How the use of a usable item is offered to the player.
pub open spec fn use_text(item: Item) -> Seq<char> {
    match item {
        Item::Food(f) => "Eat your "@ + f.name@,
        _ => "Read the captain's diary"@,
    }
}

/// The uses of the first `n` items of `inventory`, in their order.
pub open spec fn use_options(inventory: Seq<Item>, n: int) -> Seq<PassiveAction>
    decreases n,
{
    if n <= 0 {
        Seq::empty()
    } else if usable(inventory[n - 1]) {
        use_options(inventory, n - 1).push(PassiveAction::UseItem((n - 1) as usize))
    } else {
        use_options(inventory, n - 1)
    }
}

/// How each of [`use_options`] is offered to the player.
pub open spec fn use_option_texts(inventory: Seq<Item>, n: int) -> Seq<Seq<char>>
    decreases n,
{
    if n <= 0 {
        Seq::empty()
    } else if usable(inventory[n - 1]) {
        use_option_texts(inventory, n - 1).push(use_text(inventory[n - 1]))
    } else {
        use_option_texts(inventory, n - 1)
    }
}

/// What the player can do outside of a battle in a room in the state `state`
/// while holding `inventory`: check their own state, then go each way out,
/// pick up each item that lies there, do each thing that can be done there,
/// and use each usable item.
pub open spec fn passive_options(state: RoomState, inventory: Seq<Item>) -> Seq<PassiveAction> {
    seq![PassiveAction::CheckState] + Seq::new(
        state.connections@.len(),
        |j: int| PassiveAction::GoToRoom(j as usize),
    ) + Seq::new(state.items@.len(), |j: int| PassiveAction::PickUpItem(j as usize)) + Seq::new(
        state.actions@.len(),
        |j: int| PassiveAction::RoomAction(j as usize),
    ) + use_options(inventory, inventory.len() as int)
}

/// How each of [`passive_options`] is offered to the player.
pub open spec fn passive_option_texts(state: RoomState, inventory: Seq<Item>) -> Seq<Seq<char>> {
    seq!["Check how you're doing"@] + Seq::new(
        state.connections@.len(),
        |j: int| "Go to the "@ + state.connections@[j].label()@,
    ) + Seq::new(
        state.items@.len(),
        |j: int|
            "Pick up the "@ + state.items@[j].name()@ + " - "@ + state.items@[j].description()@,
    ) + Seq::new(state.actions@.len(), |j: int| state.actions@[j].description()@) + use_option_texts(
        inventory,
        inventory.len() as int,
    )
}

impl PassiveAction {
    /// Whether the action can be taken in a room in the state `state` by one
    /// who holds `inventory`.
    pub open spec fn valid_for(self, state: RoomState, inventory: Seq<Item>) -> bool {
        match self {
            PassiveAction::CheckState => true,
            PassiveAction::GoToRoom(j) => j < state.connections@.len(),
            PassiveAction::PickUpItem(j) => j < state.items@.len(),
            PassiveAction::RoomAction(j) => j < state.actions@.len(),
            PassiveAction::UseItem(i) => i < inventory.len() && usable(inventory[i as int]),
        }
    }
}

/// Each use option names a usable item, and each has its text.
pub proof fn lemma_use_options(inventory: Seq<Item>, n: int)
    requires
        0 <= n <= inventory.len() <= usize::MAX,
    ensures
        use_options(inventory, n).len() == use_option_texts(inventory, n).len(),
        forall|k: int|
            0 <= k < use_options(inventory, n).len() ==> ((#[trigger] use_options(inventory, n)[k])
                matches PassiveAction::UseItem(i) && i < n && usable(inventory[i as int])),
    decreases n,
{
    if n > 0 {
        lemma_use_options(inventory, n - 1);
    }
}

/// Whether `after` is `before` but for the use of the item at place `i`:
/// food was eaten, which heals the player and uses the food up, or the diary
/// was read, which turns its page.
pub open spec fn used_item(before: Player, after: Player, i: usize) -> bool {
    &&& match before.inventory@[i as int] {
        Item::Food(food) => {
            &&& after.health@ == before.health@ + heal_increase(
                before.health@,
                food.heals_for@,
                before.max_health@,
            )
            &&& after.inventory@ == before.inventory@.remove(i as int)
        },
        Item::CaptainsDiary(page) => {
            &&& after.health == before.health
            &&& after.inventory@ == before.inventory@.update(
                i as int,
                Item::CaptainsDiary(page_after(page)),
            )
        },
        _ => false,
    }
    &&& after.health@ <= after.max_health@
    &&& after.max_health == before.max_health
    &&& after.room == before.room
    &&& after.remaining_turns == before.remaining_turns
    &&& after.room_graph == before.room_graph
}

/// The title of the screen that tells of `player` using the item at place
/// `i`.
pub open spec fn use_title(player: Player, i: usize) -> Seq<char> {
    match player.inventory@[i as int] {
        Item::Food(food) => "You ate your "@ + food.name@,
        Item::CaptainsDiary(page) => page_title(page)@,
        _ => Seq::empty(),
    }
}

/// The text of the screen that tells of `player` using the item at place
/// `i`: of food, by how much it healed and how healthy the player is now; of
/// the diary, the page that was read.
pub open spec fn use_story(player: Player, i: usize) -> Seq<char> {
    match player.inventory@[i as int] {
        Item::Food(food) => {
            let gain = heal_increase(player.health@, food.heals_for@, player.max_health@);
            "You are healed by "@ + decimal(gain) + " HP.\nYou are now at "@ + decimal(
                player.health@ + gain,
            ) + "/"@ + decimal(player.max_health@) + " HP."@
        },
        Item::CaptainsDiary(page) => page_text(page)@,
        _ => Seq::empty(),
    }
}

/// Whether `after` is `before` but for the item at place `i` of the room
/// that the player is in, which has gone from the room to the end of the
/// player's inventory.
pub open spec fn picked_up(before: Player, after: Player, i: usize) -> bool {
    &&& after.inventory@ == before.inventory@.push(
        before.room_graph.state(before.room).items@[i as int],
    )
    &&& after.room_graph.state(before.room).items@ == before.room_graph.state(
        before.room,
    ).items@.remove(i as int)
    &&& after.room_graph.wf()
    &&& after.room == before.room
    &&& after.health == before.health
    &&& after.max_health == before.max_health
    &&& after.remaining_turns == before.remaining_turns
}

/// Whether `after` is `before` but for the thing at place `i` of what can be
/// done in the room that the player is in, which was done: the player holds
/// what it found, is where it led, and unless it stays on offer it is gone
/// from the room.
pub open spec fn did_room_action(before: Player, after: Player, i: usize) -> bool {
    let action = before.room_graph.state(before.room).actions@[i as int];
    let offered = before.room_graph.state(before.room).actions@;
    &&& after.room_graph.wf()
    &&& after.health == before.health
    &&& after.max_health == before.max_health
    &&& after.remaining_turns == before.remaining_turns
    &&& after.room_graph.state(before.room).actions@ == if action.stays(before.inventory@) {
        offered
    } else {
        offered.remove(i as int)
    }
    &&& after.room == if action is EscapePodTakeOff && holds_maps(before.inventory@) {
        Room::Escape
    } else {
        before.room
    }
    &&& if action.finds_something() {
        &&& after.inventory@.len() == before.inventory@.len() + 1
        &&& after.inventory@.drop_last() == before.inventory@
        &&& action.finds(after.inventory@.last())
    } else {
        after.inventory@ == before.inventory@
    }
}

/// Whether the player, `before` then and `after` now, has taken `action`
/// outside of a battle in front of a front end, `menu_before` then and
/// `menu_after` now, with `r` as the outcome.
///
/// To check their state changes nothing, and the front end is shown the
/// state. To go a way shows the front end what is told of the way; the player
/// is where it leads unless the front end failed. To use an item and to do
/// what can be done in the room change the player as said there, and the front
/// end is shown what is told of it. To pick up an item shows nothing and
/// cannot fail. Where the front end is shown something, `r` is its answer.
pub open spec fn action_taken<M: Menu>(
    before: Player,
    action: PassiveAction,
    menu_before: M,
    after: Player,
    menu_after: M,
    r: Result<(), Error>,
) -> bool {
    let state = before.room_graph.state(before.room);
    match action {
        PassiveAction::CheckState => {
            &&& after == before
            &&& M::screen_shown(menu_before, menu_after, STATE_TITLE@, state_text(before), r)
        },
        PassiveAction::GoToRoom(j) => {
            let way = state.connections@[j as int];
            &&& M::screen_shown(
                menu_before,
                menu_after,
                transition_title(way),
                transition_text(way),
                r,
            )
            &&& after.room == if r is Ok {
                way.to
            } else {
                before.room
            }
            &&& after.inventory == before.inventory
            &&& after.health == before.health
            &&& after.max_health == before.max_health
            &&& after.remaining_turns == before.remaining_turns
            &&& after.room_graph == before.room_graph
        },
        PassiveAction::UseItem(i) => {
            &&& used_item(before, after, i)
            &&& M::screen_shown(
                menu_before,
                menu_after,
                use_title(before, i),
                use_story(before, i),
                r,
            )
        },
        PassiveAction::PickUpItem(i) => {
            &&& picked_up(before, after, i)
            &&& menu_after == menu_before
            &&& r is Ok
        },
        PassiveAction::RoomAction(i) => {
            &&& did_room_action(before, after, i)
            &&& M::screen_shown(
                menu_before,
                menu_after,
                state.actions@[i as int].told_title(before.inventory@)@,
                state.actions@[i as int].told_text(before.inventory@)@,
                r,
            )
        },
    }
}

/// Whether the player, `before` then and `after` now, has taken one of
/// their turns outside of a battle in front of a front end, `menu_before`
/// then and `menu_after` now, with `r` as the outcome: the turn is gone from
/// those that remain; the player was asked what to do and answered `chosen`,
/// which left the front end `between`; if the front end failed at that,
/// nothing else has happened and the failure is handed on; else what the
/// player chose was taken.
pub open spec fn passive_turn_via<M: Menu>(
    before: Player,
    menu_before: M,
    after: Player,
    menu_after: M,
    r: Result<(), Error>,
    spent: Player,
    chosen: Result<PassiveAction, Error>,
    between: M,
) -> bool {
    &&& spent.remaining_turns == before.remaining_turns - 1
    &&& spent.room == before.room
    &&& spent.inventory == before.inventory
    &&& spent.health == before.health
    &&& spent.max_health == before.max_health
    &&& spent.room_graph == before.room_graph
    &&& passive_choice(spent, menu_before, between, chosen)
    &&& match chosen {
        Ok(action) => action_taken(spent, action, between, after, menu_after, r),
        Err(e) => r is Err && r->Err_0 == e && after == spent && menu_after == between,
    }
}

/// Whether the player, `before` then and `after` now, has taken one of
/// their turns outside of a battle in front of a front end, `menu_before`
/// then and `menu_after` now, with `r` as the outcome.
pub open spec fn passive_turn<M: Menu>(
    before: Player,
    menu_before: M,
    after: Player,
    menu_after: M,
    r: Result<(), Error>,
) -> bool {
    exists|spent: Player, chosen: Result<PassiveAction, Error>, between: M|
        passive_turn_via(before, menu_before, after, menu_after, r, spent, chosen, between)
}

/// What the screen that shows the player's state tells.
pub open spec fn state_text(player: Player) -> Seq<char> {
    "You are in the "@ + player.room.name()@ + " - "@ + player.room.description()@
        + "\nYou are at "@ + decimal(player.health@) + "/"@ + decimal(player.max_health@)
        + " HP\nYou have:\n"@ + item_lines(player.inventory@, player.inventory@.len() as int)
        + "\u{2022} "@ + time_text(player.remaining_turns as nat) + " to get off the ship\n"@
}

/// The title of the screen that tells of going through `transition`.
pub open spec fn transition_title(transition: RoomTransition) -> Seq<char> {
    "You go to the "@ + transition.label()@
}

/// The text of the screen that tells of going through `transition`.
pub open spec fn transition_text(transition: RoomTransition) -> Seq<char> {
    transition.message@ + "\nYou are now in the "@ + transition.to.name()@ + " - "@
        + transition.to.description()@
}

/// The title and the text of the screen that tells of going through
/// `transition`.
pub fn transition_screen(transition: &RoomTransition) -> (r: (String, String))
    ensures
        r.0@ == transition_title(*transition),
        r.1@ == transition_text(*transition),
{
    (
        String::from_str("You go to the ").concat(transition.get_label()),
        String::from_str(transition.message).concat("\nYou are now in the ").concat(
            transition.to.get_name(),
        ).concat(" - ").concat(transition.to.get_description()),
    )
}

/// Prints a screen with the details of a [`RoomTransition`] and the player's
/// new [`Room`]
pub fn print_room_transition<M: Menu>(transition: &RoomTransition, menu: &mut M) -> (r: Result<
    (),
    Error,
>)
    ensures
        M::screen_shown(
            *old(menu),
            *final(menu),
            transition_title(*transition),
            transition_text(*transition),
            r,
        ),
{
    let (title, content) = transition_screen(transition);
    menu.try_show_screen(Screen { title: title.as_str(), content: content.as_str() })
}

/// The title of the screen that describes the room `room`.
pub open spec fn room_title_text(room: Room) -> Seq<char> {
    "You are in the "@ + room.name()@ + "."@
}

/// What the screen that ends the game tells a player who holds `inventory`:
/// it has more to tell a player who brought food.
pub open spec fn win_text(inventory: Seq<Item>) -> &'static str {
    if first_food(inventory) is Some {
        WIN_TEXT_WITH_FOOD
    } else {
        WIN_TEXT
    }
}

/// What a player with `turns` turns left is asked when it is for them to
/// say what they do.
pub open spec fn action_prompt(turns: nat) -> Seq<char> {
    time_text(turns) + " - What do you do?"@
}

/// The ways in which an attack can be aimed, as they are offered.
pub open spec fn directions() -> Seq<Seq<char>> {
    seq!["Attack Left"@, "Attack Straight"@, "Attack Right"@]
}

/// Whether the player was asked through a front end what to do outside of a
/// battle, the front end answered `picked`, and `r` came of it: the front
/// end, `before` then and `after` now, was shown the list of what can be done
/// under the prompt that tells the time left; its answer names what is done,
/// and its failure is handed on.
pub open spec fn passive_choice_via<M: Menu>(
    player: Player,
    before: M,
    after: M,
    r: Result<PassiveAction, Error>,
    picked: Result<usize, Error>,
) -> bool {
    let state = player.room_graph.state(player.room);
    &&& M::list_shown(
        before,
        after,
        passive_option_texts(state, player.inventory@),
        action_prompt(player.remaining_turns as nat),
        picked,
    )
    &&& match picked {
        Ok(choice) => choice < passive_options(state, player.inventory@).len() && r is Ok
            && r->Ok_0 == passive_options(state, player.inventory@)[choice as int],
        Err(e) => r is Err && r->Err_0 == e,
    }
}

/// Whether the player was asked through a front end what to do outside of a
/// battle, and `r` came of it.
pub open spec fn passive_choice<M: Menu>(
    player: Player,
    before: M,
    after: M,
    r: Result<PassiveAction, Error>,
) -> bool {
    exists|picked: Result<usize, Error>| passive_choice_via(player, before, after, r, picked)
}

/// Whether the player was asked through a front end what to do on a turn of
/// a battle, the front end answered `picked` and, where it was asked a
/// second time, `aim`, and `r` came of it. The front end, `before` then and
/// `after` now, was shown the list of what can be done under the prompt that
/// tells the time left. Its answer names what is done. If that is an attack,
/// the front end, `between` by then, was shown the ways to aim, and its
/// second answer aims the attack. A failure of the front end is handed on,
/// and nothing is shown after it.
pub open spec fn combat_choice_via<M: Menu>(
    player: Player,
    before: M,
    after: M,
    r: Result<Action, Error>,
    picked: Result<usize, Error>,
    between: M,
    aim: Result<usize, Error>,
) -> bool {
    let options = combat_options(player.inventory@);
    &&& M::list_shown(
        before,
        between,
        combat_option_texts(player.inventory@),
        action_prompt(player.remaining_turns as nat),
        picked,
    )
    &&& match picked {
        Ok(choice) => choice < options.len() && match options[choice as int] {
            Action::AttackStraight(weapon) => {
                &&& M::list_shown(between, after, directions(), "Which way do you attack?"@, aim)
                &&& match aim {
                    Ok(direction) => direction < 3 && r is Ok && r->Ok_0 == aimed(
                        weapon,
                        direction,
                    ),
                    Err(e) => r is Err && r->Err_0 == e,
                }
            },
            other => after == between && r is Ok && r->Ok_0 == other,
        },
        Err(e) => after == between && r is Err && r->Err_0 == e,
    }
}

/// Whether the player was asked through a front end what to do on a turn of
/// a battle, and `r` came of it.
pub open spec fn combat_choice<M: Menu>(
    player: Player,
    before: M,
    after: M,
    r: Result<Action, Error>,
) -> bool {
    exists|picked: Result<usize, Error>, between: M, aim: Result<usize, Error>|
        combat_choice_via(player, before, after, r, picked, between, aim)
}

/// The time that `turns` turns take, in minutes and seconds at twenty seconds
/// a turn. The seconds are filled up to two digits.
pub open spec fn time_text(turns: nat) -> Seq<char> {
    let seconds = decimal((turns % 3) * 20);
    decimal(turns / 3) + ":"@ + (if seconds.len() < 2 {
        seconds + "0"@
    } else {
        seconds
    })
}

/// What the player can do on a turn of a battle, as far as the first `n`
/// items go: to eat each food and to attack with each weapon, in the order of
/// the inventory.
pub open spec fn item_options(inventory: Seq<Item>, n: int) -> Seq<Action>
    decreases n,
{
    if n <= 0 {
        Seq::empty()
    } else {
        let before = item_options(inventory, n - 1);
        match inventory[n - 1] {
            Item::Food(_) => before.push(Action::EatFood((n - 1) as usize)),
            Item::Weapon(_) => before.push(Action::AttackStraight((n - 1) as usize)),
            _ => before,
        }
    }
}

/// How each of [`item_options`] is offered to the player.
pub open spec fn item_option_texts(inventory: Seq<Item>, n: int) -> Seq<Seq<char>>
    decreases n,
{
    if n <= 0 {
        Seq::empty()
    } else {
        let before = item_option_texts(inventory, n - 1);
        match inventory[n - 1] {
            Item::Food(f) => before.push("Eat your "@ + f.name@),
            Item::Weapon(w) => before.push("Attack with your "@ + w.name@),
            _ => before,
        }
    }
}

/// What the player can do on a turn of a battle: nothing, dodge to either
/// side, and what the items allow.
pub open spec fn combat_options(inventory: Seq<Item>) -> Seq<Action> {
    seq![Action::Nothing, Action::DodgeLeft, Action::DodgeRight] + item_options(
        inventory,
        inventory.len() as int,
    )
}

/// How each of [`combat_options`] is offered to the player.
pub open spec fn combat_option_texts(inventory: Seq<Item>) -> Seq<Seq<char>> {
    seq!["Do nothing"@, "Dodge to the left"@, "Dodge to the right"@] + item_option_texts(
        inventory,
        inventory.len() as int,
    )
}

/// The attack with the weapon at place `weapon` in the direction that the
/// player picked: the first is to the left, the second straight, the third to
/// the right.
pub open spec fn aimed(weapon: usize, direction: usize) -> Action {
    if direction == 0 {
        Action::AttackLeft(weapon)
    } else if direction == 1 {
        Action::AttackStraight(weapon)
    } else {
        Action::AttackRight(weapon)
    }
}

/// Each item option names an item of its kind, and each option has its text.
pub proof fn lemma_item_options(inventory: Seq<Item>, n: int)
    requires
        0 <= n <= inventory.len() <= usize::MAX,
    ensures
        item_options(inventory, n).len() == item_option_texts(inventory, n).len(),
        item_options(inventory, n).len() <= n,
        forall|k: int|
            0 <= k < item_options(inventory, n).len() ==> (#[trigger] item_options(
                inventory,
                n,
            )[k]).valid_for(inventory) && !(item_options(inventory, n)[k] is AttackLeft) && !(
            item_options(inventory, n)[k] is AttackRight),
    decreases n,
{
    if n > 0 {
        lemma_item_options(inventory, n - 1);
    }
}

impl Player {
    /// The player's health is not above its maximum, and every room has its
    /// state.
    pub open spec fn wf(&self) -> bool {
        &&& self.health@ <= self.max_health@
        &&& self.room_graph.wf()
    }

    /// Tells whether the player's health is not above its maximum and every
    /// room has its state.
    pub fn is_wf(&self) -> (r: bool)
        ensures
            r == self.wf(),
    {
        self.health.as_usize() <= self.max_health.as_usize() && self.room_graph.is_wf()
    }

    /// The sentence that tells of the player taking `action`.
    pub open spec fn action_text(&self, action: Action) -> Seq<char> {
        match action {
            Action::AttackLeft(w) => "You attack to the left with your "@
                + self.inventory@[w as int].name()@,
            Action::AttackRight(w) => "You attack to the right with your "@
                + self.inventory@[w as int].name()@,
            Action::AttackStraight(w) => "You attack in front of you with your "@
                + self.inventory@[w as int].name()@,
            Action::EatFood(f) => "You attempt to eat your "@ + self.inventory@[f as int].name()@,
            Action::DodgeLeft => "You dodge to the left"@,
            Action::DodgeRight => "You dodge to the right"@,
            Action::Nothing => "You do nothing"@,
        }
    }

    /// Get a [`String`] describing the player performing a combat action
    pub fn describe_combat_action(&self, action: Action) -> (r: String)
        requires
            action.in_range(self.inventory@),
        ensures
            r@ == self.action_text(action),
    {
        match action {
            Action::AttackLeft(w) => String::from_str("You attack to the left with your ").concat(
                self.inventory[w].get_name(),
            ),
            Action::AttackRight(w) => String::from_str(
                "You attack to the right with your ",
            ).concat(self.inventory[w].get_name()),
            Action::AttackStraight(w) => String::from_str(
                "You attack in front of you with your ",
            ).concat(self.inventory[w].get_name()),
            Action::EatFood(f) => String::from_str("You attempt to eat your ").concat(
                self.inventory[f].get_name(),
            ),
            Action::DodgeLeft => String::from_str("You dodge to the left"),
            Action::DodgeRight => String::from_str("You dodge to the right"),
            Action::Nothing => String::from_str("You do nothing"),
        }
    }

    /// Gets a shared reference to the state of the room that the player is
    /// in
    pub fn get_room_state(&self) -> (r: &RoomState)
        requires
            self.room_graph.wf(),
        ensures
            *r == self.room_graph.state(self.room),
            r.room == self.room,
    {
        self.room_graph.get_state(self.room)
    }

    /// Gets a mutable reference to the state of the room that the player is
    /// in
    pub fn get_room_state_mut(&mut self) -> (r: &mut RoomState)
        requires
            old(self).room_graph.wf(),
        ensures
            *r == old(self).room_graph.state(old(self).room),
            r.room == old(self).room,
            final(self).room_graph.rooms@ == old(self).room_graph.rooms@.update(
                old(self).room.index() as int,
                *final(r),
            ),
            final(self).room == old(self).room,
            final(self).inventory == old(self).inventory,
            final(self).health == old(self).health,
            final(self).max_health == old(self).max_health,
            final(self).remaining_turns == old(self).remaining_turns,
    {
        self.room_graph.get_state_mut(self.room)
    }

    /// The title of the screen that describes the room that the player is
    /// in.
    pub fn room_title(&self) -> (r: String)
        ensures
            r@ == room_title_text(self.room),
    {
        String::from_str("You are in the ").concat(self.room.get_name()).concat(".")
    }

    /// Prints a screen describing the room that the player is in
    pub fn print_room<M: Menu>(&self, menu: &mut M) -> (r: Result<(), Error>)
        ensures
            M::screen_shown(
                *old(menu),
                *final(menu),
                room_title_text(self.room),
                self.room.description()@,
                r,
            ),
    {
        let title = self.room_title();
        menu.try_show_screen(
            Screen { title: title.as_str(), content: self.room.get_description() },
        )
    }

    /// What the screen that shows the player's state tells.
    pub fn describe_state(&self) -> (r: String)
        ensures
            r@ == state_text(*self),
    {
        let mut text = String::from_str("You are in the ").concat(self.room.get_name()).concat(
            " - ",
        ).concat(self.room.get_description()).concat("\nYou are at ").concat(
            self.health.to_string().as_str(),
        ).concat("/").concat(self.max_health.to_string().as_str()).concat(" HP\nYou have:\n");
        push_item_lines(&mut text, &self.inventory);
        text.concat("\u{2022} ").concat(self.get_remaining_time().as_str()).concat(
            " to get off the ship\n",
        )
    }

    /// Prints the player's room, health, inventory and remaining time
    pub fn print_state<M: Menu>(&self, menu: &mut M) -> (r: Result<(), Error>)
        ensures
            M::screen_shown(*old(menu), *final(menu), STATE_TITLE@, state_text(*self), r),
    {
        let text = self.describe_state();
        menu.try_show_screen(Screen { title: STATE_TITLE, content: text.as_str() })
    }

    /// The options outside of a battle and how each is offered.
    pub fn passive_choices(&self) -> (r: (Vec<PassiveAction>, Vec<String>))
        requires
            self.room_graph.wf(),
        ensures
            r.0@ == passive_options(self.room_graph.state(self.room), self.inventory@),
            option_texts(r.1@) == passive_option_texts(
                self.room_graph.state(self.room),
                self.inventory@,
            ),
            r.1@.len() == r.0@.len(),
            r.0@.len() > 0,
            forall|k: int|
                0 <= k < r.1@.len() ==> (#[trigger] r.1@[k])@ == passive_option_texts(
                    self.room_graph.state(self.room),
                    self.inventory@,
                )[k],
            forall|k: int|
                0 <= k < r.0@.len() ==> (#[trigger] r.0@[k]).valid_for(
                    self.room_graph.state(self.room),
                    self.inventory@,
                ),
    {
        let state = self.get_room_state();
        let mut options: Vec<PassiveAction> = Vec::new();
        let mut texts: Vec<String> = Vec::new();
        options.push(PassiveAction::CheckState);
        texts.push(String::from_str("Check how you're doing"));
        let ghost all = passive_options(*state, self.inventory@);
        let ghost all_texts = passive_option_texts(*state, self.inventory@);
        let held = self.inventory.len();
        proof {
            lemma_use_options(self.inventory@, held as int);
        }

        let mut j: usize = 0;
        while j < state.connections.len()
            invariant
                j <= state.connections@.len(),
                options@.len() == 1 + j,
                texts@.len() == options@.len(),
                all == passive_options(*state, self.inventory@),
                all_texts == passive_option_texts(*state, self.inventory@),
                forall|k: int| 0 <= k < options@.len() ==> options@[k] == all[k],
                forall|k: int| 0 <= k < texts@.len() ==> (#[trigger] texts@[k])@ == all_texts[k],
            decreases state.connections@.len() - j,
        {
            options.push(PassiveAction::GoToRoom(j));
            texts.push(String::from_str("Go to the ").concat(state.connections[j].get_label()));
            j = j + 1;
        }
        let ghost base = options@.len();

        let mut j: usize = 0;
        while j < state.items.len()
            invariant
                j <= state.items@.len(),
                base == 1 + state.connections@.len(),
                options@.len() == base + j,
                texts@.len() == options@.len(),
                all == passive_options(*state, self.inventory@),
                all_texts == passive_option_texts(*state, self.inventory@),
                forall|k: int| 0 <= k < options@.len() ==> options@[k] == all[k],
                forall|k: int| 0 <= k < texts@.len() ==> (#[trigger] texts@[k])@ == all_texts[k],
            decreases state.items@.len() - j,
        {
            options.push(PassiveAction::PickUpItem(j));
            texts.push(
                String::from_str("Pick up the ").concat(state.items[j].get_name()).concat(
                    " - ",
                ).concat(state.items[j].get_description()),
            );
            j = j + 1;
        }
        let ghost base = options@.len();

        let mut j: usize = 0;
        while j < state.actions.len()
            invariant
                j <= state.actions@.len(),
                base == 1 + state.connections@.len() + state.items@.len(),
                options@.len() == base + j,
                texts@.len() == options@.len(),
                all == passive_options(*state, self.inventory@),
                all_texts == passive_option_texts(*state, self.inventory@),
                forall|k: int| 0 <= k < options@.len() ==> options@[k] == all[k],
                forall|k: int| 0 <= k < texts@.len() ==> (#[trigger] texts@[k])@ == all_texts[k],
            decreases state.actions@.len() - j,
        {
            options.push(PassiveAction::RoomAction(j));
            texts.push(String::from_str(state.actions[j].get_description()));
            j = j + 1;
        }
        let ghost base = options@.len();

        let mut i: usize = 0;
        while i < self.inventory.len()
            invariant
                i <= self.inventory@.len(),
                base == 1 + state.connections@.len() + state.items@.len() + state.actions@.len(),
                options@.len() == base + use_options(self.inventory@, i as int).len(),
                texts@.len() == options@.len(),
                forall|k: int|
                    0 <= k < base ==> options@[k] == passive_options(*state, self.inventory@)[k],
                forall|k: int|
                    0 <= k < base ==> (#[trigger] texts@[k])@ == passive_option_texts(
                        *state,
                        self.inventory@,
                    )[k],
                forall|k: int|
                    base <= k < options@.len() ==> options@[k] == use_options(
                        self.inventory@,
                        i as int,
                    )[k - base],
                forall|k: int|
                    base <= k < texts@.len() ==> (#[trigger] texts@[k])@ == use_option_texts(
                        self.inventory@,
                        i as int,
                    )[k - base],
            decreases self.inventory@.len() - i,
        {
            proof {
                lemma_use_options(self.inventory@, i as int);
                lemma_use_options(self.inventory@, i + 1);
            }
            match &self.inventory[i] {
                Item::Food(f) => {
                    options.push(PassiveAction::UseItem(i));
                    texts.push(String::from_str("Eat your ").concat(f.name));
                },
                Item::CaptainsDiary(_) => {
                    options.push(PassiveAction::UseItem(i));
                    texts.push(String::from_str("Read the captain's diary"));
                },
                _ => {},
            }
            i = i + 1;
        }
        proof {
            lemma_use_options(self.inventory@, held as int);
        }
        assert(options@ =~= passive_options(*state, self.inventory@));
        assert(option_texts(texts@) =~= passive_option_texts(*state, self.inventory@));
        (options, texts)
    }

    /// Asks the user what to do outside of a battle. Whatever the user
    /// picks, the action is one that the room and the inventory allow.
    pub fn choose_passive_action<M: Menu>(&self, menu: &mut M) -> (r: Result<PassiveAction, Error>)
        requires
            self.room_graph.wf(),
        ensures
            passive_choice(*self, *old(menu), *final(menu), r),
            r matches Ok(action) ==> action.valid_for(
                self.room_graph.state(self.room),
                self.inventory@,
            ),
    {
        let (options, texts) = self.passive_choices();
        let prompt = self.get_remaining_time().concat(" - What do you do?");
        let list = OptionList::new(texts.as_slice(), prompt.as_str());
        let picked = menu.try_show_option_list(list);
        let ghost answer = picked;
        let r = match picked {
            Ok(choice) => Ok(options[choice]),
            Err(e) => Err(e),
        };
        assert(passive_choice_via(*self, *old(menu), *menu, r, answer));
        r
    }

    /// Removes the item at place `i` from the room that the player is in and
    /// adds it to the player's inventory
    pub fn pick_up_item_from_room(&mut self, i: usize)
        requires
            old(self).room_graph.wf(),
            i < old(self).room_graph.state(old(self).room).items@.len(),
        ensures
            picked_up(*old(self), *final(self), i),
    {
        let room_state = self.get_room_state_mut();
        let item = room_state.items.remove(i);
        self.pick_up_item(item);
    }

    /// Uses the item at place `i` of the inventory: food is eaten, which
    /// heals the player and uses the food up, and the diary is read, which
    /// turns its page. Returns the title and the text of the screen that
    /// tells of it.
    pub fn apply_item(&mut self, i: usize) -> (r: (String, String))
        requires
            i < old(self).inventory@.len(),
            usable(old(self).inventory@[i as int]),
            old(self).health@ <= old(self).max_health@,
        ensures
            used_item(*old(self), *final(self), i),
            r.0@ == use_title(*old(self), i),
            r.1@ == use_story(*old(self), i),
    {
        let page = match &self.inventory[i] {
            Item::CaptainsDiary(page) => Some(*page),
            _ => None,
        };
        match page {
            Some(page) => {
                let (screen, next) = read_page(page);
                self.inventory[i] = Item::CaptainsDiary(next);
                (String::from_str(screen.title), String::from_str(screen.content))
            },
            None => {
                let food = crate::combat::turn::take_food(&mut self.inventory, i);
                let gain = self.health.heal_to_max(food.heals_for, self.max_health);
                (
                    String::from_str("You ate your ").concat(food.name),
                    String::from_str("You are healed by ").concat(gain.to_string().as_str()).concat(
                        " HP.\nYou are now at ",
                    ).concat(self.health.to_string().as_str()).concat("/").concat(
                        self.max_health.to_string().as_str(),
                    ).concat(" HP."),
                )
            },
        }
    }

    /// Uses the item at place `i` of the inventory and shows what came of
    /// it.
    pub fn use_item<M: Menu>(&mut self, menu: &mut M, i: usize) -> (r: Result<(), Error>)
        requires
            i < old(self).inventory@.len(),
            usable(old(self).inventory@[i as int]),
            old(self).health@ <= old(self).max_health@,
        ensures
            used_item(*old(self), *final(self), i),
            M::screen_shown(
                *old(menu),
                *final(menu),
                use_title(*old(self), i),
                use_story(*old(self), i),
                r,
            ),
    {
        let (title, content) = self.apply_item(i);
        menu.try_show_screen(Screen { title: title.as_str(), content: content.as_str() })
    }

    /// Does the thing at place `i` of what can be done in the room that the
    /// player is in. Unless it stays on offer, it is gone from the room
    /// afterwards. Returns the screen that tells of it.
    pub fn run_room_action(&mut self, i: usize) -> (r: Option<Screen<'static>>)
        requires
            old(self).room_graph.wf(),
            i < old(self).room_graph.state(old(self).room).actions@.len(),
        ensures
            did_room_action(*old(self), *final(self), i),
            r matches Some(screen) && screen.title == old(self).room_graph.state(
                old(self).room,
            ).actions@[i as int].told_title(old(self).inventory@) && screen.content == old(self).room_graph.state(old(self).room).actions@[i as int].told_text(old(self).inventory@),
    {
        let here = self.room;
        let action = self.get_room_state_mut().actions.remove(i);
        let result = action.execute(self);
        if result.show_again {
            let state = self.room_graph.get_state_mut(here);
            state.actions.insert(i, action);
            assert(state.actions@ =~= old(self).room_graph.state(old(self).room).actions@);
        }
        result.message
    }

    /// Carries out an action outside of a battle and shows what came of it.
    pub fn take_action<M: Menu>(&mut self, action: PassiveAction, menu: &mut M) -> (r: Result<
        (),
        Error,
    >)
        requires
            old(self).wf(),
            action.valid_for(old(self).room_graph.state(old(self).room), old(self).inventory@),
        ensures
            action_taken(*old(self), action, *old(menu), *final(self), *final(menu), r),
            final(self).wf(),
            final(self).remaining_turns == old(self).remaining_turns,
            final(self).max_health == old(self).max_health,
    {
        match action {
            PassiveAction::CheckState => self.print_state(menu),
            PassiveAction::GoToRoom(j) => {
                let transition = &self.get_room_state().connections[j];
                let to = transition.to;
                let shown = print_room_transition(transition, menu);
                if shown.is_ok() {
                    self.room = to;
                }
                shown
            },
            PassiveAction::UseItem(i) => self.use_item(menu, i),
            PassiveAction::PickUpItem(i) => {
                self.pick_up_item_from_room(i);
                Ok(())
            },
            PassiveAction::RoomAction(i) => {
                match self.run_room_action(i) {
                    Some(message) => menu.try_show_screen(message),
                    None => Ok(()),
                }
            },
        }
    }

    /// Gets an action from the user and carries it out. It takes one of the
    /// remaining turns.
    pub fn take_passive_action<M: Menu>(&mut self, menu: &mut M) -> (r: Result<(), Error>)
        requires
            old(self).wf(),
            old(self).remaining_turns > 0,
        ensures
            passive_turn(*old(self), *old(menu), *final(self), *final(menu), r),
            final(self).wf(),
            final(self).remaining_turns == old(self).remaining_turns - 1,
            final(self).max_health == old(self).max_health,
    {
        self.remaining_turns = self.remaining_turns - 1;
        let ghost spent = *self;
        let chosen = self.choose_passive_action(menu);
        let ghost answer = chosen;
        let ghost between = *menu;
        let r = match chosen {
            Ok(action) => self.take_action(action, menu),
            Err(e) => Err(e),
        };
        assert(passive_turn_via(
            *old(self),
            *old(menu),
            *self,
            *menu,
            r,
            spent,
            answer,
            between,
        ));
        r
    }

    /// Whether the player carries food.
    pub fn has_food(&self) -> (r: bool)
        ensures
            r == first_food(self.inventory@) is Some,
    {
        find_first_food(&self.inventory).is_some()
    }

    /// The screen that ends the game: it has more to tell a player who
    /// brought food.
    pub fn win_screen(&self) -> (r: Screen<'static>)
        ensures
            r.title == WIN_TITLE,
            r.content == win_text(self.inventory@),
    {
        if self.has_food() {
            Screen { title: WIN_TITLE, content: WIN_TEXT_WITH_FOOD }
        } else {
            Screen { title: WIN_TITLE, content: WIN_TEXT }
        }
    }

    /// Shows the player a win screen
    pub fn show_win_screen<M: Menu>(&self, menu: &mut M) -> (r: Result<(), Error>)
        ensures
            M::screen_shown(*old(menu), *final(menu), WIN_TITLE@, win_text(self.inventory@)@, r),
    {
        menu.try_show_screen(self.win_screen())
    }

    /// Initialise a new [`Player`]: in the starting room, with nothing, at
    /// full health, with all turns left and every room as it is at the start
    /// of a time loop.
    pub fn init() -> (r: Self)
        ensures
            r.wf(),
            r.room == STARTING_ROOM,
            r.inventory@.len() == 0,
            r.health@ == PLAYER_START_HEALTH,
            r.max_health@ == PLAYER_START_MAX_HEALTH,
            r.remaining_turns == MAX_TURNS,
    {
        Self {
            room: STARTING_ROOM,
            inventory: Vec::new(),
            health: Health::new(PLAYER_START_HEALTH),
            max_health: Health::new(PLAYER_START_MAX_HEALTH),
            remaining_turns: MAX_TURNS,
            room_graph: crate::map::init(),
        }
    }

    /// Add an item to the player's inventory
    pub fn pick_up_item(&mut self, item: Item)
        ensures
            final(self).inventory@ == old(self).inventory@.push(item),
            final(self).room == old(self).room,
            final(self).health == old(self).health,
            final(self).max_health == old(self).max_health,
            final(self).remaining_turns == old(self).remaining_turns,
            final(self).room_graph == old(self).room_graph,
    {
        self.inventory.push(item);
    }

    /// Gets a [`String`] that tells how much time the remaining turns are.
    /// One turn is twenty seconds.
    pub fn get_remaining_time(&self) -> (r: String)
        ensures
            r@ == time_text(self.remaining_turns as nat),
    {
        let mins = self.remaining_turns / 3;
        let secs = self.remaining_turns % 3 * 20;
        let seconds = to_decimal(secs);
        let filled = if secs < 10 {
            proof {
                reveal_with_fuel(decimal, 2);
            }
            seconds.concat("0")
        } else {
            proof {
                reveal_with_fuel(decimal, 2);
            }
            seconds
        };
        to_decimal(mins).concat(":").concat(filled.as_str())
    }

    /// The options of a turn of a battle and how each is offered.
    pub fn combat_choices(&self) -> (r: (Vec<Action>, Vec<String>))
        ensures
            r.0@ == combat_options(self.inventory@),
            option_texts(r.1@) == combat_option_texts(self.inventory@),
            r.1@.len() == r.0@.len(),
            forall|k: int|
                0 <= k < r.1@.len() ==> (#[trigger] r.1@[k])@ == combat_option_texts(
                    self.inventory@,
                )[k],
            forall|k: int| 0 <= k < r.0@.len() ==> (#[trigger] r.0@[k]).valid_for(self.inventory@),
    {
        let mut options: Vec<Action> = Vec::new();
        options.push(Action::Nothing);
        options.push(Action::DodgeLeft);
        options.push(Action::DodgeRight);
        let mut texts: Vec<String> = Vec::new();
        texts.push(String::from_str("Do nothing"));
        texts.push(String::from_str("Dodge to the left"));
        texts.push(String::from_str("Dodge to the right"));
        let ghost fixed = seq![Action::Nothing, Action::DodgeLeft, Action::DodgeRight];
        let ghost fixed_texts = seq!["Do nothing"@, "Dodge to the left"@, "Dodge to the right"@];
        let mut i: usize = 0;
        while i < self.inventory.len()
            invariant
                i <= self.inventory@.len(),
                fixed == seq![Action::Nothing, Action::DodgeLeft, Action::DodgeRight],
                fixed_texts == seq!["Do nothing"@, "Dodge to the left"@, "Dodge to the right"@],
                options@ == fixed + item_options(self.inventory@, i as int),
                texts@.len() == options@.len(),
                forall|k: int|
                    0 <= k < texts@.len() ==> (#[trigger] texts@[k])@ == (fixed_texts
                        + item_option_texts(self.inventory@, i as int))[k],
            decreases self.inventory@.len() - i,
        {
            proof {
                lemma_item_options(self.inventory@, i as int);
                lemma_item_options(self.inventory@, i + 1);
            }
            match &self.inventory[i] {
                Item::Food(f) => {
                    options.push(Action::EatFood(i));
                    texts.push(String::from_str("Eat your ").concat(f.name));
                },
                Item::Weapon(w) => {
                    options.push(Action::AttackStraight(i));
                    texts.push(String::from_str("Attack with your ").concat(w.name));
                },
                _ => {},
            }
            i = i + 1;
        }
        proof {
            lemma_item_options(self.inventory@, self.inventory@.len() as int);
        }
        assert(option_texts(texts@) =~= combat_option_texts(self.inventory@));
        (options, texts)
    }

    /// The action that comes of the player's picks: the option at place
    /// `choice` of `options`, aimed where that option is an attack.
    pub fn action_for_choice(options: &Vec<Action>, choice: usize, direction: usize) -> (r: Action)
        requires
            choice < options@.len(),
        ensures
            r == match options@[choice as int] {
                Action::AttackStraight(weapon) => aimed(weapon, direction),
                other => other,
            },
    {
        match options[choice] {
            Action::AttackStraight(weapon) => {
                if direction == 0 {
                    Action::AttackLeft(weapon)
                } else if direction == 1 {
                    Action::AttackStraight(weapon)
                } else {
                    Action::AttackRight(weapon)
                }
            },
            other => other,
        }
    }

    /// Gets the user to choose a combat action: first what to do, then, for
    /// an attack, which way to aim it. Whatever the user picks, the action
    /// is one that the inventory allows.
    pub fn choose_combat_action<M: Menu>(&self, menu: &mut M) -> (r: Result<Action, Error>)
        ensures
            combat_choice(*self, *old(menu), *final(menu), r),
            r matches Ok(action) ==> action.valid_for(self.inventory@),
    {
        let (options, texts) = self.combat_choices();
        let prompt = self.get_remaining_time().concat(" - What do you do?");
        let list = OptionList::new(texts.as_slice(), prompt.as_str());
        let picked = menu.try_show_option_list(list);
        let ghost answer = picked;
        let ghost between = *menu;
        let choice = match picked {
            Ok(choice) => choice,
            Err(e) => {
                let r = Err(e);
                assert(combat_choice_via(*self, *old(menu), *menu, r, answer, between, answer));
                return r;
            },
        };
        if let Action::AttackStraight(_) = options[choice] {
            let mut directions: Vec<String> = Vec::new();
            directions.push(String::from_str("Attack Left"));
            directions.push(String::from_str("Attack Straight"));
            directions.push(String::from_str("Attack Right"));
            assert(option_texts(directions@) =~= self::directions());
            let list = OptionList::new(directions.as_slice(), "Which way do you attack?");
            let aim = menu.try_show_option_list(list);
            let ghost second = aim;
            let r = match aim {
                Ok(direction) => Ok(Self::action_for_choice(&options, choice, direction)),
                Err(e) => Err(e),
            };
            assert(combat_choice_via(*self, *old(menu), *menu, r, answer, between, second));
            r
        } else {
            let r = Ok(Self::action_for_choice(&options, choice, 1));
            assert(combat_choice_via(*self, *old(menu), *menu, r, answer, between, answer));
            r
        }
    }
}

} // verus!
