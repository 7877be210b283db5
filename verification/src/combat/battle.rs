//! A battle from the first sight of the enemy to its end.

use vstd::prelude::*;
use crate::combat::turn::{enemy_after, execute_actions, player_after, turn_text};
use crate::combat::{Action, BattleResult, Enemy};
use crate::items::{item_lines, push_item_lines, Item};
use crate::menu::{Error, Menu, Screen};
use crate::numerals::decimal;
use crate::player::{combat_choice, Player};

verus! {

/// The title of the screen that opens a battle.
pub open spec fn sighting_title(enemy: Enemy) -> Seq<char> {
    "You are spotted by "@ + enemy.name@
}

/// The text of the screen that opens a battle.
pub open spec fn sighting_text(enemy: Enemy) -> Seq<char> {
    "The "@ + enemy.description@ + " sees you and blocks your path."@
}

/// What is shown after a turn: what was told of the turn, then the health of
/// both combatants.
pub open spec fn summary_text(told: Seq<char>, player: Player, enemy: Enemy) -> Seq<char> {
    told + "\nYou are now at "@ + decimal(player.health@) + "/"@ + decimal(player.max_health@)
        + " HP.\nThe "@ + enemy.name@ + " is now at "@ + decimal(enemy.health@) + "/"@ + decimal(
        enemy.max_health@,
    ) + " HP"@
}

/// Whether a battle is over, and how. The player's health is looked at
/// first: a turn that brings both to zero is a loss.
pub open spec fn verdict(player_health: nat, enemy_health: nat) -> Option<BattleResult> {
    if player_health == 0 {
        Some(BattleResult::PlayerLoss)
    } else if enemy_health == 0 {
        Some(BattleResult::PlayerWin)
    } else {
        None
    }
}

/// What is shown when the player has won: that they won and, if the enemy
/// still carried anything, the list of what they pick up.
pub open spec fn spoils_text(enemy: Enemy) -> Seq<char> {
    "You won the battle!\n\n"@ + (if enemy.inventory@.len() > 0 {
        "You pick up the items that the "@ + enemy.name@ + " was carrying:\n"@
    } else {
        Seq::empty()
    }) + item_lines(enemy.inventory@, enemy.inventory@.len() as int)
}

/// What came of one turn of a battle.
pub struct TurnReport {
    /// What the enemy chose to do
    pub enemy_action: Action,
    /// What is shown to the player after the turn
    pub summary: String,
    /// How the battle ended, if the turn ended it
    pub result: Option<BattleResult>,
}

/// The title and the text of the screen that opens a battle.
pub fn sighting(enemy: &Enemy) -> (r: (String, String))
    ensures
        r.0@ == sighting_title(*enemy),
        r.1@ == sighting_text(*enemy),
{
    (
        String::from_str("You are spotted by ").concat(enemy.name),
        String::from_str("The ").concat(enemy.description).concat(
            " sees you and blocks your path.",
        ),
    )
}

/// What is shown after a turn of which `told` was told.
pub fn turn_summary(told: String, player: &Player, enemy: &Enemy) -> (r: String)
    ensures
        r@ == summary_text(told@, *player, *enemy),
{
    told.concat("\nYou are now at ").concat(player.health.to_string().as_str()).concat("/").concat(
        player.max_health.to_string().as_str(),
    ).concat(" HP.\nThe ").concat(enemy.name).concat(" is now at ").concat(
        enemy.health.to_string().as_str(),
    ).concat("/").concat(enemy.max_health.to_string().as_str()).concat(" HP")
}

/// Whether the battle is over, and how.
pub fn judge(player: &Player, enemy: &Enemy) -> (r: Option<BattleResult>)
    ensures
        r == verdict(player.health@, enemy.health@),
{
    if player.health.is_0() {
        Some(BattleResult::PlayerLoss)
    } else if enemy.health.is_0() {
        Some(BattleResult::PlayerWin)
    } else {
        None
    }
}

/// Plays the turn `turn_number` of a battle for the action that the player
/// chose: the enemy chooses its own, both are carried out, and the report
/// says what to show and whether the battle is over.
pub fn battle_turn(
    player: &mut Player,
    enemy: &mut Enemy,
    turn_number: usize,
    player_action: Action,
) -> (report: TurnReport)
    requires
        old(player).health@ <= old(player).max_health@,
        old(enemy).wf(),
        player_action.valid_for(old(player).inventory@),
    ensures
        report.enemy_action == old(enemy).choice(turn_number),
        final(player).fighter() == player_after(
            old(player).fighter(),
            old(enemy).fighter(),
            player_action,
            report.enemy_action,
        ),
        final(enemy).fighter() == enemy_after(
            old(player).fighter(),
            old(enemy).fighter(),
            player_action,
            report.enemy_action,
        ),
        report.summary@ == summary_text(
            turn_text(*old(player), *old(enemy), player_action, report.enemy_action),
            *final(player),
            *final(enemy),
        ),
        report.result == verdict(final(player).health@, final(enemy).health@),
        final(player).health@ <= final(player).max_health@,
        final(enemy).wf(),
        final(player).max_health == old(player).max_health,
        final(enemy).max_health == old(enemy).max_health,
        final(player).room == old(player).room,
        final(player).remaining_turns == old(player).remaining_turns,
        final(player).room_graph == old(player).room_graph,
        final(enemy).name == old(enemy).name,
        final(enemy).description == old(enemy).description,
{
    let enemy_action = enemy.choose_combat_action(turn_number);
    let told = execute_actions(player, enemy, player_action, enemy_action);
    let summary = turn_summary(told, player, enemy);
    TurnReport { enemy_action, summary, result: judge(player, enemy) }
}

/// What is shown when the player has won against `enemy`.
pub fn spoils(enemy: &Enemy) -> (r: String)
    ensures
        r@ == spoils_text(*enemy),
{
    let mut text = String::from_str("You won the battle!\n\n");
    if !enemy.inventory.is_empty() {
        text.append("You pick up the items that the ");
        text.append(enemy.name);
        text.append(" was carrying:\n");
    }
    assert(text@ =~= "You won the battle!\n\n"@ + (if enemy.inventory@.len() > 0 {
        "You pick up the items that the "@ + enemy.name@ + " was carrying:\n"@
    } else {
        Seq::empty()
    }));
    push_item_lines(&mut text, &enemy.inventory);
    text
}

/// The answer of a front end that lies behind a result: that all went well,
/// or the failure that was handed on.
pub open spec fn answer_behind<T>(r: Result<T, Error>) -> Result<(), Error> {
    match r {
        Ok(_) => Ok(()),
        Err(e) => Err(e),
    }
}

/// Whether the player, `player` then and `player_then` now, has won against
/// `enemy` and was told so through a front end, `before` then and `after`
/// now, with `r` as the outcome: the front end was shown what the player
/// picks up; if it answered that all went well, the player holds what the
/// enemy carried, after what they held; if it failed, the player holds what
/// they held; nothing else about the player has changed; and `r` is the
/// front end's answer.
pub open spec fn spoils_taken<M: Menu>(
    player: Player,
    enemy: Enemy,
    before: M,
    player_then: Player,
    after: M,
    r: Result<(), Error>,
) -> bool {
    &&& M::screen_shown(before, after, "Battle Result"@, spoils_text(enemy), r)
    &&& player_then.inventory@ == if r is Ok {
        player.inventory@ + enemy.inventory@
    } else {
        player.inventory@
    }
    &&& player_then.room == player.room
    &&& player_then.health == player.health
    &&& player_then.max_health == player.max_health
    &&& player_then.remaining_turns == player.remaining_turns
    &&& player_then.room_graph == player.room_graph
}

/// Shows the player a battle win screen and adds the enemy's items to the
/// player's inventory, after those that the player holds.
pub fn win_battle<M: Menu>(player: &mut Player, enemy: Enemy, menu: &mut M) -> (r: Result<
    (),
    Error,
>)
    ensures
        spoils_taken(*old(player), enemy, *old(menu), *final(player), *final(menu), r),
{
    let text = spoils(&enemy);
    let shown = menu.try_show_screen(Screen { title: "Battle Result", content: text.as_str() });
    let ghost answer = shown;
    match shown {
        Ok(()) => {
            let mut carried = enemy;
            player.inventory.append(&mut carried.inventory);
            assert(answer->Ok_0 == ());
            Ok(())
        },
        Err(e) => Err(e),
    }
}

/// Whether one turn of a battle was played in front of the player, who
/// answered `chosen` when asked what to do, with `r` as the outcome. The
/// combatants are `player` and `enemy` before the turn and `player_then` and
/// `enemy_then` after it; the front end is `before` before the turn,
/// `between` once the player has answered, and `after` after the turn.
///
/// The player was asked what to do. If the front end failed at that, nothing
/// has changed and the failure is handed on. Else the enemy chose its own
/// action for the turn `turn_number`, both actions were carried out, and the
/// front end was shown what is told of the turn and how healthy both are;
/// `r` is the failure of the front end at that, or else whether the battle
/// is over and how.
pub open spec fn turn_played_via<M: Menu>(
    player: Player,
    enemy: Enemy,
    turn_number: usize,
    before: M,
    player_then: Player,
    enemy_then: Enemy,
    after: M,
    r: Result<Option<BattleResult>, Error>,
    chosen: Result<Action, Error>,
    between: M,
) -> bool {
    &&& combat_choice(player, before, between, chosen)
    &&& match chosen {
        Ok(action) => {
            let enemy_action = enemy.choice(turn_number);
            &&& player_then.fighter() == player_after(
                player.fighter(),
                enemy.fighter(),
                action,
                enemy_action,
            )
            &&& enemy_then.fighter() == enemy_after(
                player.fighter(),
                enemy.fighter(),
                action,
                enemy_action,
            )
            &&& player_then.room == player.room
            &&& player_then.remaining_turns == player.remaining_turns
            &&& player_then.room_graph == player.room_graph
            &&& enemy_then.name == enemy.name
            &&& enemy_then.description == enemy.description
            &&& M::screen_shown(
                between,
                after,
                "Turn Result"@,
                summary_text(
                    turn_text(player, enemy, action, enemy_action),
                    player_then,
                    enemy_then,
                ),
                answer_behind(r),
            )
            &&& r is Ok ==> r->Ok_0 == verdict(player_then.health@, enemy_then.health@)
        },
        Err(e) => r is Err && r->Err_0 == e && after == between && player_then == player
            && enemy_then == enemy,
    }
}

/// Whether one turn of a battle was played in front of the player, with `r`
/// as the outcome.
#[verifier::opaque]
pub open spec fn turn_played<M: Menu>(
    player: Player,
    enemy: Enemy,
    turn_number: usize,
    before: M,
    player_then: Player,
    enemy_then: Enemy,
    after: M,
    r: Result<Option<BattleResult>, Error>,
) -> bool {
    exists|chosen: Result<Action, Error>, between: M|
        turn_played_via(
            player,
            enemy,
            turn_number,
            before,
            player_then,
            enemy_then,
            after,
            r,
            chosen,
            between,
        )
}

/// Plays one turn of a battle in front of the player: asks for the player's
/// action, plays the turn and shows its summary. Returns how the battle
/// ended, if the turn ended it.
pub fn play_turn<M: Menu>(
    player: &mut Player,
    enemy: &mut Enemy,
    turn_number: usize,
    menu: &mut M,
) -> (r: Result<Option<BattleResult>, Error>)
    requires
        old(player).health@ <= old(player).max_health@,
        old(enemy).wf(),
    ensures
        turn_played(
            *old(player),
            *old(enemy),
            turn_number,
            *old(menu),
            *final(player),
            *final(enemy),
            *final(menu),
            r,
        ),
        final(player).health@ <= final(player).max_health@,
        final(enemy).wf(),
        final(player).max_health == old(player).max_health,
        final(player).room == old(player).room,
        final(player).remaining_turns == old(player).remaining_turns,
        final(player).room_graph == old(player).room_graph,
        final(enemy).name == old(enemy).name,
        final(enemy).description == old(enemy).description,
        r matches Ok(result) ==> result == verdict(final(player).health@, final(enemy).health@),
{
    let chosen = player.choose_combat_action(menu);
    let ghost answer = chosen;
    let ghost between = *menu;
    let player_action = match chosen {
        Ok(action) => action,
        Err(e) => {
            let r = Err(e);
            proof {
                reveal(turn_played);
            }
            assert(turn_played_via(
                *old(player),
                *old(enemy),
                turn_number,
                *old(menu),
                *player,
                *enemy,
                *menu,
                r,
                answer,
                between,
            ));
            return r;
        },
    };
    let report = battle_turn(player, enemy, turn_number, player_action);
    let shown = menu.try_show_screen(
        Screen { title: "Turn Result", content: report.summary.as_str() },
    );
    let ghost shown_answer = shown;
    let r = match shown {
        Ok(()) => {
            assert(shown_answer->Ok_0 == ());
            Ok(report.result)
        },
        Err(e) => Err(e),
    };
    proof {
        reveal(turn_played);
    }
    assert(turn_played_via(
        *old(player),
        *old(enemy),
        turn_number,
        *old(menu),
        *player,
        *enemy,
        *menu,
        r,
        answer,
        between,
    ));
    r
}

/// The number of the turn after the turn `turn_number`: one more, as long as
/// the number can rise at all.
pub open spec fn counted(turn_number: usize) -> usize {
    if turn_number < usize::MAX {
        (turn_number + 1) as usize
    } else {
        turn_number
    }
}

/// A battle between two of its turns: the combatants, the number of the turn
/// to come, and the front end.
pub struct Round<M> {
    /// The player
    pub player: Player,
    /// The enemy
    pub enemy: Enemy,
    /// The number of the turn to come
    pub turn_number: usize,
    /// The front end
    pub menu: M,
}

/// Whether a turn after which the battle goes on leads from `a` to `b`: the
/// turn was played, it did not end the battle, and the number of the turn
/// has risen by one.
pub open spec fn went_on<M: Menu>(a: Round<M>, b: Round<M>) -> bool {
    &&& turn_played(
        a.player,
        a.enemy,
        a.turn_number,
        a.menu,
        b.player,
        b.enemy,
        b.menu,
        Ok::<Option<BattleResult>, Error>(None),
    )
    &&& a.turn_number < usize::MAX
    &&& b.turn_number == a.turn_number + 1
}

/// Whether a turn after which the battle goes on leads from each of
/// `rounds` to the next.
pub open spec fn rounds_follow<M: Menu>(rounds: Seq<Round<M>>) -> bool {
    forall|i: int| 0 <= i < rounds.len() - 1 ==> went_on(#[trigger] rounds[i], rounds[i + 1])
}

/// Whether the turn played from `last` is the last turn of a battle that
/// ends with the player `player_end`, the turn number `turn_end`, the front
/// end `after` and the result `r`. The turn leaves the combatants
/// `player_then` and `enemy_then` and the front end `menu_then`, and its
/// outcome is `outcome`.
///
/// If the turn was lost, or if the front end failed on it, the battle ends as
/// the turn left it, as a loss or with that failure. If the turn was won, the
/// player takes what the enemy carried and is told so; the battle is won
/// unless the front end fails at that. If the turn ended nothing, it is the
/// last one only if the turn number can rise no further, and the battle is
/// lost. The last turn is counted like every other turn that was completed:
/// the turn number is one more than before it, unless the front end failed on
/// the turn or the number can rise no further.
pub open spec fn battle_ended_via<M: Menu>(
    last: Round<M>,
    player_end: Player,
    turn_end: usize,
    after: M,
    r: Result<BattleResult, Error>,
    player_then: Player,
    enemy_then: Enemy,
    menu_then: M,
    outcome: Result<Option<BattleResult>, Error>,
) -> bool {
    &&& turn_played(
        last.player,
        last.enemy,
        last.turn_number,
        last.menu,
        player_then,
        enemy_then,
        menu_then,
        outcome,
    )
    &&& turn_end == if outcome is Ok {
        counted(last.turn_number)
    } else {
        last.turn_number
    }
    &&& match outcome {
        Ok(Some(BattleResult::PlayerWin)) => {
            &&& spoils_taken(
                player_then,
                enemy_then,
                menu_then,
                player_end,
                after,
                answer_behind(r),
            )
            &&& r is Ok ==> r->Ok_0 == BattleResult::PlayerWin
        },
        Ok(Some(BattleResult::PlayerLoss)) => {
            &&& r is Ok && r->Ok_0 == BattleResult::PlayerLoss
            &&& player_end == player_then
            &&& after == menu_then
        },
        Ok(None) => {
            &&& last.turn_number == usize::MAX
            &&& r is Ok && r->Ok_0 == BattleResult::PlayerLoss
            &&& player_end == player_then
            &&& after == menu_then
        },
        Err(e) => {
            &&& r is Err && r->Err_0 == e
            &&& player_end == player_then
            &&& after == menu_then
        },
    }
}

/// Whether a battle between `player` and `enemy` that starts at the turn
/// `turn_number` in front of the front end `before` ends with the player
/// `player_end`, the turn number `turn_end`, the front end `after` and the
/// result `r`, by way of what the other arguments name.
///
/// First the front end is shown that the enemy has spotted the player; its
/// answer is `greeted`, and it is `met` afterwards. If it failed, nothing
/// else has happened and the failure is the result. Else the battle goes
/// through `rounds`, of which the first is the battle as it starts: a turn
/// after which the battle goes on leads from each to the next, and the turn
/// played from the last of them ends the battle.
pub open spec fn battle_fought_via<M: Menu>(
    player: Player,
    enemy: Enemy,
    turn_number: usize,
    before: M,
    player_end: Player,
    turn_end: usize,
    after: M,
    r: Result<BattleResult, Error>,
    greeted: Result<(), Error>,
    met: M,
    rounds: Seq<Round<M>>,
    player_then: Player,
    enemy_then: Enemy,
    menu_then: M,
    outcome: Result<Option<BattleResult>, Error>,
) -> bool {
    &&& M::screen_shown(before, met, sighting_title(enemy), sighting_text(enemy), greeted)
    &&& match greeted {
        Ok(_) => {
            &&& rounds.len() > 0
            &&& rounds[0] == (Round { player, enemy, turn_number, menu: met })
            &&& rounds_follow(rounds)
            &&& battle_ended_via(
                rounds[rounds.len() - 1],
                player_end,
                turn_end,
                after,
                r,
                player_then,
                enemy_then,
                menu_then,
                outcome,
            )
        },
        Err(e) => {
            &&& r is Err && r->Err_0 == e
            &&& player_end == player
            &&& turn_end == turn_number
            &&& after == met
        },
    }
}

/// Whether a battle between `player` and `enemy` that starts at the turn
/// `turn_number` in front of the front end `before` ends with the player
/// `player_end`, the turn number `turn_end`, the front end `after` and the
/// result `r`.
pub open spec fn battle_fought<M: Menu>(
    player: Player,
    enemy: Enemy,
    turn_number: usize,
    before: M,
    player_end: Player,
    turn_end: usize,
    after: M,
    r: Result<BattleResult, Error>,
) -> bool {
    exists|
        greeted: Result<(), Error>,
        met: M,
        rounds: Seq<Round<M>>,
        player_then: Player,
        enemy_then: Enemy,
        menu_then: M,
        outcome: Result<Option<BattleResult>, Error>,
    |
        battle_fought_via(
            player,
            enemy,
            turn_number,
            before,
            player_end,
            turn_end,
            after,
            r,
            greeted,
            met,
            rounds,
            player_then,
            enemy_then,
            menu_then,
            outcome,
        )
}

/// Carries out a battle between the player and the enemy. If the player wins
/// the battle, they pick up what the enemy still carried at its end.
///
/// The turn number is that of the game; each turn of the battle that is
/// completed adds one to it, the last one included. A turn on which the front
/// end fails is not completed. A battle that is not over when the turn number
/// can rise no further ends as a loss.
pub fn battle<M: Menu>(
    player: &mut Player,
    enemy: Enemy,
    turn_number: &mut usize,
    menu: &mut M,
) -> (r: Result<BattleResult, Error>)
    requires
        old(player).health@ <= old(player).max_health@,
        enemy.wf(),
    ensures
        battle_fought(
            *old(player),
            enemy,
            *old(turn_number),
            *old(menu),
            *final(player),
            *final(turn_number),
            *final(menu),
            r,
        ),
        final(player).health@ <= final(player).max_health@,
        final(player).max_health == old(player).max_health,
        final(player).room == old(player).room,
        final(player).remaining_turns == old(player).remaining_turns,
        final(player).room_graph == old(player).room_graph,
        *old(turn_number) <= *final(turn_number),
        r matches Ok(BattleResult::PlayerWin) ==> final(player).health@ > 0,
        r matches Ok(BattleResult::PlayerLoss) ==> final(player).health@ == 0
            || *final(turn_number) == usize::MAX,
{
    let mut foe = enemy;
    let (title, content) = sighting(&foe);
    let greeted = menu.try_show_screen(
        Screen { title: title.as_str(), content: content.as_str() },
    );
    let ghost greeting = greeted;
    let ghost met = *menu;
    match greeted {
        Ok(()) => {
            assert(greeting->Ok_0 == ());
        },
        Err(e) => {
            let r = Err(e);
            assert(battle_fought_via(
                *old(player),
                enemy,
                *old(turn_number),
                *old(menu),
                *player,
                *turn_number,
                *menu,
                r,
                greeting,
                met,
                Seq::empty(),
                *player,
                foe,
                met,
                Ok::<Option<BattleResult>, Error>(None),
            ));
            return r;
        },
    }
    let ghost mut rounds = seq![
        Round { player: *player, enemy: foe, turn_number: *turn_number, menu: *menu },
    ];
    loop
        invariant
            player.health@ <= player.max_health@,
            foe.wf(),
            player.max_health == old(player).max_health,
            player.room == old(player).room,
            player.remaining_turns == old(player).remaining_turns,
            player.room_graph == old(player).room_graph,
            *old(turn_number) <= *turn_number,
            greeting is Ok,
            M::screen_shown(
                *old(menu),
                met,
                sighting_title(enemy),
                sighting_text(enemy),
                greeting,
            ),
            rounds.len() > 0,
            rounds[0] == (Round {
                player: *old(player),
                enemy: enemy,
                turn_number: *old(turn_number),
                menu: met,
            }),
            rounds_follow(rounds),
            rounds[rounds.len() - 1] == (Round {
                player: *player,
                enemy: foe,
                turn_number: *turn_number,
                menu: *menu,
            }),
        decreases usize::MAX - *turn_number,
    {
        let outcome = play_turn(player, &mut foe, *turn_number, menu);
        let ghost turn_outcome = outcome;
        let ghost player_then = *player;
        let ghost enemy_then = foe;
        let ghost menu_then = *menu;
        let ended = match outcome {
            Ok(ended) => ended,
            Err(e) => {
                let r = Err(e);
                assert(battle_fought_via(
                    *old(player),
                    enemy,
                    *old(turn_number),
                    *old(menu),
                    *player,
                    *turn_number,
                    *menu,
                    r,
                    greeting,
                    met,
                    rounds,
                    player_then,
                    enemy_then,
                    menu_then,
                    turn_outcome,
                ));
                return r;
            },
        };
        // the turn is completed, and counted if the number can still rise
        let rises = *turn_number < usize::MAX;
        if rises {
            *turn_number = *turn_number + 1;
        }
        let r = match ended {
            Some(BattleResult::PlayerWin) => {
                let taken = win_battle(player, foe, menu);
                let ghost taking = taken;
                match taken {
                    Ok(()) => {
                        assert(taking->Ok_0 == ());
                        Ok(BattleResult::PlayerWin)
                    },
                    Err(e) => Err(e),
                }
            },
            Some(BattleResult::PlayerLoss) => Ok(BattleResult::PlayerLoss),
            None => {
                if rises {
                    proof {
                        let before = rounds;
                        let next = Round {
                            player: *player,
                            enemy: foe,
                            turn_number: *turn_number,
                            menu: *menu,
                        };
                        rounds = before.push(next);
                        assert(went_on(before[before.len() - 1], next));
                        assert forall|i: int| 0 <= i < rounds.len() - 1 implies went_on(
                            #[trigger] rounds[i],
                            rounds[i + 1],
                        ) by {
                            if i < before.len() - 1 {
                                assert(went_on(before[i], before[i + 1]));
                            }
                        }
                    }
                    continue ;
                }
                Ok(BattleResult::PlayerLoss)
            },
        };
        assert(battle_fought_via(
            *old(player),
            enemy,
            *old(turn_number),
            *old(menu),
            *player,
            *turn_number,
            *menu,
            r,
            greeting,
            met,
            rounds,
            player_then,
            enemy_then,
            menu_then,
            turn_outcome,
        ));
        return r;
    }
}

} // verus!
