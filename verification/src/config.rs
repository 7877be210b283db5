//! Configuration constants for the game

use vstd::prelude::*;
use crate::rooms::Room;

verus! {

/// How much health the player starts with
pub const PLAYER_START_HEALTH: usize = 10;

/// What the player's max health is at the start of the game
pub const PLAYER_START_MAX_HEALTH: usize = 10;

/// The maximum number of turns the player can take before the loop resets
pub const MAX_TURNS: usize = 30;

/// Which room the player starts in
pub const STARTING_ROOM: Room = Room::Cells;

} // verus!
