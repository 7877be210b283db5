//! A text adventure set on a spaceship caught in a time loop: the combat
//! rules, the enemy's decision policy, the world it is played in, and the
//! layout of the text that a terminal front end shows.

pub mod combat;
pub mod config;
pub mod items;
pub mod map;
pub mod menu;
pub mod numerals;
pub mod player;
pub mod rooms;
pub mod text;
