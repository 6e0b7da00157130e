//! Physics and match-state engine of a two-player hockey game.
//!
//! Two skaters, two goalies and a puck move on a rink. The engine advances
//! them at a throttled tick rate, resolves their collisions, decides who
//! holds the puck, counts goals, and leads the match through its states:
//! countdown, play, the pause after a goal, and the end.
//!
//! All quantities are fixed-point numbers (see [`units`]): the engine
//! computes in whole steps, a million to the playfield unit, and rounds
//! toward zero. Time comes in as milliseconds.
//!
//! The engine does no input or output of its own. It takes decoded key
//! presses ([`game::Game::handle_input`]) and the time
//! ([`game::Game::update_at`]), and offers what a renderer needs through
//! accessors and through [`display`].

pub mod body;
pub mod display;
pub mod field;
pub mod game;
pub mod goalie;
pub mod input;
pub mod lobby;
pub mod orientation;
pub mod player;
pub mod puck;
pub mod rect;
pub mod types;
pub mod units;
