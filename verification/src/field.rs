//! The rink: its bounds, the goal mouths, and the constants of the physics.
//! Lengths are in steps, velocities in steps per baseline tick.

use crate::units::UNIT;
use vstd::prelude::*;

verus! {

/// Shortest time between two processed ticks.
pub const MINIMUM_DELTATIME_MILLISECONDS: u128 = 18;

/// Play time of a match.
pub const GAME_DURATION_MILLISECONDS: u128 = 90 * 1000;

/// Countdown before play starts or resumes.
pub const STARTING_DELAY_MILLISECONDS: u128 = 3000;

/// Pause after a goal.
pub const AFTER_GOAL_DELAY_MILLISECONDS: u128 = 2000;

/// Pause after the end of play, before both sessions are closed.
pub const ENDING_DELAY_MILLISECONDS: u128 = 1000;

/// Left edge of the rink.
pub const MIN_X: i64 = 3 * UNIT;

/// Right edge of the rink.
pub const MAX_X: i64 = 157 * UNIT;

/// Upper edge of the rink.
pub const MIN_Y: i64 = 3 * UNIT;

/// Lower edge of the rink.
pub const MAX_Y: i64 = 83 * UNIT;

/// Width of the goal area, the loose hitbox of a goalie, in cells.
pub const GOALIE_AREA_WIDTH: u16 = 8;

/// Height of the goal area in cells.
pub const GOALIE_AREA_HEIGHT: u16 = 26;

/// Upper end of the goal mouth.
pub const GOALIE_AREA_MIN_Y: i64 = 31 * UNIT;

/// Lower end of the goal mouth.
pub const GOALIE_AREA_MAX_Y: i64 = 55 * UNIT;

/// Where the red skater starts.
pub const RED_INITIAL_POSITION: (i64, i64) = (20 * UNIT, 40 * UNIT);

/// Where the blue skater starts.
pub const BLUE_INITIAL_POSITION: (i64, i64) = (132 * UNIT, 40 * UNIT);

pub const PUCK_WIDTH: i64 = 2 * UNIT;

pub const PUCK_HEIGHT: i64 = 2 * UNIT;

pub const GOALIE_WIDTH: i64 = 6 * UNIT;

pub const GOALIE_HEIGHT: i64 = 7 * UNIT;

/// Highest place of a goalie's top.
pub const GOALIE_MIN_Y: i64 = 31 * UNIT;

/// Lowest place of a goalie's top.
pub const GOALIE_MAX_Y: i64 = 48 * UNIT;

/// Offset from a skater's head to the top of its goalie.
pub const GOALIE_HEAD_OFFSET: i64 = 2 * UNIT;

/// Velocity gained by a key press in the direction of motion: 0.2.
pub const ACCELERATION: i64 = 200_000;

/// Velocity lost by a key press against the direction of motion: 0.4.
pub const DECELERATION: i64 = 400_000;

/// Highest speed of a skater: 1.3.
pub const MAX_PLAYER_VELOCITY: i64 = 1_300_000;

/// Highest speed of the puck: 2.2.
pub const MAX_PUCK_VELOCITY: i64 = 2_200_000;

pub const GOALIE_MASS: i64 = 1000;

pub const PLAYER_MASS: i64 = 20;

pub const PUCK_MASS: i64 = 1;

/// Heaviest body that the collision rule is asked to handle.
pub const MAX_MASS: i64 = 1000;

/// Share of its velocity that a skater keeps over a tick, in thousandths:
/// 0.975.
pub const PLAYER_FRICTION_PER_MILLE: i64 = 975;

/// Share of its velocity that the puck keeps over a tick, in thousandths:
/// 0.99.
pub const PUCK_FRICTION_PER_MILLE: i64 = 990;

/// Coefficient of restitution, in tenths: 0.7.
pub const RESTITUTION_TENTHS: i64 = 7;

/// Share of its velocity with which a skater comes back from a wall, in
/// hundredths: 0.25.
pub const WALL_BOUNCING_PER_CENT: i64 = 25;

/// Share of their velocity that skater and puck keep when a shot is
/// charged, in hundredths: 0.85.
pub const CHARGE_DAMPING_PER_CENT: i64 = 85;

/// Number of head positions that the trail keeps.
pub const SKATE_TRACE_LENGTH: usize = 512;

/// Time for which a shot is charged.
pub const SHOOTING_COUNTER_MILLISECONDS: u128 = 350;

/// Baseline ticks after a shot during which the shooter cannot catch the
/// puck: 50, in steps.
pub const AFTER_SHOOTING_COUNTER: i64 = 50 * UNIT;

/// Baseline ticks after losing the puck during which a skater cannot steal
/// it: 50, in steps.
pub const AFTER_GOT_STOLEN_COUNTER: i64 = 50 * UNIT;

/// Change of the aim by one key press while a shot is charged: 0.35.
pub const SHOOTING_DIRECTION_MODIFIER: i64 = 350_000;

/// Speed of a shot whose aim has length one: 3.
pub const SHOOTING_POWER: i64 = 3 * UNIT;

} // verus!
