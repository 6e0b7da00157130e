//! The skater: the body that a participant steers.

use crate::body::Body;
use crate::field::{
    ACCELERATION, AFTER_GOT_STOLEN_COUNTER, AFTER_SHOOTING_COUNTER, BLUE_INITIAL_POSITION,
    CHARGE_DAMPING_PER_CENT, DECELERATION, MAX_PLAYER_VELOCITY, MAX_X, MAX_Y, MIN_X, MIN_Y,
    PLAYER_FRICTION_PER_MILLE, PLAYER_MASS, RED_INITIAL_POSITION, SHOOTING_COUNTER_MILLISECONDS,
    SHOOTING_DIRECTION_MODIFIER, SHOOTING_POWER, WALL_BOUNCING_PER_CENT,
};
use crate::input::KeyCode;
use crate::orientation::{puck_catcher_offset, Orientation};
use crate::rect::Rect;
use crate::types::{multiplied, normalized, GameSide, Vector, Vector2D};
use crate::units::{
    advance, advanced, cap, cap_length, cell, count_down, counted_down, held,
    lemma_cap_keeps_direction, lemma_cap_within, sat, sat_add, sat_sub, scale, scaled, speed_sq,
    to_cell, UNIT,
};
use vstd::prelude::*;

verus! {

/// A skater.
#[derive(Clone, Copy, Debug)]
pub struct Player {
    pub(crate) side: GameSide,
    pub(crate) position: Vector,
    pub(crate) velocity: Vector,
    pub(crate) orientation: Orientation,
    /// The orientation that the skater takes at its next step.
    pub(crate) new_orientation: Option<Orientation>,
    /// The aim of the shot that is being charged.
    pub(crate) shooting_direction: Option<Vector>,
    /// Milliseconds left of the charge; zero when no shot is charged.
    pub(crate) shooting_counter: u128,
    /// Baseline ticks, in steps, before the skater can catch the puck again
    /// after a shot.
    pub(crate) after_shooting_counter: i64,
    /// Baseline ticks, in steps, before the skater can steal the puck after
    /// it lost it.
    pub(crate) after_got_stolen_counter: i64,
}

/// The direction in which a skater that faces `orientation` shoots where it
/// does not aim: one step of the cycle ahead of where it faces, as a vector
/// of whole units.
pub open spec fn shot_cells(orientation: Orientation) -> Vector {
    match orientation {
        Orientation::Up => (UNIT, sat(-UNIT)),
        Orientation::UpLeft => (0, sat(-UNIT)),
        Orientation::Left => (sat(-UNIT), sat(-UNIT)),
        Orientation::DownLeft => (sat(-UNIT), 0),
        Orientation::Down => (sat(-UNIT), UNIT),
        Orientation::DownRight => (0, UNIT),
        Orientation::Right => (UNIT, UNIT),
        Orientation::UpRight => (UNIT, 0),
    }
}

/// The orientation that a key asks a skater to take; `current` for a key
/// that does not steer.
pub open spec fn natural_orientation(key: KeyCode, current: Orientation) -> Orientation {
    match key {
        KeyCode::Up => Orientation::UpLeft,
        KeyCode::Down => Orientation::DownRight,
        KeyCode::Left => Orientation::DownLeft,
        KeyCode::Right => Orientation::UpRight,
        _ => current,
    }
}

/// One component of a velocity after a key press that lowers it: the press
/// brakes where the component is positive, else it accelerates.
pub open spec fn lowered(v: i64) -> i64 {
    if v > 0 {
        sat(v - DECELERATION)
    } else {
        sat(v - ACCELERATION)
    }
}

/// One component of a velocity after a key press that raises it.
pub open spec fn raised(v: i64) -> i64 {
    if v < 0 {
        sat(v + DECELERATION)
    } else {
        sat(v + ACCELERATION)
    }
}

/// The velocity `v` after the key `key` is pressed.
pub open spec fn steered_velocity(v: Vector, key: KeyCode) -> Vector {
    match key {
        KeyCode::Up => (v.0, lowered(v.1)),
        KeyCode::Down => (v.0, raised(v.1)),
        KeyCode::Left => (lowered(v.0), v.1),
        KeyCode::Right => (raised(v.0), v.1),
        _ => v,
    }
}

/// The aim `d` after the key `key` is pressed.
pub open spec fn adjusted_aim(d: Vector, key: KeyCode) -> Vector {
    match key {
        KeyCode::Up => (d.0, sat(d.1 - SHOOTING_DIRECTION_MODIFIER)),
        KeyCode::Down => (d.0, sat(d.1 + SHOOTING_DIRECTION_MODIFIER)),
        KeyCode::Left => (sat(d.0 - SHOOTING_DIRECTION_MODIFIER), d.1),
        KeyCode::Right => (sat(d.0 + SHOOTING_DIRECTION_MODIFIER), d.1),
        _ => d,
    }
}

impl Player {
    /// Where a skater of `side` starts.
    pub open spec fn start(side: GameSide) -> Vector {
        match side {
            GameSide::Red => RED_INITIAL_POSITION,
            GameSide::Blue => BLUE_INITIAL_POSITION,
        }
    }

    /// The way a skater of `side` faces at the start: toward the other goal.
    pub open spec fn facing(side: GameSide) -> Orientation {
        match side {
            GameSide::Red => Orientation::Right,
            GameSide::Blue => Orientation::Left,
        }
    }

    /// The skater as a match starts with it.
    pub open(crate) spec fn initial(side: GameSide) -> Player {
        Player {
            side,
            position: Player::start(side),
            velocity: (0, 0),
            orientation: Player::facing(side),
            new_orientation: None,
            shooting_direction: None,
            shooting_counter: 0,
            after_shooting_counter: 0,
            after_got_stolen_counter: 0,
        }
    }

    pub open(crate) spec fn side_of(self) -> GameSide {
        self.side
    }

    pub open(crate) spec fn orientation_of(self) -> Orientation {
        self.orientation
    }

    pub open(crate) spec fn pending_orientation(self) -> Option<Orientation> {
        self.new_orientation
    }

    pub open(crate) spec fn aim(self) -> Option<Vector> {
        self.shooting_direction
    }

    pub open(crate) spec fn charge_left(self) -> u128 {
        self.shooting_counter
    }

    pub open(crate) spec fn shot_cooldown(self) -> i64 {
        self.after_shooting_counter
    }

    pub open(crate) spec fn steal_cooldown(self) -> i64 {
        self.after_got_stolen_counter
    }

    /// World coordinate of the skater's head.
    pub open(crate) spec fn head(self) -> (int, int) {
        (
            self.position.0 + self.orientation.head_offset().0,
            self.position.1 + self.orientation.head_offset().1,
        )
    }

    /// World coordinate of the point with which the skater catches the puck.
    pub open(crate) spec fn catcher(self) -> Vector {
        (
            sat(self.position.0 + self.orientation.catcher_offset().0),
            sat(self.position.1 + self.orientation.catcher_offset().1),
        )
    }

    /// The skater's invariant: its head is on the rink, and its cooldowns
    /// are not negative.
    pub open(crate) spec fn wf(self) -> bool {
        &&& MIN_X <= self.head().0 <= MAX_X
        &&& MIN_Y <= self.head().1 <= MAX_Y
        &&& 0 <= self.after_shooting_counter
        &&& 0 <= self.after_got_stolen_counter
    }

    /// The rectangle that the skater occupies lies within the rink.
    pub open(crate) spec fn in_field(self) -> bool {
        &&& MIN_X <= self.position.0
        &&& self.position.0 + self.orientation.size().0 <= MAX_X
        &&& MIN_Y <= self.position.1
        &&& self.position.1 + self.orientation.size().1 <= MAX_Y
    }

    /// The skater's speed is within the limit for skaters.
    pub open(crate) spec fn within_speed_limit(self) -> bool {
        speed_sq(self.velocity) <= MAX_PLAYER_VELOCITY * MAX_PLAYER_VELOCITY
    }

    /// The skater turned to face `orientation`, about its head: the position
    /// moves so that the head stays where it is.
    pub open(crate) spec fn rotated(self, orientation: Orientation) -> Player {
        Player {
            orientation,
            new_orientation: None,
            position: (
                (self.head().0 - orientation.head_offset().0) as i64,
                (self.head().1 - orientation.head_offset().1) as i64,
            ),
            ..self
        }
    }

    /// The skater with the velocity `velocity`, shortened to the highest
    /// speed of a skater.
    pub open(crate) spec fn moving(self, velocity: Vector) -> Player {
        Player { velocity: cap(velocity, MAX_PLAYER_VELOCITY), ..self }
    }

    /// The skater after it met the left or the right wall.
    pub open(crate) spec fn bounced_sideways(self) -> Player {
        self.moving(
            (scaled(self.velocity.0 as int, -WALL_BOUNCING_PER_CENT, 100), self.velocity.1),
        )
    }

    /// The skater after it met the upper or the lower wall.
    pub open(crate) spec fn bounced_upright(self) -> Player {
        self.moving(
            (
                scaled(self.velocity.0 as int, -WALL_BOUNCING_PER_CENT, 100),
                scaled(self.velocity.1 as int, -WALL_BOUNCING_PER_CENT, 100),
            ),
        )
    }

    /// The skater asked to move to `position`: it is held within the rink,
    /// and comes back from each wall that held it.
    pub open(crate) spec fn placed(self, position: Vector) -> Player {
        let size = self.orientation.size();
        let sideways = position.0 < MIN_X || position.0 + size.0 > MAX_X;
        let upright = position.1 < MIN_Y || position.1 + size.1 > MAX_Y;
        let first = if sideways {
            self.bounced_sideways()
        } else {
            self
        };
        let second = if upright {
            first.bounced_upright()
        } else {
            first
        };
        Player {
            position: (
                held(position.0, MIN_X as int, MAX_X - size.0),
                held(position.1, MIN_Y as int, MAX_Y - size.1),
            ),
            ..second
        }
    }

    /// The velocity `v` after one tick of friction.
    pub open spec fn slowed(v: Vector) -> Vector {
        (
            scaled(v.0 as int, PLAYER_FRICTION_PER_MILLE as int, 1000),
            scaled(v.1 as int, PLAYER_FRICTION_PER_MILLE as int, 1000),
        )
    }

    /// The skater after `millis` milliseconds: it takes the orientation that
    /// was pending, loses speed to friction, moves, and its cooldowns run.
    pub open(crate) spec fn stepped(self, millis: u64) -> Player {
        let turned = match self.new_orientation {
            Some(orientation) => self.rotated(orientation),
            None => self,
        };
        let slower = turned.moving(Player::slowed(turned.velocity));
        let moved = slower.placed(
            (
                advanced(slower.position.0 as int, slower.velocity.0 as int, millis as int),
                advanced(slower.position.1 as int, slower.velocity.1 as int, millis as int),
            ),
        );
        Player {
            after_shooting_counter: counted_down(moved.after_shooting_counter, millis as int),
            after_got_stolen_counter: counted_down(moved.after_got_stolen_counter, millis as int),
            ..moved
        }
    }

    /// The skater after a key press while it charges a shot: the aim moves.
    /// Where no aim is set, it starts from the skater's velocity.
    pub open(crate) spec fn aimed(self, key: KeyCode) -> Player {
        let from = match self.shooting_direction {
            Some(direction) => direction,
            None => self.velocity,
        };
        Player { shooting_direction: Some(adjusted_aim(from, key)), ..self }
    }

    /// The skater as it starts to charge a shot.
    pub open(crate) spec fn charging(self) -> Player {
        Player {
            shooting_counter: SHOOTING_COUNTER_MILLISECONDS,
            velocity: (
                scaled(self.velocity.0 as int, CHARGE_DAMPING_PER_CENT as int, 100),
                scaled(self.velocity.1 as int, CHARGE_DAMPING_PER_CENT as int, 100),
            ),
            new_orientation: Some(self.orientation.preceding()),
            shooting_direction: Some(normalized(shot_cells(self.orientation))),
            ..self
        }
    }

    /// The skater after a key press that steers it: its velocity changes
    /// and, where it was moving and does not face the way the key asks for,
    /// it is to turn one step that way.
    pub open(crate) spec fn steered(self, key: KeyCode) -> Player {
        let natural = natural_orientation(key, self.orientation);
        Player {
            velocity: steered_velocity(self.velocity, key),
            new_orientation: if self.velocity != (0i64, 0i64) && self.orientation != natural {
                Some(self.orientation.turned_toward(natural))
            } else {
                self.new_orientation
            },
            ..self
        }
    }

    /// The velocity with which the puck leaves the skater's stick: the aim,
    /// or the skater's velocity where there is none, times the power of a
    /// shot.
    pub open(crate) spec fn shot_velocity(self) -> Vector {
        multiplied(
            match self.shooting_direction {
                Some(direction) => direction,
                None => self.velocity,
            },
            SHOOTING_POWER,
        )
    }

    /// The skater after its shot has left.
    pub open(crate) spec fn released(self) -> Player {
        Player {
            shooting_counter: 0,
            after_shooting_counter: AFTER_SHOOTING_COUNTER,
            new_orientation: Some(self.orientation.following()),
            shooting_direction: None,
            ..self
        }
    }

    /// The skater after it lost the puck to the other side: it has to wait
    /// before it can steal.
    pub open(crate) spec fn robbed(self) -> Player {
        Player { after_got_stolen_counter: AFTER_GOT_STOLEN_COUNTER, ..self }
    }

    /// The skater after `millis` more milliseconds of a charge that lasts
    /// longer than that.
    pub open(crate) spec fn charged_on(self, millis: u128) -> Player {
        Player { shooting_counter: (self.shooting_counter - millis) as u128, ..self }
    }

    /// The skater put back to the orientation and the position that it had
    /// before.
    pub open(crate) spec fn sent_back(self, orientation: Orientation, position: Vector) -> Player {
        self.rotated(orientation).placed(position)
    }

    /// World coordinate of the skater's head, as a point.
    pub open(crate) spec fn head_point(self) -> Vector {
        (self.head().0 as i64, self.head().1 as i64)
    }

    /// The skater with no shot being charged.
    pub open(crate) spec fn disarmed(self) -> Player {
        if self.shooting_counter > 0 {
            Player { shooting_counter: 0, shooting_direction: None, ..self }
        } else {
            self
        }
    }

    pub fn new(side: GameSide) -> (r: Player)
        ensures
            r == Player::initial(side),
            r.wf(),
            r.in_field(),
            r.within_speed_limit(),
    {
        let position = match side {
            GameSide::Red => RED_INITIAL_POSITION,
            GameSide::Blue => BLUE_INITIAL_POSITION,
        };
        let orientation = match side {
            GameSide::Red => Orientation::Right,
            GameSide::Blue => Orientation::Left,
        };
        Player {
            side,
            position,
            velocity: (0, 0),
            orientation,
            new_orientation: None,
            shooting_direction: None,
            shooting_counter: 0,
            after_shooting_counter: 0,
            after_got_stolen_counter: 0,
        }
    }

    /// Makes the skater what a new skater of its side is: at its start, at
    /// rest, facing the other goal, with no shot charged and no cooldown
    /// running.
    pub fn reset(&mut self)
        ensures
            *final(self) == Player::initial(old(self).side_of()),
            final(self).wf(),
            final(self).in_field(),
            final(self).within_speed_limit(),
    {
        self.position = match self.side {
            GameSide::Red => RED_INITIAL_POSITION,
            GameSide::Blue => BLUE_INITIAL_POSITION,
        };
        self.velocity = (0, 0);
        self.orientation = match self.side {
            GameSide::Red => Orientation::Right,
            GameSide::Blue => Orientation::Left,
        };
        self.new_orientation = None;
        self.shooting_direction = None;
        self.shooting_counter = 0;
        self.after_shooting_counter = 0;
        self.after_got_stolen_counter = 0;
    }

    pub fn side(&self) -> (r: GameSide)
        ensures
            r == self.side_of(),
    {
        self.side
    }

    pub fn orientation(&self) -> (r: Orientation)
        ensures
            r == self.orientation_of(),
    {
        self.orientation
    }

    /// The orientation that the skater takes at its next step, if it is to
    /// turn.
    pub fn new_orientation(&self) -> (r: Option<Orientation>)
        ensures
            r == self.pending_orientation(),
    {
        self.new_orientation
    }

    /// The aim of the shot that is being charged.
    pub fn shooting_direction(&self) -> (r: Option<Vector>)
        ensures
            r == self.aim(),
    {
        self.shooting_direction
    }

    /// Milliseconds left of the charge; zero when no shot is charged.
    pub fn shooting_counter(&self) -> (r: u128)
        ensures
            r == self.charge_left(),
    {
        self.shooting_counter
    }

    /// What is left of the time after a shot in which the skater cannot
    /// catch the puck.
    pub fn after_shooting_counter(&self) -> (r: i64)
        ensures
            r == self.shot_cooldown(),
    {
        self.after_shooting_counter
    }

    /// What is left of the time after the loss of the puck in which the
    /// skater cannot steal it.
    pub fn after_got_stolen_counter(&self) -> (r: i64)
        ensures
            r == self.steal_cooldown(),
    {
        self.after_got_stolen_counter
    }

    /// World coordinate of the point with which the skater catches the puck.
    pub fn catcher_position(&self) -> (r: Vector)
        ensures
            r == self.catcher(),
    {
        let offset = puck_catcher_offset(self.orientation);
        (sat_add(self.position.0, offset.0), sat_add(self.position.1, offset.1))
    }

    /// Offset from the skater's position to its head.
    pub fn head_position_offset(&self) -> (r: Vector)
        ensures
            r == self.orientation_of().head_offset(),
    {
        match self.orientation {
            Orientation::Up => (4 * UNIT, 3 * UNIT),
            Orientation::UpLeft => (5 * UNIT, 10 * UNIT),
            Orientation::Left => (3 * UNIT, 13 * UNIT),
            Orientation::DownLeft => (10 * UNIT, 7 * UNIT),
            Orientation::Down => (13 * UNIT, 2 * UNIT),
            Orientation::DownRight => (7 * UNIT, 2 * UNIT),
            Orientation::Right => (2 * UNIT, 4 * UNIT),
            Orientation::UpRight => (2 * UNIT, 5 * UNIT),
        }
    }

    /// World coordinate of the skater's head.
    pub fn head_position(&self) -> (r: Vector)
        requires
            self.wf(),
        ensures
            r == self.head_point(),
            r.0 == self.head().0,
            r.1 == self.head().1,
    {
        let offset = self.head_position_offset();
        (self.position.0 + offset.0, self.position.1 + offset.1)
    }

    /// Turns the skater to face `new_orientation`, about its head.
    pub fn rotate(&mut self, new_orientation: Orientation)
        requires
            old(self).wf(),
        ensures
            *final(self) == old(self).rotated(new_orientation),
            final(self).head() == old(self).head(),
            final(self).wf(),
    {
        let previous_head_position = self.head_position();
        self.orientation = new_orientation;
        self.new_orientation = None;
        let offset = self.head_position_offset();
        self.position = (previous_head_position.0 - offset.0, previous_head_position.1 - offset.1);
    }

    /// Moves the aim of the shot that is being charged.
    pub fn adjust_aim(&mut self, key: KeyCode)
        requires
            old(self).wf(),
        ensures
            *final(self) == old(self).aimed(key),
            final(self).wf(),
    {
        let from = match self.shooting_direction {
            Some(direction) => direction,
            None => self.velocity,
        };
        let to = match key {
            KeyCode::Up => (from.0, sat_sub(from.1, SHOOTING_DIRECTION_MODIFIER)),
            KeyCode::Down => (from.0, sat_add(from.1, SHOOTING_DIRECTION_MODIFIER)),
            KeyCode::Left => (sat_sub(from.0, SHOOTING_DIRECTION_MODIFIER), from.1),
            KeyCode::Right => (sat_add(from.0, SHOOTING_DIRECTION_MODIFIER), from.1),
            _ => from,
        };
        self.shooting_direction = Some(to);
    }

    /// Starts to charge a shot: the skater slows down, is to step back one
    /// orientation, and aims one step ahead of where it faces.
    pub fn start_charge(&mut self)
        requires
            old(self).wf(),
        ensures
            *final(self) == old(self).charging(),
            final(self).wf(),
    {
        self.shooting_counter = SHOOTING_COUNTER_MILLISECONDS;
        self.velocity = (
            scale(self.velocity.0, CHARGE_DAMPING_PER_CENT, 100),
            scale(self.velocity.1, CHARGE_DAMPING_PER_CENT, 100),
        );
        self.new_orientation = Some(self.orientation.previous());
        let direction: Vector = match self.orientation {
            Orientation::Up => (UNIT, -UNIT),
            Orientation::UpLeft => (0, -UNIT),
            Orientation::Left => (-UNIT, -UNIT),
            Orientation::DownLeft => (-UNIT, 0),
            Orientation::Down => (-UNIT, UNIT),
            Orientation::DownRight => (0, UNIT),
            Orientation::Right => (UNIT, UNIT),
            Orientation::UpRight => (UNIT, 0),
        };
        self.shooting_direction = Some(direction.normalize());
    }

    /// Steers the skater with a key press.
    pub fn steer(&mut self, key: KeyCode)
        requires
            old(self).wf(),
        ensures
            *final(self) == old(self).steered(key),
            final(self).wf(),
    {
        let was_moving: bool = self.velocity.0 != 0 || self.velocity.1 != 0;
        let natural_orientation = match key {
            KeyCode::Up => {
                if self.velocity.1 > 0 {
                    self.velocity.1 = sat_sub(self.velocity.1, DECELERATION);
                } else {
                    self.velocity.1 = sat_sub(self.velocity.1, ACCELERATION);
                }
                Orientation::UpLeft
            },
            KeyCode::Down => {
                if self.velocity.1 < 0 {
                    self.velocity.1 = sat_add(self.velocity.1, DECELERATION);
                } else {
                    self.velocity.1 = sat_add(self.velocity.1, ACCELERATION);
                }
                Orientation::DownRight
            },
            KeyCode::Left => {
                if self.velocity.0 > 0 {
                    self.velocity.0 = sat_sub(self.velocity.0, DECELERATION);
                } else {
                    self.velocity.0 = sat_sub(self.velocity.0, ACCELERATION);
                }
                Orientation::DownLeft
            },
            KeyCode::Right => {
                if self.velocity.0 < 0 {
                    self.velocity.0 = sat_add(self.velocity.0, DECELERATION);
                } else {
                    self.velocity.0 = sat_add(self.velocity.0, ACCELERATION);
                }
                Orientation::UpRight
            },
            _ => self.orientation,
        };
        if was_moving && self.orientation != natural_orientation {
            self.new_orientation = Some(self.orientation.turn_toward(natural_orientation));
        }
    }

    /// Lets the charged shot go: the charge ends, the cooldown after a shot
    /// starts, and the skater is to step forward one orientation. Returns
    /// the velocity with which the puck leaves.
    pub fn release_shot(&mut self) -> (r: Vector)
        requires
            old(self).wf(),
        ensures
            *final(self) == old(self).released(),
            r == old(self).shot_velocity(),
            final(self).wf(),
    {
        let direction = match self.shooting_direction {
            Some(direction) => direction,
            None => self.velocity,
        };
        self.shooting_counter = 0;
        self.after_shooting_counter = AFTER_SHOOTING_COUNTER;
        self.new_orientation = Some(self.orientation.next());
        self.shooting_direction = None;
        direction.mul(SHOOTING_POWER)
    }

    /// Puts the skater back to the orientation and the position that it had
    /// before.
    pub fn send_back(&mut self, orientation: Orientation, position: Vector)
        requires
            old(self).wf(),
        ensures
            *final(self) == old(self).sent_back(orientation, position),
            final(self).wf(),
            final(self).in_field(),
            old(self).within_speed_limit() ==> final(self).within_speed_limit(),
    {
        self.rotate(orientation);
        self.set_position(position);
    }

    /// Starts the wait after the loss of the puck.
    pub fn rob(&mut self)
        requires
            old(self).wf(),
        ensures
            *final(self) == old(self).robbed(),
            final(self).wf(),
    {
        self.after_got_stolen_counter = AFTER_GOT_STOLEN_COUNTER;
    }

    /// Ends a charge without a shot.
    pub fn disarm(&mut self)
        requires
            old(self).wf(),
        ensures
            *final(self) == old(self).disarmed(),
            final(self).wf(),
    {
        if self.shooting_counter > 0 {
            self.shooting_counter = 0;
            self.shooting_direction = None;
        }
    }
}

/// Whatever velocity a skater is given, its speed is within the limit for
/// skaters afterwards: the velocity is shortened, never cut off along one
/// axis.
pub proof fn lemma_skater_speed_capped()
    ensures
        forall|player: Player, velocity: Vector| #[trigger]
            player.moving(velocity).within_speed_limit(),
{
    assert forall|player: Player, velocity: Vector| #[trigger]
        player.moving(velocity).within_speed_limit() by {
        lemma_cap_within(velocity, MAX_PLAYER_VELOCITY);
    }
}

/// Turning a skater leaves its head where it is.
pub proof fn lemma_rotation_keeps_head(player: Player, orientation: Orientation)
    requires
        player.wf(),
    ensures
        player.rotated(orientation).head() == player.head(),
        player.rotated(orientation).wf(),
{
}

/// Wherever a skater is asked to move, the rectangle that it occupies
/// afterwards lies within the rink.
pub proof fn lemma_skater_held_in_rink(player: Player, position: Vector)
    ensures
        player.placed(position).in_field(),
        player.wf() ==> player.placed(position).wf(),
{
}

/// A skater that a wall holds comes back from it with a quarter of its
/// speed across the wall; the upper and the lower wall scale the speed
/// along them too. A skater that no wall holds keeps its velocity.
pub proof fn lemma_skater_bounces(player: Player, position: Vector)
    requires
        player.within_speed_limit(),
    ensures
        ({
            let size = player.orientation_of().size();
            let sideways = position.0 < MIN_X || position.0 + size.0 > MAX_X;
            let upright = position.1 < MIN_Y || position.1 + size.1 > MAX_Y;
            let v = player.velocity_of();
            let once = scaled(v.0 as int, -WALL_BOUNCING_PER_CENT, 100);
            let twice = scaled(once as int, -WALL_BOUNCING_PER_CENT, 100);
            player.placed(position).velocity_of() == if sideways && upright {
                (twice, scaled(v.1 as int, -WALL_BOUNCING_PER_CENT, 100))
            } else if sideways {
                (once, v.1)
            } else if upright {
                (once, scaled(v.1 as int, -WALL_BOUNCING_PER_CENT, 100))
            } else {
                v
            }
        }),
        player.placed(position).within_speed_limit(),
{
    let v = player.velocity;
    let once = scaled(v.0 as int, -WALL_BOUNCING_PER_CENT, 100);
    let twice = scaled(once as int, -WALL_BOUNCING_PER_CENT, 100);
    let up = scaled(v.1 as int, -WALL_BOUNCING_PER_CENT, 100);
    lemma_quarter(v.0);
    lemma_quarter(once);
    lemma_quarter(v.1);
    assert(MAX_PLAYER_VELOCITY * MAX_PLAYER_VELOCITY == 1_690_000_000_000) by (nonlinear_arith)
        requires
            MAX_PLAYER_VELOCITY == 1_300_000,
    ;
    assert(v.0 * v.0 >= 0 && v.1 * v.1 >= 0 && once * once >= 0) by (nonlinear_arith);
    lemma_cap_keeps_direction((once, v.1), MAX_PLAYER_VELOCITY);
    lemma_cap_keeps_direction((once, up), MAX_PLAYER_VELOCITY);
    lemma_cap_keeps_direction((twice, up), MAX_PLAYER_VELOCITY);
}

/// A quarter of a number, turned round, has no larger a square.
proof fn lemma_quarter(v: i64)
    ensures
        ({
            let q = scaled(v as int, -WALL_BOUNCING_PER_CENT, 100);
            q * q <= v * v
        }),
{
    let q = scaled(v as int, -WALL_BOUNCING_PER_CENT, 100);
    let a: int = if v >= 0 {
        v as int
    } else {
        -(v as int)
    };
    assert(v * (-25) == -(25 * v));
    if v >= 0 {
        assert(q == -((25 * a) / 100));
    } else {
        assert(q == (25 * a) / 100);
    }
    let m = (25 * a) / 100;
    assert(0 <= m <= a);
    assert(q * q == m * m) by (nonlinear_arith)
        requires
            q == m || q == -m,
    ;
    assert(v * v == a * a) by (nonlinear_arith)
        requires
            a == v || a == -v,
    ;
    assert(m * m <= a * a) by (nonlinear_arith)
        requires
            0 <= m <= a,
    ;
}

impl Body for Player {
    open(crate) spec fn valid(&self) -> bool {
        self.wf()
    }

    open(crate) spec fn position_of(&self) -> Vector {
        self.position
    }

    open(crate) spec fn velocity_of(&self) -> Vector {
        self.velocity
    }

    open(crate) spec fn size_of(&self) -> Vector {
        self.orientation.size()
    }

    open spec fn mass_of(&self) -> int {
        PLAYER_MASS as int
    }

    /// The cells of the skater's whole footprint.
    open(crate) spec fn full_rect(&self) -> Rect {
        Rect {
            x: cell(self.position.0 as int),
            y: cell(self.position.1 as int),
            width: cell(self.orientation.size().0 as int),
            height: cell(self.orientation.size().1 as int),
        }
    }

    /// The cells of the skater's body, which depend on the way it faces.
    open(crate) spec fn minimal_rect(&self) -> Rect {
        let tight = self.orientation.tight_cells();
        Rect {
            x: (cell(self.position.0 as int) + tight.0) as u16,
            y: (cell(self.position.1 as int) + tight.1) as u16,
            width: tight.2,
            height: tight.3,
        }
    }

    open(crate) spec fn placed_at(&self, position: Vector) -> Self {
        self.placed(position)
    }

    open(crate) spec fn moving_at(&self, velocity: Vector) -> Self {
        self.moving(velocity)
    }

    open(crate) spec fn after(&self, millis: u64) -> Self {
        self.stepped(millis)
    }

    fn position(&self) -> (r: Vector) {
        self.position
    }

    fn set_position(&mut self, position: Vector)
        ensures
            final(self).in_field(),
            old(self).within_speed_limit() ==> final(self).within_speed_limit(),
    {
        let (w, h) = self.size();
        let (mut new_x, mut new_y) = position;
        if new_x < MIN_X {
            new_x = MIN_X;
            self.set_velocity(
                (scale(self.velocity.0, -WALL_BOUNCING_PER_CENT, 100), self.velocity.1),
            );
        } else if new_x > MAX_X - w {
            new_x = MAX_X - w;
            self.set_velocity(
                (scale(self.velocity.0, -WALL_BOUNCING_PER_CENT, 100), self.velocity.1),
            );
        }
        if new_y < MIN_Y {
            new_y = MIN_Y;
            self.set_velocity(
                (
                    scale(self.velocity.0, -WALL_BOUNCING_PER_CENT, 100),
                    scale(self.velocity.1, -WALL_BOUNCING_PER_CENT, 100),
                ),
            );
        } else if new_y > MAX_Y - h {
            new_y = MAX_Y - h;
            self.set_velocity(
                (
                    scale(self.velocity.0, -WALL_BOUNCING_PER_CENT, 100),
                    scale(self.velocity.1, -WALL_BOUNCING_PER_CENT, 100),
                ),
            );
        }
        self.position = (new_x, new_y);
    }

    fn velocity(&self) -> (r: Vector) {
        self.velocity
    }

    fn set_velocity(&mut self, velocity: Vector)
        ensures
            final(self).within_speed_limit(),
    {
        self.velocity = cap_length(velocity, MAX_PLAYER_VELOCITY);
    }

    fn size(&self) -> (r: Vector) {
        match self.orientation {
            Orientation::Up | Orientation::Down => (20 * UNIT, 8 * UNIT),
            Orientation::Left | Orientation::Right => (8 * UNIT, 20 * UNIT),
            _ => (15 * UNIT, 15 * UNIT),
        }
    }

    fn full_collision_rect(&self) -> (r: Rect) {
        let (w, h) = self.size();
        Rect {
            x: to_cell(self.position.0),
            y: to_cell(self.position.1),
            width: to_cell(w),
            height: to_cell(h),
        }
    }

    fn minimal_collision_rect(&self) -> (r: Rect) {
        let x: u16 = to_cell(self.position.0);
        let y: u16 = to_cell(self.position.1);
        match self.orientation {
            Orientation::Up => Rect { x, y, width: 14, height: 8 },
            Orientation::UpLeft => Rect { x, y: y + 5, width: 13, height: 10 },
            Orientation::Left => Rect { x, y: y + 6, width: 8, height: 14 },
            Orientation::DownLeft => Rect { x: x + 5, y: y + 2, width: 10, height: 13 },
            Orientation::Down => Rect { x: x + 6, y, width: 14, height: 8 },
            Orientation::DownRight => Rect { x: x + 2, y, width: 13, height: 10 },
            Orientation::Right => Rect { x, y, width: 8, height: 14 },
            Orientation::UpRight => Rect { x, y, width: 10, height: 13 },
        }
    }

    fn mass(&self) -> (r: i64) {
        PLAYER_MASS
    }

    fn update(&mut self, millis: u64)
        ensures
            final(self).in_field(),
            final(self).within_speed_limit(),
    {
        if let Some(new_orientation) = self.new_orientation {
            self.rotate(new_orientation);
        }
        let (x, y) = self.position();
        let (vx, vy) = self.velocity();
        self.set_velocity(
            (
                scale(vx, PLAYER_FRICTION_PER_MILLE, 1000),
                scale(vy, PLAYER_FRICTION_PER_MILLE, 1000),
            ),
        );
        let (vx, vy) = self.velocity();
        self.set_position((advance(x, vx, millis), advance(y, vy, millis)));
        if self.after_shooting_counter > 0 {
            self.after_shooting_counter = count_down(self.after_shooting_counter, millis);
        }
        if self.after_got_stolen_counter > 0 {
            self.after_got_stolen_counter = count_down(self.after_got_stolen_counter, millis);
        }
    }
}

} // verus!
