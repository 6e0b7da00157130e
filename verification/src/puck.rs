//! The puck: who holds it, how it moves, and when it is in a goal.

use crate::body::Body;
use crate::field::{
    GOALIE_AREA_MAX_Y, GOALIE_AREA_MIN_Y, MAX_PLAYER_VELOCITY, MAX_PUCK_VELOCITY, MAX_X, MAX_Y,
    MIN_X, MIN_Y, PUCK_FRICTION_PER_MILLE, PUCK_HEIGHT, PUCK_MASS, PUCK_WIDTH,
};
use crate::player::Player;
use crate::rect::Rect;
use crate::types::{GameSide, Vector};
use crate::units::{
    advance, advanced, cap, cap_length, cell, held, lemma_cap_keeps_direction, lemma_cap_within,
    sat, sat_sub, scale, scaled, speed_sq, to_cell, UNIT,
};
use rand::Rng;
use vstd::prelude::*;

verus! {

/// The puck.
#[derive(Clone, Copy, Debug)]
pub struct Puck {
    pub(crate) position: Vector,
    pub(crate) velocity: Vector,
    /// The side whose skater holds the puck.
    pub(crate) possession: Option<GameSide>,
}

impl Puck {
    /// The puck as it enters the rink: at the middle of the upper wall on its
    /// way down, or at the middle of the lower wall on its way up.
    pub open(crate) spec fn entry(from_top: bool) -> Puck {
        if from_top {
            Puck { position: ((79 * UNIT) as i64, MIN_Y), velocity: (0, UNIT), possession: None }
        } else {
            Puck {
                position: ((79 * UNIT) as i64, MAX_Y),
                velocity: (0, sat(-UNIT)),
                possession: None,
            }
        }
    }

    pub open(crate) spec fn holder(self) -> Option<GameSide> {
        self.possession
    }

    /// The puck's invariant: it is on the rink.
    pub open(crate) spec fn wf(self) -> bool {
        &&& MIN_X <= self.position.0 <= MAX_X - PUCK_WIDTH
        &&& MIN_Y <= self.position.1 <= MAX_Y
    }

    /// The rectangle that the puck occupies lies within the rink.
    pub open(crate) spec fn in_field(self) -> bool {
        &&& MIN_X <= self.position.0
        &&& self.position.0 + PUCK_WIDTH <= MAX_X
        &&& MIN_Y <= self.position.1
        &&& self.position.1 + PUCK_HEIGHT <= MAX_Y
    }

    /// The puck's speed is within the limit for the puck.
    pub open(crate) spec fn within_speed_limit(self) -> bool {
        speed_sq(self.velocity) <= MAX_PUCK_VELOCITY * MAX_PUCK_VELOCITY
    }

    /// The puck is at the height of the goal mouths.
    pub open(crate) spec fn in_goal_band(self) -> bool {
        GOALIE_AREA_MIN_Y <= self.position.1 <= GOALIE_AREA_MAX_Y - PUCK_HEIGHT
    }

    /// The side that has scored with the puck where it is: Blue where the
    /// puck is at the left wall within the goal mouth, Red where it is at
    /// the right wall within the goal mouth.
    pub open(crate) spec fn scorer(self) -> Option<GameSide> {
        if self.position.0 <= MIN_X && self.in_goal_band() {
            Some(GameSide::Blue)
        } else if self.position.0 >= MAX_X - PUCK_WIDTH && self.in_goal_band() {
            Some(GameSide::Red)
        } else {
            None
        }
    }

    /// The puck with the velocity `velocity`, shortened to the highest speed
    /// of the puck.
    pub open(crate) spec fn moving(self, velocity: Vector) -> Puck {
        Puck { velocity: cap(velocity, MAX_PUCK_VELOCITY), ..self }
    }

    /// The puck asked to move to `position`: it is held within the rink,
    /// and the wall that held it turns the velocity across it round.
    pub open(crate) spec fn placed(self, position: Vector) -> Puck {
        let sideways = position.0 < MIN_X || position.0 + PUCK_WIDTH > MAX_X;
        let upright = position.1 < MIN_Y || position.1 + PUCK_HEIGHT > MAX_Y;
        let first = if sideways {
            self.moving((sat(-self.velocity.0), self.velocity.1))
        } else {
            self
        };
        let second = if upright {
            first.moving((first.velocity.0, sat(-first.velocity.1)))
        } else {
            first
        };
        Puck {
            position: (
                held(position.0, MIN_X as int, MAX_X - PUCK_WIDTH),
                held(position.1, MIN_Y as int, MAX_Y - PUCK_HEIGHT),
            ),
            ..second
        }
    }

    /// The velocity `v` after one tick of friction.
    pub open spec fn slowed(v: Vector) -> Vector {
        (
            scaled(v.0 as int, PUCK_FRICTION_PER_MILLE as int, 1000),
            scaled(v.1 as int, PUCK_FRICTION_PER_MILLE as int, 1000),
        )
    }

    /// The puck after `millis` milliseconds on its own.
    pub open(crate) spec fn stepped(self, millis: u64) -> Puck {
        let slower = self.moving(Puck::slowed(self.velocity));
        slower.placed(
            (
                advanced(slower.position.0 as int, slower.velocity.0 as int, millis as int),
                advanced(slower.position.1 as int, slower.velocity.1 as int, millis as int),
            ),
        )
    }

    /// The puck on the stick of `player`: at its catcher point, as far as
    /// the rink allows, and with its velocity.
    pub open(crate) spec fn attached(self, player: Player) -> Puck {
        Puck { velocity: player.velocity, ..self.placed(player.catcher()) }
    }

    /// The puck with `possession` as its holder.
    pub open(crate) spec fn held_by(self, possession: Option<GameSide>) -> Puck {
        Puck { possession, ..self }
    }

    /// The puck with the velocity `velocity` as it is, not shortened.
    pub open(crate) spec fn launched(self, velocity: Vector) -> Puck {
        Puck { velocity, ..self }
    }

    /// The loose hitbox: the puck's cells and two more on each side.
    pub open(crate) spec fn wide_rect(self) -> Rect {
        Rect {
            x: (cell(self.position.0 as int) - 2) as u16,
            y: (cell(self.position.1 as int) - 2) as u16,
            width: (cell(PUCK_WIDTH as int) + 4) as u16,
            height: (cell(PUCK_HEIGHT as int) + 4) as u16,
        }
    }

    /// The tight hitbox: the puck's cells.
    pub open(crate) spec fn tight_rect(self) -> Rect {
        Rect {
            x: cell(self.position.0 as int),
            y: cell(self.position.1 as int),
            width: cell(PUCK_WIDTH as int),
            height: cell(PUCK_HEIGHT as int),
        }
    }

    /// `player` can catch the puck: nobody holds it, the skater's cooldown
    /// after a shot is over, and its catcher point is in the puck's loose
    /// hitbox.
    pub open(crate) spec fn catchable_by(self, player: Player) -> bool {
        &&& self.possession is None
        &&& player.after_shooting_counter == 0
        &&& self.wide_rect().holds(cell(player.catcher().0 as int), cell(player.catcher().1 as int))
    }

    /// `player` can steal the puck: the other side holds it, the skater's
    /// cooldown after a loss of the puck is over, and its catcher point is
    /// in the puck's tight hitbox.
    pub open(crate) spec fn stealable_by(self, player: Player) -> bool {
        &&& self.possession == Some(player.side.opponent())
        &&& player.after_got_stolen_counter == 0
        &&& self.tight_rect().holds(
            cell(player.catcher().0 as int),
            cell(player.catcher().1 as int),
        )
    }

    /// A puck that enters the rink from the upper or from the lower wall, at
    /// random.
    pub fn new() -> (r: Puck)
        ensures
            r == Puck::entry(true) || r == Puck::entry(false),
            r.wf(),
            r.within_speed_limit(),
    {
        let from_top: bool = random_bit() == 0;
        Puck::entering(from_top)
    }

    /// A puck that enters the rink from the upper wall, or from the lower.
    pub fn entering(from_top: bool) -> (r: Puck)
        ensures
            r == Puck::entry(from_top),
            r.wf(),
            r.within_speed_limit(),
    {
        assert(UNIT * UNIT <= MAX_PUCK_VELOCITY * MAX_PUCK_VELOCITY) by (nonlinear_arith)
            requires
                UNIT == 1_000_000,
                MAX_PUCK_VELOCITY == 2_200_000,
        ;
        if from_top {
            Puck { position: (79 * UNIT, MIN_Y), velocity: (0, UNIT), possession: None }
        } else {
            Puck { position: (79 * UNIT, MAX_Y), velocity: (0, -UNIT), possession: None }
        }
    }

    /// The side whose skater holds the puck.
    pub fn possession(&self) -> (r: Option<GameSide>)
        ensures
            r == self.holder(),
    {
        self.possession
    }

    /// Hands the puck to a side, or to nobody.
    pub fn set_possession(&mut self, possession: Option<GameSide>)
        ensures
            *final(self) == old(self).held_by(possession),
            old(self).wf() ==> final(self).wf(),
    {
        self.possession = possession;
    }

    /// Tells which side has scored with the puck where it is.
    pub fn has_scored(&self) -> (r: Option<GameSide>)
        ensures
            r == self.scorer(),
    {
        if self.position.0 <= MIN_X && self.position.1 >= GOALIE_AREA_MIN_Y && self.position.1
            <= GOALIE_AREA_MAX_Y - PUCK_HEIGHT {
            return Some(GameSide::Blue);
        }
        if self.position.0 >= MAX_X - PUCK_WIDTH && self.position.1 >= GOALIE_AREA_MIN_Y
            && self.position.1 <= GOALIE_AREA_MAX_Y - PUCK_HEIGHT {
            return Some(GameSide::Red);
        }
        None
    }

    /// Puts the puck on the stick of `player`.
    pub fn attach_to_player(&mut self, player: &Player)
        requires
            old(self).wf(),
        ensures
            *final(self) == old(self).attached(*player),
            final(self).in_field(),
            final(self).wf(),
    {
        let position = player.catcher_position();
        self.set_position(position);
        self.velocity = player.velocity;
    }

    /// Tells whether `player` can catch the puck.
    pub fn can_be_catched_by_player(&self, player: &Player) -> (r: bool)
        requires
            self.wf(),
        ensures
            r == self.catchable_by(*player),
    {
        let catcher_position = player.catcher_position();
        let x: u16 = to_cell(catcher_position.0);
        let y: u16 = to_cell(catcher_position.1);
        self.possession.is_none() && player.after_shooting_counter == 0
            && self.full_collision_rect().contains(x, y)
    }

    /// Tells whether `player` can steal the puck.
    pub fn can_be_stolen_by_player(&self, player: &Player) -> (r: bool)
        requires
            self.wf(),
        ensures
            r == self.stealable_by(*player),
            r ==> self.holder() == Some(player.side_of().opponent()),
    {
        let catcher_position = player.catcher_position();
        let x: u16 = to_cell(catcher_position.0);
        let y: u16 = to_cell(catcher_position.1);
        let held_by_other: bool = match self.possession {
            Some(side) => side != player.side,
            None => false,
        };
        held_by_other && player.after_got_stolen_counter == 0
            && self.minimal_collision_rect().contains(x, y)
    }
}

/// Whatever velocity the puck is given, its speed is within the limit for
/// the puck afterwards: the velocity is shortened, never cut off along one
/// axis.
pub proof fn lemma_puck_speed_capped()
    ensures
        forall|puck: Puck, velocity: Vector| #[trigger] puck.moving(velocity).within_speed_limit(),
{
    assert forall|puck: Puck, velocity: Vector| #[trigger]
        puck.moving(velocity).within_speed_limit() by {
        lemma_cap_within(velocity, MAX_PUCK_VELOCITY);
    }
}

/// A skater within its speed limit is within that of the puck.
pub(crate) proof fn lemma_skater_slower_than_puck(player: Player)
    ensures
        player.within_speed_limit() ==> speed_sq(player.velocity) <= MAX_PUCK_VELOCITY
            * MAX_PUCK_VELOCITY,
{
    assert(MAX_PLAYER_VELOCITY * MAX_PLAYER_VELOCITY <= MAX_PUCK_VELOCITY * MAX_PUCK_VELOCITY)
        by (nonlinear_arith)
        requires
            MAX_PLAYER_VELOCITY == 1_300_000,
            MAX_PUCK_VELOCITY == 2_200_000,
    ;
}

/// Wherever the puck is asked to move, the rectangle that it occupies
/// afterwards lies within the rink.
pub proof fn lemma_puck_held_in_rink(puck: Puck, position: Vector)
    ensures
        puck.placed(position).in_field(),
        puck.placed(position).wf(),
{
}

/// A wall that holds the puck turns the velocity across it round and takes
/// nothing from it; a puck that no wall holds keeps its velocity.
pub proof fn lemma_puck_reflects(puck: Puck, position: Vector)
    requires
        puck.within_speed_limit(),
    ensures
        ({
            let sideways = position.0 < MIN_X || position.0 + PUCK_WIDTH > MAX_X;
            let upright = position.1 < MIN_Y || position.1 + PUCK_HEIGHT > MAX_Y;
            let v = puck.velocity_of();
            puck.placed(position).velocity_of() == (
                if sideways {
                    (-v.0) as i64
                } else {
                    v.0
                },
                if upright {
                    (-v.1) as i64
                } else {
                    v.1
                },
            )
        }),
        speed_sq(puck.placed(position).velocity_of()) == speed_sq(puck.velocity_of()),
{
    let v = puck.velocity;
    assert(MAX_PUCK_VELOCITY * MAX_PUCK_VELOCITY == 4_840_000_000_000) by (nonlinear_arith)
        requires
            MAX_PUCK_VELOCITY == 2_200_000,
    ;
    assert(v.0 * v.0 >= 0 && v.1 * v.1 >= 0) by (nonlinear_arith);
    assert(-i64::MAX <= v.0 && -i64::MAX <= v.1) by (nonlinear_arith)
        requires
            v.0 * v.0 <= 4_840_000_000_000,
            v.1 * v.1 <= 4_840_000_000_000,
    ;
    let turned_x: i64 = (-v.0) as i64;
    let turned_y: i64 = (-v.1) as i64;
    assert(turned_x * turned_x == v.0 * v.0) by (nonlinear_arith)
        requires
            turned_x == -v.0,
    ;
    assert(turned_y * turned_y == v.1 * v.1) by (nonlinear_arith)
        requires
            turned_y == -v.1,
    ;
    lemma_cap_keeps_direction((turned_x, v.1), MAX_PUCK_VELOCITY);
    lemma_cap_keeps_direction((v.0, turned_y), MAX_PUCK_VELOCITY);
    lemma_cap_keeps_direction((turned_x, turned_y), MAX_PUCK_VELOCITY);
}

impl Body for Puck {
    open(crate) spec fn valid(&self) -> bool {
        self.wf()
    }

    open(crate) spec fn position_of(&self) -> Vector {
        self.position
    }

    open(crate) spec fn velocity_of(&self) -> Vector {
        self.velocity
    }

    open spec fn size_of(&self) -> Vector {
        (PUCK_WIDTH, PUCK_HEIGHT)
    }

    open spec fn mass_of(&self) -> int {
        PUCK_MASS as int
    }

    open(crate) spec fn full_rect(&self) -> Rect {
        self.wide_rect()
    }

    open(crate) spec fn minimal_rect(&self) -> Rect {
        self.tight_rect()
    }

    open(crate) spec fn placed_at(&self, position: Vector) -> Self {
        self.placed(position)
    }

    open(crate) spec fn moving_at(&self, velocity: Vector) -> Self {
        self.moving(velocity)
    }

    open(crate) spec fn after(&self, millis: u64) -> Self {
        self.stepped(millis)
    }

    fn position(&self) -> (r: Vector) {
        self.position
    }

    fn set_position(&mut self, position: Vector)
        ensures
            final(self).in_field(),
            old(self).within_speed_limit() ==> final(self).within_speed_limit(),
    {
        let (w, h) = self.size();
        let (mut new_x, mut new_y) = position;
        if new_x < MIN_X {
            new_x = MIN_X;
            self.set_velocity((sat_sub(0, self.velocity.0), self.velocity.1));
        } else if new_x > MAX_X - w {
            new_x = MAX_X - w;
            self.set_velocity((sat_sub(0, self.velocity.0), self.velocity.1));
        }
        if new_y < MIN_Y {
            new_y = MIN_Y;
            self.set_velocity((self.velocity.0, sat_sub(0, self.velocity.1)));
        } else if new_y > MAX_Y - h {
            new_y = MAX_Y - h;
            self.set_velocity((self.velocity.0, sat_sub(0, self.velocity.1)));
        }
        self.position = (new_x, new_y);
    }

    fn velocity(&self) -> (r: Vector) {
        self.velocity
    }

    fn set_velocity(&mut self, velocity: Vector)
        ensures
            final(self).within_speed_limit(),
    {
        self.velocity = cap_length(velocity, MAX_PUCK_VELOCITY);
    }

    fn size(&self) -> (r: Vector) {
        (PUCK_WIDTH, PUCK_HEIGHT)
    }

    fn full_collision_rect(&self) -> (r: Rect) {
        let (w, h) = self.size();
        Rect {
            x: to_cell(self.position.0) - 2,
            y: to_cell(self.position.1) - 2,
            width: to_cell(w) + 4,
            height: to_cell(h) + 4,
        }
    }

    fn minimal_collision_rect(&self) -> (r: Rect) {
        let (w, h) = self.size();
        Rect {
            x: to_cell(self.position.0),
            y: to_cell(self.position.1),
            width: to_cell(w),
            height: to_cell(h),
        }
    }

    fn mass(&self) -> (r: i64) {
        PUCK_MASS
    }

    fn update(&mut self, millis: u64)
        ensures
            final(self).in_field(),
            final(self).within_speed_limit(),
    {
        let (x, y) = self.position();
        let (vx, vy) = self.velocity();
        self.set_velocity(
            (scale(vx, PUCK_FRICTION_PER_MILLE, 1000), scale(vy, PUCK_FRICTION_PER_MILLE, 1000)),
        );
        let (vx, vy) = self.velocity();
        self.set_position((advance(x, vx, millis), advance(y, vy, millis)));
    }
}

/// Calls `rand::Rng::gen_range` on the generator of the running thread with
/// the range from 0 to 1, both included. The contract claims only that the
/// number drawn lies in that range.
#[verifier::external_body]
fn random_bit() -> (r: u8)
    ensures
        r <= 1,
{
    rand::thread_rng().gen_range(0..=1)
}

} // verus!
