//! The goalie: a body that keeps to its goal line and follows its skater.

use crate::body::Body;
use crate::field::{
    BLUE_INITIAL_POSITION, GOALIE_AREA_HEIGHT, GOALIE_AREA_WIDTH, GOALIE_HEIGHT, GOALIE_MASS,
    GOALIE_MAX_Y, GOALIE_MIN_Y, GOALIE_WIDTH, MAX_X, MIN_X, RED_INITIAL_POSITION,
};
use crate::rect::Rect;
use crate::types::{GameSide, Vector};
use crate::units::{cell, to_cell};
use vstd::prelude::*;

verus! {

/// A goalie. It has no dynamics of its own: the match sets its height and
/// its vertical velocity from its skater on every tick.
#[derive(Clone, Copy, Debug)]
pub struct Goalie {
    pub(crate) side: GameSide,
    pub(crate) position: Vector,
    pub(crate) velocity: Vector,
    pub(crate) saves: usize,
}

impl Goalie {
    /// Horizontal position of the goalie of `side`: on its own goal line.
    pub open spec fn line(side: GameSide) -> i64 {
        match side {
            GameSide::Red => MIN_X,
            GameSide::Blue => (MAX_X - GOALIE_WIDTH) as i64,
        }
    }

    /// The goalie as a match starts with it.
    pub open(crate) spec fn initial(side: GameSide) -> Goalie {
        Goalie {
            side,
            position: (
                Goalie::line(side),
                match side {
                    GameSide::Red => RED_INITIAL_POSITION.1,
                    GameSide::Blue => BLUE_INITIAL_POSITION.1,
                },
            ),
            velocity: (0, 0),
            saves: 0,
        }
    }

    /// The goalie stands on its goal line, within the band that it may move
    /// in, and has no horizontal velocity.
    pub open(crate) spec fn wf(self) -> bool {
        &&& self.position.0 == Goalie::line(self.side)
        &&& GOALIE_MIN_Y <= self.position.1 <= GOALIE_MAX_Y
        &&& self.velocity.0 == 0
    }

    pub open(crate) spec fn side_of(self) -> GameSide {
        self.side
    }

    pub open(crate) spec fn saves_of(self) -> usize {
        self.saves
    }

    /// The height `y` held within the band of the goalie.
    pub open spec fn banded(y: i64) -> i64 {
        if y > GOALIE_MAX_Y {
            GOALIE_MAX_Y
        } else if y < GOALIE_MIN_Y {
            GOALIE_MIN_Y
        } else {
            y
        }
    }

    /// The goalie with one save more; the count stays at the largest number
    /// that it can hold.
    pub open(crate) spec fn with_save(self) -> Goalie {
        Goalie {
            saves: if self.saves < usize::MAX {
                (self.saves + 1) as usize
            } else {
                self.saves
            },
            ..self
        }
    }

    pub fn new(side: GameSide) -> (r: Goalie)
        ensures
            r == Goalie::initial(side),
            r.wf(),
    {
        let position = match side {
            GameSide::Red => (MIN_X, RED_INITIAL_POSITION.1),
            GameSide::Blue => (MAX_X - GOALIE_WIDTH, BLUE_INITIAL_POSITION.1),
        };
        Goalie { side, position, velocity: (0, 0), saves: 0 }
    }

    pub fn side(&self) -> (r: GameSide)
        ensures
            r == self.side_of(),
    {
        self.side
    }

    /// Number of shots that the goalie has stopped.
    pub fn saves(&self) -> (r: usize)
        ensures
            r == self.saves_of(),
    {
        self.saves
    }

    /// Counts one save.
    pub fn count_save(&mut self)
        requires
            old(self).wf(),
        ensures
            *final(self) == old(self).with_save(),
            final(self).wf(),
    {
        if self.saves < usize::MAX {
            self.saves = self.saves + 1;
        }
    }
}

impl Body for Goalie {
    open(crate) spec fn valid(&self) -> bool {
        self.wf()
    }

    open(crate) spec fn position_of(&self) -> Vector {
        self.position
    }

    open(crate) spec fn velocity_of(&self) -> Vector {
        self.velocity
    }

    open spec fn size_of(&self) -> Vector {
        (GOALIE_WIDTH, GOALIE_HEIGHT)
    }

    open spec fn mass_of(&self) -> int {
        GOALIE_MASS as int
    }

    /// The whole goal area of the goalie's side.
    open(crate) spec fn full_rect(&self) -> Rect {
        Rect {
            x: cell(
                match self.side {
                    GameSide::Red => MIN_X as int,
                    GameSide::Blue => MAX_X - GOALIE_AREA_WIDTH * crate::units::UNIT,
                },
            ),
            y: (cell(GOALIE_MIN_Y as int) - 1) as u16,
            width: GOALIE_AREA_WIDTH,
            height: GOALIE_AREA_HEIGHT,
        }
    }

    /// The cells that the goalie itself covers.
    open(crate) spec fn minimal_rect(&self) -> Rect {
        Rect {
            x: cell(self.position.0 as int),
            y: cell(self.position.1 as int),
            width: cell(GOALIE_WIDTH as int),
            height: cell(GOALIE_HEIGHT as int),
        }
    }

    /// Only the height changes, and it stays within the goalie's band.
    open(crate) spec fn placed_at(&self, position: Vector) -> Self {
        Goalie { position: (self.position.0, Goalie::banded(position.1)), ..*self }
    }

    /// Only the vertical component is taken.
    open(crate) spec fn moving_at(&self, velocity: Vector) -> Self {
        Goalie { velocity: (0, velocity.1), ..*self }
    }

    open spec fn after(&self, millis: u64) -> Self {
        *self
    }

    fn position(&self) -> (r: Vector) {
        self.position
    }

    fn set_position(&mut self, position: Vector) {
        let y: i64 = if position.1 > GOALIE_MAX_Y {
            GOALIE_MAX_Y
        } else if position.1 < GOALIE_MIN_Y {
            GOALIE_MIN_Y
        } else {
            position.1
        };
        self.position = (self.position.0, y);
    }

    fn velocity(&self) -> (r: Vector) {
        self.velocity
    }

    fn set_velocity(&mut self, velocity: Vector) {
        self.velocity = (0, velocity.1);
    }

    fn size(&self) -> (r: Vector) {
        (GOALIE_WIDTH, GOALIE_HEIGHT)
    }

    fn full_collision_rect(&self) -> (r: Rect) {
        match self.side {
            GameSide::Red => Rect {
                x: to_cell(MIN_X),
                y: to_cell(GOALIE_MIN_Y) - 1,
                width: GOALIE_AREA_WIDTH,
                height: GOALIE_AREA_HEIGHT,
            },
            GameSide::Blue => Rect {
                x: to_cell(MAX_X) - GOALIE_AREA_WIDTH,
                y: to_cell(GOALIE_MIN_Y) - 1,
                width: GOALIE_AREA_WIDTH,
                height: GOALIE_AREA_HEIGHT,
            },
        }
    }

    fn minimal_collision_rect(&self) -> (r: Rect) {
        Rect {
            x: to_cell(self.position.0),
            y: to_cell(self.position.1),
            width: to_cell(GOALIE_WIDTH),
            height: to_cell(GOALIE_HEIGHT),
        }
    }

    fn mass(&self) -> (r: i64) {
        GOALIE_MASS
    }

    fn update(&mut self, millis: u64) {
    }
}

} // verus!
