//! The eight directions a skater can face, and the display palettes.

use crate::types::Vector;
use crate::units::UNIT;
use vstd::prelude::*;

verus! {

/// The direction a skater faces. The eight values form a cycle, in the order
/// in which they are declared.
#[derive(Clone, Copy, PartialEq, Eq, Debug, Structural)]
pub enum Orientation {
    Up,
    UpLeft,
    Left,
    DownLeft,
    Down,
    DownRight,
    Right,
    UpRight,
}

impl Orientation {
    /// Place of the orientation in the cycle, from 0 to 7.
    pub open spec fn index_of(self) -> int {
        match self {
            Orientation::Up => 0,
            Orientation::UpLeft => 1,
            Orientation::Left => 2,
            Orientation::DownLeft => 3,
            Orientation::Down => 4,
            Orientation::DownRight => 5,
            Orientation::Right => 6,
            Orientation::UpRight => 7,
        }
    }

    /// The orientation at place `i` of the cycle; for `i` outside 0 to 7 the
    /// value is of no interest.
    pub open spec fn at(i: int) -> Orientation {
        if i == 0 {
            Orientation::Up
        } else if i == 1 {
            Orientation::UpLeft
        } else if i == 2 {
            Orientation::Left
        } else if i == 3 {
            Orientation::DownLeft
        } else if i == 4 {
            Orientation::Down
        } else if i == 5 {
            Orientation::DownRight
        } else if i == 6 {
            Orientation::Right
        } else {
            Orientation::UpRight
        }
    }

    /// One step forward in the cycle.
    pub open spec fn following(self) -> Orientation {
        Orientation::at((self.index_of() + 1) % 8)
    }

    /// One step backward in the cycle.
    pub open spec fn preceding(self) -> Orientation {
        Orientation::at((self.index_of() + 7) % 8)
    }

    /// Number of forward steps that lead from `self` to `target`.
    pub open spec fn steps_to(self, target: Orientation) -> int {
        (target.index_of() - self.index_of() + 8) % 8
    }

    /// One step from `self` toward `target` along the shorter way round the
    /// cycle; forward where both ways are equally long.
    pub open spec fn turned_toward(self, target: Orientation) -> Orientation {
        if self.steps_to(target) > 4 {
            self.preceding()
        } else {
            self.following()
        }
    }

    /// Offset, in playfield units, from a skater's position to the point with
    /// which it catches the puck.
    pub open spec fn catcher_cells(self) -> (int, int) {
        match self {
            Orientation::Up => (18, 0),
            Orientation::UpLeft => (12, -2),
            Orientation::Left => (0, 0),
            Orientation::DownLeft => (-2, 1),
            Orientation::Down => (0, 6),
            Orientation::DownRight => (1, 15),
            Orientation::Right => (6, 18),
            Orientation::UpRight => (15, 12),
        }
    }

    /// Offset, in playfield units, from a skater's position to its head.
    pub open spec fn head_cells(self) -> (int, int) {
        match self {
            Orientation::Up => (4, 3),
            Orientation::UpLeft => (5, 10),
            Orientation::Left => (3, 13),
            Orientation::DownLeft => (10, 7),
            Orientation::Down => (13, 2),
            Orientation::DownRight => (7, 2),
            Orientation::Right => (2, 4),
            Orientation::UpRight => (2, 5),
        }
    }

    /// Width and height, in playfield units, of a skater that faces this way.
    pub open spec fn size_cells(self) -> (int, int) {
        match self {
            Orientation::Up | Orientation::Down => (20, 8),
            Orientation::Left | Orientation::Right => (8, 20),
            _ => (15, 15),
        }
    }

    /// The tight hitbox of a skater that faces this way, in cells: its offset
    /// from the cell of the skater's position, then its width and height.
    pub open spec fn tight_cells(self) -> (u16, u16, u16, u16) {
        match self {
            Orientation::Up => (0, 0, 14, 8),
            Orientation::UpLeft => (0, 5, 13, 10),
            Orientation::Left => (0, 6, 8, 14),
            Orientation::DownLeft => (5, 2, 10, 13),
            Orientation::Down => (6, 0, 14, 8),
            Orientation::DownRight => (2, 0, 13, 10),
            Orientation::Right => (0, 0, 8, 14),
            Orientation::UpRight => (0, 0, 10, 13),
        }
    }

    /// The catcher offset in steps.
    pub open spec fn catcher_offset(self) -> Vector {
        ((self.catcher_cells().0 * UNIT) as i64, (self.catcher_cells().1 * UNIT) as i64)
    }

    /// The head offset in steps.
    pub open spec fn head_offset(self) -> Vector {
        ((self.head_cells().0 * UNIT) as i64, (self.head_cells().1 * UNIT) as i64)
    }

    /// The size in steps.
    pub open spec fn size(self) -> Vector {
        ((self.size_cells().0 * UNIT) as i64, (self.size_cells().1 * UNIT) as i64)
    }

    /// Place of the orientation in the cycle.
    pub fn index(self) -> (r: u8)
        ensures
            r == self.index_of(),
    {
        match self {
            Orientation::Up => 0,
            Orientation::UpLeft => 1,
            Orientation::Left => 2,
            Orientation::DownLeft => 3,
            Orientation::Down => 4,
            Orientation::DownRight => 5,
            Orientation::Right => 6,
            Orientation::UpRight => 7,
        }
    }

    /// The orientation at a place of the cycle: `None` for a place that the
    /// cycle does not have.
    pub fn from_index(value: u8) -> (r: Option<Orientation>)
        ensures
            value < 8 ==> r == Some(Orientation::at(value as int)),
            value >= 8 ==> r is None,
            r matches Some(o) ==> o.index_of() == value,
    {
        match value {
            0 => Some(Orientation::Up),
            1 => Some(Orientation::UpLeft),
            2 => Some(Orientation::Left),
            3 => Some(Orientation::DownLeft),
            4 => Some(Orientation::Down),
            5 => Some(Orientation::DownRight),
            6 => Some(Orientation::Right),
            7 => Some(Orientation::UpRight),
            _ => None,
        }
    }

    /// One step forward in the cycle.
    pub fn next(self) -> (r: Orientation)
        ensures
            r == self.following(),
            r.index_of() == (self.index_of() + 1) % 8,
    {
        match self {
            Orientation::Up => Orientation::UpLeft,
            Orientation::UpLeft => Orientation::Left,
            Orientation::Left => Orientation::DownLeft,
            Orientation::DownLeft => Orientation::Down,
            Orientation::Down => Orientation::DownRight,
            Orientation::DownRight => Orientation::Right,
            Orientation::Right => Orientation::UpRight,
            Orientation::UpRight => Orientation::Up,
        }
    }

    /// One step backward in the cycle.
    pub fn previous(self) -> (r: Orientation)
        ensures
            r == self.preceding(),
            r.index_of() == (self.index_of() + 7) % 8,
    {
        match self {
            Orientation::Up => Orientation::UpRight,
            Orientation::UpLeft => Orientation::Up,
            Orientation::Left => Orientation::UpLeft,
            Orientation::DownLeft => Orientation::Left,
            Orientation::Down => Orientation::DownLeft,
            Orientation::DownRight => Orientation::Down,
            Orientation::Right => Orientation::DownRight,
            Orientation::UpRight => Orientation::Right,
        }
    }

    /// One step toward `target` along the shorter way round the cycle.
    pub fn turn_toward(self, target: Orientation) -> (r: Orientation)
        ensures
            r == self.turned_toward(target),
    {
        let from: u8 = self.index();
        let to: u8 = target.index();
        let steps: u8 = (to + 8 - from) % 8;
        if steps > 4 {
            self.previous()
        } else {
            self.next()
        }
    }
}

/// Offset from a skater's position to the point with which it catches the
/// puck.
pub fn puck_catcher_offset(orientation: Orientation) -> (r: Vector)
    ensures
        r == orientation.catcher_offset(),
{
    match orientation {
        Orientation::Up => (18 * UNIT, 0),
        Orientation::UpLeft => (12 * UNIT, -2 * UNIT),
        Orientation::Left => (0, 0),
        Orientation::DownLeft => (-2 * UNIT, UNIT),
        Orientation::Down => (0, 6 * UNIT),
        Orientation::DownRight => (UNIT, 15 * UNIT),
        Orientation::Right => (6 * UNIT, 18 * UNIT),
        Orientation::UpRight => (15 * UNIT, 12 * UNIT),
    }
}

/// The colour scheme a client sees the rink in.
#[derive(Clone, Copy, PartialEq, Eq, Debug, Structural)]
pub enum Palette {
    Dark,
    Light,
    Basket,
    Alt,
}

impl Palette {
    /// The palette that follows in the cycle Dark, Light, Basket, Alt.
    pub open spec fn following(self) -> Palette {
        match self {
            Palette::Dark => Palette::Light,
            Palette::Light => Palette::Basket,
            Palette::Basket => Palette::Alt,
            Palette::Alt => Palette::Dark,
        }
    }

    /// Steps to the next palette; after the last comes the first.
    pub fn next(&self) -> (r: Palette)
        ensures
            r == self.following(),
    {
        match self {
            Palette::Dark => Palette::Light,
            Palette::Light => Palette::Basket,
            Palette::Basket => Palette::Alt,
            Palette::Alt => Palette::Dark,
        }
    }
}

/// Stepping forward and then backward, or backward and then forward, leads
/// back to the same orientation.
pub proof fn lemma_next_previous_inverse(o: Orientation)
    ensures
        o.following().preceding() == o,
        o.preceding().following() == o,
{
}

} // verus!
