//! Shared vocabulary: the two sides, time stamps and plane vectors.

use crate::units::{
    ceil_sqrt, norm_sq, sat, saturate, scale, scaled, square_root_up, squared_length, trunc_div,
    UNIT,
};
use std::time::{Duration, SystemTime, SystemTimeError, UNIX_EPOCH};
use vstd::prelude::*;

verus! {

/// Milliseconds on the wall clock, counted from the Unix epoch.
pub type Tick = u128;

/// A time stamp that can be read off the system clock and turned into a
/// reading of that clock and back.
pub trait SystemTimeTick: Sized {
    /// The time that the system clock shows.
    fn now() -> Self;

    /// The time stamp of a reading of the system clock.
    fn from_system_time(time: SystemTime) -> Self;

    /// The reading of the system clock that the time stamp stands for.
    fn as_system_time(&self) -> SystemTime;
}

impl SystemTimeTick for Tick {
    /// The milliseconds from the Unix epoch to the time that the system
    /// clock shows.
    fn now() -> Tick {
        <Tick as SystemTimeTick>::from_system_time(system_time())
    }

    /// The whole milliseconds from the Unix epoch to `time`; zero for a
    /// time before the epoch.
    fn from_system_time(time: SystemTime) -> Tick {
        match time.duration_since(unix_epoch()) {
            Ok(since_epoch) => since_epoch.as_millis(),
            Err(_) => 0,
        }
    }

    /// The time that many milliseconds after the Unix epoch. Only the low
    /// 64 bits of the time stamp count. Where the clock cannot show the
    /// time, the result is the epoch itself.
    fn as_system_time(&self) -> SystemTime {
        let millis: u64 = #[verifier::truncate] (*self as u64);
        match unix_epoch().checked_add(Duration::from_millis(millis)) {
            Some(time) => time,
            None => unix_epoch(),
        }
    }
}

/// `std::time::SystemTime`, a reading of the system clock. The library
/// never looks into one.
#[verifier::external_type_specification]
#[verifier::external_body]
pub struct ExSystemTime(SystemTime);

/// `std::time::SystemTimeError`, with which the clock tells that the later
/// of two readings came first. The library never looks into one.
#[verifier::external_type_specification]
#[verifier::external_body]
pub struct ExSystemTimeError(SystemTimeError);

/// Calls `std::time::SystemTime::now`, which reads the system clock.
/// Nothing is claimed of the reading.
#[verifier::external_body]
fn system_time() -> SystemTime {
    SystemTime::now()
}

/// `std::time::SystemTime::duration_since` tells how much later than
/// `earlier` a reading is, or fails: nothing is claimed of either outcome.
pub assume_specification[ std::time::SystemTime::duration_since ](
    time: &SystemTime,
    earlier: SystemTime,
) -> Result<Duration, SystemTimeError>
;

/// `std::time::SystemTime::checked_add` gives the reading that lies
/// `duration` after `time`, or nothing where no reading can hold that time:
/// nothing is claimed of either outcome.
pub assume_specification[ std::time::SystemTime::checked_add ](
    time: &SystemTime,
    duration: Duration,
) -> Option<SystemTime>
;

/// `std::time::Duration::as_millis` gives the whole milliseconds of a
/// duration: nothing is claimed of the number, since nothing is known of
/// the duration.
pub assume_specification[ std::time::Duration::as_millis ](duration: &Duration) -> u128
;

/// `std::time::Duration::from_millis` makes the duration of that many
/// milliseconds: nothing is claimed of it, since the library never looks
/// into a duration.
pub assume_specification[ std::time::Duration::from_millis ](millis: u64) -> Duration
;

/// Hands out the constant `std::time::UNIX_EPOCH`, the reading that time
/// stamps are counted from. Nothing is claimed of it.
#[verifier::external_body]
fn unix_epoch() -> SystemTime {
    UNIX_EPOCH
}

/// A point or a velocity on the playfield, in steps.
pub type Vector = (i64, i64);

/// One of the two teams.
#[derive(Clone, Copy, PartialEq, Eq, Debug, Structural)]
pub enum GameSide {
    Red,
    Blue,
}

impl GameSide {
    /// The other team.
    pub open spec fn opponent(self) -> GameSide {
        match self {
            GameSide::Red => GameSide::Blue,
            GameSide::Blue => GameSide::Red,
        }
    }
}

/// Length of a vector, rounded up to a whole step and held within the
/// 64-bit range.
pub open spec fn length_of(v: Vector) -> i64 {
    sat(ceil_sqrt(norm_sq(v.0 as int, v.1 as int)))
}

/// The vector of length one unit in the direction of `v`; the zero vector
/// for the zero vector.
pub open spec fn normalized(v: Vector) -> Vector {
    let length = ceil_sqrt(norm_sq(v.0 as int, v.1 as int));
    if length == 0 {
        (0, 0)
    } else {
        (sat(trunc_div(v.0 * UNIT, length)), sat(trunc_div(v.1 * UNIT, length)))
    }
}

/// Scalar product of two vectors, in steps.
pub open spec fn dot_product(v: Vector, w: Vector) -> i64 {
    sat(trunc_div(v.0 * w.0 + v.1 * w.1, UNIT as int))
}

/// The vector `v` times the fixed-point factor `rhs`.
pub open spec fn multiplied(v: Vector, rhs: i64) -> Vector {
    (scaled(v.0 as int, rhs as int, UNIT as int), scaled(v.1 as int, rhs as int, UNIT as int))
}

/// Plane vectors in fixed-point arithmetic.
pub trait Vector2D: Sized {
    /// The vector of length one unit in the same direction.
    spec fn unit(&self) -> Self;

    /// The scalar product with `other`, in steps.
    spec fn dot_with(&self, other: &Self) -> i64;

    /// The length, in steps.
    spec fn length(&self) -> i64;

    /// The vector times the fixed-point factor `rhs`.
    spec fn times(self, rhs: i64) -> Self;

    fn normalize(&self) -> (r: Self)
        ensures
            r == self.unit(),
    ;

    fn dot(&self, other: &Self) -> (r: i64)
        ensures
            r == self.dot_with(other),
    ;

    fn magnitude(&self) -> (r: i64)
        ensures
            r == self.length(),
    ;

    fn mul(self, rhs: i64) -> (r: Self)
        ensures
            r == self.times(rhs),
    ;
}

impl Vector2D for Vector {
    open spec fn unit(&self) -> Vector {
        normalized(*self)
    }

    open spec fn dot_with(&self, other: &Vector) -> i64 {
        dot_product(*self, *other)
    }

    open spec fn length(&self) -> i64 {
        length_of(*self)
    }

    open spec fn times(self, rhs: i64) -> Vector {
        multiplied(self, rhs)
    }

    fn normalize(&self) -> (r: Vector) {
        let length: u128 = square_root_up(squared_length(self.0, self.1));
        if length == 0 {
            return (0, 0);
        }
        let divisor: i128 = length as i128;
        let x: i128 = (self.0 as i128 * UNIT as i128) / divisor;
        let y: i128 = (self.1 as i128 * UNIT as i128) / divisor;
        (saturate(x), saturate(y))
    }

    fn dot(&self, other: &Vector) -> (r: i64) {
        let a: i128 = self.0 as i128;
        let b: i128 = other.0 as i128;
        let c: i128 = self.1 as i128;
        let d: i128 = other.1 as i128;
        assert(-0x4000_0000_0000_0000_0000_0000_0000_0000 <= a * b
            <= 0x4000_0000_0000_0000_0000_0000_0000_0000) by (nonlinear_arith)
            requires
                -0x8000_0000_0000_0000 <= a <= 0x8000_0000_0000_0000,
                -0x8000_0000_0000_0000 <= b <= 0x8000_0000_0000_0000,
        ;
        assert(-0x4000_0000_0000_0000_0000_0000_0000_0000 <= c * d
            <= 0x4000_0000_0000_0000_0000_0000_0000_0000) by (nonlinear_arith)
            requires
                -0x8000_0000_0000_0000 <= c <= 0x8000_0000_0000_0000,
                -0x8000_0000_0000_0000 <= d <= 0x8000_0000_0000_0000,
        ;
        let first: i128 = a * b;
        let second: i128 = c * d;
        if first > 0 && second > i128::MAX - first {
            return i64::MAX;
        }
        saturate((first + second) / (UNIT as i128))
    }

    fn magnitude(&self) -> (r: i64) {
        let length: u128 = square_root_up(squared_length(self.0, self.1));
        saturate(length as i128)
    }

    fn mul(self, rhs: i64) -> (r: Vector) {
        (scale(self.0, rhs, UNIT), scale(self.1, rhs, UNIT))
    }
}

} // verus!
