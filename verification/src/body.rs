//! What the simulated bodies have in common, and the collision rule.

use crate::field::{MAX_MASS, RESTITUTION_TENTHS};
use crate::rect::{are_sprites_colliding, Rect};
use crate::types::Vector;
use crate::units::{sat, saturate, trunc_div};
use vstd::prelude::*;

verus! {

/// Which of its two hitboxes a body takes part in a collision test with.
#[derive(Clone, Copy, PartialEq, Eq, Debug, Structural)]
pub enum CollisionType {
    Minimal,
    Full,
}

/// A simulated body: the puck, a skater or a goalie.
pub trait Body: Sized {
    /// The body's invariant.
    spec fn valid(&self) -> bool;

    spec fn position_of(&self) -> Vector;

    spec fn velocity_of(&self) -> Vector;

    spec fn size_of(&self) -> Vector;

    spec fn mass_of(&self) -> int;

    /// The loose hitbox.
    spec fn full_rect(&self) -> Rect;

    /// The tight hitbox.
    spec fn minimal_rect(&self) -> Rect;

    /// The body after it is asked to move to `position`.
    spec fn placed_at(&self, position: Vector) -> Self;

    /// The body after it is given the velocity `velocity`.
    spec fn moving_at(&self, velocity: Vector) -> Self;

    /// The body after `millis` milliseconds on its own.
    spec fn after(&self, millis: u64) -> Self;

    fn position(&self) -> (r: Vector)
        ensures
            r == self.position_of(),
    ;

    fn set_position(&mut self, position: Vector)
        requires
            old(self).valid(),
        ensures
            final(self).valid(),
            *final(self) == old(self).placed_at(position),
    ;

    fn velocity(&self) -> (r: Vector)
        ensures
            r == self.velocity_of(),
    ;

    fn set_velocity(&mut self, velocity: Vector)
        requires
            old(self).valid(),
        ensures
            final(self).valid(),
            *final(self) == old(self).moving_at(velocity),
    ;

    fn size(&self) -> (r: Vector)
        ensures
            r == self.size_of(),
    ;

    fn full_collision_rect(&self) -> (r: Rect)
        requires
            self.valid(),
        ensures
            r == self.full_rect(),
    ;

    fn minimal_collision_rect(&self) -> (r: Rect)
        requires
            self.valid(),
        ensures
            r == self.minimal_rect(),
    ;

    fn mass(&self) -> (r: i64)
        ensures
            r == self.mass_of(),
            0 < r <= MAX_MASS,
    ;

    fn update(&mut self, millis: u64)
        requires
            old(self).valid(),
        ensures
            final(self).valid(),
            *final(self) == old(self).after(millis),
    ;
}

/// The hitbox of `body` that `kind` names.
pub open spec fn hitbox<B: Body>(body: B, kind: CollisionType) -> Rect {
    match kind {
        CollisionType::Minimal => body.minimal_rect(),
        CollisionType::Full => body.full_rect(),
    }
}

/// One component of the velocity of the centre of mass of two bodies.
pub open spec fn center_of_mass(v1: int, m1: int, v2: int, m2: int) -> int {
    trunc_div(v1 * m1 + v2 * m2, m1 + m2)
}

/// One component of a body's velocity after a collision, from its velocity
/// `v` before and that of the centre of mass: `(1 + e) * com - e * v` for the
/// coefficient of restitution `e`.
pub open spec fn rebound(v: int, com: int) -> i64 {
    sat(trunc_div((10 + RESTITUTION_TENTHS) * com - RESTITUTION_TENTHS * v, 10))
}

/// The velocity that the collision rule hands to a body of velocity `v` and
/// mass `m` that met one of velocity `w` and mass `n`.
pub open spec fn rebound_velocity(v: Vector, m: int, w: Vector, n: int) -> Vector {
    (
        rebound(v.0 as int, center_of_mass(v.0 as int, m, w.0 as int, n)),
        rebound(v.1 as int, center_of_mass(v.1 as int, m, w.1 as int, n)),
    )
}

/// Whether the chosen hitboxes of the two bodies overlap.
pub open spec fn colliding<A: Body, B: Body>(
    sprite1: A,
    sprite2: B,
    collision_type1: CollisionType,
    collision_type2: CollisionType,
) -> bool {
    hitbox(sprite1, collision_type1).overlaps(hitbox(sprite2, collision_type2))
}

/// A collision conserves momentum, but for the rounding: along each axis the
/// momentum of the two bodies after it differs from that before by less
/// than three steps for each unit of their mass.
pub proof fn lemma_rebound_conserves_momentum(v1: i64, m1: int, v2: i64, m2: int)
    requires
        0 < m1 <= MAX_MASS,
        0 < m2 <= MAX_MASS,
        -0x1000_0000_0000_0000 <= v1 <= 0x1000_0000_0000_0000,
        -0x1000_0000_0000_0000 <= v2 <= 0x1000_0000_0000_0000,
    ensures
        ({
            let com = center_of_mass(v1 as int, m1, v2 as int, m2);
            let after = m1 * rebound(v1 as int, com) + m2 * rebound(v2 as int, com);
            let before = m1 * v1 + m2 * v2;
            -3 * (m1 + m2) < after - before < 3 * (m1 + m2)
        }),
{
    let total = m1 + m2;
    let before = m1 * v1 + m2 * v2;
    let com = center_of_mass(v1 as int, m1, v2 as int, m2);
    let bound: int = 0x1000_0000_0000_0000;
    assert(-bound * m1 <= m1 * v1 <= bound * m1) by (nonlinear_arith)
        requires
            0 < m1,
            -bound <= v1 <= bound,
    ;
    assert(-bound * m2 <= m2 * v2 <= bound * m2) by (nonlinear_arith)
        requires
            0 < m2,
            -bound <= v2 <= bound,
    ;
    assert(v1 * m1 == m1 * v1 && v2 * m2 == m2 * v2) by (nonlinear_arith);
    assert(-total < total * com - before < total && -bound <= com <= bound) by (nonlinear_arith)
        requires
            com == trunc_div(before, total),
            0 < total,
            -bound * total <= before <= bound * total,
    ;
    let t1 = 17 * com - 7 * v1;
    let t2 = 17 * com - 7 * v2;
    let r1 = trunc_div(t1, 10);
    let r2 = trunc_div(t2, 10);
    assert(rebound(v1 as int, com) == r1);
    assert(rebound(v2 as int, com) == r2);
    assert(-10 < 10 * r1 - t1 < 10);
    assert(-10 < 10 * r2 - t2 < 10);
    let after = m1 * r1 + m2 * r2;
    assert(10 * after - 10 * before == 17 * (total * com - before) + m1 * (10 * r1 - t1) + m2 * (10
        * r2 - t2)) by (nonlinear_arith)
        requires
            after == m1 * r1 + m2 * r2,
            before == m1 * v1 + m2 * v2,
            t1 == 17 * com - 7 * v1,
            t2 == 17 * com - 7 * v2,
            total == m1 + m2,
    ;
    assert(-10 * m1 < m1 * (10 * r1 - t1) < 10 * m1) by (nonlinear_arith)
        requires
            0 < m1,
            -10 < 10 * r1 - t1 < 10,
    ;
    assert(-10 * m2 < m2 * (10 * r2 - t2) < 10 * m2) by (nonlinear_arith)
        requires
            0 < m2,
            -10 < 10 * r2 - t2 < 10,
    ;
}

/// The velocities, along one axis, that the collision rule hands to two
/// bodies.
fn rebound_component(v1: i64, m1: i64, v2: i64, m2: i64) -> (r: (i64, i64))
    requires
        0 < m1 <= MAX_MASS,
        0 < m2 <= MAX_MASS,
    ensures
        r.0 == rebound(v1 as int, center_of_mass(v1 as int, m1 as int, v2 as int, m2 as int)),
        r.1 == rebound(v2 as int, center_of_mass(v1 as int, m1 as int, v2 as int, m2 as int)),
{
    let a: i128 = v1 as i128;
    let b: i128 = v2 as i128;
    let m: i128 = m1 as i128;
    let n: i128 = m2 as i128;
    assert(-0x8000_0000_0000_0000 * 1000 <= a * m <= 0x8000_0000_0000_0000 * 1000)
        by (nonlinear_arith)
        requires
            -0x8000_0000_0000_0000 <= a <= 0x8000_0000_0000_0000,
            0 < m <= 1000,
    ;
    assert(-0x8000_0000_0000_0000 * 1000 <= b * n <= 0x8000_0000_0000_0000 * 1000)
        by (nonlinear_arith)
        requires
            -0x8000_0000_0000_0000 <= b <= 0x8000_0000_0000_0000,
            0 < n <= 1000,
    ;
    let momentum: i128 = a * m + b * n;
    let total: i128 = m + n;
    let com: i128 = momentum / total;
    assert(-0x8000_0000_0000_0000 * 2000 <= com <= 0x8000_0000_0000_0000 * 2000)
        by (nonlinear_arith)
        requires
            -0x8000_0000_0000_0000 * 2000 <= momentum <= 0x8000_0000_0000_0000 * 2000,
            2 <= total,
            com == trunc_div(momentum as int, total as int),
    ;
    let keep: i128 = RESTITUTION_TENTHS as i128;
    assert((10 + keep) * com == 17 * com && keep * a == 7 * a && keep * b == 7 * b)
        by (nonlinear_arith)
        requires
            keep == 7,
    ;
    let first: i128 = ((10 + keep) * com - keep * a) / 10;
    let second: i128 = ((10 + keep) * com - keep * b) / 10;
    (saturate(first), saturate(second))
}

/// What a collision test makes of two bodies: whether their chosen hitboxes
/// overlap and, where they do, both bodies with the velocities that the
/// collision rule hands them; where they do not, both as they were.
pub open spec fn struck<A: Body, B: Body>(
    sprite1: A,
    sprite2: B,
    collision_type1: CollisionType,
    collision_type2: CollisionType,
) -> (bool, A, B) {
    if colliding(sprite1, sprite2, collision_type1, collision_type2) {
        (
            true,
            sprite1.moving_at(
                rebound_velocity(
                    sprite1.velocity_of(),
                    sprite1.mass_of(),
                    sprite2.velocity_of(),
                    sprite2.mass_of(),
                ),
            ),
            sprite2.moving_at(
                rebound_velocity(
                    sprite2.velocity_of(),
                    sprite2.mass_of(),
                    sprite1.velocity_of(),
                    sprite1.mass_of(),
                ),
            ),
        )
    } else {
        (false, sprite1, sprite2)
    }
}

/// Tests the chosen hitboxes of two bodies for overlap and, where they
/// overlap, gives both the velocities that conservation of momentum and the
/// coefficient of restitution ask for. Tells whether they overlapped.
pub fn resolve_collision<A: Body, B: Body>(
    sprite1: &mut A,
    sprite2: &mut B,
    collision_type1: CollisionType,
    collision_type2: CollisionType,
) -> (hit: bool)
    requires
        old(sprite1).valid(),
        old(sprite2).valid(),
    ensures
        final(sprite1).valid(),
        final(sprite2).valid(),
        (hit, *final(sprite1), *final(sprite2)) == struck(
            *old(sprite1),
            *old(sprite2),
            collision_type1,
            collision_type2,
        ),
{
    let rect1 = match collision_type1 {
        CollisionType::Minimal => sprite1.minimal_collision_rect(),
        CollisionType::Full => sprite1.full_collision_rect(),
    };
    let rect2 = match collision_type2 {
        CollisionType::Minimal => sprite2.minimal_collision_rect(),
        CollisionType::Full => sprite2.full_collision_rect(),
    };
    if are_sprites_colliding(rect1, rect2) {
        let v1 = sprite1.velocity();
        let v2 = sprite2.velocity();
        let m1 = sprite1.mass();
        let m2 = sprite2.mass();
        let x = rebound_component(v1.0, m1, v2.0, m2);
        let y = rebound_component(v1.1, m1, v2.1, m2);
        sprite1.set_velocity((x.0, y.0));
        sprite2.set_velocity((x.1, y.1));
        return true;
    }
    false
}

} // verus!
