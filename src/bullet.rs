//! Projectiles: short-lived bodies fired by actors, used to score.

use crate::arena::Arena;
use crate::geometry::{ANGLE_LIMIT, HALF_PI_MRAD, lemma_components_within, magnitude, clamp_spec, clamp_velocity, direction, direction_spec, Body, Vec2, UNIT};
use vstd::prelude::*;

verus! {

/// Speed given along the heading at launch, in milli-pixels per second.
pub const ACTOR_THRUST: i64 = 2_000_000;

/// The largest speed of anything that moves, in milli-pixels per second.
pub const MAX_PHYSICS_VEL: i64 = 250_000;

/// A projectile moves this many times faster than its velocity says.
pub const BULLET_SPEED_FACTOR: i64 = 3;

/// Radius of a projectile.
pub const BULLET_RADIUS: i64 = 1000;

/// Longest time step, in microseconds.
pub const MAX_DT: i64 = 1_000_000;

/// Bound on the coordinates of a projectile that is still on the board.
pub const BULLET_POS_LIMIT: i64 = 1_000_000_000;

/// Bound on the coordinates of any projectile.
pub const BULLET_FAR_LIMIT: i64 = 1_001_000_000;

/// Displacement for `dt` microseconds at velocity `v`, `factor` times faster,
/// rounded towards zero.
pub open spec fn displacement(v: int, dt: int, factor: int) -> int {
    if v >= 0 {
        (v * dt * factor) / 1_000_000
    } else {
        -(((-v) * dt * factor) / 1_000_000)
    }
}

/// One component of a position moved for `dt` microseconds at velocity `v`,
/// `factor` times faster.
pub open spec fn advance(p: int, v: int, dt: int, factor: int) -> int {
    p + displacement(v, dt, factor)
}

pub fn advance_exec(p: i64, v: i64, dt: i64, factor: i64) -> (r: i64)
    requires
        -2_000_000_000 <= p <= 2_000_000_000,
        -1_000_000_000 <= v <= 1_000_000_000,
        0 <= dt <= MAX_DT,
        1 <= factor <= 3,
    ensures
        r == advance(p as int, v as int, dt as int, factor as int),
        -magnitude(v as int) * factor <= r - p <= magnitude(v as int) * factor,
{
    let a: i64 = if v >= 0 {
        v
    } else {
        -v
    };
    assert(0 <= a * dt <= 1_000_000_000_000_000) by (nonlinear_arith)
        requires
            0 <= a <= 1_000_000_000,
            0 <= dt <= 1_000_000,
    ;
    let ad: i64 = a * dt;
    assert(0 <= ad * factor <= 3_000_000_000_000_000) by (nonlinear_arith)
        requires
            0 <= ad <= 1_000_000_000_000_000,
            1 <= factor <= 3,
    ;
    let m: i64 = ad * factor;
    assert(0 <= m / 1_000_000 <= a * factor) by (nonlinear_arith)
        requires
            m == a * dt * factor,
            0 <= dt <= 1_000_000,
            1 <= factor,
            0 <= a,
    {
        assert(m <= a * factor * 1_000_000);
    }
    let q: i64 = m / 1_000_000;
    assert(a * dt * factor == ad * factor);
    assert(magnitude(v as int) == a);
    assert(-magnitude(v as int) * factor == -(a * factor)) by (nonlinear_arith)
        requires
            magnitude(v as int) == a,
    ;
    if v >= 0 {
        p + q
    } else {
        p - q
    }
}

#[derive(Clone, Copy, Debug)]
pub struct Bullet {
    /// Tag of the shooter.
    pub tag: usize,
    pub pos: Vec2,
    /// Heading at launch, in milliradians.
    pub facing: i64,
    /// Velocity given at launch.
    pub thrust_vector: Vec2,
    pub body: Body,
    pub velocity: Vec2,
    /// Set once the projectile left the board or hit an actor; it is swept
    /// away at the next tick.
    pub to_remove: bool,
    /// Palette index of the shooter's color.
    pub color: usize,
}

pub open spec fn launch_velocity(facing: int) -> Vec2 {
    Vec2 {
        x: (direction_spec(facing).x * (ACTOR_THRUST / UNIT)) as i64,
        y: (direction_spec(facing).y * (ACTOR_THRUST / UNIT)) as i64,
    }
}

/// The projectile of actor `tag` just launched from `pos` along `facing`.
pub open spec fn launched(tag: usize, pos: Vec2, facing: int, color: usize) -> Bullet {
    Bullet {
        tag,
        pos,
        facing: facing as i64,
        thrust_vector: launch_velocity(facing),
        body: Body { tag, is_bullet: true, radius: BULLET_RADIUS, pos },
        velocity: launch_velocity(facing),
        to_remove: false,
        color,
    }
}

/// A projectile after one integration step of `dt` microseconds.
pub open spec fn bullet_step(b: Bullet, arena: Arena, dt: int) -> Bullet {
    let v = clamp_spec(b.velocity, MAX_PHYSICS_VEL as int);
    let pos = Vec2 {
        x: advance(b.pos.x as int, v.0, dt, BULLET_SPEED_FACTOR as int) as i64,
        y: advance(b.pos.y as int, v.1, dt, BULLET_SPEED_FACTOR as int) as i64,
    };
    Bullet {
        pos,
        body: Body { pos, ..b.body },
        velocity: Vec2 { x: v.0 as i64, y: v.1 as i64 },
        to_remove: !arena.contains(pos),
        ..b
    }
}

impl Bullet {
    pub open spec fn wf(self) -> bool {
        &&& self.pos.within(BULLET_FAR_LIMIT as int)
        &&& !self.to_remove ==> self.pos.within(BULLET_POS_LIMIT as int)
        &&& self.velocity.within(2_000_000)
        &&& self.body == (Body { tag: self.tag, is_bullet: true, radius: BULLET_RADIUS, pos: self.pos })
    }

    /// A projectile of actor `tag` launched from `pos` along `facing`.
    pub fn new(tag: usize, pos: Vec2, facing: i64, color: usize) -> (b: Bullet)
        requires
            pos.within(BULLET_POS_LIMIT as int),
            -ANGLE_LIMIT <= facing <= ANGLE_LIMIT - HALF_PI_MRAD,
        ensures
            b.wf(),
            b == launched(tag, pos, facing as int, color),
    {
        let d: Vec2 = direction(facing);
        let thrust_vector = Vec2 { x: d.x * (ACTOR_THRUST / UNIT), y: d.y * (ACTOR_THRUST / UNIT) };
        Bullet {
            tag,
            pos,
            facing,
            thrust_vector,
            body: Body::new(tag, true, BULLET_RADIUS, pos),
            velocity: thrust_vector,
            to_remove: false,
            color,
        }
    }

    /// Moves the projectile for `dt` microseconds, its speed first clamped
    /// to `MAX_PHYSICS_VEL`; marks it for removal when it left the board.
    pub fn update(&mut self, arena: &Arena, dt: i64)
        requires
            old(self).wf(),
            !old(self).to_remove,
            arena.wf(),
            0 <= dt <= MAX_DT,
        ensures
            final(self).wf(),
            *final(self) == bullet_step(*old(self), *arena, dt as int),
            (final(self).velocity.x as int, final(self).velocity.y as int) == clamp_spec(
                old(self).velocity,
                MAX_PHYSICS_VEL as int,
            ),
            final(self).velocity.norm_sq() <= MAX_PHYSICS_VEL * MAX_PHYSICS_VEL,
            final(self).pos.x == advance(
                old(self).pos.x as int,
                final(self).velocity.x as int,
                dt as int,
                BULLET_SPEED_FACTOR as int,
            ),
            final(self).pos.y == advance(
                old(self).pos.y as int,
                final(self).velocity.y as int,
                dt as int,
                BULLET_SPEED_FACTOR as int,
            ),
            final(self).to_remove == !arena.contains(final(self).pos),
            final(self).tag == old(self).tag,
            final(self).facing == old(self).facing,
            final(self).color == old(self).color,
            final(self).thrust_vector == old(self).thrust_vector,
    {
        self.velocity = clamp_velocity(self.velocity, MAX_PHYSICS_VEL);
        proof {
            lemma_components_within(self.velocity, MAX_PHYSICS_VEL as int);
        }
        let x: i64 = advance_exec(self.pos.x, self.velocity.x, dt, BULLET_SPEED_FACTOR);
        let y: i64 = advance_exec(self.pos.y, self.velocity.y, dt, BULLET_SPEED_FACTOR);
        self.pos = Vec2 { x, y };
        self.body.update(self.pos);
        self.to_remove = !self.in_bbox(arena);
    }

    /// The projectile is on the board.
    pub fn in_bbox(&self, arena: &Arena) -> (r: bool)
        ensures
            r == arena.contains(self.pos),
    {
        if self.pos.x < 0 || self.pos.x > arena.width {
            return false;
        }
        if self.pos.y < 0 || self.pos.y > arena.height {
            return false;
        }
        true
    }
}

} // verus!
