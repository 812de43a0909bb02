//! The rectangle the actors live in, and what happens at its edges.

use crate::geometry::Vec2;
use vstd::prelude::*;

verus! {

/// Size of an actor's hitbox.
pub const HITBOX_SIZE: i64 = 3000;

/// How far past an edge an actor may go before the boundary policy acts.
pub const EDGE_OFFSET: i64 = 6000;

/// Smallest arena side: one integration step of an actor never crosses it.
pub const MIN_ARENA: i64 = 300_000;

/// Largest arena side.
pub const MAX_ARENA: i64 = 500_000_000;

/// The arena spans `[0, width] x [0, height]`.
#[derive(Clone, Copy, Debug, PartialEq, Eq, Structural)]
pub struct Arena {
    pub width: i64,
    pub height: i64,
}

impl Arena {
    pub open spec fn wf(self) -> bool {
        MIN_ARENA <= self.width <= MAX_ARENA && MIN_ARENA <= self.height <= MAX_ARENA
    }

    /// The band an actor's position stays in after each step.
    pub open spec fn holds(self, p: Vec2) -> bool {
        in_band(p.x as int, self.width as int) && in_band(p.y as int, self.height as int)
    }

    /// The point lies inside the arena (projectiles leave the board otherwise).
    pub open spec fn contains(self, p: Vec2) -> bool {
        0 <= p.x <= self.width && 0 <= p.y <= self.height
    }

    pub fn new(width: i64, height: i64) -> (a: Arena)
        ensures
            a == (Arena { width, height }),
    {
        Arena { width, height }
    }
}

pub open spec fn in_band(c: int, bound: int) -> bool {
    -(EDGE_OFFSET / 2) <= c <= bound + EDGE_OFFSET / 2
}

/// A coordinate past one edge of the band reappears past the opposite edge.
pub open spec fn wrap_coord(c: int, bound: int) -> int {
    if c < -(EDGE_OFFSET / 2) {
        c + bound + EDGE_OFFSET
    } else if c > bound + EDGE_OFFSET / 2 {
        c - (bound + EDGE_OFFSET)
    } else {
        c
    }
}

/// A coordinate past one edge of the band is put back inside, an offset away
/// from that edge.
pub open spec fn confine_coord(c: int, bound: int) -> int {
    if c < -(EDGE_OFFSET / 2) {
        EDGE_OFFSET as int
    } else if c > bound + EDGE_OFFSET / 2 {
        bound - EDGE_OFFSET
    } else {
        c
    }
}

pub open spec fn bounded_point(p: Vec2, wrap: bool, a: Arena) -> Vec2 {
    if wrap {
        Vec2 { x: wrap_coord(p.x as int, a.width as int) as i64, y: wrap_coord(p.y as int, a.height as int) as i64 }
    } else {
        Vec2 {
            x: confine_coord(p.x as int, a.width as int) as i64,
            y: confine_coord(p.y as int, a.height as int) as i64,
        }
    }
}

pub fn wrap_coordinate(c: i64, bound: i64) -> (r: i64)
    requires
        MIN_ARENA <= bound <= MAX_ARENA,
        -2 * MAX_ARENA <= c <= 2 * MAX_ARENA,
    ensures
        r == wrap_coord(c as int, bound as int),
{
    if c < -(EDGE_OFFSET / 2) {
        c + bound + EDGE_OFFSET
    } else if c > bound + EDGE_OFFSET / 2 {
        c - (bound + EDGE_OFFSET)
    } else {
        c
    }
}

pub fn confine_coordinate(c: i64, bound: i64) -> (r: i64)
    requires
        MIN_ARENA <= bound <= MAX_ARENA,
    ensures
        r == confine_coord(c as int, bound as int),
{
    if c < -(EDGE_OFFSET / 2) {
        EDGE_OFFSET
    } else if c > bound + EDGE_OFFSET / 2 {
        bound - EDGE_OFFSET
    } else {
        c
    }
}

/// Applies the boundary policy (`wrap` or confine) to a point.
pub fn bound_point(p: Vec2, wrap: bool, a: &Arena) -> (r: Vec2)
    requires
        a.wf(),
        p.within(2 * MAX_ARENA),
    ensures
        r == bounded_point(p, wrap, *a),
{
    if wrap {
        Vec2 { x: wrap_coordinate(p.x, a.width), y: wrap_coordinate(p.y, a.height) }
    } else {
        Vec2 { x: confine_coordinate(p.x, a.width), y: confine_coordinate(p.y, a.height) }
    }
}

/// Wrapping is a round trip: a coordinate that left the band by less than
/// the arena's side comes back into it, shifted by exactly one period (so the
/// motion goes on from the opposite edge), and wrapping it again changes
/// nothing. Confining also lands in the band.
pub proof fn lemma_wrap_round_trip(c: int, bound: int)
    requires
        MIN_ARENA <= bound <= MAX_ARENA,
        -(EDGE_OFFSET / 2) - bound <= c <= 2 * bound + EDGE_OFFSET / 2,
    ensures
        in_band(wrap_coord(c, bound), bound),
        wrap_coord(wrap_coord(c, bound), bound) == wrap_coord(c, bound),
        in_band(c, bound) ==> wrap_coord(c, bound) == c,
        c < -(EDGE_OFFSET / 2) ==> wrap_coord(c, bound) == c + (bound + EDGE_OFFSET),
        c > bound + EDGE_OFFSET / 2 ==> wrap_coord(c, bound) == c - (bound + EDGE_OFFSET),
        in_band(confine_coord(c, bound), bound),
{
}

/// A point in the band, moved by less than the smallest arena side and then
/// bounded by either policy, is in the band again.
pub proof fn lemma_bounded_point_holds(p: Vec2, wrap: bool, a: Arena)
    requires
        a.wf(),
        -(EDGE_OFFSET / 2) - a.width <= p.x <= 2 * a.width + EDGE_OFFSET / 2,
        -(EDGE_OFFSET / 2) - a.height <= p.y <= 2 * a.height + EDGE_OFFSET / 2,
    ensures
        a.holds(bounded_point(p, wrap, a)),
{
    lemma_wrap_round_trip(p.x as int, a.width as int);
    lemma_wrap_round_trip(p.y as int, a.height as int);
}

} // verus!
