//! Points, circular bodies and the primitive queries on them.

use vstd::arithmetic::div_mod::lemma_fundamental_div_mod_converse;
use vstd::prelude::*;

verus! {

/// Length of a direction vector: `(0, UNIT)` points along the y axis.
pub const UNIT: i64 = 1000;

/// Bound on the absolute value of every coordinate a body may hold.
pub const COORD_LIMIT: i64 = 2_000_000_000;

/// Bound on a body's radius.
pub const RADIUS_LIMIT: i64 = 1_000_000;

/// Bound on the absolute value of each component of a velocity.
pub const VEL_LIMIT: i64 = 1_000_000_000;

/// A point or a vector of the plane.
#[derive(Clone, Copy, Debug, PartialEq, Eq, Structural)]
pub struct Vec2 {
    pub x: i64,
    pub y: i64,
}

impl Vec2 {
    pub open spec fn within(self, lim: int) -> bool {
        -lim <= self.x <= lim && -lim <= self.y <= lim
    }

    pub open spec fn norm_sq(self) -> int {
        self.x * self.x + self.y * self.y
    }
}

pub open spec fn magnitude(x: int) -> int {
    if x < 0 {
        -x
    } else {
        x
    }
}

/// A vector no longer than `m` has no component larger than `m`.
pub proof fn lemma_components_within(v: Vec2, m: int)
    requires
        0 <= m,
        v.norm_sq() <= m * m,
    ensures
        v.within(m),
{
    assert(-m <= v.x <= m && -m <= v.y <= m) by (nonlinear_arith)
        requires
            v.x * v.x + v.y * v.y <= m * m,
            0 <= m,
    {
        if v.x > m || v.x < -m {
            assert(v.x * v.x > m * m);
        }
        if v.y > m || v.y < -m {
            assert(v.y * v.y > m * m);
        }
    }
}

pub open spec fn dist_sq(a: Vec2, b: Vec2) -> int {
    (a.x - b.x) * (a.x - b.x) + (a.y - b.y) * (a.y - b.y)
}

/// A circle at a position: what sensors and collisions see of an actor or a
/// projectile.
#[derive(Clone, Copy, Debug, PartialEq, Eq, Structural)]
pub struct Body {
    /// Tag of the actor that owns it (the shooter, for a projectile).
    pub tag: usize,
    pub is_bullet: bool,
    pub radius: i64,
    pub pos: Vec2,
}

/// Two circles touch or overlap.
pub open spec fn contact(a: Body, b: Body) -> bool {
    dist_sq(a.pos, b.pos) <= (a.radius + b.radius) * (a.radius + b.radius)
}

impl Body {
    pub open spec fn wf(self) -> bool {
        0 <= self.radius <= RADIUS_LIMIT && self.pos.within(COORD_LIMIT as int)
    }

    pub fn new(tag: usize, is_bullet: bool, radius: i64, pos: Vec2) -> (b: Body)
        ensures
            b == (Body { tag, is_bullet, radius, pos }),
    {
        Body { tag, is_bullet, radius, pos }
    }

    /// Moves the body to its owner's position.
    pub fn update(&mut self, pos: Vec2)
        ensures
            *final(self) == (Body { pos, ..*old(self) }),
    {
        self.pos = pos;
    }

    /// The two bodies touch.
    pub fn in_contact(&self, body: &Body) -> (r: bool)
        requires
            self.wf(),
            body.wf(),
        ensures
            r == contact(*self, *body),
    {
        let dx: i128 = self.pos.x as i128 - body.pos.x as i128;
        let dy: i128 = self.pos.y as i128 - body.pos.y as i128;
        let rr: i128 = self.radius as i128 + body.radius as i128;
        assert(0 <= dx * dx <= 16_000_000_000_000_000_000) by (nonlinear_arith)
            requires
                -4_000_000_000 <= dx <= 4_000_000_000,
        ;
        assert(0 <= dy * dy <= 16_000_000_000_000_000_000) by (nonlinear_arith)
            requires
                -4_000_000_000 <= dy <= 4_000_000_000,
        ;
        assert(rr * rr <= 4_000_000_000_000) by (nonlinear_arith)
            requires
                0 <= rr <= 2_000_000,
        ;
        dx * dx + dy * dy <= rr * rr
    }
}

/// Contact does not depend on the order of the two bodies.
pub proof fn lemma_contact_symmetric(a: Body, b: Body)
    ensures
        contact(a, b) == contact(b, a),
{
    assert((a.pos.x - b.pos.x) * (a.pos.x - b.pos.x) == (b.pos.x - a.pos.x) * (b.pos.x - a.pos.x))
        by (nonlinear_arith);
    assert((a.pos.y - b.pos.y) * (a.pos.y - b.pos.y) == (b.pos.y - a.pos.y) * (b.pos.y - a.pos.y))
        by (nonlinear_arith);
}

/// `s` is the square root of `n`, rounded down.
pub open spec fn is_floor_sqrt(n: int, s: int) -> bool {
    0 <= s && s * s <= n && n < (s + 1) * (s + 1)
}

/// The square root of a non-negative `n`, rounded down.
pub open spec fn floor_sqrt(n: int) -> int {
    choose|s: int| is_floor_sqrt(n, s)
}

/// The square root rounded down is unique.
pub proof fn lemma_floor_sqrt_unique(n: int, a: int, b: int)
    requires
        is_floor_sqrt(n, a),
        is_floor_sqrt(n, b),
    ensures
        a == b,
{
    if a < b {
        assert((a + 1) * (a + 1) <= b * b) by (nonlinear_arith)
            requires
                0 <= a,
                a + 1 <= b,
        ;
    } else if b < a {
        assert((b + 1) * (b + 1) <= a * a) by (nonlinear_arith)
            requires
                0 <= b,
                b + 1 <= a,
        ;
    }
}

/// Largest `s` with `s * s <= n`.
pub fn isqrt(n: u128) -> (s: u128)
    requires
        n < 0x10000000000000000000000000,
    ensures
        is_floor_sqrt(n as int, s as int),
        s as int == floor_sqrt(n as int),
        s < 0x4000000000000,
{
    let mut lo: u128 = 0;
    let mut hi: u128 = 0x4000000000000;
    assert(hi * hi == 0x10000000000000000000000000) by (nonlinear_arith)
        requires
            hi == 0x4000000000000,
    ;
    while hi - lo > 1
        invariant
            lo < hi <= 0x4000000000000,
            lo * lo <= n,
            n < hi * hi,
        decreases hi - lo,
    {
        let mid: u128 = lo + (hi - lo) / 2;
        assert(mid * mid <= 0x10000000000000000000000000) by (nonlinear_arith)
            requires
                mid <= 0x4000000000000,
        ;
        if mid * mid <= n {
            lo = mid;
        } else {
            hi = mid;
        }
    }
    proof {
        assert(is_floor_sqrt(n as int, lo as int));
        let t = floor_sqrt(n as int);
        assert(is_floor_sqrt(n as int, t));
        lemma_floor_sqrt_unique(n as int, t, lo as int);
    }
    lo
}

pub open spec fn clamped_component(c: int, max: int, s: int) -> int {
    if c >= 0 {
        c * max / s
    } else {
        -((-c) * max / s)
    }
}

/// A velocity whose norm exceeds `max` is scaled down onto the circle of that
/// radius, rounding each component towards zero; any other is kept.
pub open spec fn clamp_spec(v: Vec2, max: int) -> (int, int) {
    if v.norm_sq() <= max * max {
        (v.x as int, v.y as int)
    } else {
        let f = floor_sqrt(v.norm_sq());
        let s = if f * f == v.norm_sq() {
            f
        } else {
            f + 1
        };
        (clamped_component(v.x as int, max, s), clamped_component(v.y as int, max, s))
    }
}

proof fn lemma_scaled_square(c: int, max: int, s: int)
    requires
        0 < s,
        0 <= max,
    ensures
        clamped_component(c, max, s) * clamped_component(c, max, s) * s * s <= c * c * max * max,
{
    let a = if c >= 0 {
        c
    } else {
        -c
    };
    let q = a * max / s;
    assert(q * s <= a * max) by (nonlinear_arith)
        requires
            0 < s,
            0 <= a * max,
            q == a * max / s,
    ;
    assert(0 <= q) by (nonlinear_arith)
        requires
            0 < s,
            0 <= a * max,
            q == a * max / s,
    ;
    assert(q * q * s * s <= a * a * max * max) by (nonlinear_arith)
        requires
            0 <= q,
            0 < s,
            q * s <= a * max,
    ;
    assert(a * a == c * c) by (nonlinear_arith)
        requires
            a == c || a == -c,
    ;
    assert(clamped_component(c, max, s) * clamped_component(c, max, s) == q * q) by (nonlinear_arith)
        requires
            clamped_component(c, max, s) == q || clamped_component(c, max, s) == -q,
    ;
}

/// Scales a velocity down to the norm `max` when it is larger.
pub fn clamp_velocity(v: Vec2, max: i64) -> (r: Vec2)
    requires
        v.within(VEL_LIMIT as int),
        0 <= max <= VEL_LIMIT,
    ensures
        (r.x as int, r.y as int) == clamp_spec(v, max as int),
        r.norm_sq() <= max * max,
        v.norm_sq() <= max * max ==> r == v,
{
    assert(v.x * v.x <= 1_000_000_000_000_000_000) by (nonlinear_arith)
        requires
            -1_000_000_000 <= v.x <= 1_000_000_000,
    ;
    assert(v.y * v.y <= 1_000_000_000_000_000_000) by (nonlinear_arith)
        requires
            -1_000_000_000 <= v.y <= 1_000_000_000,
    ;
    assert(0 <= v.x * v.x && 0 <= v.y * v.y) by (nonlinear_arith);
    let n: i128 = v.x as i128 * v.x as i128 + v.y as i128 * v.y as i128;
    assert(0 <= max * max <= 1_000_000_000_000_000_000) by (nonlinear_arith)
        requires
            0 <= max <= 1_000_000_000,
    ;
    let m: i128 = max as i128 * max as i128;
    if n <= m {
        return v;
    }
    let f: u128 = isqrt(n as u128);
    let s: i128 = if f as i128 * f as i128 == n {
        f as i128
    } else {
        f as i128 + 1
    };
    assert(0 < s && s * s >= n) by (nonlinear_arith)
        requires
            is_floor_sqrt(n as int, f as int),
            s == f || s == f + 1,
            s == f ==> f * f == n,
            n > m >= 0,
    ;
    assert(s <= 2_000_000_000) by (nonlinear_arith)
        requires
            is_floor_sqrt(n as int, f as int),
            s <= f + 1,
            n <= 2_000_000_000_000_000_000,
    ;
    let ax: i128 = if v.x >= 0 {
        v.x as i128
    } else {
        -(v.x as i128)
    };
    let ay: i128 = if v.y >= 0 {
        v.y as i128
    } else {
        -(v.y as i128)
    };
    assert(ax * max <= 1_000_000_000_000_000_000 && ay * max <= 1_000_000_000_000_000_000)
        by (nonlinear_arith)
        requires
            0 <= ax <= 1_000_000_000,
            0 <= ay <= 1_000_000_000,
            0 <= max <= 1_000_000_000,
    ;
    assert(0 <= ax * max && 0 <= ay * max) by (nonlinear_arith)
        requires
            0 <= ax,
            0 <= ay,
            0 <= max,
    ;
    let qx: i128 = ax * max as i128 / s;
    let qy: i128 = ay * max as i128 / s;
    assert(qx <= ax && qy <= ay) by (nonlinear_arith)
        requires
            0 < s,
            s * s >= n,
            n > m,
            m == max * max,
            0 <= max,
            0 <= ax,
            0 <= ay,
            qx as int == (ax as int * max as int) / (s as int),
            qy as int == (ay as int * max as int) / (s as int),
    {
        // max < s, since max * max < s * s
        if max >= s {
            assert(max * max >= s * s);
        }
        assert(ax * max <= ax * s);
        assert(ay * max <= ay * s);
    }
    let rx: i64 = if v.x >= 0 {
        qx as i64
    } else {
        -(qx as i64)
    };
    let ry: i64 = if v.y >= 0 {
        qy as i64
    } else {
        -(qy as i64)
    };
    proof {
        let fs = floor_sqrt(n as int);
        assert(fs == f as int);
        assert((rx as int, ry as int) == clamp_spec(v, max as int));
        lemma_scaled_square(v.x as int, max as int, s as int);
        lemma_scaled_square(v.y as int, max as int, s as int);
        let cx = rx as int;
        let cy = ry as int;
        let nn = n as int;
        let mm = max as int;
        let ss = s as int;
        assert(cx * cx * ss * ss + cy * cy * ss * ss <= nn * mm * mm) by (nonlinear_arith)
            requires
                cx * cx * ss * ss <= v.x * v.x * mm * mm,
                cy * cy * ss * ss <= v.y * v.y * mm * mm,
                nn == v.x * v.x + v.y * v.y,
        ;
        assert(cx * cx + cy * cy <= mm * mm) by (nonlinear_arith)
            requires
                cx * cx * ss * ss + cy * cy * ss * ss <= nn * mm * mm,
                ss * ss >= nn,
                nn > 0,
                ss > 0,
        {
            if cx * cx + cy * cy > mm * mm {
                assert((cx * cx + cy * cy) * (ss * ss) >= (mm * mm + 1) * (ss * ss));
                assert((mm * mm + 1) * (ss * ss) >= (mm * mm + 1) * nn);
            }
        }
    }
    Vec2 { x: rx, y: ry }
}

/// Half a turn, in milliradians.
pub const PI_MRAD: i64 = 3142;

/// A quarter turn, in milliradians.
pub const HALF_PI_MRAD: i64 = 1571;

/// A full turn, in milliradians.
pub const TAU_MRAD: i64 = 6284;

/// Bound on the absolute value of an angle handed to `direction`.
pub const ANGLE_LIMIT: i64 = 1_000_000_000_000_000;

/// Bhaskara's rational approximation of the sine on `[0, PI]`, scaled by
/// `UNIT`.
pub open spec fn half_wave(x: int) -> int {
    let p = x * (PI_MRAD - x);
    (16 * UNIT * p) / (5 * PI_MRAD * PI_MRAD - 4 * p)
}

/// The sine of an angle in milliradians, scaled by `UNIT`.
pub open spec fn sin_spec(a: int) -> int {
    let m = a % (TAU_MRAD as int);
    if m <= PI_MRAD {
        half_wave(m)
    } else {
        -half_wave(m - PI_MRAD)
    }
}

/// The unit vector of a heading: `(sin a, cos a)`, so that heading 0 points
/// along the y axis.
pub open spec fn direction_spec(a: int) -> Vec2 {
    Vec2 { x: sin_spec(a) as i64, y: sin_spec(a + HALF_PI_MRAD) as i64 }
}

/// The angle brought into `[0, TAU_MRAD)`.
pub fn normalize_angle(a: i64) -> (m: i64)
    requires
        -ANGLE_LIMIT <= a <= ANGLE_LIMIT,
    ensures
        m as int == a as int % (TAU_MRAD as int),
        0 <= m < TAU_MRAD,
{
    if a >= 0 {
        let q: i64 = a / TAU_MRAD;
        let r: i64 = a % TAU_MRAD;
        proof {
            lemma_fundamental_div_mod_converse(a as int, TAU_MRAD as int, q as int, r as int);
        }
        r
    } else {
        let b: i64 = -a;
        let q: i64 = b / TAU_MRAD;
        let r: i64 = b % TAU_MRAD;
        if r == 0 {
            proof {
                lemma_fundamental_div_mod_converse(a as int, TAU_MRAD as int, -q, 0);
            }
            0
        } else {
            proof {
                lemma_fundamental_div_mod_converse(
                    a as int,
                    TAU_MRAD as int,
                    -q - 1,
                    TAU_MRAD - r,
                );
            }
            TAU_MRAD - r
        }
    }
}

fn half_wave_exec(x: i64) -> (r: i64)
    requires
        0 <= x <= PI_MRAD,
    ensures
        r == half_wave(x as int),
        0 <= r <= UNIT,
{
    assert(0 <= x * (PI_MRAD - x) <= PI_MRAD * PI_MRAD) by (nonlinear_arith)
        requires
            0 <= x <= PI_MRAD,
    ;
    let p: i64 = x * (PI_MRAD - x);
    assert(0 <= 4 * p <= PI_MRAD * PI_MRAD) by (nonlinear_arith)
        requires
            0 <= x <= PI_MRAD,
            p == x * (PI_MRAD - x),
    {
        assert((PI_MRAD - 2 * x) * (PI_MRAD - 2 * x) >= 0);
    }
    let den: i64 = 5 * PI_MRAD * PI_MRAD - 4 * p;
    let num: i64 = 16 * UNIT * p;
    assert(num / den <= UNIT) by (nonlinear_arith)
        requires
            den >= 4 * PI_MRAD * PI_MRAD,
            num == 16 * UNIT * p,
            0 <= 4 * p <= PI_MRAD * PI_MRAD,
            den == 5 * PI_MRAD * PI_MRAD - 4 * p,
    {
        assert(num <= UNIT * den);
    }
    assert(0 <= num / den) by (nonlinear_arith)
        requires
            den > 0,
            num >= 0,
    ;
    num / den
}

/// The sine of an angle, scaled by `UNIT`.
pub fn sin_milli(a: i64) -> (r: i64)
    requires
        -ANGLE_LIMIT <= a <= ANGLE_LIMIT,
    ensures
        r == sin_spec(a as int),
        -UNIT <= r <= UNIT,
{
    let m: i64 = normalize_angle(a);
    if m <= PI_MRAD {
        half_wave_exec(m)
    } else {
        -half_wave_exec(m - PI_MRAD)
    }
}

/// The direction vector of a heading.
pub fn direction(a: i64) -> (d: Vec2)
    requires
        -ANGLE_LIMIT <= a <= ANGLE_LIMIT - HALF_PI_MRAD,
    ensures
        d == direction_spec(a as int),
        d.within(UNIT as int),
{
    Vec2 { x: sin_milli(a), y: sin_milli(a + HALF_PI_MRAD) }
}

/// Distance along a ray from `o` with direction `d` (of length about `UNIT`)
/// to the first point of the body's circle, rounded down; `Some(0)` when `o`
/// lies inside the circle and `None` when the ray misses it.
pub open spec fn ray_toi(o: Vec2, d: Vec2, b: Body) -> Option<int> {
    let wx = b.pos.x - o.x;
    let wy = b.pos.y - o.y;
    let dot = wx * d.x + wy * d.y;
    let cross = wx * d.y - wy * d.x;
    let reach = b.radius * UNIT;
    if wx * wx + wy * wy <= b.radius * b.radius {
        Some(0)
    } else if dot < 0 || cross * cross > reach * reach {
        None
    } else {
        let near = dot - floor_sqrt(reach * reach - cross * cross);
        if near <= 0 {
            Some(0)
        } else {
            Some(near / (UNIT as int))
        }
    }
}

/// The ray's time of impact on a body.
pub fn ray_time_of_impact(o: Vec2, d: Vec2, b: &Body) -> (r: Option<i64>)
    requires
        o.within(COORD_LIMIT as int),
        d.within(UNIT as int),
        b.wf(),
    ensures
        r.is_some() == ray_toi(o, d, *b).is_some(),
        r.is_some() ==> r.unwrap() as int == ray_toi(o, d, *b).unwrap(),
        r.is_some() ==> 0 <= r.unwrap(),
{
    let wx: i128 = b.pos.x as i128 - o.x as i128;
    let wy: i128 = b.pos.y as i128 - o.y as i128;
    let dx: i128 = d.x as i128;
    let dy: i128 = d.y as i128;
    let rad: i128 = b.radius as i128;
    assert(0 <= wx * wx <= 16_000_000_000_000_000_000 && 0 <= wy * wy <= 16_000_000_000_000_000_000
        && 0 <= rad * rad <= 1_000_000_000_000) by (nonlinear_arith)
        requires
            -4_000_000_000 <= wx <= 4_000_000_000,
            -4_000_000_000 <= wy <= 4_000_000_000,
            0 <= rad <= 1_000_000,
    ;
    if wx * wx + wy * wy <= rad * rad {
        return Some(0);
    }
    assert(-4_000_000_000_000 <= wx * dx <= 4_000_000_000_000 && -4_000_000_000_000 <= wy * dy
        <= 4_000_000_000_000 && -4_000_000_000_000 <= wx * dy <= 4_000_000_000_000
        && -4_000_000_000_000 <= wy * dx <= 4_000_000_000_000) by (nonlinear_arith)
        requires
            -4_000_000_000 <= wx <= 4_000_000_000,
            -4_000_000_000 <= wy <= 4_000_000_000,
            -1000 <= dx <= 1000,
            -1000 <= dy <= 1000,
    ;
    let dot: i128 = wx * dx + wy * dy;
    let cross: i128 = wx * dy - wy * dx;
    let reach: i128 = rad * 1000;
    assert(0 <= cross * cross <= 64_000_000_000_000_000_000_000_000 && 0 <= reach * reach
        <= 1_000_000_000_000_000_000) by (nonlinear_arith)
        requires
            -8_000_000_000_000 <= cross <= 8_000_000_000_000,
            0 <= reach <= 1_000_000_000,
    ;
    if dot < 0 || cross * cross > reach * reach {
        return None;
    }
    let root: u128 = isqrt((reach * reach - cross * cross) as u128);
    let near: i128 = dot - root as i128;
    if near <= 0 {
        Some(0)
    } else {
        assert(near / 1000 <= 8_000_000_000_000) by (nonlinear_arith)
            requires
                0 < near <= 8_000_000_000_000,
        ;
        Some((near / 1000) as i64)
    }
}

} // verus!
