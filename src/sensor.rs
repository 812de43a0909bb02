//! A directional range probe attached to an actor.

use crate::geometry::{
    direction, direction_spec, floor_sqrt, is_floor_sqrt, lemma_floor_sqrt_unique, ray_time_of_impact,
    ray_toi, Body, Vec2, COORD_LIMIT, UNIT,
};
use vstd::prelude::*;

verus! {

/// How far a sensor sees.
pub const SENSOR_MAX_DIST: i64 = 150_000;

/// Magnitude of the signal that reports an empty view (it is reported
/// negated).
pub const NOTHINGNESS: i64 = 999_000;

/// Value of the first output when a projectile is seen.
pub const BULLET_SEEN: i64 = 10;

/// Value of the second output when an actor is seen.
pub const PANDA_SEEN: i64 = 1;

/// Number of values a sensor reports.
pub const SENSOR_OUTPUT_LEN: usize = 3;

/// Bound on the absolute value of a sensor's heading.
pub const SENSOR_ANGLE_LIMIT: i64 = 100_000_000_000_000;

/// The body is one a sensor of actor `tag` at `o` looking along `d` can
/// report: someone else's, hit by the ray, within range.
pub open spec fn sees(tag: usize, o: Vec2, d: Vec2, b: Body) -> bool {
    b.tag != tag && ray_toi(o, d, b).is_some() && ray_toi(o, d, b).unwrap() <= SENSOR_MAX_DIST
}

pub open spec fn hit_dist(o: Vec2, d: Vec2, b: Body) -> int {
    ray_toi(o, d, b).unwrap()
}

/// The nearest body seen, as its distance and whether a projectile is seen at
/// that distance, over the bodies in the order given.
pub open spec fn scan(tag: usize, o: Vec2, d: Vec2, bodies: Seq<Body>) -> Option<(int, bool)>
    decreases bodies.len(),
{
    if bodies.len() == 0 {
        None
    } else {
        let rest = scan(tag, o, d, bodies.drop_last());
        let b = bodies.last();
        if !sees(tag, o, d, b) {
            rest
        } else {
            let t = hit_dist(o, d, b);
            match rest {
                None => Some((t, b.is_bullet)),
                Some(p) => if t < p.0 {
                    Some((t, b.is_bullet))
                } else if t == p.0 {
                    Some((t, p.1 || b.is_bullet))
                } else {
                    rest
                },
            }
        }
    }
}

/// What a sensor reports for a scan: `[is_bullet, is_panda, signal]`.
pub open spec fn reading(hit: Option<(int, bool)>) -> Seq<int> {
    match hit {
        None => seq![0, 0, -NOTHINGNESS as int],
        Some(p) => if p.1 {
            seq![BULLET_SEEN as int, 0, SENSOR_MAX_DIST - p.0]
        } else {
            seq![0, PANDA_SEEN as int, SENSOR_MAX_DIST - p.0]
        },
    }
}

/// The scan reports the nearest body seen, and a projectile whenever one is
/// seen at that distance; it reports nothing exactly when nothing is seen.
pub proof fn lemma_scan_nearest(tag: usize, o: Vec2, d: Vec2, bodies: Seq<Body>)
    ensures
        scan(tag, o, d, bodies).is_none() <==> (forall|i: int|
            0 <= i < bodies.len() ==> !sees(tag, o, d, #[trigger] bodies[i])),
        scan(tag, o, d, bodies).is_some() ==> {
            let (t, bullet) = scan(tag, o, d, bodies).unwrap();
            &&& exists|i: int|
                0 <= i < bodies.len() && sees(tag, o, d, #[trigger] bodies[i]) && hit_dist(
                    o,
                    d,
                    bodies[i],
                ) == t
            &&& forall|i: int|
                0 <= i < bodies.len() && sees(tag, o, d, #[trigger] bodies[i]) ==> t <= hit_dist(
                    o,
                    d,
                    bodies[i],
                )
            &&& bullet <==> exists|i: int|
                0 <= i < bodies.len() && sees(tag, o, d, #[trigger] bodies[i]) && hit_dist(
                    o,
                    d,
                    bodies[i],
                ) == t && bodies[i].is_bullet
        },
    decreases bodies.len(),
{
    if bodies.len() > 0 {
        let rest = bodies.drop_last();
        lemma_scan_nearest(tag, o, d, rest);
        assert(forall|i: int| 0 <= i < rest.len() ==> rest[i] == bodies[i]);
        let n = bodies.len() - 1;
        assert(bodies[n] == bodies.last());
        if scan(tag, o, d, bodies).is_some() {
            let (t, bullet) = scan(tag, o, d, bodies).unwrap();
            if scan(tag, o, d, rest).is_some() {
                let (t0, b0) = scan(tag, o, d, rest).unwrap();
                let j = choose|i: int|
                    0 <= i < rest.len() && sees(tag, o, d, #[trigger] rest[i]) && hit_dist(
                        o,
                        d,
                        rest[i],
                    ) == t0;
                assert(bodies[j] == rest[j]);
            }
            if bullet {
                if scan(tag, o, d, rest).is_some() {
                    let (t0, b0) = scan(tag, o, d, rest).unwrap();
                    if b0 && t0 == t {
                        let j = choose|i: int|
                            0 <= i < rest.len() && sees(tag, o, d, #[trigger] rest[i]) && hit_dist(
                                o,
                                d,
                                rest[i],
                            ) == t0 && rest[i].is_bullet;
                        assert(bodies[j] == rest[j]);
                    }
                }
            }
        }
    }
}

/// The reading depends only on which bodies are present, not on their
/// order nor on repetitions.
pub proof fn lemma_scan_order_independent(
    tag: usize,
    o: Vec2,
    d: Vec2,
    a: Seq<Body>,
    b: Seq<Body>,
)
    requires
        forall|x: Body| a.contains(x) <==> b.contains(x),
    ensures
        scan(tag, o, d, a) == scan(tag, o, d, b),
{
    lemma_scan_nearest(tag, o, d, a);
    lemma_scan_nearest(tag, o, d, b);
    if scan(tag, o, d, a).is_none() {
        if scan(tag, o, d, b).is_some() {
            let (t, _) = scan(tag, o, d, b).unwrap();
            let i = choose|i: int|
                0 <= i < b.len() && sees(tag, o, d, #[trigger] b[i]) && hit_dist(o, d, b[i]) == t;
            assert(b.contains(b[i]));
            assert(a.contains(b[i]));
            let j = choose|j: int| 0 <= j < a.len() && a[j] == b[i];
            assert(sees(tag, o, d, a[j]));
        }
    } else {
        let (ta, ba) = scan(tag, o, d, a).unwrap();
        let i = choose|i: int|
            0 <= i < a.len() && sees(tag, o, d, #[trigger] a[i]) && hit_dist(o, d, a[i]) == ta;
        assert(a.contains(a[i]));
        assert(b.contains(a[i]));
        let j = choose|j: int| 0 <= j < b.len() && b[j] == a[i];
        assert(sees(tag, o, d, b[j]));
        let (tb, bb) = scan(tag, o, d, b).unwrap();
        let k = choose|k: int|
            0 <= k < b.len() && sees(tag, o, d, #[trigger] b[k]) && hit_dist(o, d, b[k]) == tb;
        assert(b.contains(b[k]));
        assert(a.contains(b[k]));
        let l = choose|l: int| 0 <= l < a.len() && a[l] == b[k];
        assert(sees(tag, o, d, a[l]));
        assert(ta == tb);
        if ba {
            let m = choose|m: int|
                0 <= m < a.len() && sees(tag, o, d, #[trigger] a[m]) && hit_dist(o, d, a[m]) == ta
                    && a[m].is_bullet;
            assert(a.contains(a[m]));
            assert(b.contains(a[m]));
            let n = choose|n: int| 0 <= n < b.len() && b[n] == a[m];
            assert(sees(tag, o, d, b[n]));
        }
        if bb {
            let m = choose|m: int|
                0 <= m < b.len() && sees(tag, o, d, #[trigger] b[m]) && hit_dist(o, d, b[m]) == tb
                    && b[m].is_bullet;
            assert(b.contains(b[m]));
            assert(a.contains(b[m]));
            let n = choose|n: int| 0 <= n < a.len() && a[n] == b[m];
            assert(sees(tag, o, d, a[n]));
        }
    }
}

/// A ray looking straight at a body `dist` ahead of its origin hits it at
/// `dist` minus the body's radius, and a ray looking the other way misses it.
pub proof fn lemma_ray_straight_ahead(o: Vec2, b: Body, dist: int)
    requires
        0 <= b.radius < dist,
        b.pos.x == o.x,
        b.pos.y == o.y + dist,
    ensures
        ray_toi(o, Vec2 { x: 0, y: UNIT }, b) == Some(dist - b.radius),
        ray_toi(o, Vec2 { x: 0, y: -1000i64 }, b) == None::<int>,
{
    let r = b.radius as int;
    let reach = r * UNIT;
    assert(is_floor_sqrt(reach * reach, reach)) by (nonlinear_arith)
        requires
            reach >= 0,
    ;
    let s = floor_sqrt(reach * reach);
    assert(is_floor_sqrt(reach * reach, s));
    lemma_floor_sqrt_unique(reach * reach, s, reach);
    assert(dist * dist > r * r) by (nonlinear_arith)
        requires
            0 <= r < dist,
    ;
    assert((dist * UNIT - reach) / (UNIT as int) == dist - r) by (nonlinear_arith)
        requires
            reach == r * UNIT,
    ;
}

/// What a sensor reports of a single body straight ahead, within range:
/// its kind, and the range less the distance to the body's edge. Looking
/// the other way it reports nothing.
pub proof fn lemma_sensor_straight_ahead(tag: usize, o: Vec2, b: Body, dist: int)
    requires
        b.tag != tag,
        0 <= b.radius < dist,
        dist - b.radius <= SENSOR_MAX_DIST,
        b.pos.x == o.x,
        b.pos.y == o.y + dist,
    ensures
        reading(scan(tag, o, Vec2 { x: 0, y: UNIT }, seq![b])) == if b.is_bullet {
            seq![BULLET_SEEN as int, 0, SENSOR_MAX_DIST - (dist - b.radius)]
        } else {
            seq![0, PANDA_SEEN as int, SENSOR_MAX_DIST - (dist - b.radius)]
        },
        reading(scan(tag, o, Vec2 { x: 0, y: -1000i64 }, seq![b])) == seq![0, 0, -NOTHINGNESS as int],
{
    lemma_ray_straight_ahead(o, b, dist);
    let s = seq![b];
    let ahead = Vec2 { x: 0, y: UNIT };
    let behind = Vec2 { x: 0, y: -1000i64 };
    assert(s.drop_last() =~= Seq::<Body>::empty());
    assert(s.last() == b);
    assert(scan(tag, o, ahead, s.drop_last()) == None::<(int, bool)>);
    assert(scan(tag, o, behind, s.drop_last()) == None::<(int, bool)>);
    assert(sees(tag, o, ahead, b));
    assert(scan(tag, o, ahead, s) == Some((dist - b.radius, b.is_bullet)));
    assert(scan(tag, o, behind, s) == None::<(int, bool)>);
    if b.is_bullet {
        assert(reading(scan(tag, o, ahead, s)) =~= seq![
            BULLET_SEEN as int,
            0,
            SENSOR_MAX_DIST - (dist - b.radius),
        ]);
    } else {
        assert(reading(scan(tag, o, ahead, s)) =~= seq![
            0,
            PANDA_SEEN as int,
            SENSOR_MAX_DIST - (dist - b.radius),
        ]);
    }
    assert(reading(scan(tag, o, behind, s)) =~= seq![0, 0, -NOTHINGNESS as int]);
}

/// A ray probe: the tag of its actor, where it stands and looks, and what it
/// saw last.
#[derive(Clone, Copy, Debug)]
pub struct Sensor {
    /// Tag of the actor that owns the sensor.
    pub tag: usize,
    /// `SENSOR_MAX_DIST` minus the distance of what is seen, or
    /// `-NOTHINGNESS`.
    pub distance: i64,
    pub is_panda: i64,
    pub is_bullet: i64,
    /// Origin of the ray.
    pub pos: Vec2,
    /// Heading of the ray, in milliradians.
    pub facing: i64,
    /// `[is_bullet, is_panda, distance]`, as handed to the controller.
    pub output: [i64; 3],
}

impl Sensor {
    pub open spec fn wf(self) -> bool {
        &&& self.pos.within(COORD_LIMIT as int)
        &&& -SENSOR_ANGLE_LIMIT <= self.facing <= SENSOR_ANGLE_LIMIT
    }

    /// What the sensor reports after looking from `pos` at `bodies`.
    pub open spec fn sensed(self, pos: Vec2, bodies: Seq<Body>) -> Seq<int> {
        reading(scan(self.tag, pos, direction_spec(self.facing as int), bodies))
    }

    pub open spec fn output_seq(self) -> Seq<int> {
        seq![self.output[0] as int, self.output[1] as int, self.output[2] as int]
    }

    /// A sensor of actor `tag` at `pos` looking along `angle`, that has seen
    /// nothing yet.
    pub fn new(tag: usize, pos: Vec2, angle: i64) -> (s: Sensor)
        ensures
            s.tag == tag,
            s.pos == pos,
            s.facing == angle,
            s.distance == -NOTHINGNESS,
            s.is_panda == 0,
            s.is_bullet == 0,
            s.output_seq() == seq![0int, 0, 0],
    {
        Sensor {
            tag,
            distance: -NOTHINGNESS,
            is_panda: 0,
            is_bullet: 0,
            pos,
            facing: angle,
            output: [0, 0, 0],
        }
    }

    /// Moves the sensor to `pos` and looks at `bodies`.
    pub fn update(&mut self, pos: Vec2, bodies: &Vec<Body>)
        requires
            old(self).wf(),
            pos.within(COORD_LIMIT as int),
            forall|i: int| 0 <= i < bodies@.len() ==> (#[trigger] bodies@[i]).wf(),
        ensures
            final(self).wf(),
            final(self).tag == old(self).tag,
            final(self).facing == old(self).facing,
            final(self).pos == pos,
            final(self).output_seq() == old(self).sensed(pos, bodies@),
            final(self).output_seq() == seq![
                final(self).is_bullet as int,
                final(self).is_panda as int,
                final(self).distance as int,
            ],
    {
        self.pos = pos;
        self.sens(bodies);
        self.build_output();
    }

    /// Looks along the sensor's heading at `bodies`: the nearest body of
    /// another actor within range is reported, a projectile winning a tie.
    pub fn sens(&mut self, bodies: &Vec<Body>)
        requires
            old(self).wf(),
            forall|i: int| 0 <= i < bodies@.len() ==> (#[trigger] bodies@[i]).wf(),
        ensures
            final(self).wf(),
            final(self).tag == old(self).tag,
            final(self).facing == old(self).facing,
            final(self).pos == old(self).pos,
            final(self).output == old(self).output,
            seq![
                final(self).is_bullet as int,
                final(self).is_panda as int,
                final(self).distance as int,
            ] == old(self).sensed(old(self).pos, bodies@),
    {
        let d: Vec2 = direction(self.facing);
        let mut found: bool = false;
        let mut best: i64 = 0;
        let mut bullet: bool = false;
        let mut i: usize = 0;
        while i < bodies.len()
            invariant
                i <= bodies@.len(),
                self.wf(),
                d == direction_spec(self.facing as int),
                d.within(1000),
                forall|k: int| 0 <= k < bodies@.len() ==> (#[trigger] bodies@[k]).wf(),
                scan(self.tag, self.pos, d, bodies@.subrange(0, i as int)) == if found {
                    Some((best as int, bullet))
                } else {
                    None::<(int, bool)>
                },
                found ==> 0 <= best <= SENSOR_MAX_DIST,
            decreases bodies@.len() - i,
        {
            let b: Body = bodies[i];
            proof {
                let pre = bodies@.subrange(0, i as int + 1);
                assert(pre.drop_last() =~= bodies@.subrange(0, i as int));
                assert(pre.last() == b);
            }
            if b.tag != self.tag {
                match ray_time_of_impact(self.pos, d, &b) {
                    Some(t) => {
                        if t <= SENSOR_MAX_DIST {
                            if !found || t < best {
                                found = true;
                                best = t;
                                bullet = b.is_bullet;
                            } else if t == best {
                                bullet = bullet || b.is_bullet;
                            }
                        }
                    },
                    None => {},
                }
            }
            i = i + 1;
        }
        proof {
            assert(bodies@.subrange(0, bodies@.len() as int) =~= bodies@);
        }
        if found {
            self.distance = SENSOR_MAX_DIST - best;
            if bullet {
                self.is_bullet = BULLET_SEEN;
                self.is_panda = 0;
            } else {
                self.is_bullet = 0;
                self.is_panda = PANDA_SEEN;
            }
        } else {
            self.distance = -NOTHINGNESS;
            self.is_bullet = 0;
            self.is_panda = 0;
        }
    }

    /// Copies what was sensed into the output triple.
    fn build_output(&mut self)
        ensures
            *final(self) == (Sensor {
                output: [old(self).is_bullet, old(self).is_panda, old(self).distance],
                ..*old(self)
            }),
    {
        self.output = [self.is_bullet, self.is_panda, self.distance];
    }
}

} // verus!
