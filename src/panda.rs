//! The actors: they steer, thrust, fire and look through two sensors.

use crate::arena::{bound_point, bounded_point, lemma_bounded_point_holds, Arena, EDGE_OFFSET, MAX_ARENA};
use crate::bullet::{
    advance, advance_exec, launch_velocity, launched, Bullet, ACTOR_THRUST, MAX_DT,
    MAX_PHYSICS_VEL,
};
use crate::chance::random_in;
use crate::controller::{InputState, AXIS_LIMIT};
use crate::geometry::{lemma_components_within, clamp_spec, clamp_velocity, direction, normalize_angle, Body, Vec2, TAU_MRAD, UNIT};
use crate::sensor::Sensor;
use vstd::prelude::*;

verus! {

/// Radius of an actor's hitbox.
pub const HITBOX_RADIUS: i64 = 1500;

/// Turn rate at full deflection, in milliradians per second.
pub const ACTOR_TURN_RATE: i64 = 1000;

/// Rate at which the sensors open or close at full deflection, in
/// milliradians per second.
pub const SENSOR_TURN_RATE: i64 = 1000;

/// Time between two shots, in microseconds.
pub const SHOOTING_COOLDOWN: i64 = 1_000_000;

/// Lowest value the cooldown counts down to.
pub const COOLDOWN_FLOOR: i64 = -1_000_000_000_000_000;

/// Narrowest angle between the two sensors, in milliradians.
pub const MIN_SPAN: i64 = 20;

/// Widest angle between the two sensors, in milliradians.
pub const MAX_SPAN: i64 = 4000;

/// Angle between the two sensors of a new actor.
pub const INITIAL_SPAN: i64 = 200;

/// Number of values handed to the controller.
pub const AI_ENGINE_INPUT_LEN: usize = 8;

/// Number of values the controller hands back.
pub const AI_ENGINE_OUTPUT_LEN: usize = 7;

/// Bound on each component of an actor's velocity between a command and the
/// integration step that follows it.
pub const ACTOR_VEL_BOUND: i64 = 2_250_000;

/// `axis` thousandths of `rate` per second, for `dt` microseconds, rounded
/// towards zero.
pub open spec fn scaled_turn(axis: int, rate: int, dt: int) -> int {
    if axis >= 0 {
        (axis * rate * dt) / 1_000_000_000
    } else {
        -(((-axis) * rate * dt) / 1_000_000_000)
    }
}

fn scaled_turn_exec(axis: i64, rate: i64, dt: i64) -> (r: i64)
    requires
        -AXIS_LIMIT <= axis <= AXIS_LIMIT,
        0 <= rate <= 1000,
        0 <= dt <= MAX_DT,
    ensures
        r == scaled_turn(axis as int, rate as int, dt as int),
        -5_000_000_000 <= r <= 5_000_000_000,
{
    let a: i128 = if axis >= 0 {
        axis as i128
    } else {
        -(axis as i128)
    };
    assert(0 <= a * rate <= 5_000_000_000_000) by (nonlinear_arith)
        requires
            0 <= a <= 5_000_000_000,
            0 <= rate <= 1000,
    ;
    let ar: i128 = a * rate as i128;
    assert(0 <= ar * dt <= 5_000_000_000_000_000_000) by (nonlinear_arith)
        requires
            0 <= ar <= 5_000_000_000_000,
            0 <= dt <= 1_000_000,
    ;
    let m: i128 = ar * dt as i128;
    assert(a * rate * dt == ar * dt);
    let q: i128 = m / 1_000_000_000;
    if axis >= 0 {
        q as i64
    } else {
        -(q as i64)
    }
}

/// Heading after a turn command.
pub open spec fn turned_facing(facing: int, xaxis: int, dt: int) -> int {
    (facing + scaled_turn(xaxis, ACTOR_TURN_RATE as int, dt)) % (TAU_MRAD as int)
}

/// Angle between the sensors after a field-of-view command: the sensors
/// counter-rotate only when the new angle stays within
/// `[MIN_SPAN, MAX_SPAN]`.
pub open spec fn span_after(span: int, fov_axis: int, dt: int) -> int {
    let s = span - 2 * scaled_turn(fov_axis, SENSOR_TURN_RATE as int, dt);
    if MIN_SPAN <= s <= MAX_SPAN {
        s
    } else {
        span
    }
}

/// Angle between the sensors after a run of field-of-view commands.
pub open spec fn span_after_all(span: int, axes: Seq<int>, dt: int) -> int
    decreases axes.len(),
{
    if axes.len() == 0 {
        span
    } else {
        span_after(span_after_all(span, axes.drop_last(), dt), axes.last(), dt)
    }
}

/// However many field-of-view commands are obeyed, the angle between the
/// sensors stays within `[MIN_SPAN, MAX_SPAN]`.
pub proof fn lemma_span_stays_in_range(span: int, axes: Seq<int>, dt: int)
    requires
        MIN_SPAN <= span <= MAX_SPAN,
    ensures
        MIN_SPAN <= span_after_all(span, axes, dt) <= MAX_SPAN,
    decreases axes.len(),
{
    if axes.len() > 0 {
        lemma_span_stays_in_range(span, axes.drop_last(), dt);
    }
}

/// Velocity after a thrust command given with heading `facing`.
pub open spec fn thrusted(v: Vec2, facing: int, input: InputState, dt: int) -> Vec2 {
    if input.freeze > 0 || input.yaxis == 0 {
        Vec2 { x: 0, y: 0 }
    } else {
        let t = launch_velocity(facing);
        if input.yaxis > 0 {
            Vec2 {
                x: advance(v.x as int, t.x as int, dt, 1) as i64,
                y: advance(v.y as int, t.y as int, dt, 1) as i64,
            }
        } else {
            Vec2 {
                x: advance(v.x as int, -t.x, dt, 1) as i64,
                y: advance(v.y as int, -t.y, dt, 1) as i64,
            }
        }
    }
}

pub open spec fn next_cooldown(c: int, dt: int) -> int {
    if c - dt < COOLDOWN_FLOOR {
        COOLDOWN_FLOOR as int
    } else {
        c - dt
    }
}

/// What an actor hands to the controller: whether it can fire, the angle
/// between its sensors, then the left and the right sensor's readings.
pub open spec fn perception(can_fire: bool, span: int, left: Seq<int>, right: Seq<int>) -> Seq<int> {
    seq![if can_fire {
        1
    } else {
        0
    }, span].add(left).add(right)
}

/// `|a| - |b|`.
pub open spec fn axis_of(a: int, b: int) -> int {
    (if a < 0 {
        -a
    } else {
        a
    }) - (if b < 0 {
        -b
    } else {
        b
    })
}

/// The command the controller's output stands for.
pub open spec fn command_of(out: Seq<i32>) -> InputState {
    InputState {
        yaxis: axis_of(out[0] as int, out[1] as int) as i64,
        xaxis: axis_of(out[2] as int, out[3] as int) as i64,
        fov_axis: axis_of(out[4] as int, out[5] as int) as i64,
        freeze: 0,
        fire: out[6] > 0,
    }
}

fn magnitude_i32(v: i32) -> (r: i64)
    ensures
        r == (if v < 0 {
            -v
        } else {
            v as int
        }),
{
    if v < 0 {
        -(v as i64)
    } else {
        v as i64
    }
}

/// `to` is `from` after obeying `input` and then one integration step, both
/// of `dt` microseconds, its sensors looking at `bodies`.
pub open spec fn stepped(
    from: Panda,
    to: Panda,
    input: InputState,
    bodies: Seq<Body>,
    arena: Arena,
    wrap: bool,
    dt: int,
) -> bool {
    let facing = turned_facing(from.facing as int, input.xaxis as int, dt);
    let span = span_after(from.fov_length as int, input.fov_axis as int, dt);
    let fires = input.fire && from.cooldown <= 0;
    let cooldown: int = if fires {
        SHOOTING_COOLDOWN as int
    } else {
        from.cooldown as int
    };
    let v = clamp_spec(thrusted(from.velocity, facing, input, dt), MAX_PHYSICS_VEL as int);
    &&& to.settled()
    &&& arena.holds(to.pos)
    &&& to.tag == from.tag
    &&& to.color == from.color
    &&& to.score == from.score
    &&& to.facing == facing
    &&& to.fov_length == span
    &&& (to.velocity.x as int, to.velocity.y as int) == v
    &&& to.pos == bounded_point(
        Vec2 {
            x: advance(from.pos.x as int, v.0, dt, 1) as i64,
            y: advance(from.pos.y as int, v.1, dt, 1) as i64,
        },
        wrap,
        arena,
    )
    &&& to.ai_input() == perception(
        cooldown <= 0,
        span,
        to.sensor_left.sensed(to.pos, bodies),
        to.sensor_right.sensed(to.pos, bodies),
    )
    &&& to.cooldown == next_cooldown(cooldown, dt)
    &&& to.sensor_left.pos == to.pos
    &&& to.sensor_right.pos == to.pos
    &&& to.sensor_left.output_seq() == to.sensor_left.sensed(to.pos, bodies)
    &&& to.sensor_right.output_seq() == to.sensor_right.sensed(to.pos, bodies)
    &&& to.sensor_left.output_seq() == seq![
        to.sensor_left.is_bullet as int,
        to.sensor_left.is_panda as int,
        to.sensor_left.distance as int,
    ]
    &&& to.sensor_right.output_seq() == seq![
        to.sensor_right.is_bullet as int,
        to.sensor_right.is_panda as int,
        to.sensor_right.distance as int,
    ]
}

/// What an actor launches when it obeys `input`, if anything.
pub open spec fn launch_of(p: Panda, input: InputState, dt: int) -> Seq<Bullet> {
    if input.fire && p.cooldown <= 0 {
        seq![launched(p.tag, p.pos, turned_facing(p.facing as int, input.xaxis as int, dt), p.color)]
    } else {
        seq![]
    }
}

#[derive(Clone, Copy, Debug)]
pub struct Panda {
    pub tag: usize,
    /// Palette index of the actor's color.
    pub color: usize,
    pub pos: Vec2,
    /// Heading, in milliradians, in `[0, TAU_MRAD)`.
    pub facing: i64,
    pub velocity: Vec2,
    /// Angle between the two sensors.
    pub fov_length: i64,
    pub body: Body,
    pub sensor_left: Sensor,
    pub sensor_right: Sensor,
    /// Time left before the next shot, in microseconds.
    pub cooldown: i64,
    pub score: i64,
    /// What the controller is handed.
    pub input_to_ai: [i64; 8],
}

impl Panda {
    pub open spec fn wf(self) -> bool {
        &&& self.pos.within(MAX_ARENA + EDGE_OFFSET)
        &&& 0 <= self.facing < TAU_MRAD
        &&& MIN_SPAN <= self.fov_length <= MAX_SPAN
        &&& 2 * (self.sensor_left.facing - self.facing) == self.fov_length
        &&& 2 * (self.facing - self.sensor_right.facing) == self.fov_length
        &&& self.sensor_left.wf()
        &&& self.sensor_right.wf()
        &&& self.sensor_left.tag == self.tag
        &&& self.sensor_right.tag == self.tag
        &&& self.body == (Body { tag: self.tag, is_bullet: false, radius: HITBOX_RADIUS, pos: self.pos })
        &&& COOLDOWN_FLOOR <= self.cooldown <= SHOOTING_COOLDOWN
        &&& self.velocity.within(ACTOR_VEL_BOUND as int)
    }

    /// Well formed, and no faster than `MAX_PHYSICS_VEL`: the state after an
    /// integration step.
    pub open spec fn settled(self) -> bool {
        self.wf() && self.velocity.norm_sq() <= MAX_PHYSICS_VEL * MAX_PHYSICS_VEL
    }

    pub open spec fn ai_input(self) -> Seq<int> {
        seq![
            self.input_to_ai[0] as int,
            self.input_to_ai[1] as int,
            self.input_to_ai[2] as int,
            self.input_to_ai[3] as int,
            self.input_to_ai[4] as int,
            self.input_to_ai[5] as int,
            self.input_to_ai[6] as int,
            self.input_to_ai[7] as int,
        ]
    }

    /// A fresh actor at a random place of the arena, with a random heading.
    pub fn new(arena: &Arena, tag: usize, color: usize) -> (p: Panda)
        requires
            arena.wf(),
        ensures
            p.settled(),
            arena.holds(p.pos),
            arena.contains(p.pos),
            p.tag == tag,
            p.color == color,
            p.velocity == (Vec2 { x: 0, y: 0 }),
            p.cooldown == 0,
            p.score == 0,
            p.fov_length == INITIAL_SPAN,
            p.ai_input() == seq![0int, 0, 0, 0, 0, 0, 0, 0],
    {
        let x: i64 = random_in(0, arena.width);
        let y: i64 = random_in(0, arena.height);
        let facing: i64 = random_in(0, TAU_MRAD);
        Panda::spawn_at(tag, color, Vec2 { x, y }, facing)
    }

    /// A fresh actor at `pos`, heading along `facing`.
    pub fn spawn_at(tag: usize, color: usize, pos: Vec2, facing: i64) -> (p: Panda)
        requires
            pos.within(MAX_ARENA as int),
            0 <= facing < TAU_MRAD,
        ensures
            p.settled(),
            p.tag == tag,
            p.color == color,
            p.pos == pos,
            p.facing == facing,
            p.velocity == (Vec2 { x: 0, y: 0 }),
            p.fov_length == INITIAL_SPAN,
            p.cooldown == 0,
            p.score == 0,
            p.ai_input() == seq![0int, 0, 0, 0, 0, 0, 0, 0],
    {
        Panda {
            tag,
            color,
            pos,
            facing,
            velocity: Vec2 { x: 0, y: 0 },
            fov_length: INITIAL_SPAN,
            body: Body::new(tag, false, HITBOX_RADIUS, pos),
            sensor_left: Sensor::new(tag, pos, facing + INITIAL_SPAN / 2),
            sensor_right: Sensor::new(tag, pos, facing - INITIAL_SPAN / 2),
            cooldown: 0,
            score: 0,
            input_to_ai: [0, 0, 0, 0, 0, 0, 0, 0],
        }
    }

    /// Obeys a command for `dt` microseconds: turns body and sensors
    /// together, thrusts or stops, opens or closes the sensors within
    /// `[MIN_SPAN, MAX_SPAN]`, and fires when the cooldown allows it.
    pub fn handle_input(&mut self, input: &InputState, bullet_vector: &mut Vec<Bullet>, dt: i64)
        requires
            old(self).settled(),
            input.wf(),
            0 <= dt <= MAX_DT,
        ensures
            final(self).wf(),
            final(self).facing == turned_facing(old(self).facing as int, input.xaxis as int, dt as int),
            final(self).fov_length == span_after(
                old(self).fov_length as int,
                input.fov_axis as int,
                dt as int,
            ),
            final(self).velocity == thrusted(old(self).velocity, final(self).facing as int, *input, dt as int),
            input.fire && old(self).cooldown <= 0 ==> {
                &&& launched(old(self).tag, old(self).pos, final(self).facing as int, old(self).color).wf()
                &&& final(bullet_vector)@ == old(bullet_vector)@.push(
                    launched(old(self).tag, old(self).pos, final(self).facing as int, old(self).color),
                )
                &&& final(self).cooldown == SHOOTING_COOLDOWN
            },
            !(input.fire && old(self).cooldown <= 0) ==> {
                &&& final(bullet_vector)@ == old(bullet_vector)@
                &&& final(self).cooldown == old(self).cooldown
            },
            final(self).tag == old(self).tag,
            final(self).color == old(self).color,
            final(self).pos == old(self).pos,
            final(self).score == old(self).score,
            final(self).input_to_ai == old(self).input_to_ai,
            final(self).sensor_left == (Sensor {
                facing: final(self).sensor_left.facing,
                ..old(self).sensor_left
            }),
            final(self).sensor_right == (Sensor {
                facing: final(self).sensor_right.facing,
                ..old(self).sensor_right
            }),
            final(self).body == old(self).body,
    {
        proof {
            lemma_components_within(self.velocity, MAX_PHYSICS_VEL as int);
        }
        let half: i64 = self.sensor_left.facing - self.facing;
        let turn: i64 = scaled_turn_exec(input.xaxis, ACTOR_TURN_RATE, dt);
        self.facing = normalize_angle(self.facing + turn);

        // The sensors keep their place relative to the body.
        self.sensor_left.facing = self.facing + half;
        self.sensor_right.facing = self.facing - half;

        if input.freeze > 0 || input.yaxis == 0 {
            self.velocity = Vec2 { x: 0, y: 0 };
        } else {
            let d: Vec2 = direction(self.facing);
            let tx: i64 = d.x * (ACTOR_THRUST / UNIT);
            let ty: i64 = d.y * (ACTOR_THRUST / UNIT);
            if input.yaxis > 0 {
                let vx: i64 = advance_exec(self.velocity.x, tx, dt, 1);
                let vy: i64 = advance_exec(self.velocity.y, ty, dt, 1);
                self.velocity = Vec2 { x: vx, y: vy };
            } else {
                let vx: i64 = advance_exec(self.velocity.x, -tx, dt, 1);
                let vy: i64 = advance_exec(self.velocity.y, -ty, dt, 1);
                self.velocity = Vec2 { x: vx, y: vy };
            }
        }

        let fov_turn: i64 = scaled_turn_exec(input.fov_axis, SENSOR_TURN_RATE, dt);
        let span: i64 = self.fov_length - 2 * fov_turn;
        if MIN_SPAN <= span && span <= MAX_SPAN {
            // Open or close the sensors in sync.
            self.sensor_right.facing = self.sensor_right.facing + fov_turn;
            self.sensor_left.facing = self.sensor_left.facing - fov_turn;
            self.fov_length = span;
        }

        if input.fire && self.cooldown <= 0 {
            self.cooldown = SHOOTING_COOLDOWN;
            let bullet: Bullet = Bullet::new(self.tag, self.pos, self.facing, self.color);
            bullet_vector.push(bullet);
        }
    }

    /// The command that the controller's output stands for: thrust, turn and
    /// field of view are each the difference of the magnitudes of two
    /// outputs, and a positive seventh output fires.
    pub fn build_input_from_ai(input: &[i32]) -> (r: InputState)
        requires
            input@.len() >= AI_ENGINE_OUTPUT_LEN,
        ensures
            r == command_of(input@),
            r.wf(),
    {
        let yaxis: i64 = magnitude_i32(input[0]) - magnitude_i32(input[1]);
        let xaxis: i64 = magnitude_i32(input[2]) - magnitude_i32(input[3]);
        let fov_axis: i64 = magnitude_i32(input[4]) - magnitude_i32(input[5]);
        let fire: bool = input[6] > 0;
        InputState { xaxis, yaxis, fov_axis, freeze: 0, fire }
    }

    /// Advances the actor by `dt` microseconds: clamps its speed to
    /// `MAX_PHYSICS_VEL`, moves it, applies the arena's boundary policy,
    /// looks through both sensors at `body_vec` and counts the cooldown
    /// down.
    pub fn update(&mut self, arena: &Arena, body_vec: &Vec<Body>, wrap_world: bool, dt: i64)
        requires
            old(self).wf(),
            arena.wf(),
            arena.holds(old(self).pos),
            forall|i: int| 0 <= i < body_vec@.len() ==> (#[trigger] body_vec@[i]).wf(),
            0 <= dt <= MAX_DT,
        ensures
            final(self).settled(),
            (final(self).velocity.x as int, final(self).velocity.y as int) == clamp_spec(
                old(self).velocity,
                MAX_PHYSICS_VEL as int,
            ),
            final(self).pos == bounded_point(
                Vec2 {
                    x: advance(old(self).pos.x as int, final(self).velocity.x as int, dt as int, 1) as i64,
                    y: advance(old(self).pos.y as int, final(self).velocity.y as int, dt as int, 1) as i64,
                },
                wrap_world,
                *arena,
            ),
            arena.holds(final(self).pos),
            final(self).ai_input() == perception(
                old(self).cooldown <= 0,
                old(self).fov_length as int,
                old(self).sensor_left.sensed(final(self).pos, body_vec@),
                old(self).sensor_right.sensed(final(self).pos, body_vec@),
            ),
            final(self).cooldown == next_cooldown(old(self).cooldown as int, dt as int),
            final(self).tag == old(self).tag,
            final(self).color == old(self).color,
            final(self).facing == old(self).facing,
            final(self).fov_length == old(self).fov_length,
            final(self).score == old(self).score,
            final(self).sensor_left.facing == old(self).sensor_left.facing,
            final(self).sensor_right.facing == old(self).sensor_right.facing,
            final(self).sensor_left.pos == final(self).pos,
            final(self).sensor_right.pos == final(self).pos,
            final(self).sensor_left.output_seq() == old(self).sensor_left.sensed(final(self).pos, body_vec@),
            final(self).sensor_right.output_seq() == old(self).sensor_right.sensed(final(self).pos, body_vec@),
            final(self).sensor_left.output_seq() == seq![
                final(self).sensor_left.is_bullet as int,
                final(self).sensor_left.is_panda as int,
                final(self).sensor_left.distance as int,
            ],
            final(self).sensor_right.output_seq() == seq![
                final(self).sensor_right.is_bullet as int,
                final(self).sensor_right.is_panda as int,
                final(self).sensor_right.distance as int,
            ],
    {
        self.velocity = clamp_velocity(self.velocity, MAX_PHYSICS_VEL);
        proof {
            lemma_components_within(self.velocity, MAX_PHYSICS_VEL as int);
        }
        let moved = Vec2 {
            x: advance_exec(self.pos.x, self.velocity.x, dt, 1),
            y: advance_exec(self.pos.y, self.velocity.y, dt, 1),
        };
        proof {
            lemma_bounded_point_holds(moved, wrap_world, *arena);
        }
        self.pos = bound_point(moved, wrap_world, arena);
        self.body.update(self.pos);

        self.sensor_left.update(self.pos, body_vec);
        self.sensor_right.update(self.pos, body_vec);
        self.build_output();

        if self.cooldown - dt < COOLDOWN_FLOOR {
            self.cooldown = COOLDOWN_FLOOR;
        } else {
            self.cooldown = self.cooldown - dt;
        }
    }

    /// Fills what the controller is handed from the cooldown, the angle
    /// between the sensors and their outputs.
    fn build_output(&mut self)
        ensures
            *final(self) == (Panda { input_to_ai: final(self).input_to_ai, ..*old(self) }),
            final(self).ai_input() == perception(
                old(self).cooldown <= 0,
                old(self).fov_length as int,
                old(self).sensor_left.output_seq(),
                old(self).sensor_right.output_seq(),
            ),
    {
        let can_fire: i64 = if self.cooldown <= 0 {
            1
        } else {
            0
        };
        let l = self.sensor_left.output;
        let r = self.sensor_right.output;
        self.input_to_ai = [can_fire, self.fov_length, l[0], l[1], l[2], r[0], r[1], r[2]];
        proof {
            assert(self.ai_input() =~= perception(
                old(self).cooldown <= 0,
                old(self).fov_length as int,
                old(self).sensor_left.output_seq(),
                old(self).sensor_right.output_seq(),
            ));
        }
    }
}

} // verus!
