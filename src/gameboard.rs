//! The board: its actors and projectiles, and the fixed-step tick that moves
//! them.

use crate::arena::Arena;
use crate::bullet::{bullet_step, Bullet, MAX_DT, MAX_PHYSICS_VEL};
use crate::controller::InputState;
use crate::geometry::{Body, Vec2};
use crate::panda::{launch_of, stepped, Panda, INITIAL_SPAN};
use crate::scoring::{
    resolve_collisions, score_sum, scored, struck, tags_dense, total_hits, MAX_ACTORS, MAX_BULLETS,
    POINT_LOST_WHEN_SHOT, POINT_WIN_PER_SUCCESSFUL_SHOT, SCORE_LIMIT,
};
use vstd::prelude::*;

verus! {

/// Default number of ticks per simulated second.
pub const GAME_SPEED: i64 = 180;

/// Step by which the number of ticks per second is changed.
pub const SPEED_STEP: i64 = 5;

/// Largest number of ticks per simulated second.
pub const MAX_SPEED: i64 = 1_000_000;

/// Ticks of an epoch, before the population is evolved.
pub const COUNTDOWN: usize = 500;

/// Every this many generations the evolution changes the controllers'
/// structure rather than only their parameters.
pub const EXPLORATION_TICK: usize = 50;

/// Number of actors of a new board.
pub const ACTOR_NUMBER_PER_BOARD: usize = 128;

/// Number of colors actors are given in turn.
pub const COLOR_COUNT: usize = 8;

/// The projectiles still in play, each moved one step of `dt` microseconds.
pub open spec fn swept(bs: Seq<Bullet>, arena: Arena, dt: int) -> Seq<Bullet>
    decreases bs.len(),
{
    if bs.len() == 0 {
        seq![]
    } else {
        let rest = swept(bs.drop_last(), arena, dt);
        if bs.last().to_remove {
            rest
        } else {
            rest.push(bullet_step(bs.last(), arena, dt))
        }
    }
}

/// The bodies the sensors look at during a tick: the actors', then the
/// projectiles'.
pub open spec fn snapshot(ps: Seq<Panda>, bs: Seq<Bullet>) -> Seq<Body> {
    ps.map_values(|p: Panda| p.body) + bs.map_values(|b: Bullet| b.body)
}

/// What the first `k` actors launch, in order.
pub open spec fn launches(ps: Seq<Panda>, cmds: Seq<InputState>, k: int, dt: int) -> Seq<Bullet>
    decreases k,
{
    if k <= 0 {
        seq![]
    } else {
        launches(ps, cmds, k - 1, dt) + launch_of(ps[k - 1], cmds[k - 1], dt)
    }
}

/// `ps2` and `bs2` are `ps` and `bs` once the hits are scored and the
/// projectiles that hit are marked.
pub open spec fn collided(ps: Seq<Panda>, bs: Seq<Bullet>, ps2: Seq<Panda>, bs2: Seq<Bullet>) -> bool {
    &&& ps2.len() == ps.len()
    &&& bs2.len() == bs.len()
    &&& forall|t: int|
        0 <= t < ps.len() ==> {
            &&& (#[trigger] ps2[t]).score == scored(ps, bs, t)
            &&& ps2[t] == (Panda { score: ps2[t].score, ..ps[t] })
        }
    &&& forall|j: int|
        0 <= j < bs.len() ==> #[trigger] bs2[j] == (Bullet {
            to_remove: bs[j].to_remove || struck(ps, ps.len() as int, bs[j]),
            ..bs[j]
        })
    &&& score_sum(ps2) == score_sum(ps) + POINT_WIN_PER_SUCCESSFUL_SHOT * total_hits(ps, bs)
        - POINT_LOST_WHEN_SHOT * total_hits(ps, bs)
}

/// `ps` is a fresh population of `n` actors in `arena`: tagged by index,
/// colored in turn, at rest inside the arena, with no score, ready to fire,
/// the initial angle between their sensors, and nothing perceived yet.
pub open spec fn fresh_population(ps: Seq<Panda>, n: int, arena: Arena) -> bool {
    &&& ps.len() == n
    &&& forall|k: int|
        0 <= k < n ==> {
            &&& (#[trigger] ps[k]).settled()
            &&& ps[k].tag == k
            &&& ps[k].color == k % (COLOR_COUNT as int)
            &&& arena.holds(ps[k].pos)
            &&& arena.contains(ps[k].pos)
            &&& ps[k].score == 0
            &&& ps[k].cooldown == 0
            &&& ps[k].velocity == (Vec2 { x: 0, y: 0 })
            &&& ps[k].fov_length == INITIAL_SPAN
            &&& ps[k].ai_input() == seq![0int, 0, 0, 0, 0, 0, 0, 0]
        }
}

/// `ps2` and `bs2` are the actors and projectiles of board `s` after one
/// step in which actor `i` obeys `commands[i]`: the projectiles marked at the
/// last step are swept and the others moved; every actor then steps, its
/// sensors looking at one snapshot of the bodies taken before anyone moves;
/// what the actors launch is appended in tag order; last, the hits are
/// scored. Every projectile that was moved is within the speed limit.
pub open spec fn stepped_board(
    s: State,
    commands: Seq<InputState>,
    ps2: Seq<Panda>,
    bs2: Seq<Bullet>,
) -> bool {
    let dt = s.dt();
    let ps = s.panda_vector@;
    let bs1 = swept(s.bullet_vector@, s.arena, dt);
    let bodies = snapshot(ps, bs1);
    let launched_too = bs1 + launches(ps, commands, ps.len() as int, dt);
    &&& exists|ps1: Seq<Panda>|
        {
            &&& ps1.len() == ps.len()
            &&& forall|i: int|
                0 <= i < ps.len() ==> stepped(
                    ps[i],
                    #[trigger] ps1[i],
                    commands[i],
                    bodies,
                    s.arena,
                    s.wrap_world,
                    dt,
                )
            &&& #[trigger] collided(ps1, launched_too, ps2, bs2)
        }
    &&& forall|j: int|
        0 <= j < bs1.len() ==> (#[trigger] bs2[j]).velocity.norm_sq() <= MAX_PHYSICS_VEL
            * MAX_PHYSICS_VEL
}

/// What an epoch leaves when it ends: each actor's score, by tag, for the
/// controllers' fitness, and whether the next generation explores new
/// controller structures.
pub struct EpochEnd {
    pub fitness: Vec<i64>,
    pub explore: bool,
}

pub struct State {
    pub panda_vector: Vec<Panda>,
    pub bullet_vector: Vec<Bullet>,
    pub arena: Arena,
    /// Ticks per simulated second.
    pub speed: i64,
    pub generation: usize,
    /// Ticks left in the epoch.
    pub countdown: usize,
    /// Whether actors wrap around the edges, or are confined.
    pub wrap_world: bool,
    pub save_dir: String,
}

impl State {
    pub open spec fn wf(self) -> bool {
        &&& self.arena.wf()
        &&& 1 <= self.speed <= MAX_SPEED
        &&& self.panda_vector@.len() <= MAX_ACTORS
        &&& tags_dense(self.panda_vector@, self.bullet_vector@)
        &&& forall|k: int|
            0 <= k < self.panda_vector@.len() ==> (#[trigger] self.panda_vector@[k]).settled()
                && self.arena.holds(self.panda_vector@[k].pos)
        &&& forall|j: int| 0 <= j < self.bullet_vector@.len() ==> (#[trigger] self.bullet_vector@[j]).wf()
    }

    /// Length of a tick, in microseconds.
    pub open spec fn dt(self) -> int {
        1_000_000int / (self.speed as int)
    }

    /// The board can take one more tick: the projectiles fit and no score
    /// is near the bounds of its type.
    pub open spec fn roomy(self) -> bool {
        &&& self.panda_vector@.len() + self.bullet_vector@.len() <= MAX_BULLETS
        &&& self.scores_bounded()
    }

    pub open spec fn scores_bounded(self) -> bool {
        forall|k: int|
            0 <= k < self.panda_vector@.len() ==> -SCORE_LIMIT <= (#[trigger] self.panda_vector@[k]).score
                <= SCORE_LIMIT
    }

    /// Whether `update` may be called now.
    pub fn has_room(&self) -> (r: bool)
        ensures
            r == self.roomy(),
    {
        let n: usize = self.panda_vector.len();
        if n > MAX_BULLETS || self.bullet_vector.len() > MAX_BULLETS - n {
            return false;
        }
        let mut k: usize = 0;
        while k < n
            invariant
                k <= n,
                n == self.panda_vector@.len(),
                forall|i: int|
                    0 <= i < k ==> -SCORE_LIMIT <= (#[trigger] self.panda_vector@[i]).score
                        <= SCORE_LIMIT,
            decreases n - k,
        {
            let s: i64 = self.panda_vector[k].score;
            if s < -SCORE_LIMIT || s > SCORE_LIMIT {
                return false;
            }
            k = k + 1;
        }
        true
    }

    /// A board of `actor_size` fresh actors placed at random in `arena`,
    /// colored in turn, wrapping around the edges.
    pub fn new(arena: Arena, actor_size: usize) -> (s: State)
        requires
            arena.wf(),
            actor_size <= MAX_ACTORS,
        ensures
            s.wf(),
            s.roomy(),
            fresh_population(s.panda_vector@, actor_size as int, arena),
            s.bullet_vector@.len() == 0,
            s.arena == arena,
            s.speed == GAME_SPEED,
            s.generation == 0,
            s.countdown == COUNTDOWN,
            s.wrap_world,
            s.save_dir@ == "tmp/save/"@,
    {
        let panda_vector = State::new_actor_population(&arena, actor_size);
        State {
            panda_vector,
            bullet_vector: Vec::new(),
            arena,
            speed: GAME_SPEED,
            generation: 0,
            countdown: COUNTDOWN,
            wrap_world: true,
            save_dir: "tmp/save/".to_owned(),
        }
    }

    /// Keeps the first `actor_size` actors, or adds copies of the existing
    /// ones in turn, each retagged with its index, until there are
    /// `actor_size`.
    pub fn with_actor_capacity(self, actor_size: usize) -> (s: State)
        requires
            self.wf(),
            actor_size <= MAX_ACTORS,
            actor_size > self.panda_vector@.len() ==> self.panda_vector@.len() > 0,
            forall|j: int|
                0 <= j < self.bullet_vector@.len() ==> (#[trigger] self.bullet_vector@[j]).tag
                    < actor_size,
        ensures
            s.panda_vector@.len() == actor_size,
            forall|k: int|
                0 <= k < actor_size ==> #[trigger] s.panda_vector@[k] == (Panda {
                    tag: k as usize,
                    sensor_left: crate::sensor::Sensor { tag: k as usize, ..self.panda_vector@[k % self.panda_vector@.len() as int].sensor_left },
                    sensor_right: crate::sensor::Sensor { tag: k as usize, ..self.panda_vector@[k % self.panda_vector@.len() as int].sensor_right },
                    body: Body { tag: k as usize, ..self.panda_vector@[k % self.panda_vector@.len() as int].body },
                    ..self.panda_vector@[k % self.panda_vector@.len() as int]
                }),
            s.bullet_vector == self.bullet_vector,
            s.wf(),
            s.arena == self.arena,
            s.speed == self.speed,
            s.generation == self.generation,
            s.countdown == self.countdown,
            s.wrap_world == self.wrap_world,
            s.save_dir@ == self.save_dir@,
    {
        let State { panda_vector, bullet_vector, arena, speed, generation, countdown, wrap_world, save_dir } = self;
        let len: usize = panda_vector.len();
        let mut resized: Vec<Panda> = Vec::new();
        let mut k: usize = 0;
        let mut src: usize = 0;
        while k < actor_size
            invariant
                k <= actor_size,
                len == panda_vector@.len(),
                actor_size > len ==> len > 0,
                src < len || (len == 0 && src == 0),
                k < len ==> src == k,
                len > 0 ==> src == k % len,
                resized@.len() == k,
                arena.wf(),
                forall|i: int|
                    0 <= i < len ==> (#[trigger] panda_vector@[i]).settled() && arena.holds(
                        panda_vector@[i].pos,
                    ) && panda_vector@[i].tag == i,
                forall|i: int|
                    0 <= i < k ==> #[trigger] resized@[i] == (Panda {
                        tag: i as usize,
                        sensor_left: crate::sensor::Sensor { tag: i as usize, ..panda_vector@[i % len as int].sensor_left },
                        sensor_right: crate::sensor::Sensor { tag: i as usize, ..panda_vector@[i % len as int].sensor_right },
                        body: Body { tag: i as usize, ..panda_vector@[i % len as int].body },
                        ..panda_vector@[i % len as int]
                    }),
            decreases actor_size - k,
        {
            let p: Panda = panda_vector[src];
            let mut q: Panda = p;
            q.tag = k;
            q.sensor_left.tag = k;
            q.sensor_right.tag = k;
            q.body.tag = k;
            resized.push(q);
            proof {
                assert(len > 0);
                vstd::arithmetic::div_mod::lemma_fundamental_div_mod(k as int, len as int);
                let q = (k as int) / (len as int);
                assert(k == q * len + src) by (nonlinear_arith)
                    requires
                        k == len * q + src,
                ;
                if src + 1 == len {
                    assert(k + 1 == (q + 1) * len + 0) by (nonlinear_arith)
                        requires
                            k == q * len + src,
                            src + 1 == len,
                    ;
                    vstd::arithmetic::div_mod::lemma_fundamental_div_mod_converse(
                        k + 1,
                        len as int,
                        q + 1,
                        0,
                    );
                } else {
                    vstd::arithmetic::div_mod::lemma_fundamental_div_mod_converse(
                        k + 1,
                        len as int,
                        q,
                        src + 1,
                    );
                }
            }
            src = if src + 1 == len {
                0
            } else {
                src + 1
            };
            k = k + 1;
        }
        State {
            panda_vector: resized,
            bullet_vector,
            arena,
            speed,
            generation,
            countdown,
            wrap_world,
            save_dir,
        }
    }

    /// Chooses whether actors wrap around the edges (`true`) or are
    /// confined.
    pub fn wrap_world(self, b: bool) -> (s: State)
        ensures
            s == (State { wrap_world: b, ..self }),
    {
        State { wrap_world: b, ..self }
    }

    /// Sets where the populations are saved.
    pub fn set_save_directory(self, save_dir: &str) -> (s: State)
        ensures
            s.save_dir@ == save_dir@,
            s.panda_vector == self.panda_vector,
            s.bullet_vector == self.bullet_vector,
            s.arena == self.arena,
            s.speed == self.speed,
            s.generation == self.generation,
            s.countdown == self.countdown,
            s.wrap_world == self.wrap_world,
    {
        State { save_dir: save_dir.to_owned(), ..self }
    }

    /// `actor_size` fresh actors tagged `0..actor_size`, placed at random
    /// and colored in turn.
    pub fn new_actor_population(arena: &Arena, actor_size: usize) -> (v: Vec<Panda>)
        requires
            arena.wf(),
            actor_size <= MAX_ACTORS,
        ensures
            fresh_population(v@, actor_size as int, *arena),
    {
        let mut panda_vector: Vec<Panda> = Vec::new();
        let mut tag: usize = 0;
        while tag < actor_size
            invariant
                tag <= actor_size,
                arena.wf(),
                fresh_population(panda_vector@, tag as int, *arena),
            decreases actor_size - tag,
        {
            let panda: Panda = Panda::new(arena, tag, tag % COLOR_COUNT);
            panda_vector.push(panda);
            tag = tag + 1;
        }
        panda_vector
    }

    /// Scores the hits of the tick and marks the projectiles that hit.
    pub fn handle_collisions(&mut self)
        requires
            old(self).wf(),
            old(self).bullet_vector@.len() <= MAX_BULLETS,
            old(self).scores_bounded(),
        ensures
            final(self).wf(),
            collided(
                old(self).panda_vector@,
                old(self).bullet_vector@,
                final(self).panda_vector@,
                final(self).bullet_vector@,
            ),
            final(self).arena == old(self).arena,
            final(self).speed == old(self).speed,
            final(self).generation == old(self).generation,
            final(self).countdown == old(self).countdown,
            final(self).wrap_world == old(self).wrap_world,
    {
        let ghost ps = self.panda_vector@;
        let ghost bs = self.bullet_vector@;
        resolve_collisions(&mut self.panda_vector, &mut self.bullet_vector);
        proof {
            assert forall|k: int| 0 <= k < self.panda_vector@.len() implies (
            #[trigger] self.panda_vector@[k]).settled() && self.arena.holds(self.panda_vector@[k].pos)
                && self.panda_vector@[k].tag == k by {
                assert(ps[k].settled());
            }
            assert forall|j: int| 0 <= j < self.bullet_vector@.len() implies (
            #[trigger] self.bullet_vector@[j]).wf() && self.bullet_vector@[j].tag < ps.len() by {
                assert(bs[j].wf());
            }
        }
    }

    /// Drops the projectiles marked at the last tick and moves the others
    /// one step of `dt` microseconds.
    pub fn sweep_bullets(&mut self, dt: i64)
        requires
            old(self).wf(),
            0 <= dt <= MAX_DT,
        ensures
            final(self).wf(),
            final(self).bullet_vector@ == swept(old(self).bullet_vector@, old(self).arena, dt as int),
            final(self).bullet_vector@.len() <= old(self).bullet_vector@.len(),
            forall|j: int|
                0 <= j < final(self).bullet_vector@.len() ==> (
                #[trigger] final(self).bullet_vector@[j]).velocity.norm_sq() <= MAX_PHYSICS_VEL
                    * MAX_PHYSICS_VEL,
            final(self).panda_vector == old(self).panda_vector,
            final(self).arena == old(self).arena,
            final(self).speed == old(self).speed,
            final(self).generation == old(self).generation,
            final(self).countdown == old(self).countdown,
            final(self).wrap_world == old(self).wrap_world,
    {
        let ghost bs0 = self.bullet_vector@;
        let n: usize = self.bullet_vector.len();
        let mut kept: Vec<Bullet> = Vec::new();
        let mut j: usize = 0;
        while j < n
            invariant
                j <= n,
                n == bs0.len(),
                self.bullet_vector@ == bs0,
                self.wf(),
                0 <= dt <= MAX_DT,
                kept@ == swept(bs0.subrange(0, j as int), self.arena, dt as int),
                kept@.len() <= j,
                forall|i: int|
                    0 <= i < kept@.len() ==> (#[trigger] kept@[i]).wf() && kept@[i].tag
                        < self.panda_vector@.len() && kept@[i].velocity.norm_sq() <= MAX_PHYSICS_VEL
                        * MAX_PHYSICS_VEL,
            decreases n - j,
        {
            let mut b: Bullet = self.bullet_vector[j];
            proof {
                assert(bs0.subrange(0, j + 1).drop_last() =~= bs0.subrange(0, j as int));
                assert(bs0.subrange(0, j + 1).last() == b);
                assert(b.wf() && b.tag < self.panda_vector@.len());
            }
            if !b.to_remove {
                b.update(&self.arena, dt);
                kept.push(b);
            }
            j = j + 1;
        }
        proof {
            assert(bs0.subrange(0, n as int) =~= bs0);
        }
        self.bullet_vector = kept;
    }

    /// The bodies of the actors, then of the projectiles.
    pub fn snapshot_bodies(&self) -> (v: Vec<Body>)
        requires
            self.wf(),
        ensures
            v@ == snapshot(self.panda_vector@, self.bullet_vector@),
            forall|i: int| 0 <= i < v@.len() ==> (#[trigger] v@[i]).wf(),
    {
        let ghost ps = self.panda_vector@;
        let ghost bs = self.bullet_vector@;
        let mut v: Vec<Body> = Vec::new();
        let mut i: usize = 0;
        while i < self.panda_vector.len()
            invariant
                i <= ps.len(),
                ps == self.panda_vector@,
                self.wf(),
                v@ == ps.subrange(0, i as int).map_values(|p: Panda| p.body),
                forall|k: int| 0 <= k < v@.len() ==> (#[trigger] v@[k]).wf(),
            decreases ps.len() - i,
        {
            v.push(self.panda_vector[i].body);
            proof {
                assert(ps.subrange(0, i + 1).map_values(|p: Panda| p.body) =~= v@);
            }
            i = i + 1;
        }
        proof {
            assert(ps.subrange(0, ps.len() as int) =~= ps);
        }
        let mut j: usize = 0;
        while j < self.bullet_vector.len()
            invariant
                j <= bs.len(),
                bs == self.bullet_vector@,
                ps == self.panda_vector@,
                self.wf(),
                v@ == ps.map_values(|p: Panda| p.body) + bs.subrange(0, j as int).map_values(
                    |b: Bullet| b.body,
                ),
                forall|k: int| 0 <= k < v@.len() ==> (#[trigger] v@[k]).wf(),
            decreases bs.len() - j,
        {
            v.push(self.bullet_vector[j].body);
            proof {
                assert(ps.map_values(|p: Panda| p.body) + bs.subrange(0, j + 1).map_values(
                    |b: Bullet| b.body,
                ) =~= v@);
            }
            j = j + 1;
        }
        proof {
            assert(bs.subrange(0, bs.len() as int) =~= bs);
        }
        v
    }

    /// Every actor obeys its command and is integrated, in tag order; what
    /// they launch is appended to the projectiles.
    pub fn apply_commands(&mut self, commands: &Vec<InputState>, bodies: &Vec<Body>, dt: i64)
        requires
            old(self).wf(),
            commands@.len() == old(self).panda_vector@.len(),
            forall|i: int| 0 <= i < commands@.len() ==> (#[trigger] commands@[i]).wf(),
            forall|i: int| 0 <= i < bodies@.len() ==> (#[trigger] bodies@[i]).wf(),
            0 <= dt <= MAX_DT,
        ensures
            final(self).wf(),
            final(self).panda_vector@.len() == old(self).panda_vector@.len(),
            forall|i: int|
                0 <= i < old(self).panda_vector@.len() ==> stepped(
                    old(self).panda_vector@[i],
                    #[trigger] final(self).panda_vector@[i],
                    commands@[i],
                    bodies@,
                    old(self).arena,
                    old(self).wrap_world,
                    dt as int,
                ),
            final(self).bullet_vector@ == old(self).bullet_vector@ + launches(
                old(self).panda_vector@,
                commands@,
                old(self).panda_vector@.len() as int,
                dt as int,
            ),
            final(self).bullet_vector@.len() <= old(self).bullet_vector@.len()
                + old(self).panda_vector@.len(),
            final(self).arena == old(self).arena,
            final(self).speed == old(self).speed,
            final(self).generation == old(self).generation,
            final(self).countdown == old(self).countdown,
            final(self).wrap_world == old(self).wrap_world,
    {
        let ghost ps0 = self.panda_vector@;
        let ghost bs0 = self.bullet_vector@;
        let n: usize = self.panda_vector.len();
        let mut i: usize = 0;
        while i < n
            invariant
                i <= n,
                n == ps0.len(),
                commands@.len() == n,
                forall|k: int| 0 <= k < commands@.len() ==> (#[trigger] commands@[k]).wf(),
                forall|k: int| 0 <= k < bodies@.len() ==> (#[trigger] bodies@[k]).wf(),
                0 <= dt <= MAX_DT,
                self.arena == old(self).arena,
                self.speed == old(self).speed,
                self.generation == old(self).generation,
                self.countdown == old(self).countdown,
                self.wrap_world == old(self).wrap_world,
                self.arena.wf(),
                1 <= self.speed <= MAX_SPEED,
                n <= MAX_ACTORS,
                ps0 == old(self).panda_vector@,
                forall|k: int|
                    0 <= k < n ==> (#[trigger] ps0[k]).settled() && self.arena.holds(ps0[k].pos)
                        && ps0[k].tag == k,
                self.panda_vector@.len() == n,
                forall|k: int|
                    0 <= k < i ==> stepped(
                        ps0[k],
                        #[trigger] self.panda_vector@[k],
                        commands@[k],
                        bodies@,
                        self.arena,
                        self.wrap_world,
                        dt as int,
                    ),
                forall|k: int| i <= k < n ==> #[trigger] self.panda_vector@[k] == ps0[k],
                self.bullet_vector@ == bs0 + launches(ps0, commands@, i as int, dt as int),
                self.bullet_vector@.len() <= bs0.len() + i,
                forall|j: int|
                    0 <= j < self.bullet_vector@.len() ==> (#[trigger] self.bullet_vector@[j]).wf()
                        && self.bullet_vector@[j].tag < n,
            decreases n - i,
        {
            let mut p: Panda = self.panda_vector[i];
            let ghost before = self.bullet_vector@;
            p.handle_input(&commands[i], &mut self.bullet_vector, dt);
            p.update(&self.arena, bodies, self.wrap_world, dt);
            self.panda_vector.set(i, p);
            proof {
                assert(launches(ps0, commands@, i + 1, dt as int) == launches(
                    ps0,
                    commands@,
                    i as int,
                    dt as int,
                ) + launch_of(ps0[i as int], commands@[i as int], dt as int));
                assert(self.bullet_vector@ =~= bs0 + launches(ps0, commands@, i + 1, dt as int));
            }
            i = i + 1;
        }
        proof {
            assert forall|k: int| 0 <= k < n implies (#[trigger] self.panda_vector@[k]).settled()
                && self.arena.holds(self.panda_vector@[k].pos) && self.panda_vector@[k].tag == k by {
                assert(stepped(
                    ps0[k],
                    self.panda_vector@[k],
                    commands@[k],
                    bodies@,
                    self.arena,
                    self.wrap_world,
                    dt as int,
                ));
            }
        }
    }

    /// One fixed step of the simulation, each actor obeying its command:
    /// sweeps the projectiles marked at the last step and moves the others,
    /// takes a snapshot of the bodies, steps every actor (its sensors look
    /// at the snapshot), then scores the hits.
    pub fn step(&mut self, commands: &Vec<InputState>)
        requires
            old(self).wf(),
            old(self).roomy(),
            commands@.len() == old(self).panda_vector@.len(),
            forall|i: int| 0 <= i < commands@.len() ==> (#[trigger] commands@[i]).wf(),
        ensures
            final(self).wf(),
            stepped_board(*old(self), commands@, final(self).panda_vector@, final(self).bullet_vector@),
            final(self).arena == old(self).arena,
            final(self).speed == old(self).speed,
            final(self).generation == old(self).generation,
            final(self).countdown == old(self).countdown,
            final(self).wrap_world == old(self).wrap_world,
    {
        let dt: i64 = 1_000_000 / self.speed;
        self.sweep_bullets(dt);
        let bodies: Vec<Body> = self.snapshot_bodies();
        let ghost ps = self.panda_vector@;
        let ghost bs1 = self.bullet_vector@;
        self.apply_commands(commands, &bodies, dt);
        let ghost ps1 = self.panda_vector@;
        let ghost bs2 = self.bullet_vector@;
        proof {
            assert forall|k: int| 0 <= k < ps1.len() implies -SCORE_LIMIT <= (
            #[trigger] ps1[k]).score <= SCORE_LIMIT by {
                assert(stepped(
                    ps[k],
                    ps1[k],
                    commands@[k],
                    bodies@,
                    self.arena,
                    self.wrap_world,
                    dt as int,
                ));
            }
        }
        self.handle_collisions();
        proof {
            assert(collided(ps1, bs2, self.panda_vector@, self.bullet_vector@));
            assert(old(self).dt() == dt as int);
            assert(bodies@ == snapshot(ps, bs1));
            assert(forall|i: int|
                0 <= i < ps.len() ==> stepped(
                    ps[i],
                    #[trigger] ps1[i],
                    commands@[i],
                    bodies@,
                    old(self).arena,
                    old(self).wrap_world,
                    dt as int,
                ));
            assert forall|j: int| 0 <= j < bs1.len() implies (
            #[trigger] self.bullet_vector@[j]).velocity.norm_sq() <= MAX_PHYSICS_VEL
                * MAX_PHYSICS_VEL by {
                assert(bs2[j] == bs1[j]);
            }
        }
    }

    /// One fixed step (see `step`), then the epoch is counted down. When
    /// the epoch was over, its scores are handed back, by tag, and the next
    /// generation starts on a fresh board (see `evolve`).
    pub fn update(&mut self, commands: &Vec<InputState>) -> (r: Option<EpochEnd>)
        requires
            old(self).wf(),
            old(self).roomy(),
            old(self).generation < usize::MAX,
            commands@.len() == old(self).panda_vector@.len(),
            forall|i: int| 0 <= i < commands@.len() ==> (#[trigger] commands@[i]).wf(),
        ensures
            final(self).wf(),
            r.is_some() == (old(self).countdown == 0),
            r.is_none() ==> {
                &&& stepped_board(
                    *old(self),
                    commands@,
                    final(self).panda_vector@,
                    final(self).bullet_vector@,
                )
                &&& final(self).countdown == old(self).countdown - 1
                &&& final(self).generation == old(self).generation
            },
            r.is_some() ==> {
                let end = r.unwrap();
                &&& exists|ps2: Seq<Panda>, bs2: Seq<Bullet>|
                    {
                        &&& #[trigger] stepped_board(*old(self), commands@, ps2, bs2)
                        &&& end.fitness@.len() == ps2.len()
                        &&& forall|k: int|
                            0 <= k < ps2.len() ==> #[trigger] end.fitness@[k] == ps2[k].score
                    }
                &&& final(self).generation == old(self).generation + 1
                &&& end.explore == (final(self).generation % EXPLORATION_TICK == 0)
                &&& fresh_population(
                    final(self).panda_vector@,
                    old(self).panda_vector@.len() as int,
                    old(self).arena,
                )
                &&& final(self).bullet_vector@.len() == 0
                &&& final(self).countdown == COUNTDOWN
            },
            final(self).arena == old(self).arena,
            final(self).speed == old(self).speed,
            final(self).wrap_world == old(self).wrap_world,
    {
        self.step(commands);
        if self.countdown == 0 {
            let ghost ps2 = self.panda_vector@;
            let ghost bs2 = self.bullet_vector@;
            let n: usize = self.panda_vector.len();
            let mut fitness: Vec<i64> = Vec::new();
            let mut k: usize = 0;
            while k < n
                invariant
                    k <= n,
                    n == ps2.len(),
                    self.panda_vector@ == ps2,
                    fitness@.len() == k,
                    forall|i: int| 0 <= i < k ==> #[trigger] fitness@[i] == ps2[i].score,
                decreases n - k,
            {
                fitness.push(self.panda_vector[k].score);
                k = k + 1;
            }
            let explore: bool = self.evolve();
            proof {
                assert(stepped_board(*old(self), commands@, ps2, bs2));
            }
            Some(EpochEnd { fitness, explore })
        } else {
            self.countdown = self.countdown - 1;
            None
        }
    }

    /// Starts the next generation on a fresh board. Returns whether this
    /// generation explores new controller structures (every
    /// `EXPLORATION_TICK` generations) rather than only tuning parameters.
    pub fn evolve(&mut self) -> (explore: bool)
        requires
            old(self).wf(),
            old(self).generation < usize::MAX,
        ensures
            final(self).wf(),
            final(self).roomy(),
            final(self).generation == old(self).generation + 1,
            explore == (final(self).generation % EXPLORATION_TICK == 0),
            fresh_population(
                final(self).panda_vector@,
                old(self).panda_vector@.len() as int,
                old(self).arena,
            ),
            final(self).bullet_vector@.len() == 0,
            final(self).countdown == COUNTDOWN,
            final(self).arena == old(self).arena,
            final(self).speed == old(self).speed,
            final(self).wrap_world == old(self).wrap_world,
    {
        self.generation = self.generation + 1;
        self.reset_board();
        self.generation % EXPLORATION_TICK == 0
    }

    /// Replaces the actors by a fresh population of the same size, clears
    /// the projectiles and restarts the epoch.
    pub fn reset_board(&mut self)
        requires
            old(self).wf(),
        ensures
            final(self).wf(),
            final(self).roomy(),
            fresh_population(
                final(self).panda_vector@,
                old(self).panda_vector@.len() as int,
                old(self).arena,
            ),
            final(self).bullet_vector@.len() == 0,
            final(self).countdown == COUNTDOWN,
            final(self).arena == old(self).arena,
            final(self).speed == old(self).speed,
            final(self).generation == old(self).generation,
            final(self).wrap_world == old(self).wrap_world,
    {
        self.panda_vector = State::new_actor_population(&self.arena, self.panda_vector.len());
        self.bullet_vector = Vec::new();
        self.countdown = COUNTDOWN;
    }

    /// More ticks per simulated second: a finer and slower simulation.
    pub fn raise_speed(&mut self)
        ensures
            final(self).speed == if old(self).speed <= MAX_SPEED - SPEED_STEP {
                old(self).speed + SPEED_STEP
            } else {
                old(self).speed as int
            },
            *final(self) == (State { speed: final(self).speed, ..*old(self) }),
    {
        if self.speed <= MAX_SPEED - SPEED_STEP {
            self.speed = self.speed + SPEED_STEP;
        }
    }

    /// Fewer ticks per simulated second, never down to `SPEED_STEP` or less.
    pub fn lower_speed(&mut self)
        ensures
            final(self).speed == if old(self).speed > SPEED_STEP {
                old(self).speed - SPEED_STEP
            } else {
                old(self).speed as int
            },
            *final(self) == (State { speed: final(self).speed, ..*old(self) }),
    {
        if self.speed > SPEED_STEP {
            self.speed = self.speed - SPEED_STEP;
        }
    }

    pub fn reset_speed(&mut self)
        ensures
            *final(self) == (State { speed: GAME_SPEED, ..*old(self) }),
    {
        self.speed = GAME_SPEED;
    }

}

} // verus!
