//! Collisions between actors and projectiles, and the scores they move.

use crate::bullet::Bullet;
use crate::geometry::contact;
use crate::panda::Panda;
use vstd::prelude::*;

verus! {

/// Points won by the shooter for each hit.
pub const POINT_WIN_PER_SUCCESSFUL_SHOT: i64 = 33;

/// Points lost by an actor each time it is hit.
pub const POINT_LOST_WHEN_SHOT: i64 = 77;

/// Most actors a board holds.
pub const MAX_ACTORS: usize = 100_000;

/// Most projectiles a board holds.
pub const MAX_BULLETS: usize = 1_000_000;

/// Bound on the magnitude of a score before a tick.
pub const SCORE_LIMIT: i64 = 1_000_000_000_000_000;

/// `f(0) + ... + f(n - 1)`.
pub open spec fn sum(n: int, f: spec_fn(int) -> int) -> int
    decreases n,
{
    if n <= 0 {
        0
    } else {
        sum(n - 1, f) + f(n - 1)
    }
}

pub open spec fn indicator(c: bool) -> int {
    if c {
        1
    } else {
        0
    }
}

pub proof fn lemma_sum_ext(n: int, f: spec_fn(int) -> int, g: spec_fn(int) -> int)
    requires
        forall|i: int| 0 <= i < n ==> #[trigger] f(i) == g(i),
    ensures
        sum(n, f) == sum(n, g),
    decreases n,
{
    if n > 0 {
        lemma_sum_ext(n - 1, f, g);
    }
}

pub proof fn lemma_sum_add(n: int, f: spec_fn(int) -> int, g: spec_fn(int) -> int, h: spec_fn(int) -> int)
    requires
        forall|i: int| 0 <= i < n ==> #[trigger] h(i) == f(i) + g(i),
    ensures
        sum(n, h) == sum(n, f) + sum(n, g),
    decreases n,
{
    if n > 0 {
        lemma_sum_add(n - 1, f, g, h);
    }
}

pub proof fn lemma_sum_scale(n: int, f: spec_fn(int) -> int, g: spec_fn(int) -> int, c: int)
    requires
        forall|i: int| 0 <= i < n ==> #[trigger] g(i) == c * f(i),
    ensures
        sum(n, g) == c * sum(n, f),
    decreases n,
{
    if n > 0 {
        lemma_sum_scale(n - 1, f, g, c);
        assert(c * sum(n - 1, f) + c * f(n - 1) == c * (sum(n - 1, f) + f(n - 1))) by (nonlinear_arith);
    }
}

/// Only the term at `t0` counts.
pub proof fn lemma_sum_single(n: int, t0: int, f: spec_fn(int) -> int, v: int)
    requires
        0 <= t0 < n,
        forall|t: int| 0 <= t < n ==> #[trigger] f(t) == if t == t0 {
            v
        } else {
            0
        },
    ensures
        sum(n, f) == v,
    decreases n,
{
    if n - 1 > t0 {
        lemma_sum_single(n - 1, t0, f, v);
    } else {
        lemma_sum_ext(n - 1, f, |t: int| 0);
        lemma_sum_zero(n - 1);
    }
}

proof fn lemma_sum_zero(n: int)
    ensures
        sum(n, |t: int| 0) == 0,
    decreases n,
{
    if n > 0 {
        lemma_sum_zero(n - 1);
    }
}

/// Sums over a rectangle may go by rows or by columns.
pub proof fn lemma_sum_swap(n: int, m: int, f: spec_fn(int, int) -> int)
    ensures
        sum(n, |i: int| sum(m, |j: int| f(i, j))) == sum(m, |j: int| sum(n, |i: int| f(i, j))),
    decreases n,
{
    if n > 0 {
        lemma_sum_swap(n - 1, m, f);
        let rows = |i: int| sum(m, |j: int| f(i, j));
        assert(sum(n, rows) == sum(n - 1, rows) + rows(n - 1));
        assert(rows(n - 1) == sum(m, |j: int| f(n - 1, j)));
        assert forall|j: int| 0 <= j < m implies sum(n, |i: int| f(i, j)) == sum(
            n - 1,
            |i: int| f(i, j),
        ) + #[trigger] f(n - 1, j) by {}
        lemma_sum_add(
            m,
            |j: int| sum(n - 1, |i: int| f(i, j)),
            |j: int| f(n - 1, j),
            |j: int| sum(n, |i: int| f(i, j)),
        );
    } else {
        lemma_sum_ext(m, |j: int| sum(n, |i: int| f(i, j)), |t: int| 0);
        lemma_sum_zero(m);
    }
}

/// The projectile hits the actor: someone else's projectile touches it.
pub open spec fn hits(p: Panda, b: Bullet) -> bool {
    p.tag != b.tag && contact(p.body, b.body)
}

/// Number of the first `m` projectiles that hit `p`.
pub open spec fn hits_taken(p: Panda, bs: Seq<Bullet>, m: int) -> int {
    sum(m, |j: int| indicator(hits(p, bs[j])))
}

/// Number of the first `m` projectiles of actor `t` that hit `p`.
pub open spec fn shots_on(t: int, p: Panda, bs: Seq<Bullet>, m: int) -> int {
    sum(m, |j: int| indicator(bs[j].tag == t && hits(p, bs[j])))
}

/// Number of hits by projectiles of actor `t` on the first `n` actors.
pub open spec fn hits_landed(t: int, ps: Seq<Panda>, n: int, bs: Seq<Bullet>) -> int {
    sum(n, |k: int| shots_on(t, ps[k], bs, bs.len() as int))
}

/// Number of (actor, projectile) pairs that hit.
pub open spec fn total_hits(ps: Seq<Panda>, bs: Seq<Bullet>) -> int {
    sum(ps.len() as int, |k: int| hits_taken(ps[k], bs, bs.len() as int))
}

/// One of the first `n` actors is hit by the projectile.
pub open spec fn struck(ps: Seq<Panda>, n: int, b: Bullet) -> bool {
    exists|k: int| 0 <= k < n && #[trigger] hits(ps[k], b)
}

/// The score of actor `t` after the tick's hits are committed.
pub open spec fn scored(ps: Seq<Panda>, bs: Seq<Bullet>, t: int) -> int {
    ps[t].score - POINT_LOST_WHEN_SHOT * hits_taken(ps[t], bs, bs.len() as int)
        + POINT_WIN_PER_SUCCESSFUL_SHOT * hits_landed(t, ps, ps.len() as int, bs)
}

pub open spec fn score_sum(ps: Seq<Panda>) -> int {
    sum(ps.len() as int, |k: int| ps[k].score as int)
}

/// Every actor's tag is its index, and every projectile belongs to one of
/// them.
pub open spec fn tags_dense(ps: Seq<Panda>, bs: Seq<Bullet>) -> bool {
    &&& forall|k: int| 0 <= k < ps.len() ==> (#[trigger] ps[k]).tag == k
    &&& forall|j: int| 0 <= j < bs.len() ==> (#[trigger] bs[j]).tag < ps.len()
}

spec fn pair_shot(ps: Seq<Panda>, bs: Seq<Bullet>, t: int, k: int, j: int) -> int {
    indicator(bs[j].tag == t && hits(ps[k], bs[j]))
}

spec fn shooter_row(ps: Seq<Panda>, bs: Seq<Bullet>, t: int, k: int) -> int {
    sum(bs.len() as int, |j: int| pair_shot(ps, bs, t, k, j))
}

proof fn lemma_taken_by_shooter(ps: Seq<Panda>, bs: Seq<Bullet>, k: int)
    requires
        tags_dense(ps, bs),
        0 <= k < ps.len(),
    ensures
        sum(ps.len() as int, |t: int| sum(bs.len() as int, |j: int| pair_shot(ps, bs, t, k, j)))
            == hits_taken(ps[k], bs, bs.len() as int),
{
    let n = ps.len() as int;
    let m = bs.len() as int;
    let h = |t: int, j: int| pair_shot(ps, bs, t, k, j);
    lemma_sum_swap(n, m, h);
    assert forall|t: int| 0 <= t < n implies #[trigger] shooter_row(ps, bs, t, k) == sum(
        m,
        |j: int| h(t, j),
    ) by {
        lemma_sum_ext(m, |j: int| pair_shot(ps, bs, t, k, j), |j: int| h(t, j));
    }
    lemma_sum_ext(
        n,
        |t: int| shooter_row(ps, bs, t, k),
        |i: int| sum(m, |j: int| h(i, j)),
    );
    lemma_sum_ext(
        n,
        |t: int| sum(bs.len() as int, |j: int| pair_shot(ps, bs, t, k, j)),
        |t: int| shooter_row(ps, bs, t, k),
    );
    assert forall|j: int| 0 <= j < m implies sum(n, |i: int| h(i, j)) == indicator(
        hits(ps[k], #[trigger] bs[j]),
    ) by {
        let tj = bs[j].tag as int;
        assert(0 <= tj < n);
        lemma_sum_single(n, tj, |i: int| h(i, j), indicator(hits(ps[k], bs[j])));
    }
    lemma_sum_ext(
        m,
        |j: int| sum(n, |i: int| h(i, j)),
        |j: int| indicator(hits(ps[k], bs[j])),
    );
}

/// Each hit is won once by its shooter: summed over all actors, the hits
/// landed are exactly the hits taken.
pub proof fn lemma_landed_equals_taken(ps: Seq<Panda>, bs: Seq<Bullet>)
    requires
        tags_dense(ps, bs),
    ensures
        sum(ps.len() as int, |t: int| hits_landed(t, ps, ps.len() as int, bs)) == total_hits(ps, bs),
{
    let n = ps.len() as int;
    let m = bs.len() as int;
    let rows = |t: int, k: int| sum(m, |j: int| pair_shot(ps, bs, t, k, j));
    assert forall|t: int| 0 <= t < n implies hits_landed(t, ps, n, bs) == sum(
        n,
        |k: int| rows(t, k),
    ) by {
        assert forall|k: int| 0 <= k < n implies shots_on(t, ps[k], bs, m) == rows(t, k) by {
            lemma_sum_ext(
                m,
                |j: int| indicator(bs[j].tag == t && hits(ps[k], bs[j])),
                |j: int| pair_shot(ps, bs, t, k, j),
            );
        }
        lemma_sum_ext(n, |k: int| shots_on(t, ps[k], bs, bs.len() as int), |k: int| rows(t, k));
    }
    lemma_sum_ext(
        n,
        |t: int| hits_landed(t, ps, n, bs),
        |i: int| sum(n, |k: int| rows(i, k)),
    );
    lemma_sum_swap(n, n, rows);
    assert forall|k: int| 0 <= k < n implies sum(n, |i: int| rows(i, k)) == hits_taken(
        ps[k],
        bs,
        m,
    ) by {
        lemma_taken_by_shooter(ps, bs, k);
        lemma_sum_ext(
            n,
            |i: int| rows(i, k),
            |t: int| sum(bs.len() as int, |j: int| pair_shot(ps, bs, t, k, j)),
        );
    }
    lemma_sum_ext(
        n,
        |k: int| sum(n, |i: int| rows(i, k)),
        |k: int| hits_taken(ps[k], bs, bs.len() as int),
    );
}

proof fn lemma_sum_bounded(n: int, f: spec_fn(int) -> int, c: int)
    requires
        0 <= n,
        0 <= c,
        forall|i: int| 0 <= i < n ==> 0 <= #[trigger] f(i) <= c,
    ensures
        0 <= sum(n, f) <= n * c,
    decreases n,
{
    if n > 0 {
        lemma_sum_bounded(n - 1, f, c);
        assert((n - 1) * c + c == n * c) by (nonlinear_arith);
    }
}

proof fn lemma_counts_bounded(ps: Seq<Panda>, bs: Seq<Bullet>, t: int, i: int, p: Panda, j: int)
    requires
        0 <= i <= ps.len(),
        0 <= j <= bs.len(),
    ensures
        0 <= hits_taken(p, bs, j) <= j,
        0 <= shots_on(t, p, bs, j) <= j,
        0 <= hits_landed(t, ps, i, bs) <= i * bs.len(),
{
    lemma_sum_bounded(j, |jj: int| indicator(hits(p, bs[jj])), 1);
    lemma_sum_bounded(j, |jj: int| indicator(bs[jj].tag == t && hits(p, bs[jj])), 1);
    assert forall|k: int| 0 <= k < i implies 0 <= #[trigger] shots_on(t, ps[k], bs, bs.len() as int)
        <= bs.len() by {
        lemma_sum_bounded(
            bs.len() as int,
            |jj: int| indicator(bs[jj].tag == t && hits(ps[k], bs[jj])),
            1,
        );
    }
    lemma_sum_bounded(i, |k: int| shots_on(t, ps[k], bs, bs.len() as int), bs.len() as int);
}

/// Over one tick the scores move, in total, by `POINT_WIN_PER_SUCCESSFUL_SHOT`
/// per hit landed less `POINT_LOST_WHEN_SHOT` per hit taken, one of each per
/// (actor, projectile) pair that hit, in whatever order the pairs were found.
pub proof fn lemma_score_total(ps: Seq<Panda>, bs: Seq<Bullet>, after: Seq<Panda>)
    requires
        tags_dense(ps, bs),
        after.len() == ps.len(),
        forall|t: int| 0 <= t < ps.len() ==> #[trigger] after[t].score == scored(ps, bs, t),
    ensures
        score_sum(after) == score_sum(ps) + POINT_WIN_PER_SUCCESSFUL_SHOT * total_hits(ps, bs)
            - POINT_LOST_WHEN_SHOT * total_hits(ps, bs),
{
    let n = ps.len() as int;
    let m = bs.len() as int;
    let taken = |t: int| hits_taken(ps[t], bs, m);
    let landed = |t: int| hits_landed(t, ps, n, bs);
    let lost = |t: int| -POINT_LOST_WHEN_SHOT * taken(t);
    let won = |t: int| POINT_WIN_PER_SUCCESSFUL_SHOT * landed(t);
    let moved = |t: int| lost(t) + won(t);
    assert forall|t: int| 0 <= t < n implies after[t].score as int == ps[t].score as int
        + #[trigger] moved(t) by {
        assert(after[t].score == scored(ps, bs, t));
        assert(taken(t) == hits_taken(ps[t], bs, m));
        assert(landed(t) == hits_landed(t, ps, n, bs));
        assert(lost(t) == -POINT_LOST_WHEN_SHOT * taken(t));
        assert(won(t) == POINT_WIN_PER_SUCCESSFUL_SHOT * landed(t));
        assert(moved(t) == lost(t) + won(t));
        let a = after[t].score as int;
        let b = ps[t].score as int;
        let x = taken(t);
        let y = landed(t);
        let mv = moved(t);
        assert(a == b + mv) by (nonlinear_arith)
            requires
                a == b - POINT_LOST_WHEN_SHOT * x + POINT_WIN_PER_SUCCESSFUL_SHOT * y,
                mv == -POINT_LOST_WHEN_SHOT * x + POINT_WIN_PER_SUCCESSFUL_SHOT * y,
        ;
    }
    lemma_sum_add(n, |t: int| ps[t].score as int, moved, |t: int| after[t].score as int);
    lemma_sum_add(n, lost, won, moved);
    lemma_sum_scale(n, taken, lost, -POINT_LOST_WHEN_SHOT);
    lemma_sum_scale(n, landed, won, POINT_WIN_PER_SUCCESSFUL_SHOT as int);
    lemma_landed_equals_taken(ps, bs);
    lemma_sum_ext(n, taken, |k: int| hits_taken(ps[k], bs, bs.len() as int));
    lemma_sum_ext(after.len() as int, |k: int| after[k].score as int, |t: int| after[t].score as int);
    lemma_sum_ext(n, landed, |t: int| hits_landed(t, ps, ps.len() as int, bs));
    let h = total_hits(ps, bs);
    let s0 = score_sum(ps);
    let s1 = score_sum(after);
    let sl = sum(n, lost);
    let sw = sum(n, won);
    assert(s1 == s0 + POINT_WIN_PER_SUCCESSFUL_SHOT * h - POINT_LOST_WHEN_SHOT * h) by (nonlinear_arith)
        requires
            s1 == s0 + (sl + sw),
            sl == -POINT_LOST_WHEN_SHOT * h,
            sw == POINT_WIN_PER_SUCCESSFUL_SHOT * h,
    ;
}

/// Finds every actor hit by someone else's projectile and commits the
/// scores once the whole scan is done: each hit costs the actor hit
/// `POINT_LOST_WHEN_SHOT`, earns the shooter `POINT_WIN_PER_SUCCESSFUL_SHOT`,
/// and marks the projectile for removal.
pub fn resolve_collisions(pandas: &mut Vec<Panda>, bullets: &mut Vec<Bullet>)
    requires
        tags_dense(old(pandas)@, old(bullets)@),
        old(pandas)@.len() <= MAX_ACTORS,
        old(bullets)@.len() <= MAX_BULLETS,
        forall|k: int|
            0 <= k < old(pandas)@.len() ==> (#[trigger] old(pandas)@[k]).wf() && -SCORE_LIMIT
                <= old(pandas)@[k].score <= SCORE_LIMIT,
        forall|j: int| 0 <= j < old(bullets)@.len() ==> (#[trigger] old(bullets)@[j]).wf(),
    ensures
        final(pandas)@.len() == old(pandas)@.len(),
        final(bullets)@.len() == old(bullets)@.len(),
        forall|t: int|
            0 <= t < old(pandas)@.len() ==> {
                &&& (#[trigger] final(pandas)@[t]).score == scored(old(pandas)@, old(bullets)@, t)
                &&& final(pandas)@[t] == (Panda { score: final(pandas)@[t].score, ..old(pandas)@[t] })
            },
        forall|j: int|
            0 <= j < old(bullets)@.len() ==> #[trigger] final(bullets)@[j] == (Bullet {
                to_remove: old(bullets)@[j].to_remove || struck(
                    old(pandas)@,
                    old(pandas)@.len() as int,
                    old(bullets)@[j],
                ),
                ..old(bullets)@[j]
            }),
        score_sum(final(pandas)@) == score_sum(old(pandas)@) + POINT_WIN_PER_SUCCESSFUL_SHOT
            * total_hits(old(pandas)@, old(bullets)@) - POINT_LOST_WHEN_SHOT * total_hits(
            old(pandas)@,
            old(bullets)@,
        ),
{
    let ghost ps0 = pandas@;
    let ghost bs0 = bullets@;
    let n: usize = pandas.len();
    let m: usize = bullets.len();
    // Points won, by the tag of the shooter.
    let mut gains: Vec<i64> = Vec::new();
    let mut t: usize = 0;
    while t < n
        invariant
            t <= n,
            gains@.len() == t,
            forall|u: int| 0 <= u < t ==> gains@[u] == 0,
        decreases n - t,
    {
        gains.push(0);
        t = t + 1;
    }
    let mut i: usize = 0;
    while i < n
        invariant
            i <= n,
            n == ps0.len(),
            m == bs0.len(),
            n <= MAX_ACTORS,
            m <= MAX_BULLETS,
            tags_dense(ps0, bs0),
            forall|k: int|
                0 <= k < n ==> (#[trigger] ps0[k]).wf() && -SCORE_LIMIT <= ps0[k].score
                    <= SCORE_LIMIT,
            forall|jj: int| 0 <= jj < m ==> (#[trigger] bs0[jj]).wf(),
            pandas@.len() == n,
            bullets@.len() == m,
            gains@.len() == n,
            forall|k: int|
                0 <= k < i ==> {
                    &&& (#[trigger] pandas@[k]).score == ps0[k].score - POINT_LOST_WHEN_SHOT
                        * hits_taken(ps0[k], bs0, m as int)
                    &&& pandas@[k] == (Panda { score: pandas@[k].score, ..ps0[k] })
                },
            forall|k: int| i <= k < n ==> #[trigger] pandas@[k] == ps0[k],
            forall|u: int|
                0 <= u < n ==> #[trigger] gains@[u] == POINT_WIN_PER_SUCCESSFUL_SHOT * hits_landed(
                    u,
                    ps0,
                    i as int,
                    bs0,
                ),
            forall|jj: int|
                0 <= jj < m ==> #[trigger] bullets@[jj] == (Bullet {
                    to_remove: bs0[jj].to_remove || struck(ps0, i as int, bs0[jj]),
                    ..bs0[jj]
                }),
        decreases n - i,
    {
        let mut p: Panda = pandas[i];
        let mut j: usize = 0;
        while j < m
            invariant
                i < n,
                j <= m,
                n == ps0.len(),
                m == bs0.len(),
                n <= MAX_ACTORS,
                m <= MAX_BULLETS,
                tags_dense(ps0, bs0),
                ps0[i as int].wf(),
                -SCORE_LIMIT <= ps0[i as int].score <= SCORE_LIMIT,
                forall|jj: int| 0 <= jj < m ==> (#[trigger] bs0[jj]).wf(),
                bullets@.len() == m,
                gains@.len() == n,
                p == (Panda { score: p.score, ..ps0[i as int] }),
                p.score == ps0[i as int].score - POINT_LOST_WHEN_SHOT * hits_taken(
                    ps0[i as int],
                    bs0,
                    j as int,
                ),
                forall|u: int|
                    0 <= u < n ==> #[trigger] gains@[u] == POINT_WIN_PER_SUCCESSFUL_SHOT * (
                    hits_landed(u, ps0, i as int, bs0) + shots_on(u, ps0[i as int], bs0, j as int)),
                forall|jj: int|
                    0 <= jj < m ==> #[trigger] bullets@[jj] == (Bullet {
                        to_remove: bs0[jj].to_remove || struck(ps0, i as int, bs0[jj]) || (jj < j
                            && hits(ps0[i as int], bs0[jj])),
                        ..bs0[jj]
                    }),
            decreases m - j,
        {
            let b: Bullet = bullets[j];
            let ghost pj = bs0[j as int];
            proof {
                lemma_counts_bounded(ps0, bs0, b.tag as int, i as int, ps0[i as int], j as int);
                assert(i * m <= 100_000_000_000) by (nonlinear_arith)
                    requires
                        i < n <= 100_000,
                        m <= 1_000_000,
                ;
                assert(b.body == pj.body && b.tag == pj.tag);
            }
            if p.tag != b.tag && p.body.in_contact(&b.body) {
                p.score = p.score - POINT_LOST_WHEN_SHOT;
                bullets.set(j, Bullet { to_remove: true, ..b });
                let g: i64 = gains[b.tag];
                gains.set(b.tag, g + POINT_WIN_PER_SUCCESSFUL_SHOT);
            }
            proof {
                assert(hits(ps0[i as int], pj) == (p.tag != b.tag && contact(p.body, b.body)));
                assert forall|u: int| 0 <= u < n implies #[trigger] gains@[u]
                    == POINT_WIN_PER_SUCCESSFUL_SHOT * (hits_landed(u, ps0, i as int, bs0) + shots_on(
                    u,
                    ps0[i as int],
                    bs0,
                    j + 1,
                )) by {
                    assert(shots_on(u, ps0[i as int], bs0, j + 1) == shots_on(
                        u,
                        ps0[i as int],
                        bs0,
                        j as int,
                    ) + indicator(bs0[j as int].tag == u && hits(ps0[i as int], bs0[j as int])));
                }
                assert(hits_taken(ps0[i as int], bs0, j + 1) == hits_taken(
                    ps0[i as int],
                    bs0,
                    j as int,
                ) + indicator(hits(ps0[i as int], bs0[j as int])));
            }
            j = j + 1;
        }
        proof {
            assert forall|jj: int| 0 <= jj < m implies struck(ps0, i as int, bs0[jj]) || hits(
                ps0[i as int],
                bs0[jj],
            ) <==> struck(ps0, i + 1, #[trigger] bs0[jj]) by {
                if struck(ps0, i + 1, bs0[jj]) {
                    let k = choose|k: int| 0 <= k < i + 1 && #[trigger] hits(ps0[k], bs0[jj]);
                    if k < i {
                        assert(struck(ps0, i as int, bs0[jj]));
                    }
                }
                if hits(ps0[i as int], bs0[jj]) {
                    assert(struck(ps0, i + 1, bs0[jj]));
                }
            }
            assert forall|u: int| 0 <= u < n implies hits_landed(u, ps0, i + 1, bs0) == hits_landed(
                u,
                ps0,
                i as int,
                bs0,
            ) + shots_on(u, ps0[i as int], bs0, m as int) by {}
        }
        pandas.set(i, p);
        i = i + 1;
    }
    // Commit the points won, once every pair has been tested.
    let mut t: usize = 0;
    while t < n
        invariant
            t <= n,
            n == ps0.len(),
            m == bs0.len(),
            n <= MAX_ACTORS,
            m <= MAX_BULLETS,
            tags_dense(ps0, bs0),
            forall|k: int|
                0 <= k < n ==> (#[trigger] ps0[k]).wf() && -SCORE_LIMIT <= ps0[k].score
                    <= SCORE_LIMIT,
            pandas@.len() == n,
            gains@.len() == n,
            forall|k: int|
                0 <= k < n ==> (#[trigger] pandas@[k]) == (Panda { score: pandas@[k].score, ..ps0[k] }),
            forall|k: int| 0 <= k < t ==> (#[trigger] pandas@[k]).score == scored(ps0, bs0, k),
            forall|k: int|
                t <= k < n ==> (#[trigger] pandas@[k]).score == ps0[k].score - POINT_LOST_WHEN_SHOT
                    * hits_taken(ps0[k], bs0, m as int),
            forall|u: int|
                0 <= u < n ==> #[trigger] gains@[u] == POINT_WIN_PER_SUCCESSFUL_SHOT * hits_landed(
                    u,
                    ps0,
                    n as int,
                    bs0,
                ),
        decreases n - t,
    {
        let mut p: Panda = pandas[t];
        proof {
            lemma_counts_bounded(ps0, bs0, t as int, n as int, ps0[t as int], m as int);
            assert(n * m <= 100_000_000_000) by (nonlinear_arith)
                requires
                    n <= 100_000,
                    m <= 1_000_000,
            ;
        }
        p.score = p.score + gains[t];
        pandas.set(t, p);
        t = t + 1;
    }
    proof {
        lemma_score_total(ps0, bs0, pandas@);
    }
}

} // verus!
