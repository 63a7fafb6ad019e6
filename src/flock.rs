//! The flock engine: each boid gathers what it perceives of the others and
//! sets its steering vectors, all from one snapshot of the flock.
use vstd::prelude::*;

use crate::boid::{large_bundle, standard_bundle, Boid, BoidBundle, UNIT};
use crate::movement::{
    after_acceleration, after_boundary, after_move, after_velocity, combined_steering, to_vector,
    Acceleration, BoundaryPolicy, Velocity,
};
use crate::neighborhood::{in_neighborhood, lemma_neighbor_irreflexive, Neighbors};
use crate::steering_behaviors::{
    behavior_steering, lemma_behavior_steering_bound, lemma_steering_coords, observation_limit,
    sum_within, BehaviorKind, SteeringBehavior, EFFECTIVENESS_SCALE, REPULSION_SCALE,
    STEERING_LIMIT,
};
use crate::vector::{
    div_trunc_i128, lemma_div_trunc, lemma_norm_bounds_coords, lemma_square_le_abs, norm_sq,
    scale_ratio, scale_to_length, v_add, v_sub, vec2, within, zero_vec, Vec2Model, Vector2,
    WideVector, COORD_LIMIT,
};

verus! {

/// Number of standard boids in a new flock.
pub const FLOCK_SIZE: usize = 240;

/// Number of large boids in a new flock.
pub const BIG_FLOCK_SIZE: usize = 10;

/// New boids start with each coordinate in `[-START_RADIUS, START_RADIUS)`.
pub const START_RADIUS: i64 = 400 * UNIT;

/// Each coordinate of the direction drawn for a new boid's velocity lies in
/// `[-START_DRAW, START_DRAW)`.
pub const START_DRAW: i64 = UNIT;

/// The speed a standard boid starts with.
pub const START_VELOCITY: i64 = 6 * UNIT;

/// The speed a large boid starts with.
pub const BIG_START_VELOCITY: i64 = 2 * UNIT;

/// A drawn direction is magnified by this factor before it is brought to a
/// speed, so that a short draw keeps its direction and gets its full length.
pub const DRAW_MAGNIFICATION: i64 = 1_048_576;

pub const MAX_SPEED: i64 = 12 * UNIT;

pub const MAX_ACCELERATION: i64 = 200;

pub const BIG_MAX_SPEED: i64 = 2 * UNIT;

pub const BIG_MAX_ACCELERATION: i64 = 20;

/// Every boid of the flock is well formed.
pub open spec fn flock_wf(flock: Seq<Boid>) -> bool {
    forall|i: int| 0 <= i < flock.len() ==> #[trigger] flock[i].wf()
}

/// Every boid of the flock is well formed, with positions within `position_limit`.
pub open spec fn flock_wf_with(flock: Seq<Boid>, position_limit: int) -> bool {
    forall|i: int| 0 <= i < flock.len() ==> #[trigger] flock[i].wf_with(position_limit)
}

/// Whether every boid of the flock is well formed.
pub fn flock_is_well_formed(flock: &Vec<Boid>) -> (r: bool)
    ensures
        r == flock_wf(flock@),
{
    let mut i: usize = 0;
    while i < flock.len()
        invariant
            i <= flock.len(),
            forall|k: int| 0 <= k < i ==> (#[trigger] flock@[k]).wf(),
        decreases flock.len() - i,
    {
        if !flock[i].is_well_formed() {
            assert(!flock@[i as int].wf());
            return false;
        }
        i = i + 1;
    }
    true
}

/// Boid `i` perceives boid `j` with its behaviour of `kind`: `j` is another
/// boid, inside that behaviour's window as seen from `i` facing its velocity.
pub open spec fn perceives(flock: Seq<Boid>, i: int, j: int, kind: BehaviorKind) -> bool {
    &&& j != i
    &&& in_neighborhood(
        flock[i].position@,
        flock[i].velocity.value@,
        flock[j].position@,
        flock[i].window_distance(kind),
        flock[i].window_cos(kind),
    )
}

/// The inverse-square repulsion of a neighbour on an observer: the offset
/// from the neighbour divided by the squared distance, scaled by `REPULSION_SCALE`.
pub open spec fn repulsion(observer: Vec2Model, neighbor: Vec2Model) -> Vec2Model {
    let r = v_sub(observer, neighbor);
    scale_ratio(r, REPULSION_SCALE as int, norm_sq(r))
}

/// What boid `i`'s behaviour of `kind` observes of boid `j`.
pub open spec fn observation(flock: Seq<Boid>, i: int, j: int, kind: BehaviorKind) -> Vec2Model {
    match kind {
        BehaviorKind::Separation => repulsion(flock[i].position@, flock[j].position@),
        BehaviorKind::Alignment => flock[j].velocity.value@,
        BehaviorKind::Cohesion => flock[j].position@,
    }
}

/// How many of the first `k` boids boid `i` perceives with its behaviour of `kind`.
pub open spec fn observed_count(flock: Seq<Boid>, i: int, kind: BehaviorKind, k: int) -> int
    decreases k,
{
    if k <= 0 {
        0
    } else {
        observed_count(flock, i, kind, k - 1) + if perceives(flock, i, k - 1, kind) {
            1int
        } else {
            0int
        }
    }
}

/// The sum of what boid `i`'s behaviour of `kind` observes of the first `k` boids it perceives.
pub open spec fn observed_sum(flock: Seq<Boid>, i: int, kind: BehaviorKind, k: int) -> Vec2Model
    decreases k,
{
    if k <= 0 {
        zero_vec()
    } else if perceives(flock, i, k - 1, kind) {
        v_add(observed_sum(flock, i, kind, k - 1), observation(flock, i, k - 1, kind))
    } else {
        observed_sum(flock, i, kind, k - 1)
    }
}

/// The steering vector of boid `i`'s behaviour of `kind`, from all it perceives.
pub open spec fn steering_for(flock: Seq<Boid>, i: int, kind: BehaviorKind) -> Vec2Model {
    let b = flock[i];
    let n = flock.len() as int;
    behavior_steering(
        kind,
        observed_count(flock, i, kind, n),
        observed_sum(flock, i, kind, n),
        b.position@,
        b.velocity.value@,
        b.velocity.max as int,
        b.acceleration.max as int,
        b.effectiveness(kind),
    )
}

/// After setting the steering vectors of `kind`, boid `i` of `after`
/// differs from boid `i` of `before` only in that vector, which is the one
/// computed from `before`.
pub open spec fn steered(before: Seq<Boid>, after: Seq<Boid>, i: int, kind: BehaviorKind) -> bool {
    &&& after[i] == before[i].with_steering(kind, after[i].steering(kind))
    &&& after[i].steering(kind)@ == steering_for(before, i, kind)
}

/// A boid never perceives itself: it is excluded by its index, and it would
/// lie outside its own window anyway, at distance zero.
pub proof fn lemma_never_perceives_itself(flock: Seq<Boid>, i: int, kind: BehaviorKind)
    requires
        0 <= i < flock.len(),
    ensures
        !perceives(flock, i, i, kind),
        !in_neighborhood(
            flock[i].position@,
            flock[i].velocity.value@,
            flock[i].position@,
            flock[i].window_distance(kind),
            flock[i].window_cos(kind),
        ),
{
    lemma_neighbor_irreflexive(
        flock[i].position@,
        flock[i].velocity.value@,
        flock[i].window_distance(kind),
        flock[i].window_cos(kind),
    );
}

/// With no boid in the window of one of its behaviours, a boid's steering
/// vector for that behaviour is exactly zero.
pub proof fn lemma_no_neighbors_no_steering(flock: Seq<Boid>, i: int, kind: BehaviorKind)
    requires
        0 <= i < flock.len(),
        forall|j: int| 0 <= j < flock.len() ==> !perceives(flock, i, j, kind),
    ensures
        steering_for(flock, i, kind) == zero_vec(),
{
    lemma_count_without_neighbors(flock, i, kind, flock.len() as int);
}

proof fn lemma_count_without_neighbors(flock: Seq<Boid>, i: int, kind: BehaviorKind, k: int)
    requires
        k <= flock.len(),
        forall|j: int| 0 <= j < flock.len() ==> !perceives(flock, i, j, kind),
    ensures
        observed_count(flock, i, kind, k) == 0,
    decreases k,
{
    if k > 0 {
        lemma_count_without_neighbors(flock, i, kind, k - 1);
    }
}

/// In a tick, each steering vector of a boid is at most `max_acceleration`
/// times its behaviour's effectiveness long; the acceleration, their sum
/// clamped to `max_acceleration`, is at most the sum of those three bounds
/// long (lengths scaled by `EFFECTIVENESS_SCALE`) and at most `max_acceleration` long.
pub proof fn lemma_tick_acceleration_bound(flock: Seq<Boid>, i: int)
    requires
        flock_wf(flock),
        0 <= i < flock.len(),
    ensures
        ({
            let b = after_acceleration(all_steered(flock, i));
            let m = flock[i].acceleration.max as int;
            let es = EFFECTIVENESS_SCALE as int;
            let bs = m * flock[i].effectiveness(BehaviorKind::Separation);
            let ba = m * flock[i].effectiveness(BehaviorKind::Alignment);
            let bc = m * flock[i].effectiveness(BehaviorKind::Cohesion);
            &&& norm_sq(b.steering(BehaviorKind::Separation)@) * (es * es) <= bs * bs
            &&& norm_sq(b.steering(BehaviorKind::Alignment)@) * (es * es) <= ba * ba
            &&& norm_sq(b.steering(BehaviorKind::Cohesion)@) * (es * es) <= bc * bc
            &&& norm_sq(b.acceleration.value@) * (es * es) <= (bs + ba + bc) * (bs + ba + bc)
            &&& norm_sq(b.acceleration.value@) <= m * m
        }),
{
    let me = flock[i];
    assert(me.wf());
    let m = me.acceleration.max as int;
    let es = EFFECTIVENESS_SCALE as int;
    let s = steering_for(flock, i, BehaviorKind::Separation);
    let a = steering_for(flock, i, BehaviorKind::Alignment);
    let c = steering_for(flock, i, BehaviorKind::Cohesion);
    lemma_steering_for_bound(flock, i, BehaviorKind::Separation);
    lemma_steering_for_bound(flock, i, BehaviorKind::Alignment);
    lemma_steering_for_bound(flock, i, BehaviorKind::Cohesion);
    let b = all_steered(flock, i);
    assert(b.steering(BehaviorKind::Separation)@ == s);
    assert(b.steering(BehaviorKind::Alignment)@ == a);
    assert(b.steering(BehaviorKind::Cohesion)@ == c);
    assert(combined_steering(b) == v_add(v_add(s, a), c));
    let bs = m * me.effectiveness(BehaviorKind::Separation);
    let ba = m * me.effectiveness(BehaviorKind::Alignment);
    let bc = m * me.effectiveness(BehaviorKind::Cohesion);
    assert(bs >= 0 && ba >= 0 && bc >= 0) by (nonlinear_arith)
        requires
            m >= 0,
            me.effectiveness(BehaviorKind::Separation) >= 0,
            me.effectiveness(BehaviorKind::Alignment) >= 0,
            me.effectiveness(BehaviorKind::Cohesion) >= 0,
            bs == m * me.effectiveness(BehaviorKind::Separation),
            ba == m * me.effectiveness(BehaviorKind::Alignment),
            bc == m * me.effectiveness(BehaviorKind::Cohesion),
    ;
    crate::vector::lemma_sum_of_three_bounded(s, a, c, bs, ba, bc, es * es);
    let sum = v_add(v_add(s, a), c);
    crate::vector::lemma_clamp_length_max_shortens(sum, m);
    crate::vector::lemma_clamp_length_max_norm(sum, m);
    let clamped = crate::vector::clamp_length_max(sum, m);
    assert(norm_sq(clamped) * (es * es) <= norm_sq(sum) * (es * es)) by (nonlinear_arith)
        requires
            norm_sq(clamped) <= norm_sq(sum),
    ;
    assert(within(sum, 3 * STEERING_LIMIT));
}

/// The steering vector of boid `i`'s behaviour of `kind` is within its bound.
proof fn lemma_steering_for_bound(flock: Seq<Boid>, i: int, kind: BehaviorKind)
    requires
        flock_wf(flock),
        0 <= i < flock.len(),
    ensures
        norm_sq(steering_for(flock, i, kind)) * (EFFECTIVENESS_SCALE * EFFECTIVENESS_SCALE) <= (
        flock[i].acceleration.max * flock[i].effectiveness(kind)) * (flock[i].acceleration.max
            * flock[i].effectiveness(kind)),
        within(steering_for(flock, i, kind), STEERING_LIMIT as int),
{
    let b = flock[i];
    assert(b.wf());
    let n = flock.len() as int;
    lemma_behavior_steering_bound(
        kind,
        observed_count(flock, i, kind, n),
        observed_sum(flock, i, kind, n),
        b.position@,
        b.velocity.value@,
        b.velocity.max as int,
        b.acceleration.max as int,
        b.effectiveness(kind),
    );
    lemma_steering_coords(
        steering_for(flock, i, kind),
        b.acceleration.max as int,
        b.effectiveness(kind),
    );
}

/// Negating an offset keeps its length.
pub proof fn lemma_norm_sq_sub_symmetric(a: Vec2Model, b: Vec2Model)
    ensures
        norm_sq(v_sub(a, b)) == norm_sq(v_sub(b, a)),
{
    assert((a.x - b.x) * (a.x - b.x) == (b.x - a.x) * (b.x - a.x)) by (nonlinear_arith);
    assert((a.y - b.y) * (a.y - b.y) == (b.y - a.y) * (b.y - a.y)) by (nonlinear_arith);
}

/// One more observation within `limit` keeps the sum within `(count + 1) * limit`.
proof fn lemma_sum_step(sum: Vec2Model, obs: Vec2Model, count: int, limit: int)
    requires
        sum_within(sum, count, limit),
        within(obs, limit),
    ensures
        sum_within(v_add(sum, obs), count + 1, limit),
{
    assert((count + 1) * limit == count * limit + limit) by (nonlinear_arith);
    assert(-(count + 1) * limit == -count * limit - limit) by (nonlinear_arith);
}

/// A coordinate of an offset of length `n` is at most `n` in magnitude.
proof fn lemma_repulsion_coord(a: int, n: int, q: int)
    requires
        n > 0,
        a * a <= n,
        q == crate::vector::div_trunc(a * (REPULSION_SCALE as int), n),
    ensures
        -(REPULSION_SCALE as int) <= q <= REPULSION_SCALE as int,
{
    let k = REPULSION_SCALE as int;
    assert(-n <= a <= n) by (nonlinear_arith)
        requires
            a * a <= n,
            n > 0,
    ;
    assert(-(k * n) <= a * k <= k * n) by (nonlinear_arith)
        requires
            -n <= a <= n,
            k > 0,
    ;
    lemma_div_trunc(a * k, n);
    assert(-k <= q <= k) by (nonlinear_arith)
        requires
            (a * k) >= 0 ==> 0 <= q && q * n <= (a * k),
            (a * k) < 0 ==> q <= 0 && -q * n <= -(a * k),
            -(k * n) <= a * k <= k * n,
            n > 0,
    ;
}

/// The repulsion of a boid at `neighbor` on a boid at `observer`.
fn repulsion_of(observer: &Vector2, neighbor: &Vector2) -> (r: WideVector)
    requires
        within(observer@, COORD_LIMIT as int),
        within(neighbor@, COORD_LIMIT as int),
        norm_sq(v_sub(observer@, neighbor@)) > 0,
    ensures
        r@ == repulsion(observer@, neighbor@),
        within(r@, REPULSION_SCALE as int),
{
    let offset = observer.minus(neighbor).widen();
    let n = offset.length_squared();
    let k = REPULSION_SCALE;
    proof {
        let l = 2 * COORD_LIMIT;
        lemma_square_le_abs(offset.x as int, l);
        lemma_square_le_abs(offset.y as int, l);
        crate::vector::lemma_mul_abs_bound(offset.x as int, l, k as int, k as int);
        crate::vector::lemma_mul_abs_bound(offset.y as int, l, k as int, k as int);
        assert(offset.y * offset.y >= 0 && offset.x * offset.x >= 0) by (nonlinear_arith);
    }
    let qx = div_trunc_i128(offset.x * k, n);
    let qy = div_trunc_i128(offset.y * k, n);
    proof {
        lemma_repulsion_coord(offset.x as int, n as int, qx as int);
        lemma_repulsion_coord(offset.y as int, n as int, qy as int);
    }
    WideVector { x: qx, y: qy }
}

/// Whether boid `i`'s behaviour of `kind` has boid `j` in its window.
fn sees(me: &Boid, other: &Boid, kind: BehaviorKind) -> (r: bool)
    requires
        me.wf(),
        other.wf(),
    ensures
        r == in_neighborhood(
            me.position@,
            me.velocity.value@,
            other.position@,
            me.window_distance(kind),
            me.window_cos(kind),
        ),
{
    proof {
        lemma_norm_bounds_coords(me.velocity.value@, me.velocity.max as int);
    }
    match kind {
        BehaviorKind::Separation => me.bundle.separation_neighborhood.are_neighbors(
            &me.position,
            &me.velocity.value,
            &other.position,
        ),
        BehaviorKind::Alignment => me.bundle.alignment_neighborhood.are_neighbors(
            &me.position,
            &me.velocity.value,
            &other.position,
        ),
        BehaviorKind::Cohesion => me.bundle.cohesion_neighborhood.are_neighbors(
            &me.position,
            &me.velocity.value,
            &other.position,
        ),
    }
}

/// How many boids boid `i`'s behaviour of `kind` perceives, and the sum of
/// what it observes of them.
pub fn observe(flock: &Vec<Boid>, i: usize, kind: BehaviorKind) -> (r: (usize, WideVector))
    requires
        flock_wf(flock@),
        i < flock.len(),
    ensures
        r.0 == observed_count(flock@, i as int, kind, flock.len() as int),
        r.1@ == observed_sum(flock@, i as int, kind, flock.len() as int),
        sum_within(r.1@, r.0 as int, observation_limit(kind)),
{
    let me = flock[i];
    let mut count: usize = 0;
    let mut sum = WideVector::zero();
    let mut j: usize = 0;
    assert(flock@[i as int].wf());
    while j < flock.len()
        invariant
            flock_wf(flock@),
            me == flock@[i as int],
            me.wf(),
            i < flock.len(),
            j <= flock.len(),
            count <= j,
            count == observed_count(flock@, i as int, kind, j as int),
            sum@ == observed_sum(flock@, i as int, kind, j as int),
            sum_within(sum@, count as int, observation_limit(kind)),
        decreases flock.len() - j,
    {
        let other = flock[j];
        assert(flock@[j as int].wf());
        if j != i && sees(&me, &other, kind) {
            proof {
                lemma_norm_sq_sub_symmetric(me.position@, other.position@);
                lemma_norm_bounds_coords(other.velocity.value@, other.velocity.max as int);
            }
            let obs = match kind {
                BehaviorKind::Separation => repulsion_of(&me.position, &other.position),
                BehaviorKind::Alignment => other.velocity.value.widen(),
                BehaviorKind::Cohesion => other.position.widen(),
            };
            proof {
                lemma_sum_step(sum@, obs@, count as int, observation_limit(kind));
                let lim = observation_limit(kind);
                assert(0 <= (count + 1) * lim <= (usize::MAX as int) * (REPULSION_SCALE as int))
                    by (nonlinear_arith)
                    requires
                        0 <= count + 1 <= usize::MAX,
                        0 <= lim <= REPULSION_SCALE,
                ;
            }
            sum = sum.plus(&obs);
            count = count + 1;
        }
        j = j + 1;
    }
    (count, sum)
}

/// Sets the steering vectors of `kind` of every boid from what it perceives,
/// all computed from the flock as it was before any of them changed.
fn update_behavior(flock: &mut Vec<Boid>, kind: BehaviorKind)
    requires
        flock_wf(old(flock)@),
    ensures
        final(flock).len() == old(flock).len(),
        flock_wf(final(flock)@),
        forall|i: int|
            0 <= i < final(flock).len() ==> steered(old(flock)@, final(flock)@, i, kind),
{
    let ghost snapshot = flock@;
    let n = flock.len();
    let mut seen: Vec<(usize, WideVector)> = Vec::new();
    let mut i: usize = 0;
    while i < n
        invariant
            flock@ == snapshot,
            n == flock.len(),
            flock_wf(snapshot),
            i <= n,
            seen.len() == i,
            forall|k: int|
                0 <= k < i ==> {
                    &&& (#[trigger] seen@[k]).0 == observed_count(snapshot, k, kind, n as int)
                    &&& seen@[k].1@ == observed_sum(snapshot, k, kind, n as int)
                    &&& sum_within(seen@[k].1@, seen@[k].0 as int, observation_limit(kind))
                },
        decreases n - i,
    {
        let o = observe(flock, i, kind);
        seen.push(o);
        i = i + 1;
    }
    let mut i: usize = 0;
    while i < n
        invariant
            n == flock.len(),
            snapshot.len() == n,
            flock_wf(snapshot),
            flock_wf(flock@),
            i <= n,
            seen.len() == n,
            forall|k: int|
                0 <= k < n ==> {
                    &&& (#[trigger] seen@[k]).0 == observed_count(snapshot, k, kind, n as int)
                    &&& seen@[k].1@ == observed_sum(snapshot, k, kind, n as int)
                    &&& sum_within(seen@[k].1@, seen@[k].0 as int, observation_limit(kind))
                },
            forall|k: int| 0 <= k < i ==> steered(snapshot, flock@, k, kind),
            forall|k: int| i <= k < n ==> flock@[k] == snapshot[k],
        decreases n - i,
    {
        let mut b = flock[i];
        let (count, sum) = seen[i];
        assert(snapshot[i as int].wf());
        match kind {
            BehaviorKind::Separation => b.bundle.separation.set_steering_vector(
                count,
                sum,
                &b.velocity,
                &b.acceleration,
                b.position,
            ),
            BehaviorKind::Alignment => b.bundle.alignment.set_steering_vector(
                count,
                sum,
                &b.velocity,
                &b.acceleration,
                b.position,
            ),
            BehaviorKind::Cohesion => b.bundle.cohesion.set_steering_vector(
                count,
                sum,
                &b.velocity,
                &b.acceleration,
                b.position,
            ),
        }
        let ghost before = flock@;
        flock.set(i, b);
        assert forall|k: int| 0 <= k <= i implies steered(snapshot, flock@, k, kind) by {
            if k < i {
                assert(steered(snapshot, before, k, kind));
                assert(flock@[k] == before[k]);
            }
        }
        i = i + 1;
    }
}

/// Sets every boid's separation vector from the neighbours in its separation window.
pub fn update_separation(flock: &mut Vec<Boid>)
    requires
        flock_wf(old(flock)@),
    ensures
        final(flock).len() == old(flock).len(),
        flock_wf(final(flock)@),
        forall|i: int|
            0 <= i < final(flock).len() ==> steered(
                old(flock)@,
                final(flock)@,
                i,
                BehaviorKind::Separation,
            ),
{
    update_behavior(flock, BehaviorKind::Separation);
}

/// Sets every boid's alignment vector from the neighbours in its alignment window.
pub fn update_alignment(flock: &mut Vec<Boid>)
    requires
        flock_wf(old(flock)@),
    ensures
        final(flock).len() == old(flock).len(),
        flock_wf(final(flock)@),
        forall|i: int|
            0 <= i < final(flock).len() ==> steered(
                old(flock)@,
                final(flock)@,
                i,
                BehaviorKind::Alignment,
            ),
{
    update_behavior(flock, BehaviorKind::Alignment);
}

/// Sets every boid's cohesion vector from the neighbours in its cohesion window.
pub fn update_cohesion(flock: &mut Vec<Boid>)
    requires
        flock_wf(old(flock)@),
    ensures
        final(flock).len() == old(flock).len(),
        flock_wf(final(flock)@),
        forall|i: int|
            0 <= i < final(flock).len() ==> steered(
                old(flock)@,
                final(flock)@,
                i,
                BehaviorKind::Cohesion,
            ),
{
    update_behavior(flock, BehaviorKind::Cohesion);
}

/// Boid `i` with its three steering vectors set from what it perceives in `flock`.
pub open spec fn all_steered(flock: Seq<Boid>, i: int) -> Boid {
    flock[i].with_steering(
        BehaviorKind::Separation,
        to_vector(steering_for(flock, i, BehaviorKind::Separation)),
    ).with_steering(
        BehaviorKind::Alignment,
        to_vector(steering_for(flock, i, BehaviorKind::Alignment)),
    ).with_steering(BehaviorKind::Cohesion, to_vector(steering_for(flock, i, BehaviorKind::Cohesion)))
}

/// Boid `i` of `flock` after one tick: steering from the flock as it was,
/// then acceleration, velocity, position and facing, then the boundary.
pub open spec fn ticked(
    flock: Seq<Boid>,
    i: int,
    half_width: int,
    half_height: int,
    policy: BoundaryPolicy,
) -> Boid {
    after_boundary(
        after_move(after_velocity(after_acceleration(all_steered(flock, i)))),
        half_width,
        half_height,
        policy,
    )
}

/// The steering vector of `kind` of boid `i`, set from what it perceives.
fn steer_from(flock: &Vec<Boid>, b: &mut Boid, i: usize, kind: BehaviorKind)
    requires
        flock_wf(flock@),
        i < flock.len(),
        old(b).wf(),
        old(b).position == flock@[i as int].position,
        old(b).velocity == flock@[i as int].velocity,
        old(b).acceleration == flock@[i as int].acceleration,
        old(b).effectiveness(kind) == flock@[i as int].effectiveness(kind),
    ensures
        *final(b) == old(b).with_steering(kind, final(b).steering(kind)),
        final(b).steering(kind)@ == steering_for(flock@, i as int, kind),
        final(b).wf(),
{
    let (count, sum) = observe(flock, i, kind);
    match kind {
        BehaviorKind::Separation => b.bundle.separation.set_steering_vector(
            count,
            sum,
            &b.velocity,
            &b.acceleration,
            b.position,
        ),
        BehaviorKind::Alignment => b.bundle.alignment.set_steering_vector(
            count,
            sum,
            &b.velocity,
            &b.acceleration,
            b.position,
        ),
        BehaviorKind::Cohesion => b.bundle.cohesion.set_steering_vector(
            count,
            sum,
            &b.velocity,
            &b.acceleration,
            b.position,
        ),
    }
}

/// One tick of the simulation. First every boid's three steering vectors
/// are set from the flock as it stands, before any boid moves; then each
/// boid accelerates by their sum, updates its velocity within its speed
/// bound, moves and turns, and is brought back into the world
/// `[-half_width, half_width] x [-half_height, half_height]` by `policy`.
pub fn tick(flock: &mut Vec<Boid>, half_width: i64, half_height: i64, policy: BoundaryPolicy)
    requires
        flock_wf(old(flock)@),
        0 <= half_width <= COORD_LIMIT,
        0 <= half_height <= COORD_LIMIT,
    ensures
        final(flock).len() == old(flock).len(),
        flock_wf(final(flock)@),
        forall|i: int|
            0 <= i < final(flock).len() ==> norm_sq((#[trigger] final(flock)@[i]).velocity.value@)
                <= final(flock)@[i].velocity.max * final(flock)@[i].velocity.max,
        forall|i: int|
            0 <= i < final(flock).len() ==> #[trigger] final(flock)@[i] == ticked(
                old(flock)@,
                i,
                half_width as int,
                half_height as int,
                policy,
            ),
{
    let ghost snapshot = flock@;
    let n = flock.len();
    let mut next: Vec<Boid> = Vec::new();
    let mut i: usize = 0;
    while i < n
        invariant
            flock@ == snapshot,
            n == flock.len(),
            flock_wf(snapshot),
            i <= n,
            next.len() == i,
            forall|k: int| 0 <= k < i ==> #[trigger] next@[k] == all_steered(snapshot, k),
            forall|k: int| 0 <= k < i ==> (#[trigger] next@[k]).wf(),
        decreases n - i,
    {
        let mut b = flock[i];
        assert(snapshot[i as int].wf());
        steer_from(flock, &mut b, i, BehaviorKind::Separation);
        steer_from(flock, &mut b, i, BehaviorKind::Alignment);
        steer_from(flock, &mut b, i, BehaviorKind::Cohesion);
        next.push(b);
        i = i + 1;
    }
    let mut i: usize = 0;
    while i < n
        invariant
            n == flock.len(),
            n == next.len(),
            snapshot.len() == n,
            0 <= half_width <= COORD_LIMIT,
            0 <= half_height <= COORD_LIMIT,
            forall|k: int| 0 <= k < n ==> #[trigger] next@[k] == all_steered(snapshot, k),
            forall|k: int| 0 <= k < n ==> (#[trigger] next@[k]).wf(),
            forall|k: int|
                0 <= k < i ==> #[trigger] flock@[k] == ticked(
                    snapshot,
                    k,
                    half_width as int,
                    half_height as int,
                    policy,
                ),
            forall|k: int| 0 <= k < i ==> (#[trigger] flock@[k]).wf(),
        decreases n - i,
    {
        let mut b = next[i];
        assert(next@[i as int].wf());
        b.set_acceleration();
        b.update_velocity();
        b.update_position();
        b.apply_boundary(half_width, half_height, policy);
        flock.set(i, b);
        i = i + 1;
    }
    assert forall|k: int| 0 <= k < flock.len() implies norm_sq(
        (#[trigger] flock@[k]).velocity.value@,
    ) <= flock@[k].velocity.max * flock@[k].velocity.max by {
        assert(flock@[k].wf());
    }
}

/// Relies on rand::random_range: a value of the thread-local generator in
/// `[low, high)`; it panics on an empty range.
#[verifier::external_body]
fn random_between(low: i64, high: i64) -> (r: i64)
    requires
        low < high,
    ensures
        low <= r < high,
{
    rand::random_range(low..high)
}

/// A new boid of `bundle` with zero acceleration, at `position`, with
/// velocity `velocity` clamped to `max_speed`, facing along that velocity
/// (up when it is zero).
pub fn spawn_boid(
    position: Vector2,
    velocity: Vector2,
    max_speed: i64,
    max_acceleration: i64,
    bundle: BoidBundle,
) -> (r: Boid)
    requires
        within(position@, COORD_LIMIT as int),
        within(velocity@, COORD_LIMIT as int),
        0 <= max_speed <= COORD_LIMIT,
        0 <= max_acceleration <= COORD_LIMIT,
        bundle.wf(),
    ensures
        r.wf(),
        r.position == position,
        r.velocity.value@ == crate::vector::clamp_length_max(velocity@, max_speed as int),
        r.velocity.max == max_speed,
        r.acceleration.value@ == zero_vec(),
        r.acceleration.max == max_acceleration,
        r.facing == if r.velocity.value@ == zero_vec() {
            Vector2 { x: 0, y: UNIT }
        } else {
            r.velocity.value
        },
        r.bundle == bundle,
{
    let v = velocity.clamp_length_max(max_speed);
    let facing = if v.is_zero() {
        Vector2::new(0, UNIT)
    } else {
        v
    };
    Boid {
        position,
        facing,
        velocity: Velocity { value: v, max: max_speed },
        acceleration: Acceleration { value: Vector2::zero(), max: max_acceleration },
        bundle,
    }
}

/// The velocity a boid starts with for the drawn direction `draw`: opposite
/// the draw, at length `speed` (the draw magnified by `DRAW_MAGNIFICATION`
/// first). A zero draw has no direction and gives a boid at rest.
pub open spec fn start_velocity_of(draw: Vec2Model, speed: int) -> Vec2Model {
    let m = DRAW_MAGNIFICATION as int;
    scale_to_length(vec2(-draw.x * m, -draw.y * m), speed)
}

/// `v` is the start velocity at `speed` of some direction that can be drawn.
pub open spec fn is_start_velocity(v: Vec2Model, speed: int) -> bool {
    exists|d: Vec2Model|
        #![trigger start_velocity_of(d, speed)]
        -START_DRAW <= d.x < START_DRAW && -START_DRAW <= d.y < START_DRAW && v
            == start_velocity_of(d, speed)
}

/// The velocity a boid starts with for the drawn direction `draw`.
pub fn start_velocity(draw: Vector2, speed: i64) -> (r: Vector2)
    requires
        within(draw@, COORD_LIMIT as int),
        0 <= speed <= COORD_LIMIT,
    ensures
        r@ == start_velocity_of(draw@, speed as int),
        norm_sq(r@) <= speed * speed,
{
    let m = DRAW_MAGNIFICATION as i128;
    proof {
        crate::vector::lemma_mul_abs_bound(draw.x as int, COORD_LIMIT as int, m as int, m as int);
        crate::vector::lemma_mul_abs_bound(draw.y as int, COORD_LIMIT as int, m as int, m as int);
    }
    let reversed = WideVector { x: -(draw.x as i128) * m, y: -(draw.y as i128) * m };
    reversed.scale_to_length(speed)
}

/// `b` is a new boid of `bundle`: inside the start square, at rest but for
/// a start velocity of speed `start_speed`, facing along it (up when at rest).
pub open spec fn spawned_as(
    b: Boid,
    bundle: BoidBundle,
    start_speed: int,
    max_speed: int,
    max_acceleration: int,
) -> bool {
    &&& -START_RADIUS <= b.position.x < START_RADIUS
    &&& -START_RADIUS <= b.position.y < START_RADIUS
    &&& is_start_velocity(b.velocity.value@, start_speed)
    &&& b.velocity.max == max_speed
    &&& b.acceleration.value@ == zero_vec()
    &&& b.acceleration.max == max_acceleration
    &&& b.facing == if b.velocity.value@ == zero_vec() {
        Vector2 { x: 0, y: UNIT }
    } else {
        b.velocity.value
    }
    &&& b.bundle == bundle
}

/// One new boid of `bundle`, from random draws.
fn spawn_random(
    bundle: BoidBundle,
    start_speed: i64,
    max_speed: i64,
    max_acceleration: i64,
) -> (r: Boid)
    requires
        bundle.wf(),
        0 <= start_speed <= max_speed <= COORD_LIMIT,
        0 <= max_acceleration <= COORD_LIMIT,
    ensures
        r.wf(),
        spawned_as(r, bundle, start_speed as int, max_speed as int, max_acceleration as int),
{
    let x = random_between(-START_RADIUS, START_RADIUS);
    let y = random_between(-START_RADIUS, START_RADIUS);
    let dx = random_between(-START_DRAW, START_DRAW);
    let dy = random_between(-START_DRAW, START_DRAW);
    let draw = Vector2::new(dx, dy);
    let v = start_velocity(draw, start_speed);
    proof {
        crate::vector::lemma_square_le(start_speed as int, max_speed as int);
        lemma_norm_bounds_coords(v@, start_speed as int);
    }
    let b = spawn_boid(Vector2::new(x, y), v, max_speed, max_acceleration, bundle);
    assert(b.velocity.value@ == v@);
    assert(b.velocity.value == v);
    assert(b.velocity.value@ == start_velocity_of(draw@, start_speed as int));
    b
}

/// A new flock: `FLOCK_SIZE` standard boids, then `BIG_FLOCK_SIZE` large
/// ones, at random positions in the square of half side `START_RADIUS`
/// around the origin, each with a random direction brought to its start speed.
pub fn spawn_flock() -> (r: Vec<Boid>)
    ensures
        r.len() == FLOCK_SIZE + BIG_FLOCK_SIZE,
        flock_wf(r@),
        forall|i: int|
            0 <= i < FLOCK_SIZE ==> spawned_as(
                #[trigger] r@[i],
                standard_bundle(),
                START_VELOCITY as int,
                MAX_SPEED as int,
                MAX_ACCELERATION as int,
            ),
        forall|i: int|
            FLOCK_SIZE <= i < r.len() ==> spawned_as(
                #[trigger] r@[i],
                large_bundle(),
                BIG_START_VELOCITY as int,
                BIG_MAX_SPEED as int,
                BIG_MAX_ACCELERATION as int,
            ),
{
    let mut flock: Vec<Boid> = Vec::new();
    let mut i: usize = 0;
    while i < FLOCK_SIZE + BIG_FLOCK_SIZE
        invariant
            flock.len() == i,
            i <= FLOCK_SIZE + BIG_FLOCK_SIZE,
            flock_wf(flock@),
            forall|k: int|
                0 <= k < i && k < FLOCK_SIZE ==> spawned_as(
                    #[trigger] flock@[k],
                    standard_bundle(),
                    START_VELOCITY as int,
                    MAX_SPEED as int,
                    MAX_ACCELERATION as int,
                ),
            forall|k: int|
                FLOCK_SIZE <= k < i ==> spawned_as(
                    #[trigger] flock@[k],
                    large_bundle(),
                    BIG_START_VELOCITY as int,
                    BIG_MAX_SPEED as int,
                    BIG_MAX_ACCELERATION as int,
                ),
        decreases FLOCK_SIZE + BIG_FLOCK_SIZE - i,
    {
        let b = if i < FLOCK_SIZE {
            spawn_random(BoidBundle::default(), START_VELOCITY, MAX_SPEED, MAX_ACCELERATION)
        } else {
            spawn_random(
                BoidBundle::large(),
                BIG_START_VELOCITY,
                BIG_MAX_SPEED,
                BIG_MAX_ACCELERATION,
            )
        };
        flock.push(b);
        i = i + 1;
    }
    flock
}

} // verus!
