//! The three steering behaviours and the correction they share.
use vstd::prelude::*;

use crate::movement::{Acceleration, Velocity};
use crate::vector::{
    clamp_length_max, div_trunc, lemma_div_trunc, lemma_norm_bounds_coords, norm_sq,
    scale_ratio, scale_to_length, v_sub, vec2, within, zero_vec, Vec2Model, Vector2,
    WideVector, COORD_LIMIT,
};

verus! {

/// Fixed-point scale of an effectiveness: `EFFECTIVENESS_SCALE` stands for 1.
pub const EFFECTIVENESS_SCALE: i64 = 1000;

/// The largest effectiveness a behaviour may have.
pub const MAX_EFFECTIVENESS: i64 = 1_000_000;

/// Bound on each coordinate of a steering vector.
pub const STEERING_LIMIT: i64 = 8_589_934_592;

/// Fixed-point scale of a separation observation: the repulsion of a
/// neighbour at offset `r` is `r * REPULSION_SCALE / |r|^2`.
pub const REPULSION_SCALE: i128 = 1_099_511_627_776;

/// The three behaviours, told apart by what they observe of a neighbour.
#[derive(Clone, Copy, Debug, PartialEq, Eq, Structural)]
pub enum BehaviorKind {
    /// Observes the repulsion of each neighbour.
    Separation,
    /// Observes each neighbour's velocity.
    Alignment,
    /// Observes each neighbour's position.
    Cohesion,
}

/// Bound on each coordinate of one observation of a behaviour of `kind`.
pub open spec fn observation_limit(kind: BehaviorKind) -> int {
    match kind {
        BehaviorKind::Separation => REPULSION_SCALE as int,
        _ => COORD_LIMIT as int,
    }
}

/// The coordinates of a sum of `count` observations, each within `limit`.
pub open spec fn sum_within(sum: Vec2Model, count: int, limit: int) -> bool {
    -count * limit <= sum.x <= count * limit && -count * limit <= sum.y <= count * limit
}

/// The average of `count` vectors that sum to `sum`, each coordinate rounded toward zero.
pub open spec fn average(sum: Vec2Model, count: int) -> Vec2Model {
    vec2(div_trunc(sum.x, count), div_trunc(sum.y, count))
}

/// Where a behaviour of `kind` wants to head, given the average observation:
/// along it, or for cohesion toward it.
pub open spec fn heading_of(kind: BehaviorKind, average: Vec2Model, position: Vec2Model) -> Vec2Model {
    match kind {
        BehaviorKind::Cohesion => v_sub(average, position),
        _ => average,
    }
}

/// The correction toward `direction`: the desired velocity is `direction` at
/// `max_speed`; the current velocity is taken from it; the difference is
/// clamped to `max_acceleration` and weighted by `effectiveness`.
pub open spec fn steer(
    direction: Vec2Model,
    velocity: Vec2Model,
    max_speed: int,
    max_acceleration: int,
    effectiveness: int,
) -> Vec2Model {
    let desired = scale_to_length(direction, max_speed);
    let correction = clamp_length_max(v_sub(desired, velocity), max_acceleration);
    scale_ratio(correction, effectiveness, EFFECTIVENESS_SCALE as int)
}

/// The steering vector of a behaviour of `kind` from `count` observations
/// summing to `sum`: zero when there are none.
pub open spec fn behavior_steering(
    kind: BehaviorKind,
    count: int,
    sum: Vec2Model,
    position: Vec2Model,
    velocity: Vec2Model,
    max_speed: int,
    max_acceleration: int,
    effectiveness: int,
) -> Vec2Model {
    if count == 0 {
        zero_vec()
    } else {
        steer(
            heading_of(kind, average(sum, count), position),
            velocity,
            max_speed,
            max_acceleration,
            effectiveness,
        )
    }
}

/// The average of observations is as bounded as each observation.
pub proof fn lemma_average_within(sum: Vec2Model, count: int, limit: int)
    requires
        count > 0,
        sum_within(sum, count, limit),
    ensures
        within(average(sum, count), limit),
{
    lemma_div_trunc(sum.x, count);
    lemma_div_trunc(sum.y, count);
    let qx = div_trunc(sum.x, count);
    let qy = div_trunc(sum.y, count);
    assert(-limit <= qx <= limit) by (nonlinear_arith)
        requires
            sum.x >= 0 ==> 0 <= qx && qx * count <= sum.x,
            sum.x < 0 ==> qx <= 0 && -qx * count <= -sum.x,
            -count * limit <= sum.x <= count * limit,
            count > 0,
    ;
    assert(-limit <= qy <= limit) by (nonlinear_arith)
        requires
            sum.y >= 0 ==> 0 <= qy && qy * count <= sum.y,
            sum.y < 0 ==> qy <= 0 && -qy * count <= -sum.y,
            -count * limit <= sum.y <= count * limit,
            count > 0,
    ;
}

/// The steering vector of a behaviour of `kind` from `flockmate_size`
/// observations summing to `flockmates`, for an agent at `position` moving
/// at `velocity`.
pub fn steering_vector(
    kind: BehaviorKind,
    flockmate_size: usize,
    flockmates: &WideVector,
    velocity: &Velocity,
    acceleration: &Acceleration,
    position: &Vector2,
    effectiveness: i64,
) -> (r: Vector2)
    requires
        velocity.wf(),
        0 <= acceleration.max <= COORD_LIMIT,
        within(position@, COORD_LIMIT as int),
        0 <= effectiveness <= MAX_EFFECTIVENESS,
        flockmate_size == 0 || sum_within(
            flockmates@,
            flockmate_size as int,
            observation_limit(kind),
        ),
    ensures
        r@ == behavior_steering(
            kind,
            flockmate_size as int,
            flockmates@,
            position@,
            velocity.value@,
            velocity.max as int,
            acceleration.max as int,
            effectiveness as int,
        ),
        flockmate_size == 0 ==> r@ == zero_vec(),
        norm_sq(r@) * (EFFECTIVENESS_SCALE * EFFECTIVENESS_SCALE) <= (acceleration.max
            * effectiveness) * (acceleration.max * effectiveness),
        within(r@, STEERING_LIMIT as int),
{
    if flockmate_size == 0 {
        proof {
            assert((acceleration.max * effectiveness) * (acceleration.max * effectiveness) >= 0)
                by (nonlinear_arith);
            crate::vector::lemma_norm_sq_zero();
        }
        return Vector2::zero();
    }
    let count = flockmate_size as i128;
    proof {
        lemma_average_within(flockmates@, count as int, observation_limit(kind));
        assert(flockmates.x > i128::MIN && flockmates.y > i128::MIN) by (nonlinear_arith)
            requires
                sum_within(flockmates@, count as int, observation_limit(kind)),
                0 < count <= usize::MAX,
                observation_limit(kind) <= REPULSION_SCALE,
        ;
    }
    let avg = flockmates.div_trunc(count);
    let direction = match kind {
        BehaviorKind::Cohesion => avg.minus(&position.widen()),
        _ => avg,
    };
    let desired = direction.scale_to_length(velocity.max);
    proof {
        lemma_norm_bounds_coords(velocity.value@, velocity.max as int);
    }
    let relative = desired.minus(&velocity.value);
    let correction = relative.clamp_length_max(acceleration.max);
    let r = correction.scale_ratio(effectiveness, EFFECTIVENESS_SCALE);
    proof {
        let c = correction@;
        let e = effectiveness as int;
        let m = acceleration.max as int;
        let es = EFFECTIVENESS_SCALE as int;
        assert(norm_sq(r@) * (es * es) <= (m * e) * (m * e)) by (nonlinear_arith)
            requires
                norm_sq(r@) * (es * es) <= norm_sq(c) * (e * e),
                norm_sq(c) <= m * m,
                e * e >= 0,
        ;
        lemma_steering_coords(r@, m, e);
    }
    r
}

/// Every steering vector is at most `max_acceleration * effectiveness` long
/// (the effectiveness scaled by `EFFECTIVENESS_SCALE`), whatever was observed.
pub proof fn lemma_behavior_steering_bound(
    kind: BehaviorKind,
    count: int,
    sum: Vec2Model,
    position: Vec2Model,
    velocity: Vec2Model,
    max_speed: int,
    max_acceleration: int,
    effectiveness: int,
)
    requires
        max_acceleration >= 0,
    ensures
        norm_sq(
            behavior_steering(
                kind,
                count,
                sum,
                position,
                velocity,
                max_speed,
                max_acceleration,
                effectiveness,
            ),
        ) * (EFFECTIVENESS_SCALE * EFFECTIVENESS_SCALE) <= (max_acceleration * effectiveness) * (
        max_acceleration * effectiveness),
{
    let m = max_acceleration;
    let e = effectiveness;
    let es = EFFECTIVENESS_SCALE as int;
    assert((m * e) * (m * e) >= 0) by (nonlinear_arith);
    if count == 0 {
        crate::vector::lemma_norm_sq_zero();
    } else {
        let desired = scale_to_length(heading_of(kind, average(sum, count), position), max_speed);
        let c = clamp_length_max(v_sub(desired, velocity), m);
        crate::vector::lemma_clamp_length_max_norm(v_sub(desired, velocity), m);
        crate::vector::lemma_scale_ratio_norm(c, e, es);
        let r = scale_ratio(c, e, es);
        assert(e * e >= 0) by (nonlinear_arith);
        assert(norm_sq(r) * (es * es) <= (m * e) * (m * e)) by (nonlinear_arith)
            requires
                norm_sq(r) * (es * es) <= norm_sq(c) * (e * e),
                norm_sq(c) <= m * m,
                e * e >= 0,
        ;
    }
}

/// A steering vector within the bound `max_acceleration * effectiveness`
/// has coordinates within `STEERING_LIMIT`.
pub proof fn lemma_steering_coords(r: Vec2Model, m: int, e: int)
    requires
        0 <= m <= COORD_LIMIT,
        0 <= e <= MAX_EFFECTIVENESS,
        norm_sq(r) * (EFFECTIVENESS_SCALE * EFFECTIVENESS_SCALE) <= (m * e) * (m * e),
    ensures
        within(r, STEERING_LIMIT as int),
{
    let es = EFFECTIVENESS_SCALE as int;
    assert(0 <= m * e <= COORD_LIMIT * MAX_EFFECTIVENESS) by (nonlinear_arith)
        requires
            0 <= m <= COORD_LIMIT,
            0 <= e <= MAX_EFFECTIVENESS,
    ;
    assert(r.x * r.x >= 0 && r.y * r.y >= 0) by (nonlinear_arith);
    let b: int = COORD_LIMIT as int * MAX_EFFECTIVENESS as int / EFFECTIVENESS_SCALE as int;
    assert(norm_sq(r) <= b * b) by (nonlinear_arith)
        requires
            norm_sq(r) * (es * es) <= (m * e) * (m * e),
            0 <= m * e <= b * es,
            es > 0,
            norm_sq(r) >= 0,
    ;
    lemma_norm_bounds_coords(r, b);
}

/// A behaviour that turns a set of observations into a steering vector.
pub trait SteeringBehavior {
    /// What the behaviour observes of a neighbour.
    spec fn spec_kind(&self) -> BehaviorKind;

    /// The weight of the behaviour, scaled by `EFFECTIVENESS_SCALE`.
    spec fn spec_effectiveness(&self) -> int;

    /// The steering vector last set.
    spec fn spec_steering_vector(&self) -> Vec2Model;

    /// Sets the steering vector from `flockmate_size` observations summing to
    /// `flockmates`, for an agent at `boid_position` moving at `boid_velocity`.
    fn set_steering_vector(
        &mut self,
        flockmate_size: usize,
        flockmates: WideVector,
        boid_velocity: &Velocity,
        boid_acceleration: &Acceleration,
        boid_position: Vector2,
    )
        requires
            0 <= old(self).spec_effectiveness() <= MAX_EFFECTIVENESS,
            boid_velocity.wf(),
            0 <= boid_acceleration.max <= COORD_LIMIT,
            within(boid_position@, COORD_LIMIT as int),
            flockmate_size == 0 || sum_within(
                flockmates@,
                flockmate_size as int,
                observation_limit(old(self).spec_kind()),
            ),
        ensures
            final(self).spec_kind() == old(self).spec_kind(),
            final(self).spec_effectiveness() == old(self).spec_effectiveness(),
            final(self).spec_steering_vector() == behavior_steering(
                old(self).spec_kind(),
                flockmate_size as int,
                flockmates@,
                boid_position@,
                boid_velocity.value@,
                boid_velocity.max as int,
                boid_acceleration.max as int,
                old(self).spec_effectiveness(),
            ),
            norm_sq(final(self).spec_steering_vector()) * (EFFECTIVENESS_SCALE
                * EFFECTIVENESS_SCALE) <= (boid_acceleration.max * old(self).spec_effectiveness())
                * (boid_acceleration.max * old(self).spec_effectiveness()),
            within(final(self).spec_steering_vector(), STEERING_LIMIT as int),
            flockmate_size == 0 ==> final(self).spec_steering_vector() == zero_vec(),
    ;
}

/// Steering away from close neighbours.
#[derive(Clone, Copy, Debug, PartialEq, Eq, Structural)]
pub struct Separation {
    pub steering_vector: Vector2,
    /// The weight, scaled by `EFFECTIVENESS_SCALE`.
    pub effectiveness: i64,
}

/// Steering toward the neighbours' common heading.
#[derive(Clone, Copy, Debug, PartialEq, Eq, Structural)]
pub struct Alignment {
    pub steering_vector: Vector2,
    /// The weight, scaled by `EFFECTIVENESS_SCALE`.
    pub effectiveness: i64,
}

/// Steering toward the neighbours' centre.
#[derive(Clone, Copy, Debug, PartialEq, Eq, Structural)]
pub struct Cohesion {
    pub steering_vector: Vector2,
    /// The weight, scaled by `EFFECTIVENESS_SCALE`.
    pub effectiveness: i64,
}

impl SteeringBehavior for Separation {
    open spec fn spec_kind(&self) -> BehaviorKind {
        BehaviorKind::Separation
    }

    open spec fn spec_effectiveness(&self) -> int {
        self.effectiveness as int
    }

    open spec fn spec_steering_vector(&self) -> Vec2Model {
        self.steering_vector@
    }

    /// The observations are the repulsions of the neighbours.
    fn set_steering_vector(
        &mut self,
        flockmate_size: usize,
        flockmates: WideVector,
        boid_velocity: &Velocity,
        boid_acceleration: &Acceleration,
        boid_position: Vector2,
    ) {
        self.steering_vector = steering_vector(
            BehaviorKind::Separation,
            flockmate_size,
            &flockmates,
            boid_velocity,
            boid_acceleration,
            &boid_position,
            self.effectiveness,
        );
    }
}

impl SteeringBehavior for Alignment {
    open spec fn spec_kind(&self) -> BehaviorKind {
        BehaviorKind::Alignment
    }

    open spec fn spec_effectiveness(&self) -> int {
        self.effectiveness as int
    }

    open spec fn spec_steering_vector(&self) -> Vec2Model {
        self.steering_vector@
    }

    /// The observations are the neighbours' velocities.
    fn set_steering_vector(
        &mut self,
        flockmate_size: usize,
        flockmates: WideVector,
        boid_velocity: &Velocity,
        boid_acceleration: &Acceleration,
        boid_position: Vector2,
    ) {
        self.steering_vector = steering_vector(
            BehaviorKind::Alignment,
            flockmate_size,
            &flockmates,
            boid_velocity,
            boid_acceleration,
            &boid_position,
            self.effectiveness,
        );
    }
}

impl SteeringBehavior for Cohesion {
    open spec fn spec_kind(&self) -> BehaviorKind {
        BehaviorKind::Cohesion
    }

    open spec fn spec_effectiveness(&self) -> int {
        self.effectiveness as int
    }

    open spec fn spec_steering_vector(&self) -> Vec2Model {
        self.steering_vector@
    }

    /// The observations are the neighbours' positions.
    fn set_steering_vector(
        &mut self,
        flockmate_size: usize,
        flockmates: WideVector,
        boid_velocity: &Velocity,
        boid_acceleration: &Acceleration,
        boid_position: Vector2,
    ) {
        self.steering_vector = steering_vector(
            BehaviorKind::Cohesion,
            flockmate_size,
            &flockmates,
            boid_velocity,
            boid_acceleration,
            &boid_position,
            self.effectiveness,
        );
    }
}

} // verus!
