//! The motion step: velocity from acceleration, position from velocity,
//! facing from velocity, and the boundary of the world.
use vstd::prelude::*;

use crate::boid::Boid;
use crate::flock::{flock_wf, flock_wf_with};
use crate::vector::{
    clamp_length_max, lemma_norm_bounds_coords, norm_sq, v_add, vec2, within, zero_vec,
    Vec2Model, Vector2, COORD_LIMIT, WIDE_LIMIT,
};

verus! {

/// Bound on each coordinate of an acceleration: three steering vectors summed.
pub const ACCEL_LIMIT: i64 = 68_719_476_736;

/// A velocity and the speed it may not exceed.
#[derive(Clone, Copy, Debug, PartialEq, Eq, Structural)]
pub struct Velocity {
    pub value: Vector2,
    pub max: i64,
}

/// An acceleration and the bound of each steering correction that makes it up.
#[derive(Clone, Copy, Debug, PartialEq, Eq, Structural)]
pub struct Acceleration {
    pub value: Vector2,
    pub max: i64,
}

impl Velocity {
    /// The speed bound is in range and the velocity within it.
    pub open spec fn wf(&self) -> bool {
        0 <= self.max <= COORD_LIMIT && norm_sq(self.value@) <= self.max * self.max
    }

    /// The velocity brought to length at most `max`.
    pub fn clamp(&self) -> (r: Vector2)
        requires
            within(self.value@, WIDE_LIMIT as int),
            0 <= self.max <= COORD_LIMIT,
        ensures
            r@ == clamp_length_max(self.value@, self.max as int),
            norm_sq(r@) <= self.max * self.max,
    {
        self.value.clamp_length_max(self.max)
    }
}

impl Acceleration {
    /// The correction bound is in range and the acceleration within its limit.
    pub open spec fn wf(&self) -> bool {
        0 <= self.max <= COORD_LIMIT && within(self.value@, ACCEL_LIMIT as int)
    }
}

/// What happens to a boid that leaves the world `[-half_width, half_width] x [-half_height, half_height]`.
#[derive(Clone, Copy, Debug, PartialEq, Eq, Structural)]
pub enum BoundaryPolicy {
    /// The world is a torus: a coordinate outside is taken modulo the extent.
    Wrap,
    /// A coordinate beyond one bound is set to the opposite bound.
    ClampReflect,
}

/// The integer vector with the coordinates of `v`.
pub open spec fn to_vector(v: Vec2Model) -> Vector2 {
    Vector2 { x: v.x as i64, y: v.y as i64 }
}

/// A coordinate outside `[-half, half]` taken modulo `2 * half` into `[-half, half)`.
pub open spec fn wrap_coord(x: int, half: int) -> int {
    if -half <= x <= half {
        x
    } else if half == 0 {
        0
    } else {
        (x + half) % (2 * half) - half
    }
}

/// A coordinate below `-half` set to `half`, one above `half` set to `-half`.
pub open spec fn reflect_coord(x: int, half: int) -> int {
    if x < -half {
        half
    } else if x > half {
        -half
    } else {
        x
    }
}

pub open spec fn bound_coord(x: int, half: int, policy: BoundaryPolicy) -> int {
    match policy {
        BoundaryPolicy::Wrap => wrap_coord(x, half),
        BoundaryPolicy::ClampReflect => reflect_coord(x, half),
    }
}

/// The position `p` brought back into the world by `policy`.
pub open spec fn bounded_position(
    p: Vec2Model,
    half_width: int,
    half_height: int,
    policy: BoundaryPolicy,
) -> Vec2Model {
    vec2(bound_coord(p.x, half_width, policy), bound_coord(p.y, half_height, policy))
}

/// The sum of a boid's three steering vectors.
pub open spec fn combined_steering(b: Boid) -> Vec2Model {
    v_add(
        v_add(b.bundle.separation.steering_vector@, b.bundle.alignment.steering_vector@),
        b.bundle.cohesion.steering_vector@,
    )
}

/// The boid with its acceleration set to the sum of its steering vectors,
/// clamped to its acceleration bound.
pub open spec fn after_acceleration(b: Boid) -> Boid {
    Boid {
        acceleration: Acceleration {
            value: to_vector(clamp_length_max(combined_steering(b), b.acceleration.max as int)),
            ..b.acceleration
        },
        ..b
    }
}

/// The boid with its acceleration added to its velocity, the result clamped to its speed bound.
pub open spec fn after_velocity(b: Boid) -> Boid {
    Boid {
        velocity: Velocity {
            value: to_vector(
                clamp_length_max(
                    v_add(b.velocity.value@, b.acceleration.value@),
                    b.velocity.max as int,
                ),
            ),
            ..b.velocity
        },
        ..b
    }
}

/// The boid moved by its velocity, facing along it; a boid at rest keeps its facing.
pub open spec fn after_move(b: Boid) -> Boid {
    Boid {
        position: to_vector(v_add(b.position@, b.velocity.value@)),
        facing: if b.velocity.value@ == zero_vec() {
            b.facing
        } else {
            b.velocity.value
        },
        ..b
    }
}

/// The boid brought back into the world.
pub open spec fn after_boundary(
    b: Boid,
    half_width: int,
    half_height: int,
    policy: BoundaryPolicy,
) -> Boid {
    Boid {
        position: to_vector(bounded_position(b.position@, half_width, half_height, policy)),
        ..b
    }
}

/// A coordinate brought back by either policy lies in `[-half, half]`.
pub proof fn lemma_bound_coord_range(x: int, half: int, policy: BoundaryPolicy)
    requires
        half >= 0,
    ensures
        -half <= bound_coord(x, half, policy) <= half,
{
    if half > 0 && !(-half <= x <= half) {
        vstd::arithmetic::div_mod::lemma_mod_bound(x + half, 2 * half);
    }
}

/// Bringing a position back into an unchanged world a second time changes
/// nothing: wrapping twice is wrapping once, and so is the clamp-reflect policy.
pub proof fn lemma_boundary_idempotent(
    p: Vec2Model,
    half_width: int,
    half_height: int,
    policy: BoundaryPolicy,
)
    requires
        half_width >= 0,
        half_height >= 0,
    ensures
        bounded_position(
            bounded_position(p, half_width, half_height, policy),
            half_width,
            half_height,
            policy,
        ) == bounded_position(p, half_width, half_height, policy),
{
    lemma_bound_coord_range(p.x, half_width, policy);
    lemma_bound_coord_range(p.y, half_height, policy);
}

/// A coordinate brought back into `[-half, half]`.
fn bound_coord_exec(x: i64, half: i64, policy: BoundaryPolicy) -> (r: i64)
    requires
        -2 * COORD_LIMIT <= x <= 2 * COORD_LIMIT,
        0 <= half <= COORD_LIMIT,
    ensures
        r == bound_coord(x as int, half as int, policy),
        -half <= r <= half,
{
    proof {
        lemma_bound_coord_range(x as int, half as int, policy);
    }
    match policy {
        BoundaryPolicy::ClampReflect => {
            if x < -half {
                half
            } else if x > half {
                -half
            } else {
                x
            }
        },
        BoundaryPolicy::Wrap => {
            if -half <= x && x <= half {
                return x;
            }
            if half == 0 {
                return 0;
            }
            let w = 2 * half;
            let a = x + half;
            if a >= 0 {
                a % w - half
            } else {
                let m = (-a) % w;
                proof {
                    let na: int = -(a as int);
                    let q: int = na / (w as int);
                    vstd::arithmetic::div_mod::lemma_fundamental_div_mod(na, w as int);
                    vstd::arithmetic::div_mod::lemma_mod_pos_bound(na, w as int);
                    assert((-q) * w == -(w * q)) by (nonlinear_arith);
                    assert((-q - 1) * w == -(w * q) - w) by (nonlinear_arith);
                    if m == 0 {
                        vstd::arithmetic::div_mod::lemma_fundamental_div_mod_converse(
                            a as int,
                            w as int,
                            -q,
                            0int,
                        );
                    } else {
                        vstd::arithmetic::div_mod::lemma_fundamental_div_mod_converse(
                            a as int,
                            w as int,
                            -q - 1,
                            (w - m) as int,
                        );
                    }
                }
                if m == 0 {
                    -half
                } else {
                    w - m - half
                }
            }
        },
    }
}

impl Boid {
    /// Sets the acceleration to the sum of the three steering vectors,
    /// clamped to the acceleration bound.
    pub fn set_acceleration(&mut self)
        requires
            old(self).wf_with(2 * COORD_LIMIT),
        ensures
            *final(self) == after_acceleration(*old(self)),
            final(self).acceleration.value@ == clamp_length_max(
                combined_steering(*old(self)),
                old(self).acceleration.max as int,
            ),
            norm_sq(final(self).acceleration.value@) <= final(self).acceleration.max
                * final(self).acceleration.max,
            final(self).wf_with(2 * COORD_LIMIT),
    {
        let s = self.bundle.separation.steering_vector;
        let a = self.bundle.alignment.steering_vector;
        let c = self.bundle.cohesion.steering_vector;
        let sum = s.plus(&a).plus(&c);
        self.acceleration.value = sum.clamp_length_max(self.acceleration.max);
    }

    /// Adds the acceleration to the velocity and clamps the result to the speed bound.
    pub fn update_velocity(&mut self)
        requires
            old(self).wf_with(2 * COORD_LIMIT),
        ensures
            *final(self) == after_velocity(*old(self)),
            norm_sq(final(self).velocity.value@) <= final(self).velocity.max
                * final(self).velocity.max,
            final(self).wf_with(2 * COORD_LIMIT),
    {
        proof {
            lemma_norm_bounds_coords(self.velocity.value@, self.velocity.max as int);
        }
        let sum = self.velocity.value.plus(&self.acceleration.value);
        let v = Velocity { value: sum, max: self.velocity.max };
        self.velocity.value = v.clamp();
    }

    /// Moves by the velocity and turns to face along it, unless at rest.
    pub fn update_position(&mut self)
        requires
            old(self).wf(),
        ensures
            *final(self) == after_move(*old(self)),
            final(self).wf_with(2 * COORD_LIMIT),
    {
        proof {
            lemma_norm_bounds_coords(self.velocity.value@, self.velocity.max as int);
        }
        if !self.velocity.value.is_zero() {
            self.facing = self.velocity.value;
        }
        self.position = self.position.plus(&self.velocity.value);
    }

    /// Brings the boid back into the world `[-half_width, half_width] x [-half_height, half_height]`.
    pub fn apply_boundary(&mut self, half_width: i64, half_height: i64, policy: BoundaryPolicy)
        requires
            old(self).wf_with(2 * COORD_LIMIT),
            0 <= half_width <= COORD_LIMIT,
            0 <= half_height <= COORD_LIMIT,
        ensures
            *final(self) == after_boundary(
                *old(self),
                half_width as int,
                half_height as int,
                policy,
            ),
            within(final(self).position@, COORD_LIMIT as int),
            final(self).wf(),
    {
        let x = bound_coord_exec(self.position.x, half_width, policy);
        let y = bound_coord_exec(self.position.y, half_height, policy);
        self.position = Vector2::new(x, y);
    }
}

/// Sets every boid's acceleration to the sum of its steering vectors,
/// clamped to its acceleration bound.
pub fn set_acceleration(flock: &mut Vec<Boid>)
    requires
        flock_wf_with(old(flock)@, 2 * COORD_LIMIT),
    ensures
        final(flock).len() == old(flock).len(),
        flock_wf_with(final(flock)@, 2 * COORD_LIMIT),
        forall|i: int|
            0 <= i < final(flock).len() ==> final(flock)@[i] == after_acceleration(
                #[trigger] old(flock)@[i],
            ),
{
    let ghost start = flock@;
    let mut i: usize = 0;
    while i < flock.len()
        invariant
            flock.len() == start.len(),
            flock_wf_with(start, 2 * COORD_LIMIT),
            forall|k: int| 0 <= k < i ==> flock@[k] == after_acceleration(#[trigger] start[k]),
            forall|k: int| i <= k < flock.len() ==> #[trigger] flock@[k] == start[k],
            flock_wf_with(flock@, 2 * COORD_LIMIT),
        decreases flock.len() - i,
    {
        let mut b = flock[i];
        assert(start[i as int].wf_with(2 * COORD_LIMIT));
        b.set_acceleration();
        flock.set(i, b);
        i = i + 1;
    }
}

/// Adds every boid's acceleration to its velocity, clamped to its speed bound.
pub fn update_velocity(flock: &mut Vec<Boid>)
    requires
        flock_wf_with(old(flock)@, 2 * COORD_LIMIT),
    ensures
        final(flock).len() == old(flock).len(),
        flock_wf_with(final(flock)@, 2 * COORD_LIMIT),
        forall|i: int|
            0 <= i < final(flock).len() ==> final(flock)@[i] == after_velocity(
                #[trigger] old(flock)@[i],
            ),
        forall|i: int|
            0 <= i < final(flock).len() ==> norm_sq((#[trigger] final(flock)@[i]).velocity.value@)
                <= final(flock)@[i].velocity.max * final(flock)@[i].velocity.max,
{
    let ghost start = flock@;
    let mut i: usize = 0;
    while i < flock.len()
        invariant
            flock.len() == start.len(),
            flock_wf_with(start, 2 * COORD_LIMIT),
            forall|k: int| 0 <= k < i ==> flock@[k] == after_velocity(#[trigger] start[k]),
            forall|k: int| i <= k < flock.len() ==> #[trigger] flock@[k] == start[k],
            flock_wf_with(flock@, 2 * COORD_LIMIT),
        decreases flock.len() - i,
    {
        let mut b = flock[i];
        assert(start[i as int].wf_with(2 * COORD_LIMIT));
        b.update_velocity();
        flock.set(i, b);
        i = i + 1;
    }
    assert forall|k: int| 0 <= k < flock.len() implies norm_sq(
        (#[trigger] flock@[k]).velocity.value@,
    ) <= flock@[k].velocity.max * flock@[k].velocity.max by {
        assert(flock@[k].wf_with(2 * COORD_LIMIT));
    }
}

/// Moves every boid by its velocity and turns it to face along it.
pub fn update_position(flock: &mut Vec<Boid>)
    requires
        flock_wf(old(flock)@),
    ensures
        final(flock).len() == old(flock).len(),
        flock_wf_with(final(flock)@, 2 * COORD_LIMIT),
        forall|i: int|
            0 <= i < final(flock).len() ==> final(flock)@[i] == after_move(
                #[trigger] old(flock)@[i],
            ),
{
    let ghost start = flock@;
    let mut i: usize = 0;
    while i < flock.len()
        invariant
            flock.len() == start.len(),
            flock_wf(start),
            forall|k: int| 0 <= k < i ==> flock@[k] == after_move(#[trigger] start[k]),
            forall|k: int| i <= k < flock.len() ==> #[trigger] flock@[k] == start[k],
            forall|k: int| 0 <= k < i ==> (#[trigger] flock@[k]).wf_with(2 * COORD_LIMIT),
        decreases flock.len() - i,
    {
        let mut b = flock[i];
        assert(start[i as int].wf());
        b.update_position();
        flock.set(i, b);
        i = i + 1;
    }
}

/// Brings every boid back into the world
/// `[-half_width, half_width] x [-half_height, half_height]`, as the world is now.
pub fn apply_screen_wrap(
    flock: &mut Vec<Boid>,
    half_width: i64,
    half_height: i64,
    policy: BoundaryPolicy,
)
    requires
        flock_wf_with(old(flock)@, 2 * COORD_LIMIT),
        0 <= half_width <= COORD_LIMIT,
        0 <= half_height <= COORD_LIMIT,
    ensures
        final(flock).len() == old(flock).len(),
        flock_wf(final(flock)@),
        forall|i: int|
            0 <= i < final(flock).len() ==> final(flock)@[i] == after_boundary(
                #[trigger] old(flock)@[i],
                half_width as int,
                half_height as int,
                policy,
            ),
{
    let ghost start = flock@;
    let mut i: usize = 0;
    while i < flock.len()
        invariant
            flock.len() == start.len(),
            0 <= half_width <= COORD_LIMIT,
            0 <= half_height <= COORD_LIMIT,
            flock_wf_with(start, 2 * COORD_LIMIT),
            forall|k: int|
                0 <= k < i ==> flock@[k] == after_boundary(
                    #[trigger] start[k],
                    half_width as int,
                    half_height as int,
                    policy,
                ),
            forall|k: int| i <= k < flock.len() ==> #[trigger] flock@[k] == start[k],
            forall|k: int| 0 <= k < i ==> (#[trigger] flock@[k]).wf(),
        decreases flock.len() - i,
    {
        let mut b = flock[i];
        assert(start[i as int].wf_with(2 * COORD_LIMIT));
        b.apply_boundary(half_width, half_height, policy);
        flock.set(i, b);
        i = i + 1;
    }
}

} // verus!
