//! Which agents an agent perceives: a window of radius and bearing.
use vstd::prelude::*;

use crate::vector::{
    dot, lemma_mul_abs_bound, lemma_square_le_abs, norm_sq, v_sub, within, Vec2Model, Vector2,
    COORD_LIMIT,
};

verus! {

/// Fixed-point scale of a cosine: `COS_SCALE` stands for 1.
pub const COS_SCALE: i64 = 10_000;

/// The bearing from `heading` to `offset` is strictly below the angle whose
/// cosine is `cos / COS_SCALE`, that is
/// `dot(heading, offset) * COS_SCALE > cos * |heading| * |offset|`.
/// The bearing of or toward a zero vector is undefined, and never below.
/// Stated with squares, so that no root is taken.
pub open spec fn within_angle(heading: Vec2Model, offset: Vec2Model, cos: int) -> bool {
    let d = dot(heading, offset);
    let lhs = d * d * (COS_SCALE * COS_SCALE);
    let rhs = cos * cos * (norm_sq(heading) * norm_sq(offset));
    &&& norm_sq(heading) > 0
    &&& norm_sq(offset) > 0
    &&& if cos >= 0 {
        d > 0 && lhs > rhs
    } else {
        d >= 0 || lhs < rhs
    }
}

/// The bearing from `heading` to `offset` is exactly the angle whose cosine
/// is `cos / COS_SCALE`: `dot(heading, offset) * COS_SCALE == cos * |heading| * |offset|`.
pub open spec fn at_angle(heading: Vec2Model, offset: Vec2Model, cos: int) -> bool {
    let d = dot(heading, offset);
    let lhs = d * d * (COS_SCALE * COS_SCALE);
    let rhs = cos * cos * (norm_sq(heading) * norm_sq(offset));
    &&& norm_sq(heading) > 0
    &&& norm_sq(offset) > 0
    &&& (cos >= 0 ==> d >= 0)
    &&& (cos < 0 ==> d < 0)
    &&& lhs == rhs
}

/// `candidate` is strictly closer than `distance` to `observer`, and the
/// bearing from `heading` to it is strictly below the window's angle.
pub open spec fn in_neighborhood(
    observer: Vec2Model,
    heading: Vec2Model,
    candidate: Vec2Model,
    distance: int,
    cos: int,
) -> bool {
    let offset = v_sub(candidate, observer);
    0 < distance && norm_sq(offset) < distance * distance && within_angle(heading, offset, cos)
}

/// An agent is never in its own neighbourhood, whatever the window.
pub proof fn lemma_neighbor_irreflexive(
    position: Vec2Model,
    heading: Vec2Model,
    distance: int,
    cos: int,
)
    ensures
        !in_neighborhood(position, heading, position, distance, cos),
{
    assert(norm_sq(v_sub(position, position)) == 0);
}

/// Both bounds of the window are strict: a candidate exactly at its radius,
/// or exactly at its angle, is not a neighbour.
pub proof fn lemma_neighbor_boundary_exclusive(
    observer: Vec2Model,
    heading: Vec2Model,
    candidate: Vec2Model,
    distance: int,
    cos: int,
)
    requires
        norm_sq(v_sub(candidate, observer)) == distance * distance || at_angle(
            heading,
            v_sub(candidate, observer),
            cos,
        ),
    ensures
        !in_neighborhood(observer, heading, candidate, distance, cos),
{
}

/// The bearing from `heading` to `offset` is strictly below the angle whose
/// cosine is `cos / COS_SCALE`.
pub fn bearing_within(heading: &Vector2, offset: &Vector2, cos: i64) -> (r: bool)
    requires
        within(heading@, COORD_LIMIT as int),
        within(offset@, 2 * COORD_LIMIT),
        -COS_SCALE <= cos <= COS_SCALE,
    ensures
        r == within_angle(heading@, offset@, cos as int),
{
    let l: i128 = COORD_LIMIT as i128;
    let h = heading.widen();
    let o = offset.widen();
    let h_sq = h.length_squared();
    let o_sq = o.length_squared();
    if h_sq == 0 || o_sq == 0 {
        return false;
    }
    proof {
        lemma_mul_abs_bound(h.x as int, l as int, o.x as int, 2 * l);
        lemma_mul_abs_bound(h.y as int, l as int, o.y as int, 2 * l);
        lemma_square_le_abs(h.x as int, l as int);
        lemma_square_le_abs(h.y as int, l as int);
        lemma_square_le_abs(o.x as int, 2 * l);
        lemma_square_le_abs(o.y as int, 2 * l);
        assert((2 * l) * (2 * l) == 4 * (l * l)) by (nonlinear_arith);
        assert(2 * l * l == 2 * (l * l)) by (nonlinear_arith);
        assert(8 * l * l == 8 * (l * l)) by (nonlinear_arith);
    }
    let d = h.x * o.x + h.y * o.y;
    proof {
        lemma_square_le_abs(d as int, 4 * l * l);
        lemma_mul_abs_bound(h_sq as int, 2 * l * l, o_sq as int, 8 * l * l);
        lemma_square_le_abs(cos as int, COS_SCALE as int);
        lemma_mul_abs_bound(
            (d * d) as int,
            16 * l * l * l * l,
            COS_SCALE * COS_SCALE,
            COS_SCALE * COS_SCALE,
        );
        lemma_mul_abs_bound(
            (cos * cos) as int,
            COS_SCALE * COS_SCALE,
            (h_sq * o_sq) as int,
            16 * l * l * l * l,
        );
    }
    let s: i128 = COS_SCALE as i128;
    let c: i128 = cos as i128;
    let lhs = d * d * (s * s);
    let rhs = c * c * (h_sq * o_sq);
    if cos >= 0 {
        d > 0 && lhs > rhs
    } else {
        d >= 0 || lhs < rhs
    }
}

/// Whether `candidate` lies in the window of radius `distance` and of the
/// angle whose cosine is `cos_angle / COS_SCALE`, seen from `observer` facing `heading`.
pub fn is_neighbor(
    observer: &Vector2,
    heading: &Vector2,
    candidate: &Vector2,
    distance: i64,
    cos_angle: i64,
) -> (r: bool)
    requires
        within(observer@, COORD_LIMIT as int),
        within(heading@, COORD_LIMIT as int),
        within(candidate@, COORD_LIMIT as int),
        -COS_SCALE <= cos_angle <= COS_SCALE,
    ensures
        r == in_neighborhood(observer@, heading@, candidate@, distance as int, cos_angle as int),
{
    if distance <= 0 {
        return false;
    }
    let offset = candidate.minus(observer);
    let d = distance as i128;
    proof {
        lemma_square_le_abs(d as int, i64::MAX as int);
    }
    if offset.widen().length_squared() >= d * d {
        return false;
    }
    bearing_within(heading, &offset, cos_angle)
}

/// What each neighbourhood kind offers: a radius and an angle.
pub trait Neighbors {
    /// The window's radius.
    spec fn spec_distance(&self) -> int;

    /// The cosine of the window's largest bearing, scaled by `COS_SCALE`.
    spec fn spec_cos_angle(&self) -> int;

    /// Whether an agent at `b_position` lies in the window of an agent at
    /// `a_position` facing `a_heading`.
    fn are_neighbors(&self, a_position: &Vector2, a_heading: &Vector2, b_position: &Vector2) -> (r:
        bool)
        requires
            within(a_position@, COORD_LIMIT as int),
            within(a_heading@, COORD_LIMIT as int),
            within(b_position@, COORD_LIMIT as int),
            -COS_SCALE <= self.spec_cos_angle() <= COS_SCALE,
        ensures
            r == in_neighborhood(
                a_position@,
                a_heading@,
                b_position@,
                self.spec_distance(),
                self.spec_cos_angle(),
            ),
    ;
}

/// The window of the separation behaviour.
#[derive(Clone, Copy, Debug, PartialEq, Eq, Structural)]
pub struct SeparationNeighborhood {
    /// The radius, exclusive.
    pub distance: i64,
    /// The cosine of the largest bearing, exclusive, scaled by `COS_SCALE`
    /// (5_000 is a bearing of 60 degrees, -5_000 one of 120 degrees).
    pub cos_angle: i64,
}

/// The window of the alignment behaviour.
#[derive(Clone, Copy, Debug, PartialEq, Eq, Structural)]
pub struct AlignmentNeighborhood {
    /// The radius, exclusive.
    pub distance: i64,
    /// The cosine of the largest bearing, exclusive, scaled by `COS_SCALE`.
    pub cos_angle: i64,
}

/// The window of the cohesion behaviour.
#[derive(Clone, Copy, Debug, PartialEq, Eq, Structural)]
pub struct CohesionNeighborhood {
    /// The radius, exclusive.
    pub distance: i64,
    /// The cosine of the largest bearing, exclusive, scaled by `COS_SCALE`.
    pub cos_angle: i64,
}

impl Neighbors for SeparationNeighborhood {
    open spec fn spec_distance(&self) -> int {
        self.distance as int
    }

    open spec fn spec_cos_angle(&self) -> int {
        self.cos_angle as int
    }

    fn are_neighbors(&self, a_position: &Vector2, a_heading: &Vector2, b_position: &Vector2) -> (r:
        bool) {
        is_neighbor(a_position, a_heading, b_position, self.distance, self.cos_angle)
    }
}

impl Neighbors for AlignmentNeighborhood {
    open spec fn spec_distance(&self) -> int {
        self.distance as int
    }

    open spec fn spec_cos_angle(&self) -> int {
        self.cos_angle as int
    }

    fn are_neighbors(&self, a_position: &Vector2, a_heading: &Vector2, b_position: &Vector2) -> (r:
        bool) {
        is_neighbor(a_position, a_heading, b_position, self.distance, self.cos_angle)
    }
}

impl Neighbors for CohesionNeighborhood {
    open spec fn spec_distance(&self) -> int {
        self.distance as int
    }

    open spec fn spec_cos_angle(&self) -> int {
        self.cos_angle as int
    }

    fn are_neighbors(&self, a_position: &Vector2, a_heading: &Vector2, b_position: &Vector2) -> (r:
        bool) {
        is_neighbor(a_position, a_heading, b_position, self.distance, self.cos_angle)
    }
}

} // verus!
