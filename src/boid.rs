//! A boid: its motion state and the windows and weights of its behaviours.
use vstd::prelude::*;

use crate::movement::{Acceleration, Velocity, ACCEL_LIMIT};
use crate::neighborhood::{
    AlignmentNeighborhood, CohesionNeighborhood, SeparationNeighborhood, COS_SCALE,
};
use crate::steering_behaviors::{
    Alignment, BehaviorKind, Cohesion, Separation, MAX_EFFECTIVENESS, STEERING_LIMIT,
};
use crate::vector::{lemma_norm_bounds_coords, within, Vector2, COORD_LIMIT};

verus! {

/// Fixed-point units in one unit of the world.
pub const UNIT: i64 = 1000;

/// Cosine of the bearing window of a standard boid, two thirds of a half turn.
pub const SCAN_COS: i64 = -5_000;

pub const SEPARATION_EFFECTIVENESS: i64 = 1_800;

pub const ALIGNMENT_EFFECTIVENESS: i64 = 900;

pub const COHESION_EFFECTIVENESS: i64 = 600;

pub const SEPARATION_DISTANCE: i64 = 40 * UNIT;

pub const ALIGNMENT_DISTANCE: i64 = 60 * UNIT;

pub const COHESION_DISTANCE: i64 = 80 * UNIT;

/// Cosine of the bearing window of a large boid, a third of a half turn.
pub const BIG_SCAN_COS: i64 = 5_000;

pub const BIG_SEPARATION_EFFECTIVENESS: i64 = 200;

pub const BIG_ALIGNMENT_EFFECTIVENESS: i64 = 100;

pub const BIG_COHESION_EFFECTIVENESS: i64 = 100;

pub const BIG_SEPARATION_DISTANCE: i64 = 180 * UNIT;

pub const BIG_ALIGNMENT_DISTANCE: i64 = 100 * UNIT;

pub const BIG_COHESION_DISTANCE: i64 = 360 * UNIT;

/// The windows and the weights of a boid's three behaviours, with the
/// steering vectors they last produced.
#[derive(Clone, Copy, Debug, PartialEq, Eq, Structural)]
pub struct BoidBundle {
    pub separation_neighborhood: SeparationNeighborhood,
    pub separation: Separation,
    pub alignment_neighborhood: AlignmentNeighborhood,
    pub alignment: Alignment,
    pub cohesion_neighborhood: CohesionNeighborhood,
    pub cohesion: Cohesion,
}

/// One agent of the flock.
#[derive(Clone, Copy, Debug, PartialEq, Eq, Structural)]
pub struct Boid {
    pub position: Vector2,
    /// The direction the boid faces: its last non-zero velocity.
    pub facing: Vector2,
    pub velocity: Velocity,
    pub acceleration: Acceleration,
    pub bundle: BoidBundle,
}

/// Whether both coordinates of `v` lie in `[-limit, limit]`.
fn vector_within(v: &Vector2, limit: i64) -> (r: bool)
    requires
        limit >= 0,
    ensures
        r == within(v@, limit as int),
{
    -limit <= v.x && v.x <= limit && -limit <= v.y && v.y <= limit
}

/// The bundle of a standard boid.
pub open spec fn standard_bundle() -> BoidBundle {
    BoidBundle {
        separation_neighborhood: SeparationNeighborhood {
            distance: SEPARATION_DISTANCE,
            cos_angle: SCAN_COS,
        },
        separation: Separation {
            steering_vector: Vector2 { x: 0, y: 0 },
            effectiveness: SEPARATION_EFFECTIVENESS,
        },
        alignment_neighborhood: AlignmentNeighborhood {
            distance: ALIGNMENT_DISTANCE,
            cos_angle: SCAN_COS,
        },
        alignment: Alignment {
            steering_vector: Vector2 { x: 0, y: 0 },
            effectiveness: ALIGNMENT_EFFECTIVENESS,
        },
        cohesion_neighborhood: CohesionNeighborhood {
            distance: COHESION_DISTANCE,
            cos_angle: SCAN_COS,
        },
        cohesion: Cohesion {
            steering_vector: Vector2 { x: 0, y: 0 },
            effectiveness: COHESION_EFFECTIVENESS,
        },
    }
}

/// The bundle of a large boid: wider windows, narrower angles, lighter weights.
pub open spec fn large_bundle() -> BoidBundle {
    BoidBundle {
        separation_neighborhood: SeparationNeighborhood {
            distance: BIG_SEPARATION_DISTANCE,
            cos_angle: BIG_SCAN_COS,
        },
        separation: Separation {
            steering_vector: Vector2 { x: 0, y: 0 },
            effectiveness: BIG_SEPARATION_EFFECTIVENESS,
        },
        alignment_neighborhood: AlignmentNeighborhood {
            distance: BIG_ALIGNMENT_DISTANCE,
            cos_angle: BIG_SCAN_COS,
        },
        alignment: Alignment {
            steering_vector: Vector2 { x: 0, y: 0 },
            effectiveness: BIG_ALIGNMENT_EFFECTIVENESS,
        },
        cohesion_neighborhood: CohesionNeighborhood {
            distance: BIG_COHESION_DISTANCE,
            cos_angle: BIG_SCAN_COS,
        },
        cohesion: Cohesion {
            steering_vector: Vector2 { x: 0, y: 0 },
            effectiveness: BIG_COHESION_EFFECTIVENESS,
        },
    }
}

impl BoidBundle {
    /// Every angle is a cosine, every weight is in range, and every steering
    /// vector is within the steering bound.
    pub open spec fn wf(&self) -> bool {
        &&& -COS_SCALE <= self.separation_neighborhood.cos_angle <= COS_SCALE
        &&& -COS_SCALE <= self.alignment_neighborhood.cos_angle <= COS_SCALE
        &&& -COS_SCALE <= self.cohesion_neighborhood.cos_angle <= COS_SCALE
        &&& 0 <= self.separation.effectiveness <= MAX_EFFECTIVENESS
        &&& 0 <= self.alignment.effectiveness <= MAX_EFFECTIVENESS
        &&& 0 <= self.cohesion.effectiveness <= MAX_EFFECTIVENESS
        &&& within(self.separation.steering_vector@, STEERING_LIMIT as int)
        &&& within(self.alignment.steering_vector@, STEERING_LIMIT as int)
        &&& within(self.cohesion.steering_vector@, STEERING_LIMIT as int)
    }

    /// The bundle of a large boid.
    pub fn large() -> (r: BoidBundle)
        ensures
            r == large_bundle(),
            r.wf(),
    {
        BoidBundle {
            separation_neighborhood: SeparationNeighborhood {
                distance: BIG_SEPARATION_DISTANCE,
                cos_angle: BIG_SCAN_COS,
            },
            separation: Separation {
                steering_vector: Vector2::zero(),
                effectiveness: BIG_SEPARATION_EFFECTIVENESS,
            },
            alignment_neighborhood: AlignmentNeighborhood {
                distance: BIG_ALIGNMENT_DISTANCE,
                cos_angle: BIG_SCAN_COS,
            },
            alignment: Alignment {
                steering_vector: Vector2::zero(),
                effectiveness: BIG_ALIGNMENT_EFFECTIVENESS,
            },
            cohesion_neighborhood: CohesionNeighborhood {
                distance: BIG_COHESION_DISTANCE,
                cos_angle: BIG_SCAN_COS,
            },
            cohesion: Cohesion {
                steering_vector: Vector2::zero(),
                effectiveness: BIG_COHESION_EFFECTIVENESS,
            },
        }
    }
}

impl Default for BoidBundle {
    /// The bundle of a standard boid.
    fn default() -> (r: BoidBundle)
        ensures
            r == standard_bundle(),
            r.wf(),
    {
        BoidBundle {
            separation_neighborhood: SeparationNeighborhood {
                distance: SEPARATION_DISTANCE,
                cos_angle: SCAN_COS,
            },
            separation: Separation {
                steering_vector: Vector2::zero(),
                effectiveness: SEPARATION_EFFECTIVENESS,
            },
            alignment_neighborhood: AlignmentNeighborhood {
                distance: ALIGNMENT_DISTANCE,
                cos_angle: SCAN_COS,
            },
            alignment: Alignment {
                steering_vector: Vector2::zero(),
                effectiveness: ALIGNMENT_EFFECTIVENESS,
            },
            cohesion_neighborhood: CohesionNeighborhood {
                distance: COHESION_DISTANCE,
                cos_angle: SCAN_COS,
            },
            cohesion: Cohesion {
                steering_vector: Vector2::zero(),
                effectiveness: COHESION_EFFECTIVENESS,
            },
        }
    }
}

impl Boid {
    /// Well formed, with each coordinate of the position within `position_limit`.
    pub open spec fn wf_with(&self, position_limit: int) -> bool {
        &&& within(self.position@, position_limit)
        &&& self.velocity.wf()
        &&& self.acceleration.wf()
        &&& self.bundle.wf()
    }

    /// Well formed, inside the coordinate bound.
    pub open spec fn wf(&self) -> bool {
        self.wf_with(COORD_LIMIT as int)
    }

    /// Whether the boid is well formed, inside the coordinate bound.
    pub fn is_well_formed(&self) -> (r: bool)
        ensures
            r == self.wf(),
    {
        let b = &self.bundle;
        let cos_ok = -COS_SCALE <= b.separation_neighborhood.cos_angle
            && b.separation_neighborhood.cos_angle <= COS_SCALE && -COS_SCALE
            <= b.alignment_neighborhood.cos_angle && b.alignment_neighborhood.cos_angle
            <= COS_SCALE && -COS_SCALE <= b.cohesion_neighborhood.cos_angle
            && b.cohesion_neighborhood.cos_angle <= COS_SCALE;
        let weights_ok = 0 <= b.separation.effectiveness && b.separation.effectiveness
            <= MAX_EFFECTIVENESS && 0 <= b.alignment.effectiveness && b.alignment.effectiveness
            <= MAX_EFFECTIVENESS && 0 <= b.cohesion.effectiveness && b.cohesion.effectiveness
            <= MAX_EFFECTIVENESS;
        let steering_ok = vector_within(&b.separation.steering_vector, STEERING_LIMIT)
            && vector_within(&b.alignment.steering_vector, STEERING_LIMIT) && vector_within(
            &b.cohesion.steering_vector,
            STEERING_LIMIT,
        );
        let acceleration_ok = 0 <= self.acceleration.max && self.acceleration.max <= COORD_LIMIT
            && vector_within(&self.acceleration.value, ACCEL_LIMIT);
        let max = self.velocity.max;
        let velocity_ok = if 0 <= max && max <= COORD_LIMIT && vector_within(
            &self.velocity.value,
            COORD_LIMIT,
        ) {
            let m = max as i128;
            proof {
                crate::vector::lemma_square_le(m as int, COORD_LIMIT as int);
            }
            self.velocity.value.length_squared() <= m * m
        } else {
            proof {
                if 0 <= max <= COORD_LIMIT && self.velocity.wf() {
                    lemma_norm_bounds_coords(self.velocity.value@, max as int);
                }
            }
            false
        };
        vector_within(&self.position, COORD_LIMIT) && cos_ok && weights_ok && steering_ok
            && acceleration_ok && velocity_ok
    }

    /// The radius of the window of the behaviour of `kind`.
    pub open spec fn window_distance(&self, kind: BehaviorKind) -> int {
        match kind {
            BehaviorKind::Separation => self.bundle.separation_neighborhood.distance as int,
            BehaviorKind::Alignment => self.bundle.alignment_neighborhood.distance as int,
            BehaviorKind::Cohesion => self.bundle.cohesion_neighborhood.distance as int,
        }
    }

    /// The cosine of the angle of the window of the behaviour of `kind`.
    pub open spec fn window_cos(&self, kind: BehaviorKind) -> int {
        match kind {
            BehaviorKind::Separation => self.bundle.separation_neighborhood.cos_angle as int,
            BehaviorKind::Alignment => self.bundle.alignment_neighborhood.cos_angle as int,
            BehaviorKind::Cohesion => self.bundle.cohesion_neighborhood.cos_angle as int,
        }
    }

    /// The weight of the behaviour of `kind`.
    pub open spec fn effectiveness(&self, kind: BehaviorKind) -> int {
        match kind {
            BehaviorKind::Separation => self.bundle.separation.effectiveness as int,
            BehaviorKind::Alignment => self.bundle.alignment.effectiveness as int,
            BehaviorKind::Cohesion => self.bundle.cohesion.effectiveness as int,
        }
    }

    /// The steering vector of the behaviour of `kind`.
    pub open spec fn steering(&self, kind: BehaviorKind) -> Vector2 {
        match kind {
            BehaviorKind::Separation => self.bundle.separation.steering_vector,
            BehaviorKind::Alignment => self.bundle.alignment.steering_vector,
            BehaviorKind::Cohesion => self.bundle.cohesion.steering_vector,
        }
    }

    /// The same boid with the steering vector of `kind` replaced by `v`.
    pub open spec fn with_steering(self, kind: BehaviorKind, v: Vector2) -> Boid {
        let bundle = self.bundle;
        match kind {
            BehaviorKind::Separation => Boid {
                bundle: BoidBundle {
                    separation: Separation { steering_vector: v, ..bundle.separation },
                    ..bundle
                },
                ..self
            },
            BehaviorKind::Alignment => Boid {
                bundle: BoidBundle {
                    alignment: Alignment { steering_vector: v, ..bundle.alignment },
                    ..bundle
                },
                ..self
            },
            BehaviorKind::Cohesion => Boid {
                bundle: BoidBundle {
                    cohesion: Cohesion { steering_vector: v, ..bundle.cohesion },
                    ..bundle
                },
                ..self
            },
        }
    }
}

} // verus!
