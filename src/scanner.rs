//! A window seen from the origin: the bearing between two position vectors.
use vstd::prelude::*;

use crate::neighborhood::{bearing_within, within_angle, COS_SCALE};
use crate::vector::{norm_sq, v_sub, within, Vec2Model, Vector2, COORD_LIMIT};

verus! {

/// A radius and an angle, the angle taken between position vectors.
#[derive(Clone, Copy, Debug, PartialEq, Eq, Structural)]
pub struct Scanner {
    /// The radius, exclusive.
    pub distance: i64,
    /// The cosine of the largest angle, exclusive, scaled by `COS_SCALE`.
    pub cos_angle: i64,
}

/// `neighbor` is strictly closer than the scanner's radius to `position`,
/// and the angle between the two position vectors is strictly below the scanner's angle.
pub open spec fn scanned(position: Vec2Model, scanner: Scanner, neighbor: Vec2Model) -> bool {
    let d = scanner.distance as int;
    0 < d && norm_sq(v_sub(neighbor, position)) < d * d && within_angle(
        position,
        neighbor,
        scanner.cos_angle as int,
    )
}

pub trait Scanning: Sized {
    /// Where the scanning value stands.
    spec fn spec_position(&self) -> Vec2Model;

    /// Whether `neighbor` falls in `scanner`'s window around `self`.
    fn has_flockmate(&self, scanner: &Scanner, neighbor: &Self) -> (r: bool)
        requires
            within(self.spec_position(), COORD_LIMIT as int),
            within(neighbor.spec_position(), COORD_LIMIT as int),
            -COS_SCALE <= scanner.cos_angle <= COS_SCALE,
        ensures
            r == scanned(self.spec_position(), *scanner, neighbor.spec_position()),
    ;
}

impl Scanning for Vector2 {
    open spec fn spec_position(&self) -> Vec2Model {
        self@
    }

    fn has_flockmate(&self, scanner: &Scanner, neighbor: &Vector2) -> (r: bool) {
        if scanner.distance <= 0 {
            return false;
        }
        let d = scanner.distance as i128;
        proof {
            crate::vector::lemma_square_le_abs(d as int, i64::MAX as int);
        }
        if neighbor.minus(self).widen().length_squared() >= d * d {
            return false;
        }
        bearing_within(self, neighbor, scanner.cos_angle)
    }
}

} // verus!
