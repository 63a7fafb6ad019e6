//! A flock of boids on a fixed-point plane: the neighbour test, the three
//! classical steering behaviours (separation, alignment, cohesion), their
//! combination into an acceleration, and the motion step with its boundary
//! policy. All arithmetic is on integers, so every bound is exact.
//!
//! Units: a length of `boid::UNIT` stands for one unit of the world; an
//! angle is given by its cosine, scaled by `neighborhood::COS_SCALE`; a
//! behaviour's weight is scaled by `steering_behaviors::EFFECTIVENESS_SCALE`.
//! A neighbour is seen within a radius and within a bearing from the
//! observer's velocity; both bounds are strict.
pub mod vector;
pub mod neighborhood;
pub mod scanner;
pub mod movement;
pub mod steering_behaviors;
pub mod boid;
pub mod flock;
