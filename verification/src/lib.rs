//! A physics-driven character controller: ground sensing, grounding
//! classification, floating suspension, slope sliding, movement integration,
//! jumping, crouching, and moving-platform velocity inheritance.
//!
//! The controller is pure logic over plain values: each simulation tick the
//! surrounding engine hands it spatial-query results, an input snapshot and
//! the body's current motion, and it returns the forces, velocities and
//! gravity scale to apply. All scalars are fixed-point (see `math`), so the
//! whole per-tick computation is exact and verified.

pub mod classifier;
pub mod components;
pub mod crouch;
pub mod jump;
pub mod math;
pub mod movement;
pub mod platform;
pub mod sensor;
pub mod slope;
pub mod suspension;
pub mod tick;
