//! The exact core of a free-look camera and of a ray-sphere hit test.
//!
//! Everything here is whole-number arithmetic and case analysis: the
//! camera's eye and target on a lattice and the basis that follows from
//! them, the operations that a frame of input asks for and their amounts,
//! the limits of a pitch, the rebuilding of an orthogonal basis, and the
//! branch that a ray takes against a sphere. Unit length, angles and
//! rotation need floating point and are the caller's.

pub mod vector;
pub mod basis;
pub mod twist;
pub mod turn;
pub mod camera;
pub mod input;
pub mod step;
pub mod rate;
pub mod plan;
pub mod pitch;
pub mod hit;
