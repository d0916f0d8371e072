//! Camera state for a 3D renderer, with view and projection transforms
//! pinned down exactly.
//!
//! A camera owns an eye position and a look-at target and fixes its
//! projection parameters at construction. Building the concrete 4x4 float
//! matrices is numeric work that verified code cannot do, so the library
//! splits the job: it computes, and proves exact, the complete *description*
//! of each transform — the look-at triple for the view, the frustum or
//! cuboid parameters for the projection — over IEEE-754 binary32 bit
//! patterns, and leaves the evaluation of those descriptions into matrices
//! to the embedding renderer. Descriptions are recomputed on every read,
//! never cached, so a stale view is impossible by construction.

pub mod camera;
pub mod scalar;

pub use camera::{Camera, CameraError, LookAt, OrthographicCamera, PerspectiveCamera, Projection,
    Vec3};
pub use scalar::Scalar;
