//! The cameras: position/target state and exact transform descriptions.
//!
//! Each camera kind owns an eye position and a look-at target, and fixes its
//! projection parameters when it is built. `get_view` returns the complete
//! input of a right-handed look-at transform — eye, center and the fixed
//! world-up direction `(0, 1, 0)` — recomputed from the current state on
//! every call, so it can never be stale. `get_projection` returns the
//! parameters of the projection transform fixed at construction. The
//! embedding renderer evaluates both descriptions into 4x4 float matrices.
//!
//! The up direction is always the world-up axis `(0, 1, 0)`. Deriving it
//! instead from a cross product against a fixed reference axis was
//! considered and rejected: that formula degenerates whenever the view
//! direction is parallel to the reference axis.

use vstd::prelude::*;

use crate::scalar::Scalar;

verus! {

/// The bit pattern of `1.0` as a binary32 value.
pub const ONE_BITS: u32 = 0x3F80_0000;

/// The bit pattern of the fixed vertical field of view, `pi / 4` radians
/// (45 degrees), as a binary32 value.
pub const FOV_Y_BITS: u32 = 0x3F49_0FDB;

/// A three-component vector of binary32 bit patterns.
#[derive(Clone, Copy, Debug, PartialEq, Eq, Structural)]
pub struct Vec3 {
    /// The first component.
    pub x: Scalar,
    /// The second component.
    pub y: Scalar,
    /// The third component.
    pub z: Scalar,
}

/// The complete input of a right-handed look-at transform: the matrix that
/// maps world coordinates to camera coordinates is a function of these three
/// vectors and of nothing else.
#[derive(Clone, Copy, Debug, PartialEq, Eq, Structural)]
pub struct LookAt {
    /// The eye position.
    pub eye: Vec3,
    /// The point looked at.
    pub center: Vec3,
    /// The up-direction hint.
    pub up: Vec3,
}

/// The parameters of a projection transform, fixed when a camera is built.
#[derive(Clone, Copy, Debug, PartialEq, Eq, Structural)]
pub enum Projection {
    /// A perspective frustum with a vertical field of view of `fovy`
    /// radians, the given width-to-height aspect ratio, and the near and far
    /// clip distances.
    Perspective {
        /// The vertical field of view, in radians.
        fovy: Scalar,
        /// The width-to-height aspect ratio.
        aspect: Scalar,
        /// The near clip distance.
        z_near: Scalar,
        /// The far clip distance.
        z_far: Scalar,
    },
    /// An orthographic cuboid symmetric about the camera-space origin: the
    /// x extent is `[-width/2, width/2]`, the y extent `[-height/2,
    /// height/2]`, and the z extent `[-depth/2, depth/2]`. The halving is
    /// part of the meaning and is done by the evaluator.
    Orthographic {
        /// The full x extent.
        width: Scalar,
        /// The full y extent.
        height: Scalar,
        /// The full z extent.
        depth: Scalar,
    },
}

/// Why building a camera was refused.
#[derive(Clone, Copy, Debug, PartialEq, Eq, Structural)]
pub enum CameraError {
    /// The near clip distance is below zero, or beyond the far one.
    InvalidPerspectiveParameters,
}

/// The fixed world-up direction, `(0, 1, 0)`.
pub open spec fn spec_world_up() -> Vec3 {
    Vec3 { x: Scalar { bits: 0 }, y: Scalar { bits: ONE_BITS }, z: Scalar { bits: 0 } }
}

/// The fixed vertical field of view, `pi / 4` radians.
pub open spec fn spec_fov_y() -> Scalar {
    Scalar { bits: FOV_Y_BITS }
}

/// The view description a camera owes for a position/target pair: a
/// right-handed look-at from the position toward the target, with the fixed
/// world-up direction.
pub open spec fn spec_look_at(position: Vec3, target: Vec3) -> LookAt {
    LookAt { eye: position, center: target, up: spec_world_up() }
}

/// The rejection rule for perspective clip distances: refused exactly when
/// `z_near < 0` or `z_near > z_far` under IEEE-754 comparison. A NaN clip
/// distance satisfies neither comparison and so is not rejected.
pub open spec fn spec_clip_rejected(z_near: Scalar, z_far: Scalar) -> bool {
    z_near.spec_lt(Scalar::spec_zero()) || z_far.spec_lt(z_near)
}

/// A clip range that is ordered — `0 <= z_near` and `z_near <= z_far` under
/// IEEE-754 comparison — is never rejected, so perspective construction
/// succeeds on it.
pub proof fn lemma_ordered_clip_range_accepted(z_near: Scalar, z_far: Scalar)
    requires
        Scalar::spec_zero().spec_le(z_near),
        z_near.spec_le(z_far),
    ensures
        !spec_clip_rejected(z_near, z_far),
{
}

fn world_up() -> (up: Vec3)
    ensures
        up == spec_world_up(),
{
    Vec3 { x: Scalar { bits: 0 }, y: Scalar { bits: ONE_BITS }, z: Scalar { bits: 0 } }
}

fn clip_rejected(z_near: Scalar, z_far: Scalar) -> (rejected: bool)
    ensures
        rejected == spec_clip_rejected(z_near, z_far),
{
    z_near.lt(Scalar::zero()) || z_far.lt(z_near)
}

/// The camera capability: a current eye position, a look-at target, a view
/// description that always reflects the most recently set position/target
/// pair, and projection parameters fixed at construction.
pub trait Camera: Sized {
    /// The eye position the camera currently holds.
    spec fn spec_position(&self) -> Vec3;

    /// The look-at target the camera currently holds.
    spec fn spec_target(&self) -> Vec3;

    /// The projection parameters fixed when the camera was built.
    spec fn spec_projection(&self) -> Projection;

    /// The world-to-camera transform, described by its look-at input. It is
    /// recomputed from the current position and target on every call, so it
    /// can never be stale.
    fn get_view(&self) -> (view: LookAt)
        ensures
            view == spec_look_at(self.spec_position(), self.spec_target()),
    ;

    /// The camera-to-clip transform, described by its parameters.
    fn get_projection(&self) -> (projection: Projection)
        ensures
            projection == self.spec_projection(),
    ;

    /// The current eye position, exactly as it was last set.
    fn position(&self) -> (position: Vec3)
        ensures
            position == self.spec_position(),
    ;

    /// The current look-at target, exactly as it was last set.
    fn target(&self) -> (target: Vec3)
        ensures
            target == self.spec_target(),
    ;

    /// Replaces the position and the target, both taken over exactly, with
    /// no normalization. The projection parameters are untouched.
    fn set_view(&mut self, position: Vec3, target: Vec3)
        ensures
            final(self).spec_position() == position,
            final(self).spec_target() == target,
            final(self).spec_projection() == old(self).spec_projection(),
    ;
}

/// The position/target pair every camera kind owns.
struct BaseCamera {
    position: Vec3,
    target: Vec3,
}

impl BaseCamera {
    fn new(position: Vec3, target: Vec3) -> (camera: BaseCamera)
        ensures
            camera.position == position,
            camera.target == target,
    {
        BaseCamera { position, target }
    }

    fn set_view(&mut self, position: Vec3, target: Vec3)
        ensures
            final(self).position == position,
            final(self).target == target,
    {
        self.position = position;
        self.target = target;
    }

    fn get_view(&self) -> (view: LookAt)
        ensures
            view == spec_look_at(self.position, self.target),
    {
        LookAt { eye: self.position, center: self.target, up: world_up() }
    }
}

/// A camera with a perspective frustum: a fixed 45-degree vertical field of
/// view, an aspect ratio and a near/far clip range given at construction.
pub struct PerspectiveCamera {
    base: BaseCamera,
    aspect: Scalar,
    z_near: Scalar,
    z_far: Scalar,
}

impl PerspectiveCamera {
    /// Builds a perspective camera looking from `position` toward `target`.
    ///
    /// Construction is refused, with
    /// [`CameraError::InvalidPerspectiveParameters`], exactly when
    /// `z_near < 0` or `z_near > z_far` under IEEE-754 comparison; an
    /// invalid clip range never reaches a constructed camera. On success the
    /// projection carries the fixed `pi / 4` field of view and the given
    /// aspect, `z_near` and `z_far`, bit for bit.
    pub fn new(position: Vec3, target: Vec3, aspect: Scalar, z_near: Scalar, z_far: Scalar)
        -> (result: Result<PerspectiveCamera, CameraError>)
        ensures
            result is Ok <==> !spec_clip_rejected(z_near, z_far),
            (result matches Ok(camera) ==> {
                &&& camera.spec_position() == position
                &&& camera.spec_target() == target
                &&& camera.spec_projection() == (Projection::Perspective {
                    fovy: spec_fov_y(),
                    aspect,
                    z_near,
                    z_far,
                })
            }),
            (result matches Err(error) ==> error == CameraError::InvalidPerspectiveParameters),
    {
        if clip_rejected(z_near, z_far) {
            Err(CameraError::InvalidPerspectiveParameters)
        } else {
            Ok(PerspectiveCamera { base: BaseCamera::new(position, target), aspect, z_near, z_far })
        }
    }
}

impl Camera for PerspectiveCamera {
    closed spec fn spec_position(&self) -> Vec3 {
        self.base.position
    }

    closed spec fn spec_target(&self) -> Vec3 {
        self.base.target
    }

    closed spec fn spec_projection(&self) -> Projection {
        Projection::Perspective {
            fovy: spec_fov_y(),
            aspect: self.aspect,
            z_near: self.z_near,
            z_far: self.z_far,
        }
    }

    fn get_view(&self) -> LookAt {
        self.base.get_view()
    }

    fn get_projection(&self) -> Projection {
        Projection::Perspective {
            fovy: Scalar { bits: FOV_Y_BITS },
            aspect: self.aspect,
            z_near: self.z_near,
            z_far: self.z_far,
        }
    }

    fn position(&self) -> Vec3 {
        self.base.position
    }

    fn target(&self) -> Vec3 {
        self.base.target
    }

    fn set_view(&mut self, position: Vec3, target: Vec3) {
        self.base.set_view(position, target);
    }
}

/// A camera with an orthographic projection: a cuboid of the given width,
/// height and depth, centered at the camera-space origin.
pub struct OrthographicCamera {
    base: BaseCamera,
    width: Scalar,
    height: Scalar,
    depth: Scalar,
}

impl OrthographicCamera {
    /// Builds an orthographic camera looking from `position` toward
    /// `target`. Every parameter combination is accepted: the orthographic
    /// projection has no rejection rule. The projection carries the given
    /// extents, bit for bit.
    pub fn new(position: Vec3, target: Vec3, width: Scalar, height: Scalar, depth: Scalar)
        -> (camera: OrthographicCamera)
        ensures
            camera.spec_position() == position,
            camera.spec_target() == target,
            camera.spec_projection() == (Projection::Orthographic { width, height, depth }),
    {
        OrthographicCamera { base: BaseCamera::new(position, target), width, height, depth }
    }
}

impl Camera for OrthographicCamera {
    closed spec fn spec_position(&self) -> Vec3 {
        self.base.position
    }

    closed spec fn spec_target(&self) -> Vec3 {
        self.base.target
    }

    closed spec fn spec_projection(&self) -> Projection {
        Projection::Orthographic { width: self.width, height: self.height, depth: self.depth }
    }

    fn get_view(&self) -> LookAt {
        self.base.get_view()
    }

    fn get_projection(&self) -> Projection {
        Projection::Orthographic { width: self.width, height: self.height, depth: self.depth }
    }

    fn position(&self) -> Vec3 {
        self.base.position
    }

    fn target(&self) -> Vec3 {
        self.base.target
    }

    fn set_view(&mut self, position: Vec3, target: Vec3) {
        self.base.set_view(position, target);
    }
}

} // verus!
