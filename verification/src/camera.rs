//! The camera state machine: a 2D affine camera, or a 3D/VR camera with
//! per-viewport transforms, a world placement and a velocity.
//!
//! Construction discards every piece of prior camera state: a fresh camera is
//! a function of the mode, the scene view box's derived geometry and the
//! viewport size alone. The numeric edge derives `CameraGeometry` from the
//! view box and viewport size; everything structural is decided and proved
//! here.

use vstd::prelude::*;
use crate::geom::{Scalar, Vector2I, Vector3S, ZERO_BITS};

verus! {

/// Bit pattern of the scalar one, used by the identity transform.
pub const ONE_BITS: u32 = 0x3F80_0000;

/// The camera mode; it alone determines how many viewports are rendered.
#[derive(Clone, Copy, PartialEq, Eq, Structural, Debug)]
pub enum Mode {
    TwoD,
    ThreeD,
    VR,
}

impl Mode {
    pub open spec fn spec_viewport_count(self) -> int {
        match self {
            Mode::TwoD => 1,
            Mode::ThreeD => 1,
            Mode::VR => 2,
        }
    }

    /// How many camera views are rendered each tick: one, except two for VR.
    pub fn viewport_count(self) -> (n: usize)
        ensures
            n == self.spec_viewport_count(),
    {
        match self {
            Mode::TwoD => 1,
            Mode::ThreeD => 1,
            Mode::VR => 2,
        }
    }
}

/// A 2D affine transform: a 2x2 matrix and a translation, six scalars.
#[derive(Clone, Copy, PartialEq, Eq, Structural, Debug)]
pub struct Transform2D {
    pub m00: Scalar,
    pub m01: Scalar,
    pub m10: Scalar,
    pub m11: Scalar,
    pub tx: Scalar,
    pub ty: Scalar,
}

/// A 4x4 homogeneous transform; field `mRC` holds row R, column C.
#[derive(Clone, Copy, PartialEq, Eq, Structural, Debug)]
pub struct Transform3D {
    pub m00: Scalar, pub m01: Scalar, pub m02: Scalar, pub m03: Scalar,
    pub m10: Scalar, pub m11: Scalar, pub m12: Scalar, pub m13: Scalar,
    pub m20: Scalar, pub m21: Scalar, pub m22: Scalar, pub m23: Scalar,
    pub m30: Scalar, pub m31: Scalar, pub m32: Scalar, pub m33: Scalar,
}

impl Transform3D {
    pub open spec fn spec_identity() -> Transform3D {
        Transform3D {
            m00: Scalar { bits: ONE_BITS }, m01: Scalar { bits: ZERO_BITS },
            m02: Scalar { bits: ZERO_BITS }, m03: Scalar { bits: ZERO_BITS },
            m10: Scalar { bits: ZERO_BITS }, m11: Scalar { bits: ONE_BITS },
            m12: Scalar { bits: ZERO_BITS }, m13: Scalar { bits: ZERO_BITS },
            m20: Scalar { bits: ZERO_BITS }, m21: Scalar { bits: ZERO_BITS },
            m22: Scalar { bits: ONE_BITS }, m23: Scalar { bits: ZERO_BITS },
            m30: Scalar { bits: ZERO_BITS }, m31: Scalar { bits: ZERO_BITS },
            m32: Scalar { bits: ZERO_BITS }, m33: Scalar { bits: ONE_BITS },
        }
    }

    /// The identity transform, the view a fresh 3D camera starts from.
    pub fn identity() -> (r: Transform3D)
        ensures
            r == Transform3D::spec_identity(),
    {
        Transform3D {
            m00: Scalar { bits: ONE_BITS }, m01: Scalar { bits: ZERO_BITS },
            m02: Scalar { bits: ZERO_BITS }, m03: Scalar { bits: ZERO_BITS },
            m10: Scalar { bits: ZERO_BITS }, m11: Scalar { bits: ONE_BITS },
            m12: Scalar { bits: ZERO_BITS }, m13: Scalar { bits: ZERO_BITS },
            m20: Scalar { bits: ZERO_BITS }, m21: Scalar { bits: ZERO_BITS },
            m22: Scalar { bits: ONE_BITS }, m23: Scalar { bits: ZERO_BITS },
            m30: Scalar { bits: ZERO_BITS }, m31: Scalar { bits: ZERO_BITS },
            m32: Scalar { bits: ZERO_BITS }, m33: Scalar { bits: ONE_BITS },
        }
    }
}

/// A perspective projection onto a window of the given device size.
#[derive(Clone, Copy, PartialEq, Eq, Structural, Debug)]
pub struct PerspectiveCam {
    pub transform: Transform3D,
    pub window_size: Vector2I,
}

/// One viewport's camera: its projection to display coordinates and its view
/// transform from world to camera coordinates.
#[derive(Clone, Copy, PartialEq, Eq, Structural, Debug)]
pub struct CameraTransform {
    pub perspective: PerspectiveCam,
    pub view: Transform3D,
}

/// The world placement of a 3D camera: position, yaw, pitch and uniform scale.
#[derive(Clone, Copy, PartialEq, Eq, Structural, Debug)]
pub struct CameraTransform3D {
    pub position: Vector3S,
    pub yaw: Scalar,
    pub pitch: Scalar,
    pub scale: Scalar,
}

impl CameraTransform3D {
    /// A fresh placement: the given derived position and scale, no rotation.
    pub fn new(position: Vector3S, scale: Scalar) -> (r: CameraTransform3D)
        ensures
            r == (CameraTransform3D {
                position,
                yaw: Scalar { bits: ZERO_BITS },
                pitch: Scalar { bits: ZERO_BITS },
                scale,
            }),
    {
        CameraTransform3D {
            position,
            yaw: Scalar { bits: ZERO_BITS },
            pitch: Scalar { bits: ZERO_BITS },
            scale,
        }
    }
}

/// What the numeric edge derives from the mode, the scene view box and the
/// viewport size; the only scalar inputs a fresh camera is built from.
#[derive(Clone, Copy, PartialEq, Eq, Structural, Debug)]
pub enum CameraGeometry {
    /// The initial 2D transform: a uniform fit-to-window scale and centering.
    TwoD(Transform2D),
    /// The 3D projection matrix and the initial world placement.
    ThreeD { projection: Transform3D, position: Vector3S, scale: Scalar },
}

impl CameraGeometry {
    /// Whether this geometry belongs to the given mode.
    pub open spec fn matches_mode(self, mode: Mode) -> bool {
        match mode {
            Mode::TwoD => self is TwoD,
            Mode::ThreeD => self is ThreeD,
            Mode::VR => self is ThreeD,
        }
    }
}

/// The per-viewport camera transforms of a 3D camera: one for the single
/// viewport of 3D mode, a second one only for VR's second eye. The spec
/// calls for a fixed-size list whose length is the mode's viewport count;
/// this is that list.
#[derive(Clone, Copy, PartialEq, Eq, Structural, Debug)]
pub struct ViewportTransforms {
    pub primary: CameraTransform,
    pub secondary: Option<CameraTransform>,
}

impl ViewportTransforms {
    pub open spec fn spec_count(self) -> int {
        if self.secondary is Some {
            2
        } else {
            1
        }
    }

    pub open spec fn spec_get(self, i: int) -> CameraTransform {
        if i == 0 {
            self.primary
        } else {
            self.secondary->0
        }
    }

    /// How many viewport transforms there are: one or two.
    pub fn count(&self) -> (n: usize)
        ensures
            n == self.spec_count(),
    {
        if self.secondary.is_some() {
            2
        } else {
            1
        }
    }

    /// The transform of viewport `i`.
    pub fn get(&self, i: usize) -> (t: CameraTransform)
        requires
            0 <= i < self.spec_count(),
        ensures
            t == self.spec_get(i as int),
    {
        if i == 0 {
            self.primary
        } else {
            match self.secondary {
                Some(t) => t,
                None => self.primary,
            }
        }
    }

    /// The same transform for every viewport of the mode.
    pub fn splat(t: CameraTransform, mode: Mode) -> (r: ViewportTransforms)
        ensures
            r == spec_splat_transforms(t, mode),
    {
        ViewportTransforms {
            primary: t,
            secondary: if matches!(mode, Mode::VR) {
                Some(t)
            } else {
                None
            },
        }
    }
}

/// One transform repeated once per viewport of the mode.
pub open spec fn spec_splat_transforms(t: CameraTransform, mode: Mode) -> ViewportTransforms {
    ViewportTransforms {
        primary: t,
        secondary: if mode is VR {
            Some(t)
        } else {
            None
        },
    }
}

/// The camera: either a 2D affine transform, or a 3D/VR camera.
#[derive(Clone, Copy, PartialEq, Eq, Structural, Debug)]
pub enum Camera {
    TwoD(Transform2D),
    ThreeD {
        /// Either 3D or VR; never 2D.
        mode: Mode,
        /// One per viewport; the count always equals the mode's.
        transforms: ViewportTransforms,
        /// The model transform from world to scene coordinates.
        transform: CameraTransform3D,
        /// The camera's velocity in world coordinates.
        velocity: Vector3S,
    },
}

/// The camera a mode switch or scene load constructs: a pure function of
/// the mode, the geometry the numeric edge derived from the scene view box
/// and viewport size, and the viewport size itself. Nothing of any earlier
/// camera flows in: every accumulated pan, zoom, rotation, mouselook angle
/// and velocity is discarded.
pub open spec fn spec_fresh_camera(mode: Mode, geometry: CameraGeometry, view_box_size: Vector2I) -> Camera {
    match mode {
        Mode::TwoD => Camera::TwoD(geometry->TwoD_0),
        _ => {
            Camera::ThreeD {
                mode,
                transforms: spec_splat_transforms(
                    CameraTransform {
                        perspective: PerspectiveCam {
                            transform: geometry->projection,
                            window_size: view_box_size,
                        },
                        view: Transform3D::spec_identity(),
                    },
                    mode,
                ),
                transform: CameraTransform3D {
                    position: geometry->position,
                    yaw: Scalar { bits: ZERO_BITS },
                    pitch: Scalar { bits: ZERO_BITS },
                    scale: geometry->scale,
                },
                velocity: Vector3S {
                    x: Scalar { bits: ZERO_BITS },
                    y: Scalar { bits: ZERO_BITS },
                    z: Scalar { bits: ZERO_BITS },
                },
            }
        },
    }
}

impl Camera {
    /// The structural invariant: a 3D camera's mode is 3D or VR and it
    /// holds exactly one per-viewport transform per viewport of the mode.
    pub open spec fn wf(self) -> bool {
        self matches Camera::ThreeD { mode, transforms, .. } ==> {
            &&& mode != Mode::TwoD
            &&& transforms.spec_count() == mode.spec_viewport_count()
        }
    }

    pub open spec fn spec_mode(self) -> Mode {
        match self {
            Camera::TwoD(_) => Mode::TwoD,
            Camera::ThreeD { mode, .. } => mode,
        }
    }

    pub open spec fn spec_is_3d(self) -> bool {
        self is ThreeD
    }

    /// Builds a camera from scratch for the given mode.
    pub fn new(mode: Mode, geometry: &CameraGeometry, view_box_size: Vector2I) -> (cam: Camera)
        requires
            geometry.matches_mode(mode),
        ensures
            cam == spec_fresh_camera(mode, *geometry, view_box_size),
            cam.wf(),
            cam.spec_mode() == mode,
    {
        match mode {
            Mode::TwoD => Camera::new_2d(geometry),
            _ => Camera::new_3d(mode, geometry, view_box_size),
        }
    }

    /// A fresh 2D camera: the derived fit-to-window transform, nothing else.
    pub fn new_2d(geometry: &CameraGeometry) -> (cam: Camera)
        requires
            *geometry is TwoD,
        ensures
            cam == spec_fresh_camera(Mode::TwoD, *geometry, Vector2I { x: 0, y: 0 }),
            cam == Camera::TwoD(geometry->TwoD_0),
            cam.wf(),
    {
        match geometry {
            CameraGeometry::TwoD(t) => Camera::TwoD(*t),
            CameraGeometry::ThreeD { .. } => {
                proof {
                    assert(false);
                }
                Camera::TwoD(Transform2D {
                    m00: Scalar { bits: ZERO_BITS }, m01: Scalar { bits: ZERO_BITS },
                    m10: Scalar { bits: ZERO_BITS }, m11: Scalar { bits: ZERO_BITS },
                    tx: Scalar { bits: ZERO_BITS }, ty: Scalar { bits: ZERO_BITS },
                })
            },
        }
    }

    /// A fresh 3D or VR camera: one identity-view transform per viewport of
    /// the mode, the derived placement, no rotation, zero velocity.
    pub fn new_3d(mode: Mode, geometry: &CameraGeometry, view_box_size: Vector2I) -> (cam: Camera)
        requires
            mode != Mode::TwoD,
            *geometry is ThreeD,
        ensures
            cam == spec_fresh_camera(mode, *geometry, view_box_size),
            cam.wf(),
            cam.spec_mode() == mode,
    {
        match geometry {
            CameraGeometry::ThreeD { projection, position, scale } => {
                let ct = CameraTransform {
                    perspective: PerspectiveCam {
                        transform: *projection,
                        window_size: view_box_size,
                    },
                    view: Transform3D::identity(),
                };
                Camera::ThreeD {
                    mode,
                    transforms: ViewportTransforms::splat(ct, mode),
                    transform: CameraTransform3D::new(*position, *scale),
                    velocity: Vector3S::zero(),
                }
            },
            CameraGeometry::TwoD(_) => {
                proof {
                    assert(false);
                }
                Camera::new_2d(geometry)
            },
        }
    }

    /// Whether the camera is in a 3D mode.
    pub fn is_3d(&self) -> (r: bool)
        ensures
            r == self.spec_is_3d(),
    {
        match self {
            Camera::ThreeD { .. } => true,
            Camera::TwoD(_) => false,
        }
    }

    /// The camera's mode.
    pub fn mode(&self) -> (m: Mode)
        ensures
            m == self.spec_mode(),
    {
        match self {
            Camera::ThreeD { mode, .. } => *mode,
            Camera::TwoD(_) => Mode::TwoD,
        }
    }
}

/// A fresh camera carries nothing over: it is well formed for its mode,
/// and a fresh 3D camera starts at rest — zero velocity, no yaw, no pitch,
/// identity views — with its placement taken from the derived geometry
/// alone. Together with freshness being a pure function of mode, geometry
/// and viewport size, this is what a mode switch discards: every
/// accumulated pan, zoom, rotation, mouselook angle and velocity.
pub proof fn lemma_fresh_camera_at_rest(mode: Mode, geometry: CameraGeometry, view_box_size: Vector2I)
    requires
        geometry.matches_mode(mode),
    ensures
        spec_fresh_camera(mode, geometry, view_box_size).wf(),
        spec_fresh_camera(mode, geometry, view_box_size).spec_mode() == mode,
        spec_fresh_camera(mode, geometry, view_box_size) matches Camera::ThreeD {
            transforms,
            transform,
            velocity,
            ..
        } ==> {
            &&& velocity.spec_is_zero()
            &&& transform.yaw.spec_is_zero()
            &&& transform.pitch.spec_is_zero()
            &&& transform.position == geometry->position
            &&& transform.scale == geometry->scale
            &&& forall|i: int| 0 <= i < transforms.spec_count()
                ==> #[trigger] transforms.spec_get(i).view == Transform3D::spec_identity()
        },
{
}

} // verus!
