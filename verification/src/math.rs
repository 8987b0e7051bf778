//! Points and vectors of the plane and of space.

use vstd::prelude::*;
use crate::scalar::Scalar;

verus! {

/// A place in the plane.
#[derive(Clone, Copy, Debug, PartialEq, Eq)]
pub struct Point2 {
    pub x: Scalar,
    pub y: Scalar,
}

/// A displacement in the plane.
#[derive(Clone, Copy, Debug, PartialEq, Eq)]
pub struct Vector2 {
    pub x: Scalar,
    pub y: Scalar,
}

/// A displacement in space.
#[derive(Clone, Copy, Debug, PartialEq, Eq)]
pub struct Vector3 {
    pub x: Scalar,
    pub y: Scalar,
    pub z: Scalar,
}

impl Point2 {
    pub open spec fn spec_origin() -> Point2 {
        Point2 { x: Scalar { bits: 0 }, y: Scalar { bits: 0 } }
    }

    pub fn new(x: Scalar, y: Scalar) -> (p: Point2)
        ensures
            p.x == x,
            p.y == y,
    {
        Point2 { x, y }
    }

    /// The point where both coordinates are positive zero.
    #[verifier::when_used_as_spec(spec_origin)]
    pub fn origin() -> (p: Point2)
        ensures
            p == Self::spec_origin(),
    {
        Point2 { x: Scalar { bits: 0 }, y: Scalar { bits: 0 } }
    }
}

impl Vector2 {
    pub fn new(x: Scalar, y: Scalar) -> (v: Vector2)
        ensures
            v.x == x,
            v.y == y,
    {
        Vector2 { x, y }
    }
}

impl Vector3 {
    pub fn new(x: Scalar, y: Scalar, z: Scalar) -> (v: Vector3)
        ensures
            v.x == x,
            v.y == y,
            v.z == z,
    {
        Vector3 { x, y, z }
    }
}

/// A displacement of four components, and a column of a [`Matrix4`].
#[derive(Clone, Copy, Debug, PartialEq, Eq)]
pub struct Vector4 {
    pub x: Scalar,
    pub y: Scalar,
    pub z: Scalar,
    pub w: Scalar,
}

/// A matrix of four columns.
#[derive(Clone, Copy, Debug, PartialEq, Eq)]
pub struct Matrix4 {
    pub x: Vector4,
    pub y: Vector4,
    pub z: Vector4,
    pub w: Vector4,
}

impl Matrix4 {
    /// One on the diagonal and positive zero everywhere else.
    pub open spec fn spec_identity() -> Matrix4 {
        let o = Scalar { bits: crate::scalar::ZERO_BITS };
        let i = Scalar { bits: crate::scalar::ONE_BITS };
        Matrix4 {
            x: Vector4 { x: i, y: o, z: o, w: o },
            y: Vector4 { x: o, y: i, z: o, w: o },
            z: Vector4 { x: o, y: o, z: i, w: o },
            w: Vector4 { x: o, y: o, z: o, w: i },
        }
    }

    /// The matrix that leaves every vector as it is.
    #[verifier::when_used_as_spec(spec_identity)]
    pub fn identity() -> (m: Matrix4)
        ensures
            m == Self::spec_identity(),
    {
        let o = Scalar::zero();
        let i = Scalar::one();
        Matrix4 {
            x: Vector4 { x: i, y: o, z: o, w: o },
            y: Vector4 { x: o, y: i, z: o, w: o },
            z: Vector4 { x: o, y: o, z: i, w: o },
            w: Vector4 { x: o, y: o, z: o, w: i },
        }
    }
}

/// The box that an orthographic projection maps to the drawing stage's own
/// cube, in whole units.
#[derive(Clone, Copy, Debug, PartialEq, Eq)]
pub struct Ortho {
    pub left: i64,
    pub right: i64,
    pub bottom: i64,
    pub top: i64,
    pub near: i64,
    pub far: i64,
}

impl Ortho {
    /// The bounds for a viewport of `width` by `height`: from the origin to
    /// the size, and from minus one to one in depth.
    pub open spec fn spec_viewport(width: u32, height: u32) -> Ortho {
        Ortho { left: 0, right: width as i64, bottom: 0, top: height as i64, near: -1i64, far: 1 }
    }

    #[verifier::when_used_as_spec(spec_viewport)]
    pub fn viewport(width: u32, height: u32) -> (o: Ortho)
        ensures
            o == Self::spec_viewport(width, height),
    {
        Ortho { left: 0, right: width as i64, bottom: 0, top: height as i64, near: -1, far: 1 }
    }
}

} // verus!
