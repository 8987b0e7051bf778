//! The triangles of each kind of shape, as sequences of vertices.
//!
//! Every mesh is a triangle list: three vertices to a triangle, no index
//! buffer, corners repeated where triangles share them. The order inside a
//! list is part of what is promised, since the drawing stage goes by winding.

use vstd::prelude::*;
use crate::scalar::Scalar;
use crate::math::Point2;
use crate::kit::{Rect, Rgba};
use crate::kit::shape2d::{Rotation, Vertex};

verus! {

/// The four corners of a stroked segment from `p1` to `p2`.
///
/// With `(wx, wy)` for half the width times the unit direction of the
/// segment, its components swapped, `p1_left` is `(p1.x - wx, p1.y + wy)` and
/// `p1_right` is `(p1.x + wx, p1.y - wy)`; `p2_left` and `p2_right` lie
/// likewise at `p2`.
#[derive(Clone, Copy, Debug, PartialEq, Eq)]
pub struct Corners {
    pub p1_left: Point2,
    pub p1_right: Point2,
    pub p2_left: Point2,
    pub p2_right: Point2,
}

/// Where the corners of a shape lie.
///
/// For a line these are the corners of its quad. For a rectangle it is the
/// box that is left once the stroke width is taken off every side. For a
/// circle cut into `n` sides these are `n + 1` points round the ring whose
/// radius is less by the stroke width (`inner`) and, where there is a stroke,
/// `n + 1` points round the full radius (`outer`); the last point of a ring
/// is its first one again.
#[derive(Clone, Debug, PartialEq, Eq)]
pub enum Outline {
    Line(Corners),
    Rectangle(Rect<Scalar>),
    Circle { inner: Vec<Point2>, outer: Vec<Point2> },
}

/// An [`Outline`] as a mathematical value.
pub enum OutlineModel {
    Line(Corners),
    Rectangle(Rect<Scalar>),
    Circle { inner: Seq<Point2>, outer: Seq<Point2> },
}

impl View for Outline {
    type V = OutlineModel;

    open spec fn view(&self) -> OutlineModel {
        match *self {
            Outline::Line(c) => OutlineModel::Line(c),
            Outline::Rectangle(r) => OutlineModel::Rectangle(r),
            Outline::Circle { inner, outer } => OutlineModel::Circle { inner: inner@, outer: outer@ },
        }
    }
}

/// The vertex over the point `p` at depth `z`.
pub open spec fn at(p: Point2, z: Scalar, rotation: Rotation, color: Rgba<u8>) -> Vertex {
    Vertex::spec_new(p.x, p.y, z, rotation.angle, rotation.center, color)
}

/// One triangle.
pub open spec fn triangle(a: Vertex, b: Vertex, c: Vertex) -> Seq<Vertex> {
    seq![a, b, c]
}

/// The quad of a stroked segment: the triangle over the first end and the
/// left corner of the second, then the one that completes it.
pub open spec fn line_mesh(c: Corners, z: Scalar, rotation: Rotation, color: Rgba<u8>) -> Seq<
    Vertex,
> {
    let a = at(c.p1_left, z, rotation, color);
    let b = at(c.p1_right, z, rotation, color);
    let d = at(c.p2_left, z, rotation, color);
    let e = at(c.p2_right, z, rotation, color);
    triangle(a, b, d) + triangle(d, b, e)
}

/// The hollow frame between the boxes `outer` and `inner`: four trapezoids,
/// bottom, left, right, top, of two triangles each, meeting at the corners
/// without a mitre.
pub open spec fn rect_frame(
    outer: Rect<Scalar>,
    inner: Rect<Scalar>,
    z: Scalar,
    rotation: Rotation,
    color: Rgba<u8>,
) -> Seq<Vertex> {
    let o11 = at(Point2 { x: outer.x1, y: outer.y1 }, z, rotation, color);
    let o21 = at(Point2 { x: outer.x2, y: outer.y1 }, z, rotation, color);
    let o12 = at(Point2 { x: outer.x1, y: outer.y2 }, z, rotation, color);
    let o22 = at(Point2 { x: outer.x2, y: outer.y2 }, z, rotation, color);
    let i11 = at(Point2 { x: inner.x1, y: inner.y1 }, z, rotation, color);
    let i21 = at(Point2 { x: inner.x2, y: inner.y1 }, z, rotation, color);
    let i12 = at(Point2 { x: inner.x1, y: inner.y2 }, z, rotation, color);
    let i22 = at(Point2 { x: inner.x2, y: inner.y2 }, z, rotation, color);
    triangle(o11, o21, i11) + triangle(i11, o21, i21)
        + triangle(o11, i11, o12) + triangle(o12, i11, i12)
        + triangle(i21, o21, o22) + triangle(i21, i22, o22)
        + triangle(o12, o22, i12) + triangle(i12, o22, i22)
}

/// The two triangles that cover the box `inner`.
pub open spec fn rect_fill(inner: Rect<Scalar>, z: Scalar, rotation: Rotation, color: Rgba<u8>) -> Seq<
    Vertex,
> {
    let i11 = at(Point2 { x: inner.x1, y: inner.y1 }, z, rotation, color);
    let i21 = at(Point2 { x: inner.x2, y: inner.y1 }, z, rotation, color);
    let i12 = at(Point2 { x: inner.x1, y: inner.y2 }, z, rotation, color);
    let i22 = at(Point2 { x: inner.x2, y: inner.y2 }, z, rotation, color);
    triangle(i11, i21, i22) + triangle(i11, i12, i22)
}

/// The point under the `k`-th vertex of a ring's stroke. Side `k / 6` is the
/// quad between the points `i = k / 6` and `i + 1` of the two rings, as the
/// triangles (inner i, outer i, outer i+1) and (inner i, outer i+1,
/// inner i+1).
pub open spec fn ring_stroke_point(inner: Seq<Point2>, outer: Seq<Point2>, k: int) -> Point2 {
    let i = k / 6;
    let j = k % 6;
    if j == 0 || j == 3 {
        inner[i]
    } else if j == 1 {
        outer[i]
    } else if j == 2 || j == 4 {
        outer[i + 1]
    } else {
        inner[i + 1]
    }
}

/// The stroke of a circle of `sides` sides: one quad a side, between the
/// rings. Its vertices carry no rotation.
pub open spec fn ring_stroke(
    inner: Seq<Point2>,
    outer: Seq<Point2>,
    sides: nat,
    z: Scalar,
    color: Rgba<u8>,
) -> Seq<Vertex> {
    Seq::new(
        6 * sides,
        |k: int| at(ring_stroke_point(inner, outer, k), z, Rotation::spec_zero(), color),
    )
}

/// The point under the `k`-th vertex of a circle's fill. Triangle `k / 3`
/// joins the centre to the ring points `i = k / 3` and `i + 1`; the last
/// triangle, where `i` is `sides`, goes back to the first ring point.
pub open spec fn ring_fan_point(center: Point2, inner: Seq<Point2>, sides: nat, k: int) -> Point2 {
    let i = k / 3;
    let j = k % 3;
    if j == 0 {
        center
    } else if j == 1 {
        inner[i]
    } else {
        inner[(i + 1) % (sides as int + 1)]
    }
}

/// The fill of a circle of `sides` sides: a fan of `sides` triangles from the
/// centre over the ring, and one more that closes it from the last ring
/// point to the first. Its vertices carry no rotation.
pub open spec fn ring_fan(center: Point2, inner: Seq<Point2>, sides: nat, z: Scalar, color: Rgba<u8>) -> Seq<
    Vertex,
> {
    Seq::new(
        3 * (sides + 1),
        |k: int| at(ring_fan_point(center, inner, sides, k), z, Rotation::spec_zero(), color),
    )
}

/// The vertex over `p`, as [`at`] says.
pub fn vertex_at(p: Point2, z: Scalar, rotation: Rotation, color: Rgba<u8>) -> (v: Vertex)
    ensures
        v == at(p, z, rotation, color),
{
    Vertex::new(p.x, p.y, z, rotation.angle, rotation.center, color)
}

/// Appends one triangle.
pub fn push_triangle(mesh: &mut Vec<Vertex>, a: Vertex, b: Vertex, c: Vertex)
    ensures
        final(mesh)@ == old(mesh)@ + triangle(a, b, c),
{
    mesh.push(a);
    mesh.push(b);
    mesh.push(c);
    assert(mesh@ =~= old(mesh)@ + triangle(a, b, c));
}

/// Appends the quad of a stroked segment.
pub fn push_line(mesh: &mut Vec<Vertex>, c: Corners, z: Scalar, rotation: Rotation, color: Rgba<u8>)
    ensures
        final(mesh)@ == old(mesh)@ + line_mesh(c, z, rotation, color),
{
    let a = vertex_at(c.p1_left, z, rotation, color);
    let b = vertex_at(c.p1_right, z, rotation, color);
    let d = vertex_at(c.p2_left, z, rotation, color);
    let e = vertex_at(c.p2_right, z, rotation, color);
    push_triangle(mesh, a, b, d);
    push_triangle(mesh, d, b, e);
    assert(mesh@ =~= old(mesh)@ + line_mesh(c, z, rotation, color));
}

/// Appends the frame between `outer` and `inner`.
pub fn push_rect_frame(
    mesh: &mut Vec<Vertex>,
    outer: Rect<Scalar>,
    inner: Rect<Scalar>,
    z: Scalar,
    rotation: Rotation,
    color: Rgba<u8>,
)
    ensures
        final(mesh)@ == old(mesh)@ + rect_frame(outer, inner, z, rotation, color),
{
    let o11 = vertex_at(Point2 { x: outer.x1, y: outer.y1 }, z, rotation, color);
    let o21 = vertex_at(Point2 { x: outer.x2, y: outer.y1 }, z, rotation, color);
    let o12 = vertex_at(Point2 { x: outer.x1, y: outer.y2 }, z, rotation, color);
    let o22 = vertex_at(Point2 { x: outer.x2, y: outer.y2 }, z, rotation, color);
    let i11 = vertex_at(Point2 { x: inner.x1, y: inner.y1 }, z, rotation, color);
    let i21 = vertex_at(Point2 { x: inner.x2, y: inner.y1 }, z, rotation, color);
    let i12 = vertex_at(Point2 { x: inner.x1, y: inner.y2 }, z, rotation, color);
    let i22 = vertex_at(Point2 { x: inner.x2, y: inner.y2 }, z, rotation, color);
    push_triangle(mesh, o11, o21, i11);
    push_triangle(mesh, i11, o21, i21);
    push_triangle(mesh, o11, i11, o12);
    push_triangle(mesh, o12, i11, i12);
    push_triangle(mesh, i21, o21, o22);
    push_triangle(mesh, i21, i22, o22);
    push_triangle(mesh, o12, o22, i12);
    push_triangle(mesh, i12, o22, i22);
    assert(mesh@ =~= old(mesh)@ + rect_frame(outer, inner, z, rotation, color));
}

/// Appends the two triangles over `inner`.
pub fn push_rect_fill(
    mesh: &mut Vec<Vertex>,
    inner: Rect<Scalar>,
    z: Scalar,
    rotation: Rotation,
    color: Rgba<u8>,
)
    ensures
        final(mesh)@ == old(mesh)@ + rect_fill(inner, z, rotation, color),
{
    let i11 = vertex_at(Point2 { x: inner.x1, y: inner.y1 }, z, rotation, color);
    let i21 = vertex_at(Point2 { x: inner.x2, y: inner.y1 }, z, rotation, color);
    let i12 = vertex_at(Point2 { x: inner.x1, y: inner.y2 }, z, rotation, color);
    let i22 = vertex_at(Point2 { x: inner.x2, y: inner.y2 }, z, rotation, color);
    push_triangle(mesh, i11, i21, i22);
    push_triangle(mesh, i11, i12, i22);
    assert(mesh@ =~= old(mesh)@ + rect_fill(inner, z, rotation, color));
}

/// Appends the stroke of a circle whose rings hold `sides + 1` points each.
pub fn push_ring_stroke(
    mesh: &mut Vec<Vertex>,
    inner: &Vec<Point2>,
    outer: &Vec<Point2>,
    sides: usize,
    z: Scalar,
    color: Rgba<u8>,
)
    requires
        inner@.len() == sides + 1,
        outer@.len() == sides + 1,
    ensures
        final(mesh)@ == old(mesh)@ + ring_stroke(inner@, outer@, sides as nat, z, color),
{
    let rotation = Rotation::zero();
    let mut i: usize = 0;
    while i < sides
        invariant
            i <= sides,
            inner@.len() == sides + 1,
            outer@.len() == sides + 1,
            rotation == Rotation::spec_zero(),
            mesh@ == old(mesh)@ + ring_stroke(inner@, outer@, i as nat, z, color),
        decreases sides - i,
    {
        let ghost before = mesh@;
        let i0 = vertex_at(inner[i], z, rotation, color);
        let i1 = vertex_at(inner[i + 1], z, rotation, color);
        let o0 = vertex_at(outer[i], z, rotation, color);
        let o1 = vertex_at(outer[i + 1], z, rotation, color);
        push_triangle(mesh, i0, o0, o1);
        push_triangle(mesh, i0, o1, i1);
        proof {
            let grown = ring_stroke(inner@, outer@, (i + 1) as nat, z, color);
            let so_far = ring_stroke(inner@, outer@, i as nat, z, color);
            let side = triangle(i0, o0, o1) + triangle(i0, o1, i1);
            assert forall|k: int| 0 <= k < grown.len() implies grown[k] == (so_far + side)[k] by {
                if k >= 6 * i {
                    assert(k / 6 == i);
                    assert(k % 6 == k - 6 * i);
                }
            }
            assert(grown =~= so_far + side);
            assert(mesh@ =~= old(mesh)@ + grown);
        }
        i = i + 1;
    }
}

/// Appends the fill of a circle whose inner ring holds `sides + 1` points.
pub fn push_ring_fan(
    mesh: &mut Vec<Vertex>,
    center: Point2,
    inner: &Vec<Point2>,
    sides: usize,
    z: Scalar,
    color: Rgba<u8>,
)
    requires
        inner@.len() == sides + 1,
    ensures
        final(mesh)@ == old(mesh)@ + ring_fan(center, inner@, sides as nat, z, color),
{
    let rotation = Rotation::zero();
    let hub = vertex_at(center, z, rotation, color);
    let ghost fan = ring_fan(center, inner@, sides as nat, z, color);
    let mut i: usize = 0;
    while i < sides
        invariant
            i <= sides,
            inner@.len() == sides + 1,
            rotation == Rotation::spec_zero(),
            hub == at(center, z, rotation, color),
            fan == ring_fan(center, inner@, sides as nat, z, color),
            mesh@ == old(mesh)@ + fan.subrange(0, 3 * i),
        decreases sides - i,
    {
        let a = vertex_at(inner[i], z, rotation, color);
        let b = vertex_at(inner[i + 1], z, rotation, color);
        push_triangle(mesh, hub, a, b);
        proof {
            let grown = fan.subrange(0, 3 * (i + 1));
            let so_far = fan.subrange(0, 3 * i);
            let step = triangle(hub, a, b);
            assert forall|k: int| 0 <= k < grown.len() implies grown[k] == (so_far + step)[k] by {
                if k >= 3 * i {
                    assert(k / 3 == i);
                    assert(k % 3 == k - 3 * i);
                    assert((i + 1) % (sides + 1) == i + 1) by (nonlinear_arith)
                        requires
                            0 <= i < sides,
                    ;
                }
            }
            assert(grown =~= so_far + step);
            assert(mesh@ =~= old(mesh)@ + grown);
        }
        i = i + 1;
    }
    let last = vertex_at(inner[sides], z, rotation, color);
    let first = vertex_at(inner[0], z, rotation, color);
    push_triangle(mesh, hub, last, first);
    proof {
        let so_far = fan.subrange(0, 3 * sides);
        let step = triangle(hub, last, first);
        assert forall|k: int| 0 <= k < fan.len() implies fan[k] == (so_far + step)[k] by {
            if k >= 3 * sides {
                assert(k / 3 == sides);
                assert(k % 3 == k - 3 * sides);
                assert((sides + 1) % (sides + 1) == 0) by (nonlinear_arith)
                    requires
                        0 <= sides,
                ;
            }
        }
        assert(fan =~= so_far + step);
        assert(mesh@ =~= old(mesh)@ + fan);
    }
}

} // verus!
