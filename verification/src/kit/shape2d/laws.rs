//! What holds of every mesh and of every batch.

use vstd::prelude::*;
use crate::scalar::Scalar;
use crate::math::Point2;
use crate::kit::{Rect, Rgba};
use crate::kit::shape2d::{
    batch_mesh, batch_mesh_prefix, result_view, Fill, Line, Rotation, Shape, Stroke,
    TriangulateError, Vertex, ZDepth,
};
use crate::kit::shape2d::mesh::{at, rect_fill, ring_fan, Corners, Outline, OutlineModel};

verus! {

/// Whether `v` lies over a corner of `r`, at depth `z`.
pub open spec fn on_corner(v: Vertex, r: Rect<Scalar>, z: Scalar) -> bool {
    &&& v.position.x == r.x1 || v.position.x == r.x2
    &&& v.position.y == r.y1 || v.position.y == r.y2
    &&& v.position.z == z
}

/// The depth a shape is drawn at.
pub open spec fn depth_of(shape: Shape) -> Scalar {
    match shape {
        Shape::Line(_, depth, _, _) => depth.0,
        Shape::Rectangle(_, depth, _, _, _) => depth.0,
        Shape::Circle(_, depth, _, _, _, _) => depth.0,
    }
}

/// The rotation that the vertices of a shape carry: that of a line or a
/// rectangle, and none for a circle.
pub open spec fn rotation_of(shape: Shape) -> Rotation {
    match shape {
        Shape::Line(_, _, rotation, _) => rotation,
        Shape::Rectangle(_, _, rotation, _, _) => rotation,
        Shape::Circle(_, _, _, _, _, _) => Rotation::spec_zero(),
    }
}

/// The number of vertices in the border of a shape: six for a line, six a
/// side for a rectangle or a circle with a stroke.
pub open spec fn stroke_count(shape: Shape) -> nat {
    match shape {
        Shape::Line(_, _, _, _) => 6,
        Shape::Rectangle(_, _, _, stroke, _) => if stroke.spec_is_none() {
            0
        } else {
            24
        },
        Shape::Circle(_, _, _, sides, stroke, _) => if stroke.spec_is_none() {
            0
        } else {
            6 * sides as nat
        },
    }
}

/// The number of vertices in the fill of a shape: none unless the fill is
/// solid, then six for a rectangle and three for each ring point of a circle.
pub open spec fn fill_count(shape: Shape) -> nat {
    match shape {
        Shape::Rectangle(_, _, _, _, Fill::Solid(_)) => 6,
        Shape::Circle(_, _, _, sides, _, Fill::Solid(_)) => 3 * (sides as nat + 1),
        _ => 0,
    }
}

/// The colour of the border of a shape.
pub open spec fn stroke_color(shape: Shape) -> Rgba<u8> {
    match shape {
        Shape::Line(_, _, _, stroke) => stroke.color,
        Shape::Rectangle(_, _, _, stroke, _) => stroke.color,
        Shape::Circle(_, _, _, _, stroke, _) => stroke.color,
    }
}

/// Whatever the outline, a mesh is a list of whole triangles with the border
/// first and the fill behind it, of as many vertices as the shape alone
/// decides. Every vertex lies at the depth of the shape and carries its
/// rotation; those of the border have the colour of the stroke and those of
/// the fill the colour of the fill.
pub proof fn mesh_profile(shape: Shape, outline: OutlineModel)
    requires
        shape.mesh(outline) is Ok,
    ensures
        ({
            let mesh = shape.mesh(outline)->Ok_0;
            &&& mesh.len() == stroke_count(shape) + fill_count(shape)
            &&& mesh.len() % 3 == 0
            &&& forall|k: int|
                0 <= k < mesh.len() ==> {
                    &&& (#[trigger] mesh[k]).position.z == depth_of(shape)
                    &&& mesh[k].angle == rotation_of(shape).angle
                    &&& mesh[k].center.x == rotation_of(shape).center.x
                    &&& mesh[k].center.y == rotation_of(shape).center.y
                }
            &&& forall|k: int|
                0 <= k < stroke_count(shape) ==> (#[trigger] mesh[k]).color == stroke_color(shape)
            &&& forall|k: int|
                stroke_count(shape) <= k < mesh.len() ==> shape.fill() == Fill::Solid(
                    (#[trigger] mesh[k]).color,
                )
        }),
{
    let mesh = shape.mesh(outline)->Ok_0;
    assert(shape.stroke_mesh(outline).len() == stroke_count(shape));
    assert(shape.fill_mesh(outline).len() == fill_count(shape));
}

/// A line always has a mesh of six vertices: two triangles over the four
/// corners of its quad, all in the colour of the stroke and stamped with the
/// line's rotation and depth.
pub proof fn line_is_two_triangles(
    line: Line,
    depth: ZDepth,
    rotation: Rotation,
    stroke: Stroke,
    corners: Corners,
)
    requires
        stroke.width.spec_is_zero_or_more(),
    ensures
        Shape::Line(line, depth, rotation, stroke).mesh(OutlineModel::Line(corners)) is Ok,
        ({
            let mesh = Shape::Line(line, depth, rotation, stroke).mesh(
                OutlineModel::Line(corners),
            )->Ok_0;
            &&& mesh.len() == 6
            &&& mesh[0] == at(corners.p1_left, depth.0, rotation, stroke.color)
            &&& mesh[1] == at(corners.p1_right, depth.0, rotation, stroke.color)
            &&& mesh[2] == at(corners.p2_left, depth.0, rotation, stroke.color)
            &&& mesh[3] == mesh[2]
            &&& mesh[4] == mesh[1]
            &&& mesh[5] == at(corners.p2_right, depth.0, rotation, stroke.color)
        }),
{
}

/// A rectangle without a stroke and with a solid fill has a mesh of exactly
/// six vertices. Each lies over a corner of the inner box, at the depth of
/// the rectangle, in the colour of the fill and with the rectangle's
/// rotation.
pub proof fn solid_rectangle_without_stroke(
    rect: Rect<Scalar>,
    depth: ZDepth,
    rotation: Rotation,
    stroke: Stroke,
    color: Rgba<u8>,
    inner: Rect<Scalar>,
)
    requires
        stroke.spec_is_none(),
    ensures
        Shape::Rectangle(rect, depth, rotation, stroke, Fill::Solid(color)).mesh(
            OutlineModel::Rectangle(inner),
        ) == Ok::<Seq<Vertex>, TriangulateError>(rect_fill(inner, depth.0, rotation, color)),
        rect_fill(inner, depth.0, rotation, color).len() == 6,
        forall|k: int|
            0 <= k < 6 ==> {
                let v = #[trigger] rect_fill(inner, depth.0, rotation, color)[k];
                &&& on_corner(v, inner, depth.0)
                &&& v.color == color
                &&& v.angle == rotation.angle
                &&& v.center.x == rotation.center.x
                &&& v.center.y == rotation.center.y
            },
{
    let shape = Shape::Rectangle(rect, depth, rotation, stroke, Fill::Solid(color));
    let outline = OutlineModel::Rectangle(inner);
    assert(shape.stroke_mesh(outline) + shape.fill_mesh(outline) =~= rect_fill(
        inner,
        depth.0,
        rotation,
        color,
    ));
}

/// A rectangle whose stroke is wider than zero has a frame of twenty-four
/// vertices, four sides of six. An empty fill adds nothing to them, a solid
/// fill six more, and with a gradient fill there is no mesh.
pub proof fn stroked_rectangle_counts(
    rect: Rect<Scalar>,
    depth: ZDepth,
    rotation: Rotation,
    stroke: Stroke,
    fill: Fill,
    inner: Rect<Scalar>,
)
    requires
        stroke.width.spec_is_positive(),
    ensures
        ({
            let shape = Shape::Rectangle(rect, depth, rotation, stroke, fill);
            let outline = OutlineModel::Rectangle(inner);
            &&& shape.stroke_mesh(outline).len() == 24
            &&& fill is Empty ==> shape.mesh(outline) is Ok && shape.mesh(outline)->Ok_0.len() == 24
            &&& fill is Solid ==> shape.mesh(outline) is Ok && shape.mesh(outline)->Ok_0.len() == 30
            &&& fill is Gradient ==> shape.mesh(outline) == Err::<Seq<Vertex>, TriangulateError>(
                TriangulateError::UnsupportedFill,
            )
        }),
{
}

/// A circle of `sides` sides without a stroke and with a solid fill has a
/// mesh of `sides + 1` triangles in the colour of the fill. Triangle `i`,
/// for `i` below `sides`, joins the centre to the ring points `i` and
/// `i + 1`; the last joins the centre to the last ring point and the first.
/// No vertex carries a rotation.
pub proof fn solid_circle_without_stroke(
    center: Point2,
    depth: ZDepth,
    radius: Scalar,
    sides: u32,
    stroke: Stroke,
    color: Rgba<u8>,
    inner: Seq<Point2>,
    outer: Seq<Point2>,
)
    requires
        sides >= 3,
        radius.spec_is_zero_or_more(),
        stroke.spec_is_none(),
        inner.len() == sides + 1,
    ensures
        ({
            let shape = Shape::Circle(center, depth, radius, sides, stroke, Fill::Solid(color));
            let fan = ring_fan(center, inner, sides as nat, depth.0, color);
            let zero = Rotation::spec_zero();
            &&& shape.mesh(OutlineModel::Circle { inner, outer }) == Ok::<
                Seq<Vertex>,
                TriangulateError,
            >(fan)
            &&& fan.len() == 3 * (sides + 1)
            &&& forall|i: int|
                0 <= i < sides ==> {
                    &&& #[trigger] fan[3 * i] == at(center, depth.0, zero, color)
                    &&& fan[3 * i + 1] == at(inner[i], depth.0, zero, color)
                    &&& fan[3 * i + 2] == at(inner[i + 1], depth.0, zero, color)
                }
            &&& fan[3 * sides] == at(center, depth.0, zero, color)
            &&& fan[3 * sides + 1] == at(inner[sides as int], depth.0, zero, color)
            &&& fan[3 * sides + 2] == at(inner[0], depth.0, zero, color)
        }),
{
    let shape = Shape::Circle(center, depth, radius, sides, stroke, Fill::Solid(color));
    let outline = OutlineModel::Circle { inner, outer };
    let fan = ring_fan(center, inner, sides as nat, depth.0, color);
    assert(shape.stroke_mesh(outline) + shape.fill_mesh(outline) =~= fan);
    let zero = Rotation::spec_zero();
    assert forall|i: int| 0 <= i < sides implies {
        &&& #[trigger] fan[3 * i] == at(center, depth.0, zero, color)
        &&& fan[3 * i + 1] == at(inner[i], depth.0, zero, color)
        &&& fan[3 * i + 2] == at(inner[i + 1], depth.0, zero, color)
    } by {
        assert((i + 1) % (sides as int + 1) == i + 1) by (nonlinear_arith)
            requires
                0 <= i < sides,
        ;
        assert((3 * i + 1) / 3 == i && (3 * i + 2) / 3 == i);
    }
    assert((sides as int + 1) % (sides as int + 1) == 0) by (nonlinear_arith)
        requires
            sides >= 3,
    ;
    assert((3 * sides + 1) / 3 == sides as int && (3 * sides + 2) / 3 == sides as int);
}

/// A mesh is a function of the shape and of what the outline holds: two
/// runs over the same shape and outlines with the same content give the same
/// result, vertex for vertex or error for error.
pub proof fn triangulation_is_repeatable(
    shape: Shape,
    first_outline: Outline,
    second_outline: Outline,
    first: Result<Vec<Vertex>, TriangulateError>,
    second: Result<Vec<Vertex>, TriangulateError>,
)
    requires
        first_outline@ == second_outline@,
        result_view(first) == shape.mesh(first_outline@),
        result_view(second) == shape.mesh(second_outline@),
    ensures
        result_view(first) == result_view(second),
        first is Ok ==> second is Ok && first->Ok_0@ == second->Ok_0@,
        first is Err ==> second is Err && first->Err_0 == second->Err_0,
{
}

/// The mesh of a batch is a function of its shapes and of what the outlines
/// hold.
pub proof fn batch_mesh_is_repeatable(shapes: Seq<Shape>, first: Seq<Outline>, second: Seq<Outline>)
    requires
        first.len() == second.len(),
        forall|i: int| 0 <= i < first.len() ==> (#[trigger] first[i])@ == second[i]@,
    ensures
        batch_mesh(shapes, first) == batch_mesh(shapes, second),
{
    if shapes.len() == first.len() {
        batch_prefix_is_repeatable(shapes, first, second, shapes.len());
    }
}

/// The same of every prefix of a batch.
pub proof fn batch_prefix_is_repeatable(
    shapes: Seq<Shape>,
    first: Seq<Outline>,
    second: Seq<Outline>,
    n: nat,
)
    requires
        n <= first.len(),
        first.len() == second.len(),
        forall|i: int| 0 <= i < first.len() ==> (#[trigger] first[i])@ == second[i]@,
    ensures
        batch_mesh_prefix(shapes, first, n) == batch_mesh_prefix(shapes, second, n),
    decreases n,
{
    if n > 0 {
        batch_prefix_is_repeatable(shapes, first, second, (n - 1) as nat);
        assert(first[n - 1]@ == second[n - 1]@);
    }
}

/// A new batch is empty, a batch to which a shape was added is not, and a
/// cleared batch is empty again: said of the sequences that `new`, `add`,
/// `clear` and `is_empty` are stated over.
pub proof fn batch_emptiness(before: Seq<Shape>, shape: Shape)
    ensures
        Seq::<Shape>::empty().len() == 0,
        before.push(shape).len() != 0,
        Seq::<Shape>::empty().push(shape).len() == 1,
{
}

/// A batch has a mesh exactly when there is one outline to a shape and
/// every shape has a mesh over its own.
pub proof fn batch_succeeds_iff_all_do(shapes: Seq<Shape>, outlines: Seq<Outline>)
    ensures
        batch_mesh(shapes, outlines) is Ok <==> {
            &&& shapes.len() == outlines.len()
            &&& forall|i: int|
                0 <= i < shapes.len() ==> (#[trigger] shapes[i]).mesh(outlines[i]@) is Ok
        },
{
    if shapes.len() == outlines.len() {
        batch_prefix_succeeds_iff_all_do(shapes, outlines, shapes.len());
    }
}

/// The same of every prefix of a batch.
pub proof fn batch_prefix_succeeds_iff_all_do(shapes: Seq<Shape>, outlines: Seq<Outline>, n: nat)
    requires
        n <= shapes.len(),
        n <= outlines.len(),
    ensures
        batch_mesh_prefix(shapes, outlines, n) is Ok <==> forall|i: int|
            0 <= i < n ==> (#[trigger] shapes[i]).mesh(outlines[i]@) is Ok,
    decreases n,
{
    if n > 0 {
        batch_prefix_succeeds_iff_all_do(shapes, outlines, (n - 1) as nat);
        if batch_mesh_prefix(shapes, outlines, n) is Ok {
            assert forall|i: int| 0 <= i < n implies (#[trigger] shapes[i]).mesh(
                outlines[i]@,
            ) is Ok by {
                if i == n - 1 {
                } else {
                }
            }
        } else {
            if batch_mesh_prefix(shapes, outlines, (n - 1) as nat) is Ok {
                assert(shapes[n - 1].mesh(outlines[n - 1]@) is Err);
            }
        }
    }
}

/// A batch of one rectangle with a gradient fill has no mesh, whatever the
/// outlines: no vertex sequence comes of it, not even a part of one. Where
/// the stroke width is zero or more and there is one outline, the reason is
/// the fill.
pub proof fn gradient_rectangle_fails(
    rect: Rect<Scalar>,
    depth: ZDepth,
    rotation: Rotation,
    stroke: Stroke,
    from: Rgba<u8>,
    to: Rgba<u8>,
    outlines: Seq<Outline>,
)
    ensures
        batch_mesh(
            seq![Shape::Rectangle(rect, depth, rotation, stroke, Fill::Gradient(from, to))],
            outlines,
        ) is Err,
        stroke.width.spec_is_zero_or_more() && outlines.len() == 1 ==> batch_mesh(
            seq![Shape::Rectangle(rect, depth, rotation, stroke, Fill::Gradient(from, to))],
            outlines,
        ) == Err::<Seq<Vertex>, TriangulateError>(TriangulateError::UnsupportedFill),
{
    let shape = Shape::Rectangle(rect, depth, rotation, stroke, Fill::Gradient(from, to));
    let shapes = seq![shape];
    reveal_with_fuel(batch_mesh_prefix, 2);
    assert(shapes[0] == shape);
    if outlines.len() == 1 {
        assert(shape.mesh(outlines[0]@) is Err);
    }
}

/// One shape without a mesh leaves the whole batch without one.
pub proof fn one_failure_fails_the_batch(shapes: Seq<Shape>, outlines: Seq<Outline>, i: int)
    requires
        0 <= i < shapes.len(),
        shapes.len() == outlines.len(),
        shapes[i].mesh(outlines[i]@) is Err,
    ensures
        batch_mesh(shapes, outlines) is Err,
{
    batch_succeeds_iff_all_do(shapes, outlines);
}

} // verus!
