//! Shapes and their triangle meshes.
//!
//! A [`Shape`] says what is to be drawn; an [`Outline`] says where its
//! corners lie once the stroke width has been taken off and the circle has
//! been cut into sides. [`Shape::triangulate`] decides from the first which
//! triangles there are, and takes their places from the second.

use vstd::prelude::*;
use crate::scalar::Scalar;
use crate::math::{Matrix4, Ortho, Point2, Vector2, Vector3};
use crate::layout::{stride, Binding, BindingType, PipelineDescription, ShaderStage, VertexFormat};
use crate::kit::{Rect, Rgba};

use crate::kit::shape2d::mesh::{
    line_mesh, push_line, push_rect_fill, push_rect_frame, push_ring_fan, push_ring_stroke,
    rect_fill, rect_frame, ring_fan, ring_stroke, Outline, OutlineModel,
};

pub mod mesh;
pub mod laws;

verus! {

/// The layer a shape is drawn on. It goes to the vertices as it is.
#[derive(Clone, Copy, Debug, PartialEq, Eq)]
pub struct ZDepth(pub Scalar);

/// One corner of a triangle, as the drawing stage reads it: a position in
/// space, the rotation that the stage applies to it, and a colour.
#[derive(Clone, Copy, Debug, PartialEq, Eq)]
pub struct Vertex {
    pub position: Vector3,
    pub angle: Scalar,
    pub center: Vector2,
    pub color: Rgba<u8>,
}

impl Vertex {
    pub open spec fn spec_new(
        x: Scalar,
        y: Scalar,
        z: Scalar,
        angle: Scalar,
        center: Point2,
        color: Rgba<u8>,
    ) -> Vertex {
        Vertex {
            position: Vector3 { x, y, z },
            angle,
            center: Vector2 { x: center.x, y: center.y },
            color,
        }
    }

    #[verifier::when_used_as_spec(spec_new)]
    pub fn new(x: Scalar, y: Scalar, z: Scalar, angle: Scalar, center: Point2, color: Rgba<u8>) -> (v:
        Vertex)
        ensures
            v == Self::spec_new(x, y, z, angle, center, color),
    {
        Vertex {
            position: Vector3 { x, y, z },
            angle,
            center: Vector2 { x: center.x, y: center.y },
            color,
        }
    }
}

/// The vertex at `(x, y, z)` that turns by `angle` about `center`.
pub fn vertex(x: Scalar, y: Scalar, z: Scalar, angle: Scalar, center: Point2, color: Rgba<u8>) -> (v:
    Vertex)
    ensures
        v == Vertex::spec_new(x, y, z, angle, center, color),
{
    Vertex::new(x, y, z, angle, center, color)
}

/// The border of a shape: how wide, and in what colour.
#[derive(Clone, Copy, Debug, PartialEq, Eq)]
pub struct Stroke {
    pub width: Scalar,
    pub color: Rgba<u8>,
}

impl Stroke {
    pub open spec fn spec_none() -> Stroke {
        Stroke { width: Scalar { bits: 0 }, color: Rgba::<u8>::spec_transparent() }
    }

    /// No border: width zero and no colour.
    #[verifier::when_used_as_spec(spec_none)]
    pub fn none() -> (s: Stroke)
        ensures
            s == Self::spec_none(),
            s.spec_is_none(),
    {
        Stroke { width: Scalar::zero(), color: Rgba::<u8>::transparent() }
    }

    /// Whether the stroke equals [`Stroke::none`]: its width is the number
    /// zero and its colour is transparent. Such a stroke draws nothing.
    pub open spec fn spec_is_none(self) -> bool {
        self.width.spec_same_number(Scalar { bits: 0 }) && self.color == Rgba::<u8>::spec_transparent()
    }

    pub fn new(width: Scalar, color: Rgba<u8>) -> (s: Stroke)
        ensures
            s.width == width,
            s.color == color,
    {
        Stroke { width, color }
    }

    #[verifier::when_used_as_spec(spec_is_none)]
    pub fn is_none(self) -> (r: bool)
        ensures
            r == self.spec_is_none(),
    {
        self.width.same_number(Scalar::zero()) && self.color.same(Rgba::<u8>::transparent())
    }
}

/// What covers the inside of a closed shape.
#[derive(Clone, Copy, Debug, PartialEq, Eq)]
pub enum Fill {
    Empty(),
    Solid(Rgba<u8>),
    Gradient(Rgba<u8>, Rgba<u8>),
}

/// A turn by `angle` radians about `center`. The vertices carry it; the
/// drawing stage applies it.
#[derive(Clone, Copy, Debug, PartialEq, Eq)]
pub struct Rotation {
    pub angle: Scalar,
    pub center: Point2,
}

impl Rotation {
    pub open spec fn spec_zero() -> Rotation {
        Rotation { angle: Scalar { bits: 0 }, center: Point2::spec_origin() }
    }

    /// No turn: angle zero about the origin.
    #[verifier::when_used_as_spec(spec_zero)]
    pub fn zero() -> (r: Rotation)
        ensures
            r == Self::spec_zero(),
    {
        Rotation { angle: Scalar::zero(), center: Point2::origin() }
    }

    pub fn new(angle: Scalar, center: Point2) -> (r: Rotation)
        ensures
            r.angle == angle,
            r.center == center,
    {
        Rotation { angle, center }
    }
}

impl Default for Rotation {
    fn default() -> (r: Rotation)
        ensures
            r == Rotation::spec_zero(),
    {
        Rotation { angle: Scalar::zero(), center: Point2::origin() }
    }
}

/// A segment between two end points.
#[derive(Clone, Copy, Debug, PartialEq, Eq)]
pub struct Line {
    pub p1: Vector2,
    pub p2: Vector2,
}

impl Line {
    pub fn new(x1: Scalar, y1: Scalar, x2: Scalar, y2: Scalar) -> (l: Line)
        ensures
            l.p1 == (Vector2 { x: x1, y: y1 }),
            l.p2 == (Vector2 { x: x2, y: y2 }),
    {
        Line { p1: Vector2::new(x1, y1), p2: Vector2::new(x2, y2) }
    }
}

/// What can be drawn.
///
/// A circle is given by its centre, its radius and the number of sides it is
/// cut into; it carries no rotation.
#[derive(Clone, Copy, Debug, PartialEq, Eq)]
pub enum Shape {
    Line(Line, ZDepth, Rotation, Stroke),
    Rectangle(Rect<Scalar>, ZDepth, Rotation, Stroke, Fill),
    Circle(Point2, ZDepth, Scalar, u32, Stroke, Fill),
}

/// Why a shape has no mesh.
#[derive(Clone, Copy, Debug, PartialEq, Eq)]
pub enum TriangulateError {
    /// A width or a radius that is below zero or no number at all, or a
    /// circle of fewer than three sides.
    InvalidGeometry,
    /// A gradient fill: there is no mesh for it yet.
    UnsupportedFill,
    /// The outline is of another kind than the shape, or a ring of a circle
    /// does not hold one point more than the circle has sides.
    OutlineMismatch,
}

/// A mesh, or the reason there is none, with the vertices as a sequence.
pub open spec fn result_view(r: Result<Vec<Vertex>, TriangulateError>) -> Result<
    Seq<Vertex>,
    TriangulateError,
> {
    match r {
        Ok(v) => Ok(v@),
        Err(e) => Err(e),
    }
}

impl Shape {
    /// The fill of the shape. A line has none.
    pub open spec fn fill(self) -> Fill {
        match self {
            Shape::Line(_, _, _, _) => Fill::Empty(),
            Shape::Rectangle(_, _, _, _, fill) => fill,
            Shape::Circle(_, _, _, _, _, fill) => fill,
        }
    }

    /// Every width and radius is a number and not below zero, and a circle
    /// has three sides at least.
    pub open spec fn spec_is_valid(self) -> bool {
        match self {
            Shape::Line(_, _, _, stroke) => stroke.width.spec_is_zero_or_more(),
            Shape::Rectangle(_, _, _, stroke, _) => stroke.width.spec_is_zero_or_more(),
            Shape::Circle(_, _, radius, sides, stroke, _) => {
                &&& sides >= 3
                &&& radius.spec_is_zero_or_more()
                &&& stroke.width.spec_is_zero_or_more()
            },
        }
    }

    /// Whether `outline` is of the shape's kind and, for a circle, holds the
    /// ring points that the mesh reads: one more than there are sides, on
    /// the inner ring always and on the outer ring where there is a stroke.
    pub open spec fn fits(self, outline: OutlineModel) -> bool {
        match (self, outline) {
            (Shape::Line(_, _, _, _), OutlineModel::Line(_)) => true,
            (Shape::Rectangle(_, _, _, _, _), OutlineModel::Rectangle(_)) => true,
            (Shape::Circle(_, _, _, sides, stroke, _), OutlineModel::Circle { inner, outer }) => {
                &&& inner.len() == sides + 1
                &&& (stroke.spec_is_none() || outer.len() == sides + 1)
            },
            _ => false,
        }
    }

    /// The triangles of the border, over an outline that fits. A line is
    /// border throughout; a rectangle or a circle has one unless its stroke
    /// is none.
    pub open spec fn stroke_mesh(self, outline: OutlineModel) -> Seq<Vertex> {
        match (self, outline) {
            (Shape::Line(_, depth, rotation, stroke), OutlineModel::Line(corners)) => line_mesh(
                corners,
                depth.0,
                rotation,
                stroke.color,
            ),
            (
                Shape::Rectangle(outer, depth, rotation, stroke, _),
                OutlineModel::Rectangle(inner),
            ) => if stroke.spec_is_none() {
                Seq::empty()
            } else {
                rect_frame(outer, inner, depth.0, rotation, stroke.color)
            },
            (
                Shape::Circle(_, depth, _, sides, stroke, _),
                OutlineModel::Circle { inner, outer },
            ) => if stroke.spec_is_none() {
                Seq::empty()
            } else {
                ring_stroke(inner, outer, sides as nat, depth.0, stroke.color)
            },
            _ => Seq::empty(),
        }
    }

    /// The triangles of a solid fill, over an outline that fits. The fill
    /// covers what the border leaves free, never the border.
    pub open spec fn fill_mesh(self, outline: OutlineModel) -> Seq<Vertex> {
        match (self, outline) {
            (
                Shape::Rectangle(_, depth, rotation, _, Fill::Solid(color)),
                OutlineModel::Rectangle(inner),
            ) => rect_fill(inner, depth.0, rotation, color),
            (
                Shape::Circle(center, depth, _, sides, _, Fill::Solid(color)),
                OutlineModel::Circle { inner, outer },
            ) => ring_fan(center, inner, sides as nat, depth.0, color),
            _ => Seq::empty(),
        }
    }

    /// The mesh of the shape over `outline`, or why it has none: the border
    /// first, then the fill.
    pub open spec fn mesh(self, outline: OutlineModel) -> Result<Seq<Vertex>, TriangulateError> {
        if !self.spec_is_valid() {
            Err(TriangulateError::InvalidGeometry)
        } else if self.fill() is Gradient {
            Err(TriangulateError::UnsupportedFill)
        } else if !self.fits(outline) {
            Err(TriangulateError::OutlineMismatch)
        } else {
            Ok(self.stroke_mesh(outline) + self.fill_mesh(outline))
        }
    }

    /// Whether the shape can be drawn at all: see [`Shape::spec_is_valid`].
    #[verifier::when_used_as_spec(spec_is_valid)]
    pub fn is_valid(self) -> (r: bool)
        ensures
            r == self.spec_is_valid(),
    {
        match self {
            Shape::Line(_, _, _, stroke) => stroke.width.is_zero_or_more(),
            Shape::Rectangle(_, _, _, stroke, _) => stroke.width.is_zero_or_more(),
            Shape::Circle(_, _, radius, sides, stroke, _) => {
                sides >= 3 && radius.is_zero_or_more() && stroke.width.is_zero_or_more()
            },
        }
    }

    /// Turns the shape into triangles whose corners lie where `outline` says.
    ///
    /// The result is the triangle list [`Shape::mesh`], whole, or an error
    /// and no vertex at all.
    pub fn triangulate(&self, outline: &Outline) -> (r: Result<Vec<Vertex>, TriangulateError>)
        ensures
            result_view(r) == self.mesh(outline@),
    {
        if !self.is_valid() {
            return Err(TriangulateError::InvalidGeometry);
        }
        let mut verts: Vec<Vertex> = Vec::new();
        match *self {
            Shape::Line(_, depth, rotation, stroke) => {
                match outline {
                    Outline::Line(corners) => {
                        push_line(&mut verts, *corners, depth.0, rotation, stroke.color);
                    },
                    _ => {
                        return Err(TriangulateError::OutlineMismatch);
                    },
                }
            },
            Shape::Rectangle(outer, depth, rotation, stroke, fill) => {
                if let Fill::Gradient(_, _) = fill {
                    return Err(TriangulateError::UnsupportedFill);
                }
                match outline {
                    Outline::Rectangle(inner) => {
                        if !stroke.is_none() {
                            push_rect_frame(&mut verts, outer, *inner, depth.0, rotation, stroke.color);
                        }
                        if let Fill::Solid(color) = fill {
                            push_rect_fill(&mut verts, *inner, depth.0, rotation, color);
                        }
                    },
                    _ => {
                        return Err(TriangulateError::OutlineMismatch);
                    },
                }
            },
            Shape::Circle(center, depth, _, sides, stroke, fill) => {
                if let Fill::Gradient(_, _) = fill {
                    return Err(TriangulateError::UnsupportedFill);
                }
                match outline {
                    Outline::Circle { inner, outer } => {
                        let n: usize = sides as usize;
                        if inner.len() == 0 || inner.len() - 1 != n {
                            return Err(TriangulateError::OutlineMismatch);
                        }
                        if !stroke.is_none() {
                            if outer.len() == 0 || outer.len() - 1 != n {
                                return Err(TriangulateError::OutlineMismatch);
                            }
                            push_ring_stroke(&mut verts, inner, outer, n, depth.0, stroke.color);
                        }
                        if let Fill::Solid(color) = fill {
                            push_ring_fan(&mut verts, center, inner, n, depth.0, color);
                        }
                    },
                    _ => {
                        return Err(TriangulateError::OutlineMismatch);
                    },
                }
            },
        }
        assert(verts@ =~= self.stroke_mesh(outline@) + self.fill_mesh(outline@));
        Ok(verts)
    }
}

/// The meshes of the first `n` shapes, one after the other, each over the
/// outline at its own index; or the error of the first shape among them that
/// has no mesh.
pub open spec fn batch_mesh_prefix(shapes: Seq<Shape>, outlines: Seq<Outline>, n: nat) -> Result<
    Seq<Vertex>,
    TriangulateError,
>
    decreases n,
{
    if n == 0 {
        Ok(Seq::empty())
    } else {
        match batch_mesh_prefix(shapes, outlines, (n - 1) as nat) {
            Err(e) => Err(e),
            Ok(head) => match shapes[n - 1].mesh(outlines[n - 1]@) {
                Err(e) => Err(e),
                Ok(tail) => Ok(head + tail),
            },
        }
    }
}

/// The mesh of a whole batch: the meshes of its shapes in the order they
/// were added. Where the outlines are not one to a shape, or any shape has no
/// mesh, the batch has none.
pub open spec fn batch_mesh(shapes: Seq<Shape>, outlines: Seq<Outline>) -> Result<
    Seq<Vertex>,
    TriangulateError,
> {
    if shapes.len() != outlines.len() {
        Err(TriangulateError::OutlineMismatch)
    } else {
        batch_mesh_prefix(shapes, outlines, shapes.len())
    }
}

/// Once a prefix of a batch has no mesh, no longer prefix has one, and the
/// error stays the same.
pub proof fn batch_error_persists(shapes: Seq<Shape>, outlines: Seq<Outline>, m: nat, n: nat)
    requires
        m <= n,
        batch_mesh_prefix(shapes, outlines, m) is Err,
    ensures
        batch_mesh_prefix(shapes, outlines, n) == batch_mesh_prefix(shapes, outlines, m),
    decreases n,
{
    if m < n {
        batch_error_persists(shapes, outlines, m, (n - 1) as nat);
    }
}

/// Shapes in the order in which they are to be drawn, gathered so that one
/// vertex sequence serves them all.
#[derive(Debug)]
pub struct Batch {
    items: Vec<Shape>,
}

impl View for Batch {
    type V = Seq<Shape>;

    closed spec fn view(&self) -> Seq<Shape> {
        self.items@
    }
}

impl Batch {
    /// A batch without shapes.
    pub fn new() -> (batch: Batch)
        ensures
            batch@ == Seq::<Shape>::empty(),
    {
        Batch { items: Vec::new() }
    }

    /// The batch that holds `shape` alone.
    pub fn singleton(shape: Shape) -> (batch: Batch)
        ensures
            batch@ == seq![shape],
    {
        let mut sv = Batch::new();
        sv.add(shape);
        assert(sv@ =~= seq![shape]);
        sv
    }

    /// Puts `shape` behind the shapes that are there.
    pub fn add(&mut self, shape: Shape)
        ensures
            final(self)@ == old(self)@.push(shape),
    {
        self.items.push(shape);
    }

    /// The number of shapes.
    pub fn len(&self) -> (n: usize)
        ensures
            n == self@.len(),
    {
        self.items.len()
    }

    /// The shape at `index`, counted from the first one added, if there is
    /// one.
    pub fn get(&self, index: usize) -> (shape: Option<Shape>)
        ensures
            shape == if index < self@.len() {
                Some(self@[index as int])
            } else {
                None
            },
    {
        if index < self.items.len() {
            Some(self.items[index])
        } else {
            None
        }
    }

    /// The vertices of all shapes, in the order the shapes were added, each
    /// shape over the outline at its own index. The batch stays as it is.
    ///
    /// Either every shape has its mesh and the result is all of them, or
    /// the result is an error and holds no vertex.
    pub fn vertices(&self, outlines: &Vec<Outline>) -> (r: Result<Vec<Vertex>, TriangulateError>)
        ensures
            result_view(r) == batch_mesh(self@, outlines@),
    {
        let n = self.items.len();
        if n != outlines.len() {
            return Err(TriangulateError::OutlineMismatch);
        }
        let mut buf: Vec<Vertex> = Vec::new();
        let mut i: usize = 0;
        while i < n
            invariant
                i <= n,
                n == self.items@.len(),
                n == outlines@.len(),
                batch_mesh_prefix(self.items@, outlines@, i as nat) == Ok::<
                    Seq<Vertex>,
                    TriangulateError,
                >(buf@),
            decreases n - i,
        {
            match self.items[i].triangulate(&outlines[i]) {
                Ok(mut verts) => {
                    buf.append(&mut verts);
                },
                Err(e) => {
                    proof {
                        batch_error_persists(self.items@, outlines@, (i + 1) as nat, n as nat);
                    }
                    return Err(e);
                },
            }
            i = i + 1;
        }
        Ok(buf)
    }

    /// Whether the batch holds no shape.
    pub fn is_empty(&self) -> (r: bool)
        ensures
            r == (self@.len() == 0),
    {
        self.items.is_empty()
    }

    /// Takes every shape out.
    pub fn clear(&mut self)
        ensures
            final(self)@ == Seq::<Shape>::empty(),
    {
        self.items.clear();
    }

    /// The vertex sequence that is to be uploaded for this batch: that of
    /// [`Batch::vertices`]. On an error there is nothing to upload.
    pub fn buffer(&self, outlines: &Vec<Outline>) -> (r: Result<Vec<Vertex>, TriangulateError>)
        ensures
            result_view(r) == batch_mesh(self@, outlines@),
    {
        self.vertices(outlines)
    }

    /// Ends the batch and gives the vertex sequence that is to be uploaded
    /// for it. The batch is used up: it cannot be finished twice.
    pub fn finish(self, outlines: &Vec<Outline>) -> (r: Result<Vec<Vertex>, TriangulateError>)
        ensures
            result_view(r) == batch_mesh(self@, outlines@),
    {
        self.buffer(outlines)
    }
}

/// What the drawing stage reads once a frame: the projection and the model
/// transform.
#[derive(Clone, Copy, Debug, PartialEq, Eq)]
pub struct Uniforms {
    pub ortho: Matrix4,
    pub transform: Matrix4,
}

/// The shape pipeline: the layouts it declares, and the projection bounds of
/// the viewport it draws to. Its model transform is always the identity.
#[derive(Clone, Copy, Debug, PartialEq, Eq)]
pub struct Pipeline {
    pub ortho: Ortho,
}

impl Pipeline {
    /// The attributes of a [`Vertex`] in the order of its fields: position,
    /// rotation angle, centre of rotation, colour.
    pub open spec fn spec_vertex_layout() -> Seq<VertexFormat> {
        seq![
            VertexFormat::Float3,
            VertexFormat::Float,
            VertexFormat::Float2,
            VertexFormat::UByte4,
        ]
    }

    /// The one binding of each set of the pipeline: a uniform buffer that
    /// the vertex stage reads.
    pub open spec fn spec_binding() -> Binding {
        Binding { binding: BindingType::UniformBuffer, stage: ShaderStage::Vertex }
    }

    /// What the pipeline declares: the vertex layout, twenty-eight bytes a
    /// vertex, and two binding sets of one uniform buffer each, the first
    /// for the projection and the second for the model.
    pub fn description() -> (d: PipelineDescription)
        ensures
            d.vertex_layout@ == Self::spec_vertex_layout(),
            stride(d.vertex_layout@) == 28,
            d.pipeline_layout@.len() == 2,
            d.pipeline_layout@[0]@ == seq![Self::spec_binding()],
            d.pipeline_layout@[1]@ == seq![Self::spec_binding()],
    {
        let mut vertex_layout: Vec<VertexFormat> = Vec::new();
        vertex_layout.push(VertexFormat::Float3);
        vertex_layout.push(VertexFormat::Float);
        vertex_layout.push(VertexFormat::Float2);
        vertex_layout.push(VertexFormat::UByte4);
        let binding = Binding { binding: BindingType::UniformBuffer, stage: ShaderStage::Vertex };
        let mut projection_set: Vec<Binding> = Vec::new();
        projection_set.push(binding);
        let mut model_set: Vec<Binding> = Vec::new();
        model_set.push(binding);
        let mut pipeline_layout: Vec<Vec<Binding>> = Vec::new();
        pipeline_layout.push(projection_set);
        pipeline_layout.push(model_set);
        proof {
            assert(vertex_layout@ =~= Self::spec_vertex_layout());
            assert(pipeline_layout@[0]@ =~= seq![Self::spec_binding()]);
            assert(pipeline_layout@[1]@ =~= seq![Self::spec_binding()]);
            vertex_stride();
        }
        PipelineDescription { vertex_layout, pipeline_layout }
    }

    /// The pipeline for a viewport of `width` by `height`.
    pub fn setup(width: u32, height: u32) -> (p: Pipeline)
        ensures
            p.ortho == Ortho::spec_viewport(width, height),
    {
        Pipeline { ortho: Ortho::viewport(width, height) }
    }

    /// Takes the projection bounds anew from a viewport of `width` by
    /// `height`.
    pub fn resize(&mut self, width: u32, height: u32)
        ensures
            final(self).ortho == Ortho::spec_viewport(width, height),
    {
        self.ortho = Ortho::viewport(width, height);
    }

    /// The uniforms of a frame whose projection is `ortho`: that projection,
    /// and the identity for the model.
    pub fn prepare(&self, ortho: Matrix4) -> (u: Uniforms)
        ensures
            u.ortho == ortho,
            u.transform == Matrix4::spec_identity(),
    {
        Uniforms { ortho, transform: Matrix4::identity() }
    }
}

/// A vertex of the shape pipeline takes twenty-eight bytes.
pub proof fn vertex_stride()
    ensures
        stride(Pipeline::spec_vertex_layout()) == 28,
{
    let l = Pipeline::spec_vertex_layout();
    reveal_with_fuel(stride, 5);
    assert(l.drop_last() =~= seq![VertexFormat::Float3, VertexFormat::Float, VertexFormat::Float2]);
    assert(l.drop_last().drop_last() =~= seq![VertexFormat::Float3, VertexFormat::Float]);
    assert(l.drop_last().drop_last().drop_last() =~= seq![VertexFormat::Float3]);
    assert(l.drop_last().drop_last().drop_last().drop_last() =~= Seq::<VertexFormat>::empty());
}

} // verus!
