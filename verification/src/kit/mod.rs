//! Building blocks shared by the drawing kits: boxes, colours and the
//! orthographic bounds of a viewport.

use vstd::prelude::*;
use crate::scalar::Scalar;
use crate::math::{Matrix4, Ortho, Vector2};
use crate::layout::{BindingType, ShaderStage, Slot, VertexFormat};

pub mod shape2d;

verus! {

/// An axis-aligned box from `(x1, y1)` to `(x2, y2)`.
///
/// Callers are expected to keep `x1 < x2` and `y1 < y2`; nothing here
/// depends on it.
#[derive(Clone, Copy, Debug, PartialEq, Eq)]
pub struct Rect<T> {
    pub x1: T,
    pub y1: T,
    pub x2: T,
    pub y2: T,
}

impl<T> Rect<T> {
    pub fn new(x1: T, y1: T, x2: T, y2: T) -> (r: Rect<T>)
        ensures
            r.x1 == x1,
            r.y1 == y1,
            r.x2 == x2,
            r.y2 == y2,
    {
        Rect { x1, y1, x2, y2 }
    }
}

/// A colour of four channels.
#[derive(Clone, Copy, Debug, PartialEq, Eq)]
pub struct Rgba<T> {
    pub r: T,
    pub g: T,
    pub b: T,
    pub a: T,
}

/// A colour of four bytes, as a vertex carries it.
pub type Rgba8 = Rgba<u8>;

impl<T> Rgba<T> {
    pub fn new(r: T, g: T, b: T, a: T) -> (c: Rgba<T>)
        ensures
            c.r == r,
            c.g == g,
            c.b == b,
            c.a == a,
    {
        Rgba { r, g, b, a }
    }
}

impl Rgba<u8> {
    /// No colour at all: every channel zero.
    pub open spec fn spec_transparent() -> Rgba<u8> {
        Rgba { r: 0, g: 0, b: 0, a: 0 }
    }

    /// Full white, opaque.
    pub open spec fn spec_white() -> Rgba<u8> {
        Rgba { r: 255, g: 255, b: 255, a: 255 }
    }

    #[verifier::when_used_as_spec(spec_transparent)]
    pub fn transparent() -> (c: Rgba<u8>)
        ensures
            c == Self::spec_transparent(),
    {
        Rgba { r: 0, g: 0, b: 0, a: 0 }
    }

    #[verifier::when_used_as_spec(spec_white)]
    pub fn white() -> (c: Rgba<u8>)
        ensures
            c == Self::spec_white(),
    {
        Rgba { r: 255, g: 255, b: 255, a: 255 }
    }

    /// The colour as one word: red in the top byte, then green, blue, alpha.
    pub open spec fn packed(self) -> int {
        self.r as int * 0x100_0000 + self.g as int * 0x1_0000 + self.b as int * 0x100
            + self.a as int
    }

    /// Whether the two colours agree in every channel.
    pub fn same(self, other: Rgba<u8>) -> (r: bool)
        ensures
            r == (self == other),
    {
        self.r == other.r && self.g == other.g && self.b == other.b && self.a == other.a
    }
}

impl From<Rgba<u8>> for u32 {
    fn from(item: Rgba<u8>) -> (word: u32)
        ensures
            word as int == item.packed(),
    {
        let r: u32 = item.r as u32;
        let g: u32 = item.g as u32;
        let b: u32 = item.b as u32;
        let a: u32 = item.a as u32;
        assert((r << 24) | (g << 16) | (b << 8) | (a << 0) == r * 0x100_0000 + g * 0x1_0000 + b
            * 0x100 + a) by (bit_vector)
            requires
                r < 256,
                g < 256,
                b < 256,
                a < 256,
        ;
        (r << 24) | (g << 16) | (b << 8) | (a << 0)
    }
}

impl vstd::std_specs::convert::FromSpecImpl<Rgba<u8>> for u32 {
    open spec fn obeys_from_spec() -> bool {
        true
    }

    open spec fn from_spec(item: Rgba<u8>) -> u32 {
        item.packed() as u32
    }
}

/// One corner of a textured triangle: a position, a place on the texture
/// and a colour.
#[derive(Clone, Copy, Debug, PartialEq, Eq)]
pub struct Vertex {
    pub position: Vector2,
    pub uv: Vector2,
    pub color: Rgba<u8>,
}

impl Vertex {
    pub fn new(x: Scalar, y: Scalar, u: Scalar, v: Scalar, c: Rgba<u8>) -> (vertex: Vertex)
        ensures
            vertex.position == (Vector2 { x, y }),
            vertex.uv == (Vector2 { x: u, y: v }),
            vertex.color == c,
    {
        Vertex { position: Vector2::new(x, y), uv: Vector2::new(u, v), color: c }
    }
}

/// How often a texture repeats along each axis.
#[derive(Clone, Copy, Debug, PartialEq, Eq)]
pub struct Repeat {
    pub x: Scalar,
    pub y: Scalar,
}

impl Default for Repeat {
    /// Once along each axis.
    fn default() -> (rep: Repeat)
        ensures
            rep.x.bits == crate::scalar::ONE_BITS,
            rep.y.bits == crate::scalar::ONE_BITS,
    {
        Repeat { x: Scalar::one(), y: Scalar::one() }
    }
}

/// What a drawing kit declares to the drawing stage and keeps per frame: the
/// projection bounds of its viewport, its model transform, and the layouts of
/// its vertices and uniforms.
#[derive(Debug)]
pub struct Kit {
    pub ortho: Ortho,
    pub transform: Matrix4,
    pub vertex_layout: Vec<VertexFormat>,
    pub uniforms_layout: Vec<Slot>,
}

impl Kit {
    /// The vertex layout of a kit: position, place on the texture, colour.
    pub open spec fn spec_vertex_layout() -> Seq<VertexFormat> {
        seq![VertexFormat::Float2, VertexFormat::Float2, VertexFormat::UByte4]
    }

    /// The uniforms layout of a kit: a uniform buffer for the vertex stage,
    /// then a texture and a sampler for the fragment stage.
    pub open spec fn spec_uniforms_layout() -> Seq<Slot> {
        seq![
            Slot { binding: BindingType::UniformBuffer, stage: ShaderStage::Vertex },
            Slot { binding: BindingType::SampledTexture, stage: ShaderStage::Fragment },
            Slot { binding: BindingType::Sampler, stage: ShaderStage::Fragment },
        ]
    }

    /// The kit for a viewport of `width` by `height`.
    pub fn new(width: u32, height: u32) -> (kit: Kit)
        ensures
            kit.ortho == Ortho::spec_viewport(width, height),
            kit.transform == Matrix4::spec_identity(),
            kit.vertex_layout@ == Self::spec_vertex_layout(),
            kit.uniforms_layout@ == Self::spec_uniforms_layout(),
    {
        let mut vertex_layout: Vec<VertexFormat> = Vec::new();
        vertex_layout.push(VertexFormat::Float2);
        vertex_layout.push(VertexFormat::Float2);
        vertex_layout.push(VertexFormat::UByte4);
        let mut uniforms_layout: Vec<Slot> = Vec::new();
        uniforms_layout.push(Slot { binding: BindingType::UniformBuffer, stage: ShaderStage::Vertex });
        uniforms_layout.push(
            Slot { binding: BindingType::SampledTexture, stage: ShaderStage::Fragment },
        );
        uniforms_layout.push(Slot { binding: BindingType::Sampler, stage: ShaderStage::Fragment });
        assert(vertex_layout@ =~= Self::spec_vertex_layout());
        assert(uniforms_layout@ =~= Self::spec_uniforms_layout());
        Kit {
            ortho: Ortho::viewport(width, height),
            transform: Matrix4::identity(),
            vertex_layout,
            uniforms_layout,
        }
    }

    /// Takes the projection bounds anew from a viewport of `w` by `h`.
    /// Nothing else changes.
    pub fn resize(&mut self, w: u32, h: u32)
        ensures
            final(self).ortho == Ortho::spec_viewport(w, h),
            final(self).transform == old(self).transform,
            final(self).vertex_layout == old(self).vertex_layout,
            final(self).uniforms_layout == old(self).uniforms_layout,
    {
        self.ortho = Ortho::viewport(w, h);
    }
}

/// The size of a texture, in texels.
#[derive(Clone, Copy, Debug, PartialEq, Eq)]
pub struct Texture {
    pub w: u32,
    pub h: u32,
}

impl Texture {
    /// The box that the whole texture fills, from the origin to its size.
    pub fn rect(&self) -> (r: Rect<u32>)
        ensures
            r == (Rect::<u32> { x1: 0, y1: 0, x2: self.w, y2: self.h }),
    {
        Rect { x1: 0, y1: 0, x2: self.w, y2: self.h }
    }
}

/// The two triangles of one sprite: the box `dst` on the screen, showing the
/// part `uv` of the texture. The texture's rows run against the screen's, so
/// the lower corners of `dst` show `uv.y2` and the upper ones `uv.y1`.
pub open spec fn sprite_quad(uv: Rect<Scalar>, dst: Rect<Scalar>, c: Rgba<u8>) -> Seq<Vertex> {
    let bottom_left = Vertex {
        position: Vector2 { x: dst.x1, y: dst.y1 },
        uv: Vector2 { x: uv.x1, y: uv.y2 },
        color: c,
    };
    let bottom_right = Vertex {
        position: Vector2 { x: dst.x2, y: dst.y1 },
        uv: Vector2 { x: uv.x2, y: uv.y2 },
        color: c,
    };
    let top_left = Vertex {
        position: Vector2 { x: dst.x1, y: dst.y2 },
        uv: Vector2 { x: uv.x1, y: uv.y1 },
        color: c,
    };
    let top_right = Vertex {
        position: Vector2 { x: dst.x2, y: dst.y2 },
        uv: Vector2 { x: uv.x2, y: uv.y1 },
        color: c,
    };
    seq![bottom_left, bottom_right, top_right, bottom_left, top_left, top_right]
}

/// Sprites of one texture, gathered for one draw call. Sprites are added
/// until the batch is finished; after that it can only be drawn.
#[derive(Debug)]
pub struct SpriteBatch {
    pub texture: Texture,
    pub vertices: Vec<Vertex>,
    pub finished: bool,
    pub size: usize,
}

impl SpriteBatch {
    /// There are six vertices to a sprite.
    pub open spec fn well_formed(&self) -> bool {
        self.vertices@.len() == 6 * self.size
    }

    /// The batch for texture `t`, with no sprite in it.
    pub fn new(t: Texture) -> (batch: SpriteBatch)
        ensures
            batch.texture == t,
            batch.vertices@ == Seq::<Vertex>::empty(),
            !batch.finished,
            batch.size == 0,
            batch.well_formed(),
    {
        SpriteBatch { texture: t, vertices: Vec::new(), finished: false, size: 0 }
    }

    /// Adds the sprite that shows the part `uv` of the texture in the box
    /// `dst`, tinted `c`. Not to be called once the batch is finished.
    pub fn add(&mut self, uv: Rect<Scalar>, dst: Rect<Scalar>, c: Rgba<u8>)
        requires
            !old(self).finished,
            old(self).well_formed(),
        ensures
            final(self).vertices@ == old(self).vertices@ + sprite_quad(uv, dst, c),
            final(self).size == old(self).size + 1,
            final(self).texture == old(self).texture,
            !final(self).finished,
            final(self).well_formed(),
    {
        let bottom_left = Vertex::new(dst.x1, dst.y1, uv.x1, uv.y2, c);
        let bottom_right = Vertex::new(dst.x2, dst.y1, uv.x2, uv.y2, c);
        let top_left = Vertex::new(dst.x1, dst.y2, uv.x1, uv.y1, c);
        let top_right = Vertex::new(dst.x2, dst.y2, uv.x2, uv.y1, c);
        self.vertices.push(bottom_left);
        self.vertices.push(bottom_right);
        self.vertices.push(top_right);
        self.vertices.push(bottom_left);
        self.vertices.push(top_left);
        self.vertices.push(top_right);
        assert(self.vertices@ =~= old(self).vertices@ + sprite_quad(uv, dst, c));
        let count: usize = self.vertices.len();
        assert(self.size + 1 <= count);
        self.size = self.size + 1;
    }

    /// Closes the batch: its vertices are now what is to be uploaded. Not to
    /// be called twice.
    pub fn finish(&mut self)
        requires
            !old(self).finished,
        ensures
            final(self).finished,
            final(self).vertices == old(self).vertices,
            final(self).size == old(self).size,
            final(self).texture == old(self).texture,
    {
        self.finished = true;
    }

    /// The range of vertices to draw: all of them. Not to be called before
    /// the batch is finished.
    pub fn draw(&self) -> (range: (usize, usize))
        requires
            self.finished,
        ensures
            range.0 == 0,
            range.1 == self.vertices@.len(),
    {
        (0, self.vertices.len())
    }
}

} // verus!
