//! How vertices and uniforms are laid out for the drawing stage.

use vstd::prelude::*;

verus! {

/// The format of one attribute of a vertex.
#[derive(Clone, Copy, Debug, PartialEq, Eq)]
pub enum VertexFormat {
    /// One single-precision number.
    Float,
    /// Two single-precision numbers.
    Float2,
    /// Three single-precision numbers.
    Float3,
    /// Four bytes.
    UByte4,
}

impl VertexFormat {
    pub open spec fn spec_size(self) -> nat {
        match self {
            VertexFormat::Float => 4,
            VertexFormat::Float2 => 8,
            VertexFormat::Float3 => 12,
            VertexFormat::UByte4 => 4,
        }
    }

    /// The bytes that an attribute of this format takes.
    pub fn size(self) -> (n: usize)
        ensures
            n == self.spec_size(),
    {
        match self {
            VertexFormat::Float => 4,
            VertexFormat::Float2 => 8,
            VertexFormat::Float3 => 12,
            VertexFormat::UByte4 => 4,
        }
    }
}

/// The bytes from one vertex to the next: the sizes of the attributes
/// together.
pub open spec fn stride(layout: Seq<VertexFormat>) -> nat
    decreases layout.len(),
{
    if layout.len() == 0 {
        0
    } else {
        stride(layout.drop_last()) + layout.last().spec_size()
    }
}

/// What is bound at a slot.
#[derive(Clone, Copy, Debug, PartialEq, Eq)]
pub enum BindingType {
    UniformBuffer,
    SampledTexture,
    Sampler,
}

/// The stage that reads a binding.
#[derive(Clone, Copy, Debug, PartialEq, Eq)]
pub enum ShaderStage {
    Vertex,
    Fragment,
}

/// One binding of a set.
#[derive(Clone, Copy, Debug, PartialEq, Eq)]
pub struct Binding {
    pub binding: BindingType,
    pub stage: ShaderStage,
}

/// One slot of a uniforms layout.
#[derive(Clone, Copy, Debug, PartialEq, Eq)]
pub struct Slot {
    pub binding: BindingType,
    pub stage: ShaderStage,
}

/// What a pipeline asks of the drawing stage: the attributes of its
/// vertices, in order, and its binding sets, in order.
#[derive(Debug)]
pub struct PipelineDescription {
    pub vertex_layout: Vec<VertexFormat>,
    pub pipeline_layout: Vec<Vec<Binding>>,
}

impl PipelineDescription {
    /// The bytes of one vertex.
    pub fn vertex_size(&self) -> (n: usize)
        requires
            stride(self.vertex_layout@) <= usize::MAX,
        ensures
            n == stride(self.vertex_layout@),
    {
        let mut n: usize = 0;
        let mut i: usize = 0;
        while i < self.vertex_layout.len()
            invariant
                i <= self.vertex_layout@.len(),
                n == stride(self.vertex_layout@.take(i as int)),
                stride(self.vertex_layout@) <= usize::MAX,
            decreases self.vertex_layout@.len() - i,
        {
            proof {
                let next = self.vertex_layout@.take(i + 1);
                assert(next.drop_last() =~= self.vertex_layout@.take(i as int));
                stride_grows(self.vertex_layout@, i + 1);
            }
            n = n + self.vertex_layout[i].size();
            i = i + 1;
        }
        assert(self.vertex_layout@.take(i as int) =~= self.vertex_layout@);
        n
    }
}

/// The stride of a prefix is at most that of the whole.
pub proof fn stride_grows(layout: Seq<VertexFormat>, n: int)
    requires
        0 <= n <= layout.len(),
    ensures
        stride(layout.take(n)) <= stride(layout),
    decreases layout.len() - n,
{
    if n < layout.len() {
        stride_grows(layout, n + 1);
        assert(layout.take(n + 1).drop_last() =~= layout.take(n));
    } else {
        assert(layout.take(n) =~= layout);
    }
}

} // verus!
