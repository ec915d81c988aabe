//! Layouts of the vertex data read by the render pipelines: the fractal's
//! vertices and the clock's rays.

use vstd::prelude::*;
use crate::geometry::{vertex_size, SCALAR_SIZE};

verus! {

/// Format of one vertex attribute.
#[derive(Clone, Copy, Debug, PartialEq, Eq, Structural)]
pub enum VertexFormat {
    /// One single-precision scalar.
    Float32,
    /// Two single-precision scalars.
    Float32x2,
}

/// Whether a buffer advances per vertex or per instance.
#[derive(Clone, Copy, Debug, PartialEq, Eq, Structural)]
pub enum StepMode {
    Vertex,
    Instance,
}

/// One attribute of a vertex layout.
#[derive(Clone, Copy, Debug, PartialEq, Eq, Structural)]
pub struct VertexAttribute {
    pub format: VertexFormat,
    /// Byte offset of the attribute within an element.
    pub offset: u64,
    pub shader_location: u32,
}

/// How the elements of a vertex buffer are laid out.
pub struct VertexLayout {
    /// Bytes from one element to the next.
    pub array_stride: u64,
    pub step_mode: StepMode,
    pub attributes: Vec<VertexAttribute>,
}

/// Bytes of an attribute of format `format`.
pub open spec fn format_size(format: VertexFormat) -> nat {
    match format {
        VertexFormat::Float32 => 4,
        VertexFormat::Float32x2 => 8,
    }
}

impl VertexFormat {
    /// Bytes of an attribute of this format.
    pub fn byte_size(&self) -> (r: u64)
        ensures
            r == format_size(*self),
    {
        match self {
            VertexFormat::Float32 => SCALAR_SIZE as u64,
            VertexFormat::Float32x2 => 2 * SCALAR_SIZE as u64,
        }
    }
}

/// Bytes taken by the first `n` attributes.
pub open spec fn attributes_size(attributes: Seq<VertexAttribute>, n: nat) -> nat
    decreases n,
{
    if n == 0 {
        0
    } else {
        attributes_size(attributes, (n - 1) as nat) + format_size(attributes[n - 1].format)
    }
}

/// A layout whose attributes follow one another without gaps or overlap,
/// numbered by shader location in order, and whose stride is their total
/// size.
pub open spec fn is_packed(stride: int, attributes: Seq<VertexAttribute>) -> bool {
    &&& forall|i: int|
        0 <= i < attributes.len() ==> (#[trigger] attributes[i]).offset == attributes_size(
            attributes,
            i as nat,
        ) && attributes[i].shader_location == i
    &&& stride == attributes_size(attributes, attributes.len())
}

/// The layout of a fractal vertex: a position (two scalars) at location 0,
/// then one scalar at location 1 and one at location 2, stepping per vertex.
pub fn fractal_vertex_attributes() -> (r: VertexLayout)
    ensures
        r.array_stride == 16,
        r.step_mode == StepMode::Vertex,
        r.attributes@ == seq![
            VertexAttribute { format: VertexFormat::Float32x2, offset: 0, shader_location: 0 },
            VertexAttribute { format: VertexFormat::Float32, offset: 8, shader_location: 1 },
            VertexAttribute { format: VertexFormat::Float32, offset: 12, shader_location: 2 },
        ],
{
    let mut attributes: Vec<VertexAttribute> = Vec::new();
    attributes.push(
        VertexAttribute { format: VertexFormat::Float32x2, offset: 0, shader_location: 0 },
    );
    attributes.push(
        VertexAttribute {
            format: VertexFormat::Float32,
            offset: 2 * SCALAR_SIZE as u64,
            shader_location: 1,
        },
    );
    attributes.push(
        VertexAttribute {
            format: VertexFormat::Float32,
            offset: 3 * SCALAR_SIZE as u64,
            shader_location: 2,
        },
    );
    VertexLayout { array_stride: vertex_size() as u64, step_mode: StepMode::Vertex, attributes }
}

/// The layout of a clock ray: start, end, direction and half thickness, one
/// scalar each at locations 0 to 3, stepping per instance.
pub fn clock_ray_vertex_attributes() -> (r: VertexLayout)
    ensures
        r.array_stride == 16,
        r.step_mode == StepMode::Instance,
        r.attributes.len() == 4,
        forall|i: int|
            0 <= i < 4 ==> #[trigger] r.attributes[i] == (VertexAttribute {
                format: VertexFormat::Float32,
                offset: (4 * i) as u64,
                shader_location: i as u32,
            }),
{
    let mut attributes: Vec<VertexAttribute> = Vec::new();
    let mut i: u32 = 0;
    assert(SCALAR_SIZE as u64 == 4);
    while i < 4
        invariant
            SCALAR_SIZE as u64 == 4,
            i <= 4,
            attributes.len() == i,
            forall|k: int|
                0 <= k < i ==> #[trigger] attributes[k] == (VertexAttribute {
                    format: VertexFormat::Float32,
                    offset: (4 * k) as u64,
                    shader_location: k as u32,
                }),
        decreases 4 - i,
    {
        let offset = i as u64 * SCALAR_SIZE as u64;
        attributes.push(
            VertexAttribute {
                format: VertexFormat::Float32,
                offset,
                shader_location: i,
            },
        );
        i = i + 1;
    }
    VertexLayout { array_stride: 4 * SCALAR_SIZE as u64, step_mode: StepMode::Instance, attributes }
}

/// The fractal vertex layout is packed: its attributes follow one another
/// and its stride is their total size.
pub proof fn lemma_fractal_layout_packed(attributes: Seq<VertexAttribute>)
    requires
        attributes == seq![
            VertexAttribute { format: VertexFormat::Float32x2, offset: 0, shader_location: 0 },
            VertexAttribute { format: VertexFormat::Float32, offset: 8, shader_location: 1 },
            VertexAttribute { format: VertexFormat::Float32, offset: 12, shader_location: 2 },
        ],
    ensures
        is_packed(16, attributes),
{
    reveal_with_fuel(attributes_size, 4);
}

/// The clock ray layout is packed: its attributes follow one another and its
/// stride is their total size.
pub proof fn lemma_clock_ray_layout_packed(attributes: Seq<VertexAttribute>)
    requires
        attributes.len() == 4,
        forall|i: int|
            0 <= i < 4 ==> #[trigger] attributes[i] == (VertexAttribute {
                format: VertexFormat::Float32,
                offset: (4 * i) as u64,
                shader_location: i as u32,
            }),
    ensures
        is_packed(16, attributes),
{
    reveal_with_fuel(attributes_size, 5);
    assert(attributes[0].format == VertexFormat::Float32);
    assert(attributes[1].format == VertexFormat::Float32);
    assert(attributes[2].format == VertexFormat::Float32);
    assert(attributes[3].format == VertexFormat::Float32);
}

} // verus!
