//! How vertex and instance data are laid out in their buffers.

use vstd::prelude::*;

verus! {

/// The size in bytes of one scalar of vertex data (a 32-bit float).
pub const SCALAR_BYTES: u64 = 4;

/// The number of scalars in one instance transform (a 4x4 matrix).
pub const MATRIX_SCALARS: usize = 16;

/// The size in bytes of one instance transform.
pub const MATRIX_BYTES: u64 = 64;

/// The shape of one vertex attribute.
#[derive(Clone, Copy, Debug, PartialEq, Eq, Structural)]
pub enum VertexFormat {
    Float32x2,
    Float32x3,
    Float32x4,
}

/// Whether a buffer advances once per vertex or once per instance.
#[derive(Clone, Copy, Debug, PartialEq, Eq, Structural)]
pub enum StepMode {
    Vertex,
    Instance,
}

/// One attribute of a vertex buffer: where it starts within an element,
/// which shader input it feeds, and its shape.
#[derive(Clone, Copy, Debug, PartialEq, Eq, Structural)]
pub struct VertexAttribute {
    pub offset: u64,
    pub shader_location: u32,
    pub format: VertexFormat,
}

/// The layout of one vertex buffer.
#[derive(Debug, PartialEq, Eq)]
pub struct VertexBufferLayout {
    pub array_stride: u64,
    pub step_mode: StepMode,
    pub attributes: Vec<VertexAttribute>,
}

impl VertexFormat {
    /// The number of scalars in the attribute.
    pub open spec fn components(self) -> nat {
        match self {
            VertexFormat::Float32x2 => 2,
            VertexFormat::Float32x3 => 3,
            VertexFormat::Float32x4 => 4,
        }
    }

    /// The size of the attribute in bytes.
    pub open spec fn size_spec(self) -> nat {
        self.components() * 4
    }

    /// The size of the attribute in bytes.
    pub fn size(self) -> (bytes: u64)
        ensures
            bytes == self.size_spec(),
    {
        match self {
            VertexFormat::Float32x2 => 2 * SCALAR_BYTES,
            VertexFormat::Float32x3 => 3 * SCALAR_BYTES,
            VertexFormat::Float32x4 => 4 * SCALAR_BYTES,
        }
    }
}

impl VertexAttribute {
    /// The first byte after the attribute within an element.
    pub open spec fn end(self) -> nat {
        self.offset as nat + self.format.size_spec()
    }
}

/// Whether attributes `a` and `b` occupy disjoint bytes of an element.
pub open spec fn disjoint(a: VertexAttribute, b: VertexAttribute) -> bool {
    a.end() <= b.offset || b.end() <= a.offset
}

/// Whether the attributes fit within `stride` bytes, occupy pairwise
/// disjoint bytes, and feed pairwise different shader inputs.
pub open spec fn attributes_well_formed(stride: nat, attributes: Seq<VertexAttribute>) -> bool {
    &&& forall|i: int| 0 <= i < attributes.len() ==> (#[trigger] attributes[i]).end() <= stride
    &&& forall|i: int, j: int|
        0 <= i < j < attributes.len() ==> disjoint(#[trigger] attributes[i], #[trigger] attributes[j])
    &&& forall|i: int, j: int|
        0 <= i < j < attributes.len() ==> (#[trigger] attributes[i]).shader_location != (
        #[trigger] attributes[j]).shader_location
}

/// Whether no attribute of `a` feeds the same shader input as one of `b`.
pub open spec fn locations_disjoint(a: Seq<VertexAttribute>, b: Seq<VertexAttribute>) -> bool {
    forall|i: int, j: int|
        0 <= i < a.len() && 0 <= j < b.len() ==> (#[trigger] a[i]).shader_location != (
        #[trigger] b[j]).shader_location
}

/// The attributes of a scene vertex: a position of three scalars at shader
/// input 0, then a color of four scalars at shader input 1.
pub open spec fn scene_vertex_attributes() -> Seq<VertexAttribute> {
    seq![
        VertexAttribute { offset: 0, shader_location: 0, format: VertexFormat::Float32x3 },
        VertexAttribute { offset: 12, shader_location: 1, format: VertexFormat::Float32x4 },
    ]
}

/// The attributes of a blit vertex: a position of three scalars at shader
/// input 0, then texture coordinates of two scalars at shader input 1.
pub open spec fn blit_vertex_attributes() -> Seq<VertexAttribute> {
    seq![
        VertexAttribute { offset: 0, shader_location: 0, format: VertexFormat::Float32x3 },
        VertexAttribute { offset: 12, shader_location: 1, format: VertexFormat::Float32x2 },
    ]
}

/// Column `column` of an instance transform: four scalars, sixteen bytes
/// after the previous column, at the shader input two past the column's
/// number.
pub open spec fn instance_column(column: int) -> VertexAttribute {
    VertexAttribute {
        offset: (16 * column) as u64,
        shader_location: (2 + column) as u32,
        format: VertexFormat::Float32x4,
    }
}

/// The attributes of an instance transform: its four columns in order.
pub open spec fn instance_attributes() -> Seq<VertexAttribute> {
    Seq::new(4, |column: int| instance_column(column))
}

impl VertexBufferLayout {
    /// Whether the layout's attributes are well formed within its stride.
    pub open spec fn well_formed(self) -> bool {
        attributes_well_formed(self.array_stride as nat, self.attributes@)
    }

    /// The layout of the scene's vertex buffer: 28 bytes per vertex.
    pub fn scene_vertices() -> (layout: VertexBufferLayout)
        ensures
            layout.array_stride == 28,
            layout.step_mode == StepMode::Vertex,
            layout.attributes@ == scene_vertex_attributes(),
            layout.well_formed(),
    {
        let position = VertexAttribute {
            offset: 0,
            shader_location: 0,
            format: VertexFormat::Float32x3,
        };
        let color = VertexAttribute {
            offset: VertexFormat::Float32x3.size(),
            shader_location: 1,
            format: VertexFormat::Float32x4,
        };
        let mut attributes: Vec<VertexAttribute> = Vec::new();
        attributes.push(position);
        attributes.push(color);
        let array_stride: u64 = VertexFormat::Float32x3.size() + VertexFormat::Float32x4.size();
        assert(attributes@ =~= scene_vertex_attributes());
        VertexBufferLayout { array_stride, step_mode: StepMode::Vertex, attributes }
    }

    /// The layout of the blit quad's vertex buffer: 20 bytes per vertex.
    pub fn blit_vertices() -> (layout: VertexBufferLayout)
        ensures
            layout.array_stride == 20,
            layout.step_mode == StepMode::Vertex,
            layout.attributes@ == blit_vertex_attributes(),
            layout.well_formed(),
    {
        let position = VertexAttribute {
            offset: 0,
            shader_location: 0,
            format: VertexFormat::Float32x3,
        };
        let uv_coords = VertexAttribute {
            offset: VertexFormat::Float32x3.size(),
            shader_location: 1,
            format: VertexFormat::Float32x2,
        };
        let mut attributes: Vec<VertexAttribute> = Vec::new();
        attributes.push(position);
        attributes.push(uv_coords);
        let array_stride: u64 = VertexFormat::Float32x3.size() + VertexFormat::Float32x2.size();
        assert(attributes@ =~= blit_vertex_attributes());
        VertexBufferLayout { array_stride, step_mode: StepMode::Vertex, attributes }
    }

    /// The layout of the instance buffer: one 64-byte transform per
    /// instance, fed to the shader column by column.
    pub fn instances() -> (layout: VertexBufferLayout)
        ensures
            layout.array_stride == MATRIX_BYTES,
            layout.step_mode == StepMode::Instance,
            layout.attributes@ == instance_attributes(),
            layout.well_formed(),
    {
        let mut attributes: Vec<VertexAttribute> = Vec::new();
        let column_bytes: u64 = VertexFormat::Float32x4.size();
        let mut column: u32 = 0;
        while column < 4
            invariant
                column <= 4,
                column_bytes == 16,
                attributes@.len() == column,
                forall|i: int| 0 <= i < column ==> attributes@[i] == instance_column(i),
            decreases 4 - column,
        {
            let offset: u64 = (column as u64) * column_bytes;
            attributes.push(
                VertexAttribute {
                    offset,
                    shader_location: 2 + column,
                    format: VertexFormat::Float32x4,
                },
            );
            column = column + 1;
        }
        assert(attributes@ =~= instance_attributes());
        VertexBufferLayout {
            array_stride: MATRIX_BYTES,
            step_mode: StepMode::Instance,
            attributes,
        }
    }
}

/// The scene pipeline reads the scene vertices and the instance transforms
/// together: no shader input is fed by both buffers.
pub proof fn lemma_scene_inputs_disjoint()
    ensures
        locations_disjoint(scene_vertex_attributes(), instance_attributes()),
        attributes_well_formed(28, scene_vertex_attributes()),
        attributes_well_formed(64, instance_attributes()),
        attributes_well_formed(20, blit_vertex_attributes()),
{
}

} // verus!
