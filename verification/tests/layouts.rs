use render_harness::frame::{
    blit_bind_group_layout, camera_bind_group_layout, BindGroupLayoutEntry, BindingType, Buffer,
    BufferUsage, CompareFunction, DepthState, Pipeline, PipelineDescriptor, ShaderStage,
};
use render_harness::layout::{
    StepMode, VertexAttribute, VertexBufferLayout, VertexFormat, MATRIX_BYTES, MATRIX_SCALARS,
    SCALAR_BYTES,
};
use render_harness::surface::ColorFormat;
use render_harness::targets::TextureFormat;

#[test]
fn format_sizes() {
    assert_eq!(VertexFormat::Float32x2.size(), 8);
    assert_eq!(VertexFormat::Float32x3.size(), 12);
    assert_eq!(VertexFormat::Float32x4.size(), 16);
}

#[test]
fn matrix_constants_agree() {
    assert_eq!(SCALAR_BYTES, 4);
    assert_eq!(MATRIX_SCALARS, 16);
    assert_eq!(MATRIX_BYTES, 64);
    assert_eq!(MATRIX_BYTES, SCALAR_BYTES * MATRIX_SCALARS as u64);
    assert_eq!(SCALAR_BYTES as usize, std::mem::size_of::<f32>());
}

#[test]
fn scene_vertex_layout_is_exact() {
    let layout = VertexBufferLayout::scene_vertices();
    assert_eq!(
        layout,
        VertexBufferLayout {
            array_stride: 28,
            step_mode: StepMode::Vertex,
            attributes: vec![
                VertexAttribute { offset: 0, shader_location: 0, format: VertexFormat::Float32x3 },
                VertexAttribute { offset: 12, shader_location: 1, format: VertexFormat::Float32x4 },
            ],
        }
    );
}

#[test]
fn blit_vertex_layout_is_exact() {
    let layout = VertexBufferLayout::blit_vertices();
    assert_eq!(
        layout,
        VertexBufferLayout {
            array_stride: 20,
            step_mode: StepMode::Vertex,
            attributes: vec![
                VertexAttribute { offset: 0, shader_location: 0, format: VertexFormat::Float32x3 },
                VertexAttribute { offset: 12, shader_location: 1, format: VertexFormat::Float32x2 },
            ],
        }
    );
}

#[test]
fn instance_layout_is_four_columns() {
    let layout = VertexBufferLayout::instances();
    assert_eq!(
        layout,
        VertexBufferLayout {
            array_stride: 64,
            step_mode: StepMode::Instance,
            attributes: vec![
                VertexAttribute { offset: 0, shader_location: 2, format: VertexFormat::Float32x4 },
                VertexAttribute { offset: 16, shader_location: 3, format: VertexFormat::Float32x4 },
                VertexAttribute { offset: 32, shader_location: 4, format: VertexFormat::Float32x4 },
                VertexAttribute { offset: 48, shader_location: 5, format: VertexFormat::Float32x4 },
            ],
        }
    );
}

#[test]
fn attributes_fill_their_strides_without_overlap() {
    for layout in [
        VertexBufferLayout::scene_vertices(),
        VertexBufferLayout::blit_vertices(),
        VertexBufferLayout::instances(),
    ] {
        let mut end = 0;
        for attribute in &layout.attributes {
            assert_eq!(attribute.offset, end);
            end = attribute.offset + attribute.format.size();
        }
        assert_eq!(end, layout.array_stride);
    }
}

#[test]
fn scene_pipeline_is_exact() {
    let format = ColorFormat { code: 1 };
    let descriptor = PipelineDescriptor::scene(format);
    assert_eq!(descriptor.pipeline, Pipeline::Scene);
    assert_eq!(descriptor.target_format, format);
    assert_eq!(descriptor.sample_count, 1);
    assert_eq!(
        descriptor.depth,
        Some(DepthState {
            format: TextureFormat::Depth32Float,
            depth_write_enabled: true,
            depth_compare: CompareFunction::Less,
        })
    );
    assert_eq!(
        descriptor.vertex_buffers,
        vec![VertexBufferLayout::scene_vertices(), VertexBufferLayout::instances()]
    );
    let mut locations: Vec<u32> = descriptor
        .vertex_buffers
        .iter()
        .flat_map(|b| b.attributes.iter().map(|a| a.shader_location))
        .collect();
    locations.sort();
    assert_eq!(locations, vec![0, 1, 2, 3, 4, 5]);
}

#[test]
fn blit_pipeline_is_exact() {
    let format = ColorFormat { code: 1 };
    let descriptor = PipelineDescriptor::blit(format);
    assert_eq!(descriptor.pipeline, Pipeline::Blit);
    assert_eq!(descriptor.target_format, format);
    assert_eq!(descriptor.sample_count, 1);
    assert_eq!(descriptor.depth, None);
    assert_eq!(descriptor.vertex_buffers, vec![VertexBufferLayout::blit_vertices()]);
}

#[test]
fn buffer_usages() {
    let static_vertices = BufferUsage { vertex: true, uniform: false, copy_dst: false };
    assert_eq!(Buffer::SceneVertices.usage(), static_vertices);
    assert_eq!(Buffer::BlitVertices.usage(), static_vertices);
    assert_eq!(
        Buffer::InstanceTransforms.usage(),
        BufferUsage { vertex: true, uniform: false, copy_dst: true }
    );
    assert_eq!(
        Buffer::CameraUniform.usage(),
        BufferUsage { vertex: false, uniform: true, copy_dst: true }
    );
}

#[test]
fn bind_group_layouts() {
    assert_eq!(
        camera_bind_group_layout(),
        vec![BindGroupLayoutEntry {
            binding: 0,
            visibility: ShaderStage::Vertex,
            ty: BindingType::UniformBuffer,
        }]
    );
    assert_eq!(
        blit_bind_group_layout(),
        vec![
            BindGroupLayoutEntry {
                binding: 0,
                visibility: ShaderStage::Fragment,
                ty: BindingType::FilterableTexture2d,
            },
            BindGroupLayoutEntry {
                binding: 1,
                visibility: ShaderStage::Fragment,
                ty: BindingType::FilteringSampler,
            },
        ]
    );
}
