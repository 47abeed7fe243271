//! The two render passes of a frame, the pipelines they run, and the buffer
//! writes that precede them.

use vstd::prelude::*;
use crate::geometry::{BLIT_VERTEX_COUNT, SCENE_VERTEX_COUNT};
use crate::layout::{
    blit_vertex_attributes, instance_attributes, locations_disjoint, scene_vertex_attributes,
    VertexBufferLayout, MATRIX_BYTES,
};
use crate::surface::ColorFormat;
use crate::targets::{BlitBindGroup, DerivedTargets, TextureFormat, ViewId};

verus! {

/// What a pass draws into.
#[derive(Clone, Copy, Debug, PartialEq, Eq, Structural)]
pub enum ColorTarget {
    /// The offscreen color target, through the given view.
    Offscreen(ViewId),
    /// The frame acquired from the surface this tick.
    SurfaceFrame,
}

/// The color a pass clears its target to.
#[derive(Clone, Copy, Debug, PartialEq, Eq, Structural)]
pub enum ClearColor {
    /// Opaque black.
    Black,
}

/// The depth a pass clears its depth buffer to.
#[derive(Clone, Copy, Debug, PartialEq, Eq, Structural)]
pub enum ClearDepth {
    /// The far plane, depth 1.
    Far,
}

/// When a fragment passes the depth test.
#[derive(Clone, Copy, Debug, PartialEq, Eq, Structural)]
pub enum CompareFunction {
    Less,
    LessEqual,
    Greater,
    GreaterEqual,
    Always,
}

/// The color attachment of a pass. It is cleared when the pass begins and
/// stored when it ends.
#[derive(Clone, Copy, Debug, PartialEq, Eq, Structural)]
pub struct ColorAttachment {
    pub target: ColorTarget,
    pub clear: ClearColor,
}

/// The depth attachment of a pass. It is cleared when the pass begins and
/// stored when it ends.
#[derive(Clone, Copy, Debug, PartialEq, Eq, Structural)]
pub struct DepthAttachment {
    pub view: ViewId,
    pub clear: ClearDepth,
}

/// The two pipelines.
#[derive(Clone, Copy, Debug, PartialEq, Eq, Structural)]
pub enum Pipeline {
    Scene,
    Blit,
}

/// The GPU buffers.
#[derive(Clone, Copy, Debug, PartialEq, Eq, Structural)]
pub enum Buffer {
    SceneVertices,
    InstanceTransforms,
    BlitVertices,
    CameraUniform,
}

/// What a pass binds as bind group 0.
#[derive(Clone, Copy, Debug, PartialEq, Eq, Structural)]
pub enum BindGroup {
    /// The camera's uniform buffer.
    Camera,
    /// The offscreen target's view and the blit sampler.
    Blit(BlitBindGroup),
}

/// One draw call: `vertex_count` vertices from vertex 0, `instance_count`
/// instances from instance 0.
#[derive(Clone, Copy, Debug, PartialEq, Eq, Structural)]
pub struct Draw {
    pub vertex_count: u32,
    pub instance_count: u32,
}

/// Everything recorded for one render pass: its attachments, the pipeline,
/// the vertex buffers in slots 0 and 1, bind group 0, and its one draw.
#[derive(Clone, Copy, Debug, PartialEq, Eq, Structural)]
pub struct RenderPass {
    pub color: ColorAttachment,
    pub depth: Option<DepthAttachment>,
    pub pipeline: Pipeline,
    pub vertex_buffer: Buffer,
    pub instance_buffer: Option<Buffer>,
    pub bind_group: BindGroup,
    pub draw: Draw,
}

/// One whole-buffer write: `size` bytes from the buffer's start.
#[derive(Clone, Copy, Debug, PartialEq, Eq, Structural)]
pub struct BufferWrite {
    pub buffer: Buffer,
    pub offset: u64,
    pub size: u64,
}

/// The buffer writes of one tick. Both buffers are overwritten in full,
/// whether or not their contents changed.
#[derive(Clone, Copy, Debug, PartialEq, Eq, Structural)]
pub struct UploadPlan {
    pub camera: BufferWrite,
    pub instances: BufferWrite,
}

/// How a pipeline tests and writes depth.
#[derive(Clone, Copy, Debug, PartialEq, Eq, Structural)]
pub struct DepthState {
    pub format: TextureFormat,
    pub depth_write_enabled: bool,
    pub depth_compare: CompareFunction,
}

/// Everything needed to create one of the two pipelines, but for the shader
/// code.
#[derive(Debug)]
pub struct PipelineDescriptor {
    pub pipeline: Pipeline,
    pub vertex_buffers: Vec<VertexBufferLayout>,
    pub target_format: ColorFormat,
    pub depth: Option<DepthState>,
    pub sample_count: u32,
}

/// The scene pass over `targets`: it clears the offscreen color target to
/// black and the depth buffer to the far plane, and draws the triangle once
/// per instance.
pub open spec fn scene_pass_spec(targets: DerivedTargets, instance_count: u32) -> RenderPass {
    RenderPass {
        color: ColorAttachment {
            target: ColorTarget::Offscreen(targets.color.view),
            clear: ClearColor::Black,
        },
        depth: Some(DepthAttachment { view: targets.depth.view, clear: ClearDepth::Far }),
        pipeline: Pipeline::Scene,
        vertex_buffer: Buffer::SceneVertices,
        instance_buffer: Some(Buffer::InstanceTransforms),
        bind_group: BindGroup::Camera,
        draw: Draw { vertex_count: 3, instance_count },
    }
}

/// The blit pass over `targets`: it clears the acquired frame to black and
/// draws the full-screen quad once, sampling the offscreen color target.
pub open spec fn blit_pass_spec(targets: DerivedTargets) -> RenderPass {
    RenderPass {
        color: ColorAttachment { target: ColorTarget::SurfaceFrame, clear: ClearColor::Black },
        depth: None,
        pipeline: Pipeline::Blit,
        vertex_buffer: Buffer::BlitVertices,
        instance_buffer: None,
        bind_group: BindGroup::Blit(targets.blit_bind_group),
        draw: Draw { vertex_count: 6, instance_count: 1 },
    }
}

/// The buffer writes for `instance_count` instances: one transform of 64
/// bytes for the camera, and one per instance.
pub open spec fn upload_plan_spec(instance_count: u32) -> UploadPlan {
    UploadPlan {
        camera: BufferWrite { buffer: Buffer::CameraUniform, offset: 0, size: 64 },
        instances: BufferWrite {
            buffer: Buffer::InstanceTransforms,
            offset: 0,
            size: (64 * instance_count) as u64,
        },
    }
}

/// The depth state of the scene pipeline: nearer fragments win and are
/// written.
pub open spec fn scene_depth_state() -> DepthState {
    DepthState {
        format: TextureFormat::Depth32Float,
        depth_write_enabled: true,
        depth_compare: CompareFunction::Less,
    }
}

/// The scene pass over `targets`, drawing `instance_count` instances.
pub fn scene_pass(targets: &DerivedTargets, instance_count: u32) -> (pass: RenderPass)
    ensures
        pass == scene_pass_spec(*targets, instance_count),
{
    RenderPass {
        color: ColorAttachment {
            target: ColorTarget::Offscreen(targets.color.view),
            clear: ClearColor::Black,
        },
        depth: Some(DepthAttachment { view: targets.depth.view, clear: ClearDepth::Far }),
        pipeline: Pipeline::Scene,
        vertex_buffer: Buffer::SceneVertices,
        instance_buffer: Some(Buffer::InstanceTransforms),
        bind_group: BindGroup::Camera,
        draw: Draw { vertex_count: SCENE_VERTEX_COUNT, instance_count },
    }
}

/// The blit pass over `targets`.
pub fn blit_pass(targets: &DerivedTargets) -> (pass: RenderPass)
    ensures
        pass == blit_pass_spec(*targets),
{
    RenderPass {
        color: ColorAttachment { target: ColorTarget::SurfaceFrame, clear: ClearColor::Black },
        depth: None,
        pipeline: Pipeline::Blit,
        vertex_buffer: Buffer::BlitVertices,
        instance_buffer: None,
        bind_group: BindGroup::Blit(targets.blit_bind_group),
        draw: Draw { vertex_count: BLIT_VERTEX_COUNT, instance_count: 1 },
    }
}

/// The buffer writes of a tick with `instance_count` instances.
pub fn upload_plan(instance_count: u32) -> (plan: UploadPlan)
    ensures
        plan == upload_plan_spec(instance_count),
{
    let instance_bytes: u64 = MATRIX_BYTES * (instance_count as u64);
    UploadPlan {
        camera: BufferWrite { buffer: Buffer::CameraUniform, offset: 0, size: MATRIX_BYTES },
        instances: BufferWrite {
            buffer: Buffer::InstanceTransforms,
            offset: 0,
            size: instance_bytes,
        },
    }
}

impl PipelineDescriptor {
    /// The scene pipeline for a target of format `format`: it reads scene
    /// vertices and instance transforms, which feed different shader inputs,
    /// tests depth with "less" and writes it, and does not multisample.
    pub fn scene(format: ColorFormat) -> (descriptor: PipelineDescriptor)
        ensures
            descriptor.pipeline == Pipeline::Scene,
            descriptor.target_format == format,
            descriptor.depth == Some(scene_depth_state()),
            descriptor.sample_count == 1,
            descriptor.vertex_buffers@.len() == 2,
            descriptor.vertex_buffers@[0].attributes@ == scene_vertex_attributes(),
            descriptor.vertex_buffers@[0].array_stride == 28,
            descriptor.vertex_buffers@[1].attributes@ == instance_attributes(),
            descriptor.vertex_buffers@[1].array_stride == 64,
            descriptor.vertex_buffers@[0].well_formed(),
            descriptor.vertex_buffers@[1].well_formed(),
            locations_disjoint(
                descriptor.vertex_buffers@[0].attributes@,
                descriptor.vertex_buffers@[1].attributes@,
            ),
    {
        let mut vertex_buffers: Vec<VertexBufferLayout> = Vec::new();
        vertex_buffers.push(VertexBufferLayout::scene_vertices());
        vertex_buffers.push(VertexBufferLayout::instances());
        PipelineDescriptor {
            pipeline: Pipeline::Scene,
            vertex_buffers,
            target_format: format,
            depth: Some(
                DepthState {
                    format: TextureFormat::Depth32Float,
                    depth_write_enabled: true,
                    depth_compare: CompareFunction::Less,
                },
            ),
            sample_count: 1,
        }
    }

    /// The blit pipeline for a target of format `format`: it reads the blit
    /// quad, has no depth test, and does not multisample.
    pub fn blit(format: ColorFormat) -> (descriptor: PipelineDescriptor)
        ensures
            descriptor.pipeline == Pipeline::Blit,
            descriptor.target_format == format,
            descriptor.depth is None,
            descriptor.sample_count == 1,
            descriptor.vertex_buffers@.len() == 1,
            descriptor.vertex_buffers@[0].attributes@ == blit_vertex_attributes(),
            descriptor.vertex_buffers@[0].array_stride == 20,
            descriptor.vertex_buffers@[0].well_formed(),
    {
        let mut vertex_buffers: Vec<VertexBufferLayout> = Vec::new();
        vertex_buffers.push(VertexBufferLayout::blit_vertices());
        PipelineDescriptor {
            pipeline: Pipeline::Blit,
            vertex_buffers,
            target_format: format,
            depth: None,
            sample_count: 1,
        }
    }
}

/// What a buffer may be used for.
#[derive(Clone, Copy, Debug, PartialEq, Eq, Structural)]
pub struct BufferUsage {
    pub vertex: bool,
    pub uniform: bool,
    pub copy_dst: bool,
}

/// The shader stage that sees a binding.
#[derive(Clone, Copy, Debug, PartialEq, Eq, Structural)]
pub enum ShaderStage {
    Vertex,
    Fragment,
}

/// What is bound at a binding.
#[derive(Clone, Copy, Debug, PartialEq, Eq, Structural)]
pub enum BindingType {
    /// A uniform buffer, bound whole and at a fixed offset.
    UniformBuffer,
    /// A 2D texture of filterable floats, not multisampled.
    FilterableTexture2d,
    /// A sampler that filters.
    FilteringSampler,
}

/// One entry of a bind group's layout.
#[derive(Clone, Copy, Debug, PartialEq, Eq, Structural)]
pub struct BindGroupLayoutEntry {
    pub binding: u32,
    pub visibility: ShaderStage,
    pub ty: BindingType,
}

/// The usage of each buffer: the two that are rewritten every tick can be
/// copied to; the static ones can not.
pub open spec fn buffer_usage_spec(buffer: Buffer) -> BufferUsage {
    match buffer {
        Buffer::SceneVertices => BufferUsage { vertex: true, uniform: false, copy_dst: false },
        Buffer::BlitVertices => BufferUsage { vertex: true, uniform: false, copy_dst: false },
        Buffer::InstanceTransforms => BufferUsage { vertex: true, uniform: false, copy_dst: true },
        Buffer::CameraUniform => BufferUsage { vertex: false, uniform: true, copy_dst: true },
    }
}

/// The layout of the camera's bind group: the uniform buffer at binding 0,
/// seen by the vertex stage.
pub open spec fn camera_bind_group_layout_spec() -> Seq<BindGroupLayoutEntry> {
    seq![
        BindGroupLayoutEntry {
            binding: 0,
            visibility: ShaderStage::Vertex,
            ty: BindingType::UniformBuffer,
        },
    ]
}

/// The layout of the blit pass's bind group: the offscreen target's view at
/// binding 0 and the sampler at binding 1, both seen by the fragment stage.
pub open spec fn blit_bind_group_layout_spec() -> Seq<BindGroupLayoutEntry> {
    seq![
        BindGroupLayoutEntry {
            binding: 0,
            visibility: ShaderStage::Fragment,
            ty: BindingType::FilterableTexture2d,
        },
        BindGroupLayoutEntry {
            binding: 1,
            visibility: ShaderStage::Fragment,
            ty: BindingType::FilteringSampler,
        },
    ]
}

impl Buffer {
    /// What the buffer is created for.
    pub fn usage(self) -> (usage: BufferUsage)
        ensures
            usage == buffer_usage_spec(self),
    {
        match self {
            Buffer::SceneVertices | Buffer::BlitVertices => BufferUsage {
                vertex: true,
                uniform: false,
                copy_dst: false,
            },
            Buffer::InstanceTransforms => BufferUsage {
                vertex: true,
                uniform: false,
                copy_dst: true,
            },
            Buffer::CameraUniform => BufferUsage { vertex: false, uniform: true, copy_dst: true },
        }
    }
}

/// The layout of the camera's bind group.
pub fn camera_bind_group_layout() -> (entries: Vec<BindGroupLayoutEntry>)
    ensures
        entries@ == camera_bind_group_layout_spec(),
{
    let mut entries: Vec<BindGroupLayoutEntry> = Vec::new();
    entries.push(
        BindGroupLayoutEntry {
            binding: 0,
            visibility: ShaderStage::Vertex,
            ty: BindingType::UniformBuffer,
        },
    );
    assert(entries@ =~= camera_bind_group_layout_spec());
    entries
}

/// The layout of the blit pass's bind group.
pub fn blit_bind_group_layout() -> (entries: Vec<BindGroupLayoutEntry>)
    ensures
        entries@ == blit_bind_group_layout_spec(),
{
    let mut entries: Vec<BindGroupLayoutEntry> = Vec::new();
    entries.push(
        BindGroupLayoutEntry {
            binding: 0,
            visibility: ShaderStage::Fragment,
            ty: BindingType::FilterableTexture2d,
        },
    );
    entries.push(
        BindGroupLayoutEntry {
            binding: 1,
            visibility: ShaderStage::Fragment,
            ty: BindingType::FilteringSampler,
        },
    );
    assert(entries@ =~= blit_bind_group_layout_spec());
    entries
}

/// Every buffer is created for what the frame does with it: the buffers a
/// tick writes can be copied to, the buffers the passes read vertices and
/// instances from are vertex buffers, and the camera's buffer is a uniform
/// buffer.
pub proof fn lemma_buffers_fit_their_uses(targets: DerivedTargets, instance_count: u32)
    ensures
        buffer_usage_spec(upload_plan_spec(instance_count).camera.buffer).copy_dst,
        buffer_usage_spec(upload_plan_spec(instance_count).instances.buffer).copy_dst,
        buffer_usage_spec(upload_plan_spec(instance_count).camera.buffer).uniform,
        buffer_usage_spec(scene_pass_spec(targets, instance_count).vertex_buffer).vertex,
        buffer_usage_spec(scene_pass_spec(targets, instance_count).instance_buffer->0).vertex,
        buffer_usage_spec(blit_pass_spec(targets).vertex_buffer).vertex,
        scene_pass_spec(targets, instance_count).instance_buffer
            == Some(upload_plan_spec(instance_count).instances.buffer),
{
}

} // verus!
