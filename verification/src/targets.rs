//! The resources derived from the surface size: the depth buffer, the
//! offscreen color target, and the bind group through which the blit pass
//! samples that target.

use vstd::prelude::*;
use crate::surface::{ColorFormat, Extent, SurfaceConfig};

verus! {

/// The format of a texture.
#[derive(Clone, Copy, Debug, PartialEq, Eq, Structural)]
pub enum TextureFormat {
    /// One of the platform's color formats.
    Color(ColorFormat),
    /// Depth in one 32-bit float per texel.
    Depth32Float,
}

/// The number of dimensions of a texture.
#[derive(Clone, Copy, Debug, PartialEq, Eq, Structural)]
pub enum TextureDimension {
    D1,
    D2,
    D3,
}

/// What a texture may be used for.
#[derive(Clone, Copy, Debug, PartialEq, Eq, Structural)]
pub struct TextureUsage {
    pub copy_src: bool,
    pub copy_dst: bool,
    pub texture_binding: bool,
    pub storage_binding: bool,
    pub render_attachment: bool,
}

/// Which of the two derived render targets a resource belongs to.
#[derive(Clone, Copy, Debug, PartialEq, Eq, Structural)]
pub enum TargetKind {
    Depth,
    Color,
}

/// Everything needed to allocate one texture.
#[derive(Clone, Copy, Debug, PartialEq, Eq, Structural)]
pub struct TextureDescriptor {
    pub kind: TargetKind,
    pub width: u32,
    pub height: u32,
    pub depth_or_array_layers: u32,
    pub mip_level_count: u32,
    pub sample_count: u32,
    pub dimension: TextureDimension,
    pub format: TextureFormat,
    pub usage: TextureUsage,
}

/// The identity of a texture view. Views of different generations, or of
/// different kinds, are different views.
#[derive(Clone, Copy, Debug, PartialEq, Eq, Structural)]
pub struct ViewId {
    pub generation: u64,
    pub kind: TargetKind,
}

/// A texture to render into, with the view through which passes reach it.
#[derive(Clone, Copy, Debug, PartialEq, Eq, Structural)]
pub struct RenderTarget {
    pub descriptor: TextureDescriptor,
    pub view: ViewId,
}

/// How a sampler treats coordinates outside the texture.
#[derive(Clone, Copy, Debug, PartialEq, Eq, Structural)]
pub enum AddressMode {
    ClampToEdge,
    Repeat,
    MirrorRepeat,
}

/// How a sampler picks texels.
#[derive(Clone, Copy, Debug, PartialEq, Eq, Structural)]
pub enum FilterMode {
    Nearest,
    Linear,
}

/// Everything needed to create a sampler.
#[derive(Clone, Copy, Debug, PartialEq, Eq, Structural)]
pub struct SamplerDescriptor {
    pub address_mode_u: AddressMode,
    pub address_mode_v: AddressMode,
    pub address_mode_w: AddressMode,
    pub mag_filter: FilterMode,
    pub min_filter: FilterMode,
    pub mipmap_filter: FilterMode,
}

/// The bind group of the blit pass: the view it samples at binding 0 and
/// the sampler at binding 1.
#[derive(Clone, Copy, Debug, PartialEq, Eq, Structural)]
pub struct BlitBindGroup {
    pub view: ViewId,
    pub sampler: SamplerDescriptor,
}

/// One generation of derived resources. It is built as a whole and replaced
/// as a whole, so no pass can see a half-updated set.
#[derive(Clone, Copy, Debug, PartialEq, Eq, Structural)]
pub struct DerivedTargets {
    pub depth: RenderTarget,
    pub color: RenderTarget,
    pub blit_bind_group: BlitBindGroup,
}

/// The usage of the offscreen color target: rendered into, copied from, and
/// sampled.
pub open spec fn color_target_usage() -> TextureUsage {
    TextureUsage {
        copy_src: true,
        copy_dst: false,
        texture_binding: true,
        storage_binding: false,
        render_attachment: true,
    }
}

/// The usage of the depth buffer: rendered into and sampled.
pub open spec fn depth_target_usage() -> TextureUsage {
    TextureUsage {
        copy_src: false,
        copy_dst: false,
        texture_binding: true,
        storage_binding: false,
        render_attachment: true,
    }
}

/// A single-layer, single-mip, single-sample 2D texture of the given kind,
/// size, format and usage.
pub open spec fn plain_2d(
    kind: TargetKind,
    size: Extent,
    format: TextureFormat,
    usage: TextureUsage,
) -> TextureDescriptor {
    TextureDescriptor {
        kind,
        width: size.width,
        height: size.height,
        depth_or_array_layers: 1,
        mip_level_count: 1,
        sample_count: 1,
        dimension: TextureDimension::D2,
        format,
        usage,
    }
}

/// The offscreen color target of generation `generation` for a surface of
/// size `size`.
pub open spec fn color_target(size: Extent, format: ColorFormat, generation: u64) -> RenderTarget {
    RenderTarget {
        descriptor: plain_2d(
            TargetKind::Color,
            size,
            TextureFormat::Color(format),
            color_target_usage(),
        ),
        view: ViewId { generation, kind: TargetKind::Color },
    }
}

/// The depth buffer of generation `generation` for a surface of size `size`.
pub open spec fn depth_target(size: Extent, generation: u64) -> RenderTarget {
    RenderTarget {
        descriptor: plain_2d(
            TargetKind::Depth,
            size,
            TextureFormat::Depth32Float,
            depth_target_usage(),
        ),
        view: ViewId { generation, kind: TargetKind::Depth },
    }
}

/// The sampler of the blit pass: clamped at the edges, linear when
/// magnifying, nearest when minifying and between mip levels.
pub open spec fn blit_sampler_spec() -> SamplerDescriptor {
    SamplerDescriptor {
        address_mode_u: AddressMode::ClampToEdge,
        address_mode_v: AddressMode::ClampToEdge,
        address_mode_w: AddressMode::ClampToEdge,
        mag_filter: FilterMode::Linear,
        min_filter: FilterMode::Nearest,
        mipmap_filter: FilterMode::Nearest,
    }
}

/// The derived resources of generation `generation` for a surface of size
/// `size` and color format `format`.
pub open spec fn derived_targets(size: Extent, format: ColorFormat, generation: u64) -> DerivedTargets {
    DerivedTargets {
        depth: depth_target(size, generation),
        color: color_target(size, format, generation),
        blit_bind_group: BlitBindGroup {
            view: color_target(size, format, generation).view,
            sampler: blit_sampler_spec(),
        },
    }
}

impl TargetKind {
    /// The label under which the kind's texture shows up in GPU debuggers.
    pub open spec fn label_spec(self) -> Seq<char> {
        match self {
            TargetKind::Depth => "Depth Texture"@,
            TargetKind::Color => "Render Target Texture"@,
        }
    }

    /// The label under which the kind's texture shows up in GPU debuggers.
    pub fn label(self) -> (label: &'static str)
        ensures
            label@ == self.label_spec(),
    {
        match self {
            TargetKind::Depth => "Depth Texture",
            TargetKind::Color => "Render Target Texture",
        }
    }
}

impl RenderTarget {
    /// The size of the backing texture.
    pub open spec fn size(self) -> Extent {
        Extent { width: self.descriptor.width, height: self.descriptor.height }
    }

    /// The size of the backing texture.
    pub fn extent(&self) -> (size: Extent)
        ensures
            size == self.size(),
    {
        Extent { width: self.descriptor.width, height: self.descriptor.height }
    }
}

/// Describes the offscreen color target for the configured surface size: a
/// 2D texture of that size in the given format, usable as a render
/// attachment, as a copy source and for sampling, with a fresh view.
pub fn create_render_target_texture(
    config: &SurfaceConfig,
    texture_format: ColorFormat,
    generation: u64,
) -> (target: RenderTarget)
    ensures
        target == color_target(config.size(), texture_format, generation),
{
    let descriptor = TextureDescriptor {
        kind: TargetKind::Color,
        width: config.width,
        height: config.height,
        depth_or_array_layers: 1,
        mip_level_count: 1,
        sample_count: 1,
        dimension: TextureDimension::D2,
        format: TextureFormat::Color(texture_format),
        usage: TextureUsage {
            copy_src: true,
            copy_dst: false,
            texture_binding: true,
            storage_binding: false,
            render_attachment: true,
        },
    };
    RenderTarget { descriptor, view: ViewId { generation, kind: TargetKind::Color } }
}

/// Describes the depth buffer for the configured surface size: a 2D texture
/// of that size in the 32-bit float depth format, usable as a render
/// attachment and for sampling, with a fresh view.
pub fn create_depth_texture(config: &SurfaceConfig, generation: u64) -> (target: RenderTarget)
    ensures
        target == depth_target(config.size(), generation),
{
    let descriptor = TextureDescriptor {
        kind: TargetKind::Depth,
        width: config.width,
        height: config.height,
        depth_or_array_layers: 1,
        mip_level_count: 1,
        sample_count: 1,
        dimension: TextureDimension::D2,
        format: TextureFormat::Depth32Float,
        usage: TextureUsage {
            copy_src: false,
            copy_dst: false,
            texture_binding: true,
            storage_binding: false,
            render_attachment: true,
        },
    };
    RenderTarget { descriptor, view: ViewId { generation, kind: TargetKind::Depth } }
}

/// The sampler of the blit pass.
pub fn blit_sampler() -> (sampler: SamplerDescriptor)
    ensures
        sampler == blit_sampler_spec(),
{
    SamplerDescriptor {
        address_mode_u: AddressMode::ClampToEdge,
        address_mode_v: AddressMode::ClampToEdge,
        address_mode_w: AddressMode::ClampToEdge,
        mag_filter: FilterMode::Linear,
        min_filter: FilterMode::Nearest,
        mipmap_filter: FilterMode::Nearest,
    }
}

impl BlitBindGroup {
    /// The bind group that samples `color_view` through `sampler`.
    pub fn build(color_view: ViewId, sampler: SamplerDescriptor) -> (group: BlitBindGroup)
        ensures
            group == (BlitBindGroup { view: color_view, sampler }),
    {
        BlitBindGroup { view: color_view, sampler }
    }
}

impl DerivedTargets {
    /// Whether this set is consistent in itself and fits `config`: both
    /// targets have the configured size, the color target has the surface's
    /// format, the depth buffer the depth format, the two views differ, and
    /// the bind group samples this set's color view.
    pub open spec fn matches(self, config: SurfaceConfig) -> bool {
        &&& self.depth.size() == config.size()
        &&& self.color.size() == config.size()
        &&& self.depth.descriptor.format == TextureFormat::Depth32Float
        &&& self.color.descriptor.format == TextureFormat::Color(config.color_format)
        &&& self.depth.view != self.color.view
        &&& self.blit_bind_group.view == self.color.view
        &&& self.blit_bind_group.sampler == blit_sampler_spec()
    }

    /// Builds generation `generation` of the derived resources for `config`:
    /// first the depth buffer, then the color target, then the bind group
    /// that samples the new color view.
    pub fn rebuild(config: &SurfaceConfig, generation: u64) -> (targets: DerivedTargets)
        ensures
            targets == derived_targets(config.size(), config.color_format, generation),
            targets.matches(*config),
    {
        let depth = create_depth_texture(config, generation);
        let color = create_render_target_texture(config, config.color_format, generation);
        let blit_bind_group = BlitBindGroup::build(color.view, blit_sampler());
        DerivedTargets { depth, color, blit_bind_group }
    }
}

/// Every generation of derived resources fits the configuration it was built
/// for, and the views of two different generations are different views.
pub proof fn lemma_derived_targets_fresh(config: SurfaceConfig, old_generation: u64, generation: u64)
    requires
        old_generation != generation,
    ensures
        derived_targets(config.size(), config.color_format, generation).matches(config),
        derived_targets(config.size(), config.color_format, generation).color.view
            != derived_targets(config.size(), config.color_format, old_generation).color.view,
        derived_targets(config.size(), config.color_format, generation).depth.view
            != derived_targets(config.size(), config.color_format, old_generation).depth.view,
        derived_targets(config.size(), config.color_format, generation).blit_bind_group.view
            != derived_targets(config.size(), config.color_format, old_generation).color.view,
{
}

} // verus!
