use render_harness::surface::{ColorFormat, Extent, PresentMode, SurfaceConfig};
use render_harness::targets::{
    blit_sampler, create_depth_texture, create_render_target_texture, AddressMode, BlitBindGroup,
    DerivedTargets, FilterMode, TargetKind, TextureDimension, TextureFormat, TextureUsage, ViewId,
};

fn format() -> ColorFormat {
    ColorFormat { code: 23 }
}

#[test]
fn surface_config_presents_immediately() {
    let config = SurfaceConfig::new(640, 480, format());
    assert_eq!(config.width, 640);
    assert_eq!(config.height, 480);
    assert_eq!(config.color_format, format());
    assert_eq!(config.present_mode, PresentMode::Immediate);
    assert_eq!(config.extent(), Extent { width: 640, height: 480 });
}

#[test]
fn configure_changes_only_the_size() {
    let mut config = SurfaceConfig::new(640, 480, format());
    config.present_mode = PresentMode::Fifo;
    config.configure(1280, 720);
    assert_eq!(
        config,
        SurfaceConfig {
            width: 1280,
            height: 720,
            color_format: format(),
            present_mode: PresentMode::Fifo,
        }
    );
}

#[test]
fn configure_is_idempotent() {
    let mut once = SurfaceConfig::new(1, 1, format());
    once.configure(300, 200);
    let mut twice = once;
    twice.configure(300, 200);
    assert_eq!(once, twice);
}

#[test]
fn render_target_descriptor_is_exact() {
    let config = SurfaceConfig::new(100, 50, format());
    let target = create_render_target_texture(&config, format(), 4);
    let d = target.descriptor;
    assert_eq!(d.kind, TargetKind::Color);
    assert_eq!((d.width, d.height, d.depth_or_array_layers), (100, 50, 1));
    assert_eq!(d.mip_level_count, 1);
    assert_eq!(d.sample_count, 1);
    assert_eq!(d.dimension, TextureDimension::D2);
    assert_eq!(d.format, TextureFormat::Color(format()));
    assert_eq!(
        d.usage,
        TextureUsage {
            copy_src: true,
            copy_dst: false,
            texture_binding: true,
            storage_binding: false,
            render_attachment: true,
        }
    );
    assert_eq!(target.view, ViewId { generation: 4, kind: TargetKind::Color });
    assert_eq!(target.extent(), Extent { width: 100, height: 50 });
}

#[test]
fn render_target_takes_the_format_it_is_given() {
    let config = SurfaceConfig::new(8, 8, format());
    let other = ColorFormat { code: 99 };
    let target = create_render_target_texture(&config, other, 0);
    assert_eq!(target.descriptor.format, TextureFormat::Color(other));
}

#[test]
fn depth_descriptor_is_exact() {
    let config = SurfaceConfig::new(100, 50, format());
    let target = create_depth_texture(&config, 9);
    let d = target.descriptor;
    assert_eq!(d.kind, TargetKind::Depth);
    assert_eq!((d.width, d.height, d.depth_or_array_layers), (100, 50, 1));
    assert_eq!(d.mip_level_count, 1);
    assert_eq!(d.sample_count, 1);
    assert_eq!(d.dimension, TextureDimension::D2);
    assert_eq!(d.format, TextureFormat::Depth32Float);
    assert_eq!(
        d.usage,
        TextureUsage {
            copy_src: false,
            copy_dst: false,
            texture_binding: true,
            storage_binding: false,
            render_attachment: true,
        }
    );
    assert_eq!(target.view, ViewId { generation: 9, kind: TargetKind::Depth });
}

#[test]
fn zero_sized_surface_gives_zero_sized_targets() {
    let config = SurfaceConfig::new(0, 0, format());
    assert_eq!(create_depth_texture(&config, 0).extent(), Extent { width: 0, height: 0 });
    assert_eq!(
        create_render_target_texture(&config, format(), 0).extent(),
        Extent { width: 0, height: 0 }
    );
}

#[test]
fn largest_surface_gives_largest_targets() {
    let config = SurfaceConfig::new(u32::MAX, u32::MAX, format());
    let target = create_depth_texture(&config, u64::MAX);
    assert_eq!(target.extent(), Extent { width: u32::MAX, height: u32::MAX });
    assert_eq!(target.view.generation, u64::MAX);
}

#[test]
fn texture_labels() {
    assert_eq!(TargetKind::Depth.label(), "Depth Texture");
    assert_eq!(TargetKind::Color.label(), "Render Target Texture");
}

#[test]
fn blit_sampler_clamps_and_filters() {
    let sampler = blit_sampler();
    assert_eq!(sampler.address_mode_u, AddressMode::ClampToEdge);
    assert_eq!(sampler.address_mode_v, AddressMode::ClampToEdge);
    assert_eq!(sampler.address_mode_w, AddressMode::ClampToEdge);
    assert_eq!(sampler.mag_filter, FilterMode::Linear);
    assert_eq!(sampler.min_filter, FilterMode::Nearest);
    assert_eq!(sampler.mipmap_filter, FilterMode::Nearest);
}

#[test]
fn bind_group_holds_what_it_is_built_from() {
    let view = ViewId { generation: 3, kind: TargetKind::Color };
    let group = BlitBindGroup::build(view, blit_sampler());
    assert_eq!(group.view, view);
    assert_eq!(group.sampler, blit_sampler());
}

#[test]
fn rebuild_builds_one_consistent_generation() {
    let config = SurfaceConfig::new(320, 240, format());
    let targets = DerivedTargets::rebuild(&config, 5);
    assert_eq!(targets.depth, create_depth_texture(&config, 5));
    assert_eq!(targets.color, create_render_target_texture(&config, format(), 5));
    assert_eq!(targets.blit_bind_group.view, targets.color.view);
    assert_eq!(targets.blit_bind_group.sampler, blit_sampler());
    assert_ne!(targets.depth.view, targets.color.view);
    assert_eq!(targets.depth.extent(), config.extent());
    assert_eq!(targets.color.extent(), config.extent());
}

#[test]
fn generations_have_different_views() {
    let config = SurfaceConfig::new(320, 240, format());
    let old = DerivedTargets::rebuild(&config, 5);
    let new = DerivedTargets::rebuild(&config, 6);
    assert_ne!(old.color.view, new.color.view);
    assert_ne!(old.depth.view, new.depth.view);
    assert_ne!(new.blit_bind_group.view, old.color.view);
}
