use rtdgi_core::filter::{blend_toward, shade_or_sky, temporal_filter_pixel};
use rtdgi_core::gbuffer::GbufferDepth;
use rtdgi_core::graph::Handle;
use rtdgi_core::reprojection::calculate_reprojection_map;
use rtdgi_core::resource::{Format, ImageDesc, ResourceDesc, USAGE_SAMPLED, USAGE_STORAGE};
use rtdgi_core::rtdgi::RtdgiRenderer;
use rtdgi_core::temporal::{TemporalRegistry, TemporalRenderGraph};

const WIDTH: u32 = 1920;
const HEIGHT: u32 = 1080;

fn gbuffer_desc() -> ImageDesc {
    ImageDesc::new_2d(Format::Rgba8Unorm, WIDTH, HEIGHT).with_usage(USAGE_SAMPLED | USAGE_STORAGE)
}

fn depth_desc() -> ImageDesc {
    ImageDesc::new_2d(Format::D32Sfloat, WIDTH, HEIGHT).with_usage(USAGE_SAMPLED)
}

struct FrameOutput {
    passes: usize,
    resources: usize,
    barriers: usize,
    irradiance: Handle,
}

fn run_frame(renderer: &RtdgiRenderer, reg: TemporalRegistry) -> (FrameOutput, TemporalRegistry) {
    let mut tg = TemporalRenderGraph::begin_frame(reg);
    let gbuffer = tg.import(ResourceDesc::Image(gbuffer_desc()));
    let depth = tg.import(ResourceDesc::Image(depth_desc()));
    let geometric_normal = tg.import(ResourceDesc::Image(gbuffer_desc()));
    let gd = GbufferDepth::new(
        &mut tg.rg,
        gbuffer,
        depth,
        geometric_normal,
        gbuffer_desc(),
        depth_desc(),
    );
    let velocity = tg.import(ResourceDesc::Image(gbuffer_desc()));
    let reprojection_map = calculate_reprojection_map(&mut tg, &gd, velocity)
        .expect("previous-depth stream must stay compatible");
    let sky_cube = tg.import(ResourceDesc::Image(gbuffer_desc()));
    let ssao = tg.import(ResourceDesc::Image(gbuffer_desc()));
    let ussao = tg.import(ResourceDesc::Image(gbuffer_desc()));
    let tlas = tg.import(ResourceDesc::AccelStructure);
    assert!(renderer.streams_accepted(&tg.registry, gbuffer_desc()));
    let irradiance = renderer.render(
        &mut tg,
        &gd,
        reprojection_map,
        sky_cube,
        1,
        tlas,
        ssao,
        ussao,
    );
    assert!(tg.rg.validate(), "the frame's graph has no dangling reads");
    let schedule = tg.rg.compile_schedule();
    let (rg, reg) = tg.finish_frame();
    (
        FrameOutput {
            passes: rg.passes.len(),
            resources: rg.resources.len(),
            barriers: schedule.barriers.len(),
            irradiance: Handle { id: irradiance.id },
        },
        reg,
    )
}

#[test]
fn end_to_end_two_frames() {
    let renderer = RtdgiRenderer::new();
    let reg = TemporalRegistry::new_registry();

    let (frame1, reg) = run_frame(&renderer, reg);
    // downsample 2 + reprojection 2 + pipeline 8 + two spatial-reuse passes
    assert_eq!(frame1.passes, 14);
    assert_eq!(frame1.resources, 41);
    assert!(frame1.barriers > 0);

    // all eight GI streams plus the previous-depth slot now persist
    assert_eq!(reg.slots.len(), 9);
    let keys: Vec<&str> = reg.slots.iter().map(|s| s.key.as_str()).collect();
    for key in [
        "reprojection.prev_depth",
        "rtdgi.temporal2",
        "rtdgi.hit_normal",
        "rtdgi.candidate",
        "rtdgi.irradiance",
        "rtdgi.ray",
        "rtdgi.reservoir",
        "rtdgi.temporal",
        "rtdgi.temporal2_var",
    ] {
        assert!(keys.contains(&key), "missing stream {key}");
    }

    // an identical second frame records the identical graph shape
    let (frame2, reg) = run_frame(&renderer, reg);
    assert_eq!(frame2.passes, frame1.passes);
    assert_eq!(frame2.resources, frame1.resources);
    assert_eq!(frame2.barriers, frame1.barriers);
    assert_eq!(frame2.irradiance.id, frame1.irradiance.id);
    assert_eq!(reg.slots.len(), 9);
}

#[test]
fn first_frame_sky_fallback_then_convergence() {
    // frame 1: no history anywhere. A pixel whose ray missed shades to the
    // sky estimate, and zero reprojection validity passes it through.
    let sky: i64 = 700;
    let traced1 = shade_or_sky(None, sky);
    let out1 = temporal_filter_pixel(traced1, 0, 0, 1, 4);
    assert_eq!(out1, sky);

    // frame 2: identical inputs; the resolved estimate is now accumulated
    // against frame 1's output, moving strictly closer to the resolved
    // value than frame 1's output was.
    let resolved: i64 = 300;
    let out2 = temporal_filter_pixel(resolved, out1, 255, 1, 4);
    assert!((out2 - resolved).abs() < (out1 - resolved).abs());
}

#[test]
fn zero_spatial_reuse_passes_still_valid() {
    let mut renderer = RtdgiRenderer::new();
    renderer.spatial_reuse_pass_count = 0;
    let reg = TemporalRegistry::new_registry();
    let (frame, _reg) = run_frame(&renderer, reg);
    // two fewer passes than the default configuration, and still valid
    assert_eq!(frame.passes, 12);
}

#[test]
fn lut_buffers_sized_from_tables() {
    let renderer = RtdgiRenderer::new();
    assert_eq!(renderer.ranking_tile_buf.size_bytes, 4 * 131072);
    assert_eq!(renderer.scrambling_tile_buf.size_bytes, 4 * 131072);
    assert_eq!(renderer.sobol_buf.size_bytes, 4 * 65536);
}

#[test]
fn incompatible_depth_extent_is_refused_next_frame() {
    let reg = TemporalRegistry::new_registry();
    let mut tg = TemporalRenderGraph::begin_frame(reg);
    let gbuffer = tg.import(ResourceDesc::Image(gbuffer_desc()));
    let depth = tg.import(ResourceDesc::Image(depth_desc()));
    let normal = tg.import(ResourceDesc::Image(gbuffer_desc()));
    let gd = GbufferDepth::new(&mut tg.rg, gbuffer, depth, normal, gbuffer_desc(), depth_desc());
    let velocity = tg.import(ResourceDesc::Image(gbuffer_desc()));
    assert!(calculate_reprojection_map(&mut tg, &gd, velocity).is_ok());
    let (_, reg) = tg.finish_frame();

    // next frame at another extent: the previous-depth slot refuses it
    let mut tg = TemporalRenderGraph::begin_frame(reg);
    let small = ImageDesc::new_2d(Format::D32Sfloat, 640, 480).with_usage(USAGE_SAMPLED);
    let small_gb = ImageDesc::new_2d(Format::Rgba8Unorm, 640, 480)
        .with_usage(USAGE_SAMPLED | USAGE_STORAGE);
    let gbuffer = tg.import(ResourceDesc::Image(small_gb));
    let depth = tg.import(ResourceDesc::Image(small));
    let normal = tg.import(ResourceDesc::Image(small_gb));
    let gd = GbufferDepth::new(&mut tg.rg, gbuffer, depth, normal, small_gb, small);
    let velocity = tg.import(ResourceDesc::Image(small_gb));
    assert!(calculate_reprojection_map(&mut tg, &gd, velocity).is_err());
}

#[test]
fn static_output_settles_with_variance_driven_blend() {
    // the full-resolution accumulator with any constant blend factor
    // reaches its target exactly and stays there
    let mut value: i64 = 900;
    let target: i64 = -250;
    for _ in 0..5000 {
        value = blend_toward(value, target, 1, 8);
    }
    assert_eq!(value, target);
    assert_eq!(blend_toward(value, target, 1, 8), target);
}
