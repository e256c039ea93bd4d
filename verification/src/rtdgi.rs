use vstd::prelude::*;

use crate::gbuffer::GbufferDepth;
use crate::graph::{AccessKind, Handle, Pass, ReadOnlyHandle};
use crate::luts::{make_lut_buffer, ranking_tile_table, scrambling_tile_table, sobol_table};
use crate::resource::{
    BufferDesc, Format, ImageDesc, ResourceDesc, USAGE_SAMPLED, USAGE_STORAGE,
};
use crate::temporal::{PingPongTemporalResource, TemporalRegistry, TemporalRenderGraph};

verus! {

/// The descriptor shared by the pipeline's accumulation images: a
/// four-channel high-precision image sampled by later stages and written
/// as storage.
pub open spec fn spec_temporal_tex_desc(width: u32, height: u32) -> ImageDesc {
    ImageDesc {
        format: Format::Rgba32Sfloat,
        width,
        height,
        depth: 1u32,
        usage: (USAGE_SAMPLED | USAGE_STORAGE) as u32,
        mip_levels: 1u32,
        array_layers: 1u32,
    }
}

/// The descriptor of the full-resolution accumulation variance image.
pub open spec fn spec_variance_tex_desc(width: u32, height: u32) -> ImageDesc {
    ImageDesc {
        format: Format::Rg16Sfloat,
        width,
        height,
        depth: 1u32,
        usage: (USAGE_SAMPLED | USAGE_STORAGE) as u32,
        mip_levels: 1u32,
        array_layers: 1u32,
    }
}

pub open spec fn spec_half_width(d: ImageDesc) -> u32 {
    ((d.width + 1) / 2) as u32
}

pub open spec fn spec_half_height(d: ImageDesc) -> u32 {
    ((d.height + 1) / 2) as u32
}

/// The multi-stage spatiotemporal resampling GI pipeline: eight named
/// temporal streams, the three blue-noise lookup tables loaded once at
/// initialization, and the configurable number of spatial-reuse passes.
pub struct RtdgiRenderer {
    pub temporal_irradiance_tex: PingPongTemporalResource,
    pub temporal_ray_tex: PingPongTemporalResource,
    pub temporal_reservoir_tex: PingPongTemporalResource,
    pub temporal_candidate_tex: PingPongTemporalResource,
    pub temporal_tex: PingPongTemporalResource,
    pub temporal2_tex: PingPongTemporalResource,
    pub temporal2_variance_tex: PingPongTemporalResource,
    pub temporal_hit_normal_tex: PingPongTemporalResource,
    pub ranking_tile_buf: BufferDesc,
    pub scrambling_tile_buf: BufferDesc,
    pub sobol_buf: BufferDesc,
    pub spatial_reuse_pass_count: u32,
}

impl RtdgiRenderer {
    /// The stream keys, in the order the frame steps them.
    pub open spec fn stream_keys(self) -> Seq<Seq<char>> {
        seq![
            self.temporal2_tex.key@,
            self.temporal_hit_normal_tex.key@,
            self.temporal_candidate_tex.key@,
            self.temporal_irradiance_tex.key@,
            self.temporal_ray_tex.key@,
            self.temporal_reservoir_tex.key@,
            self.temporal_tex.key@,
            self.temporal2_variance_tex.key@,
        ]
    }

    /// The eight streams have pairwise distinct keys, so stepping one
    /// stream never disturbs another.
    pub open spec fn wf(self) -> bool {
        forall|i: int, j: int|
            0 <= i < 8 && 0 <= j < 8 && i != j ==> self.stream_keys()[i] != self.stream_keys()[j]
    }

    /// Every stream would accept this frame's descriptor: it either does
    /// not exist yet or was created compatibly. `gd` is the gbuffer
    /// descriptor that fixes the frame's extents.
    pub open spec fn spec_streams_accepted(self, reg: TemporalRegistry, gd: ImageDesc) -> bool {
        let hw = spec_half_width(gd);
        let hh = spec_half_height(gd);
        &&& reg.accepts(self.temporal2_tex.key@, spec_temporal_tex_desc(gd.width, gd.height))
        &&& reg.accepts(self.temporal_hit_normal_tex.key@, spec_temporal_tex_desc(hw, hh))
        &&& reg.accepts(self.temporal_candidate_tex.key@, spec_temporal_tex_desc(hw, hh))
        &&& reg.accepts(self.temporal_irradiance_tex.key@, spec_temporal_tex_desc(hw, hh))
        &&& reg.accepts(self.temporal_ray_tex.key@, spec_temporal_tex_desc(hw, hh))
        &&& reg.accepts(self.temporal_reservoir_tex.key@, spec_temporal_tex_desc(hw, hh))
        &&& reg.accepts(self.temporal_tex.key@, spec_temporal_tex_desc(hw, hh))
        &&& reg.accepts(
            self.temporal2_variance_tex.key@,
            spec_variance_tex_desc(gd.width, gd.height),
        )
    }

    /// Runtime form of `spec_streams_accepted`, for callers that must
    /// refuse an incompatible frame instead of panicking.
    pub fn streams_accepted(&self, reg: &TemporalRegistry, gd: ImageDesc) -> (b: bool)
        requires
            reg.wf(),
        ensures
            b == self.spec_streams_accepted(*reg, gd),
    {
        let full = Self::temporal_tex_desc(gd.width, gd.height);
        let hw = gd.width / 2 + gd.width % 2;
        let hh = gd.height / 2 + gd.height % 2;
        let half = Self::temporal_tex_desc(hw, hh);
        let variance = Self::variance_tex_desc(gd.width, gd.height);
        let b = reg.accepts_stream(&self.temporal2_tex.key, full) && reg.accepts_stream(
            &self.temporal_hit_normal_tex.key,
            half,
        ) && reg.accepts_stream(&self.temporal_candidate_tex.key, half) && reg.accepts_stream(
            &self.temporal_irradiance_tex.key,
            half,
        ) && reg.accepts_stream(&self.temporal_ray_tex.key, half) && reg.accepts_stream(
            &self.temporal_reservoir_tex.key,
            half,
        ) && reg.accepts_stream(&self.temporal_tex.key, half) && reg.accepts_stream(
            &self.temporal2_variance_tex.key,
            variance,
        );
        b
    }

    /// Initialize the pipeline: name the eight temporal streams and build
    /// the three blue-noise lookup-table buffers, loaded once as read-only
    /// GPU storage. The default spatial-reuse pass count is two.
    pub fn new() -> (s: RtdgiRenderer)
        ensures
            s.wf(),
            s.spatial_reuse_pass_count == 2u32,
            s.ranking_tile_buf.size_bytes == 4 * crate::luts::RANKING_TILE_LEN,
            s.scrambling_tile_buf.size_bytes == 4 * crate::luts::SCRAMBLING_TILE_LEN,
            s.sobol_buf.size_bytes == 4 * crate::luts::SOBOL_LEN,
            s.temporal_irradiance_tex.key@ == "rtdgi.irradiance"@,
            s.temporal_ray_tex.key@ == "rtdgi.ray"@,
            s.temporal_reservoir_tex.key@ == "rtdgi.reservoir"@,
            s.temporal_candidate_tex.key@ == "rtdgi.candidate"@,
            s.temporal_tex.key@ == "rtdgi.temporal"@,
            s.temporal2_tex.key@ == "rtdgi.temporal2"@,
            s.temporal2_variance_tex.key@ == "rtdgi.temporal2_var"@,
            s.temporal_hit_normal_tex.key@ == "rtdgi.hit_normal"@,
    {
        let ranking = ranking_tile_table();
        let scrambling = scrambling_tile_table();
        let sobol = sobol_table();
        let s = RtdgiRenderer {
            temporal_irradiance_tex: PingPongTemporalResource::new("rtdgi.irradiance"),
            temporal_ray_tex: PingPongTemporalResource::new("rtdgi.ray"),
            temporal_reservoir_tex: PingPongTemporalResource::new("rtdgi.reservoir"),
            temporal_candidate_tex: PingPongTemporalResource::new("rtdgi.candidate"),
            temporal_tex: PingPongTemporalResource::new("rtdgi.temporal"),
            temporal2_tex: PingPongTemporalResource::new("rtdgi.temporal2"),
            temporal2_variance_tex: PingPongTemporalResource::new("rtdgi.temporal2_var"),
            temporal_hit_normal_tex: PingPongTemporalResource::new("rtdgi.hit_normal"),
            ranking_tile_buf: make_lut_buffer(&ranking),
            scrambling_tile_buf: make_lut_buffer(&scrambling),
            sobol_buf: make_lut_buffer(&sobol),
            spatial_reuse_pass_count: 2,
        };
        proof {
            lemma_stream_keys_distinct();
        }
        s
    }

    /// The accumulation image descriptor at the given extent.
    pub fn temporal_tex_desc(width: u32, height: u32) -> (d: ImageDesc)
        ensures
            d == spec_temporal_tex_desc(width, height),
    {
        ImageDesc::new_2d(Format::Rgba32Sfloat, width, height).with_usage(
            USAGE_SAMPLED | USAGE_STORAGE,
        )
    }

    /// The accumulation variance image descriptor at the given extent.
    pub fn variance_tex_desc(width: u32, height: u32) -> (d: ImageDesc)
        ensures
            d == spec_variance_tex_desc(width, height),
    {
        ImageDesc::new_2d(Format::Rg16Sfloat, width, height).with_usage(
            USAGE_SAMPLED | USAGE_STORAGE,
        )
    }
}

impl RtdgiRenderer {
    /// Half-resolution temporal filter: exponentially blend the resolved
    /// irradiance with the reprojected history, with the sky environment
    /// as fallback for disoccluded pixels; persists the half-resolution
    /// temporal output via its stream and returns a locally filtered
    /// result for the spatial filter.
    fn temporal(
        &self,
        tg: &mut TemporalRenderGraph,
        input_color: Handle,
        gbuffer_depth: &GbufferDepth,
        reprojection_map: Handle,
        sky_cube: Handle,
    ) -> (r: Handle)
        requires
            old(tg).rg.wf(),
            old(tg).registry.wf(),
            old(tg).registry.next_image <= u64::MAX - 2,
            old(tg).registry.accepts(
                self.temporal_tex.key@,
                spec_temporal_tex_desc(
                    spec_half_width(gbuffer_depth.gbuffer_desc),
                    spec_half_height(gbuffer_depth.gbuffer_desc),
                ),
            ),
            old(tg).rg.readable(input_color.id as int),
            gbuffer_depth.readable_in(old(tg).rg),
            old(tg).rg.readable(reprojection_map.id as int),
            old(tg).rg.readable(sky_cube.id as int),
        ensures
            final(tg).rg.wf(),
            final(tg).registry.wf(),
            final(tg).registry.next_image <= old(tg).registry.next_image + 2,
            final(tg).rg.passes@.len() == old(tg).rg.passes@.len() + 1,
            final(tg).rg.resources@.len() == old(tg).rg.resources@.len() + 3,
            forall|x: int| old(tg).rg.readable(x) ==> final(tg).rg.readable(x),
            final(tg).rg.readable(r.id as int),
            forall|k2: Seq<char>, d2: ImageDesc|
                k2 != self.temporal_tex.key@ && old(tg).registry.accepts(k2, d2)
                    ==> final(tg).registry.accepts(k2, d2),
            forall|k2: Seq<char>|
                old(tg).registry.has_key(k2) ==> final(tg).registry.has_key(k2),
            final(tg).registry.has_key(self.temporal_tex.key@),
            forall|x: int|
                0 <= x < old(tg).rg.resources@.len() ==> final(tg).rg.resources@[x] == old(
                    tg,
                ).rg.resources@[x],
            forall|x: int|
                0 <= x < old(tg).rg.passes@.len() ==> final(tg).rg.passes@[x] == old(
                    tg,
                ).rg.passes@[x],
            // the result is this frame's locally filtered transient, not
            // the persisted stream output the same pass also writes
            r.id == old(tg).rg.resources@.len() + 2,
            final(tg).rg.resources@[r.id as int] == (crate::graph::ResourceSlot {
                desc: ResourceDesc::Image(
                    (ImageDesc {
                        format: Format::Rgba16Sfloat,
                        width: spec_half_width(gbuffer_depth.gbuffer_desc),
                        height: spec_half_height(gbuffer_depth.gbuffer_desc),
                        usage: 0u32,
                        ..gbuffer_depth.gbuffer_desc
                    }),
                ),
                origin: crate::graph::ResourceOrigin::Created,
            }),
            ({
                let p = final(tg).rg.passes@[old(tg).rg.passes@.len() as int];
                let out_id = (r.id - 2) as usize;
                let hist_id = (r.id - 1) as usize;
                &&& p.program@ == "/shaders/rtdgi/temporal_filter.hlsl"@
                &&& p.reads@ =~= seq![
                    crate::graph::PassAccess {
                        resource: input_color.id,
                        access: AccessKind::ShaderRead,
                    },
                    crate::graph::PassAccess { resource: hist_id, access: AccessKind::ShaderRead },
                    crate::graph::PassAccess {
                        resource: reprojection_map.id,
                        access: AccessKind::ShaderRead,
                    },
                    crate::graph::PassAccess {
                        resource: gbuffer_depth.half_view_normal_tex.id,
                        access: AccessKind::ShaderRead,
                    },
                    crate::graph::PassAccess {
                        resource: gbuffer_depth.half_depth_tex.id,
                        access: AccessKind::ShaderRead,
                    },
                    crate::graph::PassAccess {
                        resource: sky_cube.id,
                        access: AccessKind::ShaderRead,
                    },
                ]
                &&& p.writes@ =~= seq![
                    crate::graph::PassAccess { resource: out_id, access: AccessKind::ShaderWrite },
                    crate::graph::PassAccess { resource: r.id, access: AccessKind::ShaderWrite },
                ]
                &&& crate::temporal::is_temporal_slot(final(tg).rg.resources@[out_id as int])
            }),
    {
        let half_view_normal_tex = gbuffer_depth.half_view_normal();
        let half_depth_tex = gbuffer_depth.half_depth();
        let hw = gbuffer_depth.gbuffer_desc.width / 2 + gbuffer_depth.gbuffer_desc.width % 2;
        let hh = gbuffer_depth.gbuffer_desc.height / 2 + gbuffer_depth.gbuffer_desc.height % 2;

        let (temporal_output_tex, history_tex) = self.temporal_tex.get_output_and_history(
            tg,
            Self::temporal_tex_desc(hw, hh),
        );

        let temporal_filtered_tex = tg.create(
            ResourceDesc::Image(
                gbuffer_depth.gbuffer_desc.half_res().with_usage(0).with_format(
                    Format::Rgba16Sfloat,
                ),
            ),
        );

        let mut p = Pass::new("/shaders/rtdgi/temporal_filter.hlsl");
        p.read(input_color, AccessKind::ShaderRead);
        p.read(history_tex, AccessKind::ShaderRead);
        p.read(reprojection_map, AccessKind::ShaderRead);
        p.read(half_view_normal_tex, AccessKind::ShaderRead);
        p.read(half_depth_tex, AccessKind::ShaderRead);
        p.read(sky_cube, AccessKind::ShaderRead);
        p.write(temporal_output_tex, AccessKind::ShaderWrite);
        p.write(temporal_filtered_tex, AccessKind::ShaderWrite);
        let ghost p_g = p;
        tg.add_pass(p);
        proof {
            crate::graph::lemma_pass_writes_at(p_g, 1);
        }
        temporal_filtered_tex
    }

    /// Full-resolution second temporal filter: accumulate the upsampled
    /// irradiance against the separate full-resolution history, with the
    /// persisted variance image driving an adaptive blend factor; writes
    /// this frame's full-resolution temporal output and variance, and
    /// returns the pipeline's final filtered image.
    fn temporal2(
        &self,
        tg: &mut TemporalRenderGraph,
        input_color: Handle,
        gbuffer_depth: &GbufferDepth,
        reprojection_map: Handle,
        reprojected_history_tex: Handle,
        temporal_output_tex: Handle,
    ) -> (r: Handle)
        requires
            old(tg).rg.wf(),
            old(tg).registry.wf(),
            old(tg).registry.next_image <= u64::MAX - 2,
            old(tg).registry.accepts(
                self.temporal2_variance_tex.key@,
                spec_variance_tex_desc(
                    gbuffer_depth.gbuffer_desc.width,
                    gbuffer_depth.gbuffer_desc.height,
                ),
            ),
            old(tg).rg.readable(input_color.id as int),
            gbuffer_depth.readable_in(old(tg).rg),
            old(tg).rg.readable(reprojection_map.id as int),
            old(tg).rg.readable(reprojected_history_tex.id as int),
            old(tg).rg.valid_resource(temporal_output_tex.id as int),
        ensures
            final(tg).rg.wf(),
            final(tg).registry.wf(),
            final(tg).registry.next_image <= old(tg).registry.next_image + 2,
            final(tg).rg.passes@.len() == old(tg).rg.passes@.len() + 1,
            final(tg).rg.resources@.len() == old(tg).rg.resources@.len() + 3,
            forall|x: int| old(tg).rg.readable(x) ==> final(tg).rg.readable(x),
            final(tg).rg.readable(r.id as int),
            final(tg).rg.resources@[r.id as int].desc == ResourceDesc::Image(
                (ImageDesc {
                    format: Format::Rgba16Sfloat,
                    usage: 0u32,
                    ..gbuffer_depth.gbuffer_desc
                }),
            ),
            forall|k2: Seq<char>, d2: ImageDesc|
                k2 != self.temporal2_variance_tex.key@ && old(tg).registry.accepts(k2, d2)
                    ==> final(tg).registry.accepts(k2, d2),
            forall|k2: Seq<char>|
                old(tg).registry.has_key(k2) ==> final(tg).registry.has_key(k2),
            final(tg).registry.has_key(self.temporal2_variance_tex.key@),
            forall|x: int|
                0 <= x < old(tg).rg.resources@.len() ==> final(tg).rg.resources@[x] == old(
                    tg,
                ).rg.resources@[x],
            forall|x: int|
                0 <= x < old(tg).rg.passes@.len() ==> final(tg).rg.passes@[x] == old(
                    tg,
                ).rg.passes@[x],
            r.id == old(tg).rg.resources@.len() + 2,
            final(tg).rg.resources@[r.id as int].origin is Created,
            ({
                let p = final(tg).rg.passes@[old(tg).rg.passes@.len() as int];
                let variance_out_id = (r.id - 2) as usize;
                let variance_hist_id = (r.id - 1) as usize;
                &&& p.program@ == "/shaders/rtdgi/temporal_filter2.hlsl"@
                &&& p.reads@ =~= seq![
                    crate::graph::PassAccess {
                        resource: input_color.id,
                        access: AccessKind::ShaderRead,
                    },
                    crate::graph::PassAccess {
                        resource: reprojected_history_tex.id,
                        access: AccessKind::ShaderRead,
                    },
                    crate::graph::PassAccess {
                        resource: variance_hist_id,
                        access: AccessKind::ShaderRead,
                    },
                    crate::graph::PassAccess {
                        resource: reprojection_map.id,
                        access: AccessKind::ShaderRead,
                    },
                ]
                &&& p.writes@ =~= seq![
                    crate::graph::PassAccess { resource: r.id, access: AccessKind::ShaderWrite },
                    crate::graph::PassAccess {
                        resource: temporal_output_tex.id,
                        access: AccessKind::ShaderWrite,
                    },
                    crate::graph::PassAccess {
                        resource: variance_out_id,
                        access: AccessKind::ShaderWrite,
                    },
                ]
                &&& crate::temporal::is_temporal_slot(
                    final(tg).rg.resources@[variance_out_id as int],
                )
            }),
    {
        let (temporal_variance_output_tex, variance_history_tex) = self
            .temporal2_variance_tex
            .get_output_and_history(
            tg,
            Self::variance_tex_desc(
                gbuffer_depth.gbuffer_desc.width,
                gbuffer_depth.gbuffer_desc.height,
            ),
        );

        let temporal_filtered_tex = tg.create(
            ResourceDesc::Image(
                gbuffer_depth.gbuffer_desc.with_usage(0).with_format(Format::Rgba16Sfloat),
            ),
        );

        let mut p = Pass::new("/shaders/rtdgi/temporal_filter2.hlsl");
        p.read(input_color, AccessKind::ShaderRead);
        p.read(reprojected_history_tex, AccessKind::ShaderRead);
        p.read(variance_history_tex, AccessKind::ShaderRead);
        p.read(reprojection_map, AccessKind::ShaderRead);
        p.write(temporal_filtered_tex, AccessKind::ShaderWrite);
        p.write(temporal_output_tex, AccessKind::ShaderWrite);
        p.write(temporal_variance_output_tex, AccessKind::ShaderWrite);
        let ghost p_g = p;
        tg.add_pass(p);
        proof {
            crate::graph::lemma_pass_writes_at(p_g, 0);
        }
        temporal_filtered_tex
    }

    /// Half-resolution spatial filter: a fixed-offset spatial denoise of
    /// the temporally filtered result, guided by the half-resolution view
    /// normal and depth.
    fn spatial(
        tg: &mut TemporalRenderGraph,
        input_color: Handle,
        gbuffer_depth: &GbufferDepth,
        ssao_img: Handle,
    ) -> (r: Handle)
        requires
            old(tg).rg.wf(),
            old(tg).rg.readable(input_color.id as int),
            gbuffer_depth.readable_in(old(tg).rg),
            old(tg).rg.readable(ssao_img.id as int),
        ensures
            final(tg).registry == old(tg).registry,
            final(tg).rg.wf(),
            final(tg).rg.passes@.len() == old(tg).rg.passes@.len() + 1,
            final(tg).rg.resources@.len() == old(tg).rg.resources@.len() + 1,
            forall|x: int| old(tg).rg.readable(x) ==> final(tg).rg.readable(x),
            final(tg).rg.readable(r.id as int),
            forall|x: int|
                0 <= x < old(tg).rg.resources@.len() ==> final(tg).rg.resources@[x] == old(
                    tg,
                ).rg.resources@[x],
            forall|x: int|
                0 <= x < old(tg).rg.passes@.len() ==> final(tg).rg.passes@[x] == old(
                    tg,
                ).rg.passes@[x],
            r.id == old(tg).rg.resources@.len(),
            final(tg).rg.resources@[r.id as int] == (crate::graph::ResourceSlot {
                desc: ResourceDesc::Image(
                    spec_temporal_tex_desc(
                        spec_half_width(gbuffer_depth.gbuffer_desc),
                        spec_half_height(gbuffer_depth.gbuffer_desc),
                    ),
                ),
                origin: crate::graph::ResourceOrigin::Created,
            }),
            ({
                let p = final(tg).rg.passes@[old(tg).rg.passes@.len() as int];
                &&& p.program@ == "/shaders/rtdgi/spatial_filter.hlsl"@
                &&& p.reads@ =~= seq![
                    crate::graph::PassAccess {
                        resource: input_color.id,
                        access: AccessKind::ShaderRead,
                    },
                    crate::graph::PassAccess {
                        resource: gbuffer_depth.half_view_normal_tex.id,
                        access: AccessKind::ShaderRead,
                    },
                    crate::graph::PassAccess {
                        resource: gbuffer_depth.half_depth_tex.id,
                        access: AccessKind::ShaderRead,
                    },
                    crate::graph::PassAccess {
                        resource: ssao_img.id,
                        access: AccessKind::ShaderRead,
                    },
                ]
                &&& p.writes@ =~= seq![
                    crate::graph::PassAccess { resource: r.id, access: AccessKind::ShaderWrite },
                ]
            }),
    {
        let half_view_normal_tex = gbuffer_depth.half_view_normal();
        let half_depth_tex = gbuffer_depth.half_depth();
        let hw = gbuffer_depth.gbuffer_desc.width / 2 + gbuffer_depth.gbuffer_desc.width % 2;
        let hh = gbuffer_depth.gbuffer_desc.height / 2 + gbuffer_depth.gbuffer_desc.height % 2;

        let spatial_filtered_tex = tg.create(
            ResourceDesc::Image(Self::temporal_tex_desc(hw, hh)),
        );

        let mut p = Pass::new("/shaders/rtdgi/spatial_filter.hlsl");
        p.read(input_color, AccessKind::ShaderRead);
        p.read(half_view_normal_tex, AccessKind::ShaderRead);
        p.read(half_depth_tex, AccessKind::ShaderRead);
        p.read(ssao_img, AccessKind::ShaderRead);
        p.write(spatial_filtered_tex, AccessKind::ShaderWrite);
        let ghost p_g = p;
        tg.add_pass(p);
        proof {
            crate::graph::lemma_pass_writes_at(p_g, 0);
        }
        spatial_filtered_tex
    }
}

impl RtdgiRenderer {
    /// One frame of the diffuse GI pipeline: reproject the full-resolution
    /// history, trace half-resolution candidate rays with blue-noise
    /// sampling, fold the candidates into the per-pixel temporal
    /// reservoirs, run the configured number of spatial-reuse passes over
    /// ping-ponged scratch reservoirs, resolve to irradiance, filter
    /// temporally and spatially at half resolution, upsample, and
    /// accumulate at full resolution. Returns the read-only full-resolution
    /// irradiance image; the resulting graph is well formed for every
    /// spatial-reuse pass count, including zero.
    #[verifier::rlimit(100)]
    pub fn render(
        &self,
        tg: &mut TemporalRenderGraph,
        gbuffer_depth: &GbufferDepth,
        reprojection_map: Handle,
        sky_cube: Handle,
        bindless_descriptor_set: u64,
        tlas: Handle,
        ssao_img: Handle,
        ussao_img: Handle,
    ) -> (r: ReadOnlyHandle)
        requires
            self.wf(),
            old(tg).rg.wf(),
            old(tg).registry.wf(),
            old(tg).registry.next_image <= u64::MAX - 16,
            self.spec_streams_accepted(old(tg).registry, gbuffer_depth.gbuffer_desc),
            gbuffer_depth.readable_in(old(tg).rg),
            old(tg).rg.readable(reprojection_map.id as int),
            old(tg).rg.readable(sky_cube.id as int),
            old(tg).rg.readable(tlas.id as int),
            old(tg).rg.readable(ssao_img.id as int),
            old(tg).rg.readable(ussao_img.id as int),
        ensures
            final(tg).rg.wf(),
            final(tg).registry.wf(),
            final(tg).registry.next_image <= old(tg).registry.next_image + 16,
            final(tg).rg.passes@.len() == old(tg).rg.passes@.len() + 8
                + self.spatial_reuse_pass_count,
            final(tg).rg.resources@.len() == old(tg).rg.resources@.len() + 29,
            forall|x: int| old(tg).rg.readable(x) ==> final(tg).rg.readable(x),
            final(tg).rg.readable(r.id as int),
            final(tg).rg.resources@[r.id as int].desc == ResourceDesc::Image(
                (ImageDesc {
                    format: Format::Rgba16Sfloat,
                    usage: 0u32,
                    ..gbuffer_depth.gbuffer_desc
                }),
            ),
            forall|i: int| 0 <= i < 8 ==> final(tg).registry.has_key(self.stream_keys()[i]),
            forall|x: int|
                0 <= x < old(tg).rg.resources@.len() ==> final(tg).rg.resources@[x] == old(
                    tg,
                ).rg.resources@[x],
            forall|x: int|
                0 <= x < old(tg).rg.passes@.len() ==> final(tg).rg.passes@[x] == old(
                    tg,
                ).rg.passes@[x],
            // the result is one of this frame's created transients, never a
            // persisted temporal slot
            final(tg).rg.resources@[r.id as int].origin is Created,
            // the stages run in the order of one frame's pipeline
            ({
                let bp = old(tg).rg.passes@.len() as int;
                let k = self.spatial_reuse_pass_count as int;
                let ps = final(tg).rg.passes@;
                &&& ps[bp].program@ == "/shaders/rtdgi/fullres_reproject.hlsl"@
                &&& ps[bp + 1].program@ == "/shaders/rtdgi/trace_diffuse.rgen.hlsl"@
                &&& ps[bp + 2].program@ == "/shaders/rtdgi/restir_temporal.hlsl"@
                &&& (forall|i: int|
                    0 <= i < k ==> (#[trigger] ps[bp + 3 + i]).program@
                        == "/shaders/rtdgi/restir_spatial.hlsl"@)
                &&& ps[bp + 3 + k].program@ == "/shaders/rtdgi/restir_resolve.hlsl"@
                &&& ps[bp + 4 + k].program@ == "/shaders/rtdgi/temporal_filter.hlsl"@
                &&& ps[bp + 5 + k].program@ == "/shaders/rtdgi/spatial_filter.hlsl"@
                &&& ps[bp + 6 + k].program@ == "/shaders/rtdgi/upsample.hlsl"@
                &&& ps[bp + 7 + k].program@ == "/shaders/rtdgi/temporal_filter2.hlsl"@
            }),
            // spatial-reuse ping-pong: each reuse pass folds in the
            // reservoir buffer the previous one wrote (the first reads the
            // temporal reservoir stream output, written by the
            // restir-temporal pass) and writes the other of two alternating
            // scratch buffers, never the one it reads; the resolve pass
            // reads the last reservoir written, or the stream output
            // directly when no reuse pass ran
            ({
                let bp = old(tg).rg.passes@.len() as int;
                let k = self.spatial_reuse_pass_count as int;
                let ps = final(tg).rg.passes@;
                &&& (forall|i: int| 0 <= i < k ==> (#[trigger] ps[bp + 3 + i]).writes@.len() == 1)
                &&& (forall|i: int|
                    0 <= i < k ==> (#[trigger] ps[bp + 3 + i]).reads@[3].resource == if i == 0 {
                        ps[bp + 2].writes@[3].resource
                    } else {
                        ps[bp + 3 + i - 1].writes@[0].resource
                    })
                &&& (forall|i: int|
                    0 <= i < k ==> (#[trigger] ps[bp + 3 + i]).writes@[0].resource != ps[bp + 3
                        + i].reads@[3].resource)
                &&& ps[bp + 3 + k].reads@[3].resource == (if k == 0 {
                    ps[bp + 2].writes@[3].resource
                } else {
                    ps[bp + 3 + k - 1].writes@[0].resource
                })
            }),
    {
        let gd = gbuffer_depth.gbuffer_desc;
        let hw = gd.width / 2 + gd.width % 2;
        let hh = gd.height / 2 + gd.height % 2;
        let _ = bindless_descriptor_set;

        let (temporal_output_tex, history_tex) = self.temporal2_tex.get_output_and_history(
            tg,
            Self::temporal_tex_desc(gd.width, gd.height),
        );
        proof {
            assert(self.stream_keys()[0] != self.stream_keys()[1]);
            assert(self.stream_keys()[0] != self.stream_keys()[2]);
            assert(self.stream_keys()[0] != self.stream_keys()[3]);
            assert(self.stream_keys()[0] != self.stream_keys()[4]);
            assert(self.stream_keys()[0] != self.stream_keys()[5]);
            assert(self.stream_keys()[0] != self.stream_keys()[6]);
            assert(self.stream_keys()[0] != self.stream_keys()[7]);
        }

        let reprojected_history_tex = tg.create(
            ResourceDesc::Image(Self::temporal_tex_desc(gd.width, gd.height)),
        );
        let mut p = Pass::new("/shaders/rtdgi/fullres_reproject.hlsl");
        p.read(history_tex, AccessKind::ShaderRead);
        p.read(reprojection_map, AccessKind::ShaderRead);
        p.write(reprojected_history_tex, AccessKind::ShaderWrite);
        let ghost p_reproject = p;
        tg.add_pass(p);
        let ghost tg_a = *tg;
        proof {
            crate::graph::lemma_pass_writes_at(p_reproject, 0);
        }

        let (hit_normal_output_tex, hit_normal_history_tex) = self
            .temporal_hit_normal_tex
            .get_output_and_history(tg, Self::temporal_tex_desc(hw, hh));
        proof {
            assert(self.stream_keys()[1] != self.stream_keys()[2]);
            assert(self.stream_keys()[1] != self.stream_keys()[3]);
            assert(self.stream_keys()[1] != self.stream_keys()[4]);
            assert(self.stream_keys()[1] != self.stream_keys()[5]);
            assert(self.stream_keys()[1] != self.stream_keys()[6]);
            assert(self.stream_keys()[1] != self.stream_keys()[7]);
            assert(self.stream_keys()[1] != self.stream_keys()[0]);
        }

        let ranking_tile_buf = tg.import(ResourceDesc::Buffer(self.ranking_tile_buf));
        let scrambling_tile_buf = tg.import(ResourceDesc::Buffer(self.scrambling_tile_buf));
        let sobol_buf = tg.import(ResourceDesc::Buffer(self.sobol_buf));

        let (candidate_output_tex, candidate_history_tex) = self
            .temporal_candidate_tex
            .get_output_and_history(tg, Self::temporal_tex_desc(hw, hh));
        proof {
            assert(self.stream_keys()[2] != self.stream_keys()[3]);
            assert(self.stream_keys()[2] != self.stream_keys()[4]);
            assert(self.stream_keys()[2] != self.stream_keys()[5]);
            assert(self.stream_keys()[2] != self.stream_keys()[6]);
            assert(self.stream_keys()[2] != self.stream_keys()[7]);
        }

        let (irradiance_output_tex, irradiance_history_tex) = self
            .temporal_irradiance_tex
            .get_output_and_history(tg, Self::temporal_tex_desc(hw, hh));
        proof {
            assert(self.stream_keys()[3] != self.stream_keys()[4]);
            assert(self.stream_keys()[3] != self.stream_keys()[5]);
            assert(self.stream_keys()[3] != self.stream_keys()[6]);
            assert(self.stream_keys()[3] != self.stream_keys()[7]);
        }

        let (ray_output_tex, ray_history_tex) = self.temporal_ray_tex.get_output_and_history(
            tg,
            Self::temporal_tex_desc(hw, hh),
        );
        proof {
            assert(self.stream_keys()[4] != self.stream_keys()[5]);
            assert(self.stream_keys()[4] != self.stream_keys()[6]);
            assert(self.stream_keys()[4] != self.stream_keys()[7]);
        }

        let (reservoir_output_tex, reservoir_history_tex) = self
            .temporal_reservoir_tex
            .get_output_and_history(tg, Self::temporal_tex_desc(hw, hh));
        proof {
            assert(self.stream_keys()[5] != self.stream_keys()[6]);
            assert(self.stream_keys()[5] != self.stream_keys()[7]);
        }

        let candidate_irradiance_tex = tg.create(
            ResourceDesc::Image(gd.half_res().with_format(Format::Rgba16Sfloat)),
        );
        let candidate_hit_tex = tg.create(
            ResourceDesc::Image(gd.half_res().with_format(Format::Rgba16Sfloat)),
        );

        let half_view_normal_tex = gbuffer_depth.half_view_normal();
        let half_depth_tex = gbuffer_depth.half_depth();

        let mut p = Pass::new("/shaders/rtdgi/trace_diffuse.rgen.hlsl");
        p.read(half_view_normal_tex, AccessKind::RayTracingShaderRead);
        p.read(gbuffer_depth.depth, AccessKind::DepthAspectShaderRead);
        p.read(reprojected_history_tex, AccessKind::RayTracingShaderRead);
        p.read(ssao_img, AccessKind::RayTracingShaderRead);
        p.read(ranking_tile_buf, AccessKind::RayTracingShaderRead);
        p.read(scrambling_tile_buf, AccessKind::RayTracingShaderRead);
        p.read(sobol_buf, AccessKind::RayTracingShaderRead);
        p.read(reprojection_map, AccessKind::RayTracingShaderRead);
        p.read(sky_cube, AccessKind::RayTracingShaderRead);
        p.read(tlas, AccessKind::RayTracingShaderRead);
        p.write(candidate_irradiance_tex, AccessKind::ShaderWrite);
        p.write(candidate_hit_tex, AccessKind::ShaderWrite);
        let ghost p_trace = p;
        tg.add_pass(p);
        let ghost tg_b = *tg;
        proof {
            crate::graph::lemma_pass_writes_at(p_trace, 0);
            crate::graph::lemma_pass_writes_at(p_trace, 1);
        }

        let mut p = Pass::new("/shaders/rtdgi/restir_temporal.hlsl");
        p.read(half_view_normal_tex, AccessKind::ShaderRead);
        p.read(gbuffer_depth.depth, AccessKind::DepthAspectShaderRead);
        p.read(candidate_irradiance_tex, AccessKind::ShaderRead);
        p.read(candidate_hit_tex, AccessKind::ShaderRead);
        p.read(ranking_tile_buf, AccessKind::ShaderRead);
        p.read(scrambling_tile_buf, AccessKind::ShaderRead);
        p.read(sobol_buf, AccessKind::ShaderRead);
        p.read(irradiance_history_tex, AccessKind::ShaderRead);
        p.read(ray_history_tex, AccessKind::ShaderRead);
        p.read(reservoir_history_tex, AccessKind::ShaderRead);
        p.read(reprojection_map, AccessKind::ShaderRead);
        p.read(hit_normal_history_tex, AccessKind::ShaderRead);
        p.read(candidate_history_tex, AccessKind::ShaderRead);
        p.write(irradiance_output_tex, AccessKind::ShaderWrite);
        p.write(ray_output_tex, AccessKind::ShaderWrite);
        p.write(hit_normal_output_tex, AccessKind::ShaderWrite);
        p.write(reservoir_output_tex, AccessKind::ShaderWrite);
        p.write(candidate_output_tex, AccessKind::ShaderWrite);
        let ghost p_restir = p;
        tg.add_pass(p);
        let ghost tg_c = *tg;
        proof {
            crate::graph::lemma_pass_writes_at(p_restir, 0);
            crate::graph::lemma_pass_writes_at(p_restir, 1);
            crate::graph::lemma_pass_writes_at(p_restir, 2);
            crate::graph::lemma_pass_writes_at(p_restir, 3);
            crate::graph::lemma_pass_writes_at(p_restir, 4);
        }

        let resolved_tex = tg.create(
            ResourceDesc::Image(gd.with_usage(0).half_res().with_format(Format::Rgba32Sfloat)),
        );
        let mut reservoir_scratch0 = tg.create(
            ResourceDesc::Image(
                gd.with_usage(USAGE_SAMPLED | USAGE_STORAGE).half_res().with_format(
                    Format::Rgba32Sfloat,
                ),
            ),
        );
        let mut reservoir_scratch1 = tg.create(
            ResourceDesc::Image(
                gd.with_usage(USAGE_SAMPLED | USAGE_STORAGE).half_res().with_format(
                    Format::Rgba32Sfloat,
                ),
            ),
        );

        let mut reservoir_input_tex = reservoir_output_tex;
        let ghost tg_loop = *tg;
        let mut spatial_reuse_pass_idx: u32 = 0;
        while spatial_reuse_pass_idx < self.spatial_reuse_pass_count
            invariant
                spatial_reuse_pass_idx <= self.spatial_reuse_pass_count,
                tg.registry == tg_loop.registry,
                tg.rg.wf(),
                tg.rg.resources@ == tg_loop.rg.resources@,
                tg.rg.passes@.len() == tg_loop.rg.passes@.len() + spatial_reuse_pass_idx,
                forall|x: int| tg_loop.rg.readable(x) ==> tg.rg.readable(x),
                forall|x: int|
                    0 <= x < tg_loop.rg.passes@.len() ==> tg.rg.passes@[x]
                        == tg_loop.rg.passes@[x],
                tg.rg.readable(reservoir_input_tex.id as int),
                tg.rg.valid_resource(reservoir_scratch0.id as int),
                tg.rg.valid_resource(reservoir_scratch1.id as int),
                reservoir_scratch0.id >= old(tg).rg.resources@.len(),
                reservoir_scratch1.id >= old(tg).rg.resources@.len(),
                reservoir_scratch0.id != reservoir_scratch1.id,
                reservoir_input_tex.id != reservoir_scratch0.id,
                reservoir_input_tex.id == (if spatial_reuse_pass_idx == 0 {
                    reservoir_output_tex.id
                } else {
                    tg.rg.passes@[tg_loop.rg.passes@.len() + spatial_reuse_pass_idx
                        - 1].writes@[0].resource
                }),
                forall|i: int|
                    0 <= i < spatial_reuse_pass_idx ==> {
                        let p2 = #[trigger] tg.rg.passes@[tg_loop.rg.passes@.len() + i];
                        &&& p2.program@ == "/shaders/rtdgi/restir_spatial.hlsl"@
                        &&& p2.writes@.len() == 1
                        &&& p2.writes@[0].resource >= old(tg).rg.resources@.len()
                        &&& p2.writes@[0].resource != p2.reads@[3].resource
                        &&& p2.reads@[3].resource == (if i == 0 {
                            reservoir_output_tex.id
                        } else {
                            tg.rg.passes@[tg_loop.rg.passes@.len() + i - 1].writes@[0].resource
                        })
                    },
                tg.rg.readable(irradiance_output_tex.id as int),
                tg.rg.readable(hit_normal_output_tex.id as int),
                tg.rg.readable(ray_output_tex.id as int),
                tg.rg.readable(candidate_output_tex.id as int),
                tg.rg.readable(ssao_img.id as int),
                tg.rg.readable(half_view_normal_tex.id as int),
                tg.rg.readable(half_depth_tex.id as int),
                gbuffer_depth.readable_in(tg.rg),
            decreases self.spatial_reuse_pass_count - spatial_reuse_pass_idx,
        {
            let mut p = Pass::new("/shaders/rtdgi/restir_spatial.hlsl");
            p.read(irradiance_output_tex, AccessKind::ShaderRead);
            p.read(hit_normal_output_tex, AccessKind::ShaderRead);
            p.read(ray_output_tex, AccessKind::ShaderRead);
            p.read(reservoir_input_tex, AccessKind::ShaderRead);
            p.read(gbuffer_depth.gbuffer, AccessKind::ShaderRead);
            p.read(half_view_normal_tex, AccessKind::ShaderRead);
            p.read(half_depth_tex, AccessKind::ShaderRead);
            p.read(ssao_img, AccessKind::ShaderRead);
            p.read(candidate_output_tex, AccessKind::ShaderRead);
            p.write(reservoir_scratch0, AccessKind::ShaderWrite);
            let ghost p_spatial = p;
            tg.add_pass(p);
            proof {
                crate::graph::lemma_pass_writes_at(p_spatial, 0);
            }
            let tmp = reservoir_scratch0;
            reservoir_scratch0 = reservoir_scratch1;
            reservoir_scratch1 = tmp;
            reservoir_input_tex = reservoir_scratch1;
            spatial_reuse_pass_idx += 1;
        }

        let ghost tg_after_loop = *tg;
        let mut p = Pass::new("/shaders/rtdgi/restir_resolve.hlsl");
        p.read(irradiance_output_tex, AccessKind::ShaderRead);
        p.read(hit_normal_output_tex, AccessKind::ShaderRead);
        p.read(ray_output_tex, AccessKind::ShaderRead);
        p.read(reservoir_input_tex, AccessKind::ShaderRead);
        p.read(gbuffer_depth.gbuffer, AccessKind::ShaderRead);
        p.read(half_view_normal_tex, AccessKind::ShaderRead);
        p.read(half_depth_tex, AccessKind::ShaderRead);
        p.read(ssao_img, AccessKind::ShaderRead);
        p.read(ussao_img, AccessKind::ShaderRead);
        p.write(resolved_tex, AccessKind::ShaderWrite);
        let ghost p_resolve = p;
        tg.add_pass(p);
        let ghost tg_d = *tg;
        proof {
            crate::graph::lemma_pass_writes_at(p_resolve, 0);
        }

        let temporal_filtered_tex = self.temporal(
            tg,
            resolved_tex,
            gbuffer_depth,
            reprojection_map,
            sky_cube,
        );
        let ghost tg_e = *tg;
        proof {
            assert(self.stream_keys()[6] != self.stream_keys()[7]);
        }
        let filtered_tex = Self::spatial(tg, temporal_filtered_tex, gbuffer_depth, ssao_img);
        let ghost tg_f = *tg;

        let upsampled_tex = tg.create(
            ResourceDesc::Image(gd.with_format(Format::Rgba16Sfloat)),
        );
        let mut p = Pass::new("/shaders/rtdgi/upsample.hlsl");
        p.read(filtered_tex, AccessKind::ShaderRead);
        p.read(gbuffer_depth.depth, AccessKind::DepthAspectShaderRead);
        p.read(gbuffer_depth.gbuffer, AccessKind::ShaderRead);
        p.read(half_view_normal_tex, AccessKind::ShaderRead);
        p.read(half_depth_tex, AccessKind::ShaderRead);
        p.read(ssao_img, AccessKind::ShaderRead);
        p.write(upsampled_tex, AccessKind::ShaderWrite);
        let ghost p_upsample = p;
        tg.add_pass(p);
        let ghost tg_g = *tg;
        proof {
            crate::graph::lemma_pass_writes_at(p_upsample, 0);
        }

        let output_tex = self.temporal2(
            tg,
            upsampled_tex,
            gbuffer_depth,
            reprojection_map,
            reprojected_history_tex,
            temporal_output_tex,
        );

        proof {
            let bp = old(tg).rg.passes@.len() as int;
            let br = old(tg).rg.resources@.len() as int;
            let k = self.spatial_reuse_pass_count as int;
            let ps = tg.rg.passes@;
            assert(tg_loop.rg.passes@ == tg_c.rg.passes@);
            assert(tg_loop.rg.passes@.len() == bp + 3);
            assert forall|x: int|
                0 <= x < tg_g.rg.passes@.len() implies ps[x] == tg_g.rg.passes@[x] by {}
            assert forall|x: int|
                0 <= x < tg_f.rg.passes@.len() implies ps[x] == tg_f.rg.passes@[x] by {}
            assert forall|x: int|
                0 <= x < tg_e.rg.passes@.len() implies ps[x] == tg_e.rg.passes@[x] by {}
            assert forall|x: int|
                0 <= x < tg_d.rg.passes@.len() implies ps[x] == tg_d.rg.passes@[x] by {}
            assert forall|x: int|
                0 <= x < tg_after_loop.rg.passes@.len() implies ps[x]
                == tg_after_loop.rg.passes@[x] by {}
            assert forall|x: int|
                0 <= x < tg_c.rg.passes@.len() implies ps[x] == tg_c.rg.passes@[x] by {}
            assert forall|x: int|
                0 <= x < tg_b.rg.passes@.len() implies ps[x] == tg_b.rg.passes@[x] by {}
            assert forall|x: int|
                0 <= x < tg_a.rg.passes@.len() implies ps[x] == tg_a.rg.passes@[x] by {}
            assert(ps[bp] == p_reproject);
            assert(ps[bp + 1] == p_trace);
            assert(ps[bp + 2] == p_restir);
            assert(ps[bp + 3 + k] == p_resolve);
            assert(ps[bp + 6 + k] == p_upsample);
            assert(ps[bp + 2].writes@[3].resource == reservoir_output_tex.id);
            assert forall|i: int| 0 <= i < k implies {
                let p2 = #[trigger] ps[bp + 3 + i];
                &&& p2.program@ == "/shaders/rtdgi/restir_spatial.hlsl"@
                &&& p2.writes@.len() == 1
                &&& p2.writes@[0].resource >= br
                &&& p2.writes@[0].resource != p2.reads@[3].resource
                &&& p2.reads@[3].resource == (if i == 0 {
                    reservoir_output_tex.id
                } else {
                    ps[bp + 3 + i - 1].writes@[0].resource
                })
            } by {
                assert(ps[bp + 3 + i] == tg_after_loop.rg.passes@[bp + 3 + i]);
                if i > 0 {
                    assert(ps[bp + 3 + i - 1] == tg_after_loop.rg.passes@[bp + 3 + i - 1]);
                }
            }
        }

        output_tex.read_only()
    }
}

/// The eight stream keys are pairwise distinct string literals.
proof fn lemma_stream_keys_distinct()
    ensures
        ({
            let ks = seq![
                "rtdgi.temporal2"@,
                "rtdgi.hit_normal"@,
                "rtdgi.candidate"@,
                "rtdgi.irradiance"@,
                "rtdgi.ray"@,
                "rtdgi.reservoir"@,
                "rtdgi.temporal"@,
                "rtdgi.temporal2_var"@,
            ];
            forall|i: int, j: int| 0 <= i < 8 && 0 <= j < 8 && i != j ==> ks[i] != ks[j]
        }),
{
    reveal_strlit("rtdgi.temporal2");
    reveal_strlit("rtdgi.hit_normal");
    reveal_strlit("rtdgi.candidate");
    reveal_strlit("rtdgi.irradiance");
    reveal_strlit("rtdgi.ray");
    reveal_strlit("rtdgi.reservoir");
    reveal_strlit("rtdgi.temporal");
    reveal_strlit("rtdgi.temporal2_var");
    assert("rtdgi.temporal2"@.len() == 15);
    assert("rtdgi.hit_normal"@.len() == 16);
    assert("rtdgi.candidate"@.len() == 15);
    assert("rtdgi.irradiance"@.len() == 16);
    assert("rtdgi.ray"@.len() == 9);
    assert("rtdgi.reservoir"@.len() == 15);
    assert("rtdgi.temporal"@.len() == 14);
    assert("rtdgi.temporal2_var"@.len() == 19);
    assert("rtdgi.temporal2"@[6] == 't');
    assert("rtdgi.candidate"@[6] == 'c');
    assert("rtdgi.reservoir"@[6] == 'r');
    assert("rtdgi.hit_normal"@[6] == 'h');
    assert("rtdgi.irradiance"@[6] == 'i');
}

} // verus!
