use vstd::prelude::*;

use crate::graph::{AccessKind, Handle, Pass, PassAccess, RenderGraph, ResourceOrigin, ResourceSlot};
use crate::resource::{Format, ImageDesc, ResourceDesc, USAGE_SAMPLED, USAGE_STORAGE};

verus! {

/// The rasterized inputs of one frame — gbuffer, depth and geometric
/// normal — together with the half-resolution view-normal and depth
/// derivatives the denoising stages sample. The half-resolution images are
/// produced once per frame by two downsample passes.
pub struct GbufferDepth {
    pub gbuffer: Handle,
    pub depth: Handle,
    pub geometric_normal: Handle,
    pub gbuffer_desc: ImageDesc,
    pub depth_desc: ImageDesc,
    pub half_view_normal_tex: Handle,
    pub half_depth_tex: Handle,
}

impl GbufferDepth {
    /// Every handle this helper holds is readable in `g` (the upstream
    /// rasterizer wrote the full-resolution inputs; the two downsample
    /// passes wrote the half-resolution ones).
    pub open spec fn readable_in(self, g: RenderGraph) -> bool {
        &&& g.readable(self.gbuffer.id as int)
        &&& g.readable(self.depth.id as int)
        &&& g.readable(self.geometric_normal.id as int)
        &&& g.readable(self.half_view_normal_tex.id as int)
        &&& g.readable(self.half_depth_tex.id as int)
    }

    /// Bundle the frame's rasterized inputs and record the two downsample
    /// passes that derive the half-resolution view-normal and depth.
    pub fn new(
        rg: &mut RenderGraph,
        gbuffer: Handle,
        depth: Handle,
        geometric_normal: Handle,
        gbuffer_desc: ImageDesc,
        depth_desc: ImageDesc,
    ) -> (gd: GbufferDepth)
        requires
            old(rg).wf(),
            old(rg).readable(gbuffer.id as int),
            old(rg).readable(depth.id as int),
            old(rg).readable(geometric_normal.id as int),
        ensures
            final(rg).wf(),
            gd.readable_in(*final(rg)),
            gd.gbuffer == gbuffer,
            gd.depth == depth,
            gd.geometric_normal == geometric_normal,
            gd.gbuffer_desc == gbuffer_desc,
            gd.depth_desc == depth_desc,
            forall|r: int| old(rg).readable(r) ==> final(rg).readable(r),
            final(rg).passes@.len() == old(rg).passes@.len() + 2,
            final(rg).resources@.len() == old(rg).resources@.len() + 2,
            gd.half_view_normal_tex.id == old(rg).resources@.len(),
            gd.half_depth_tex.id == old(rg).resources@.len() + 1,
            final(rg).resources@[gd.half_view_normal_tex.id as int] == (ResourceSlot {
                desc: ResourceDesc::Image(
                    (ImageDesc {
                        format: Format::Rgba8Unorm,
                        width: ((gbuffer_desc.width + 1) / 2) as u32,
                        height: ((gbuffer_desc.height + 1) / 2) as u32,
                        usage: (USAGE_SAMPLED | USAGE_STORAGE) as u32,
                        ..gbuffer_desc
                    }),
                ),
                origin: ResourceOrigin::Created,
            }),
            final(rg).resources@[gd.half_depth_tex.id as int] == (ResourceSlot {
                desc: ResourceDesc::Image(
                    (ImageDesc {
                        format: Format::R32Sfloat,
                        width: ((gbuffer_desc.width + 1) / 2) as u32,
                        height: ((gbuffer_desc.height + 1) / 2) as u32,
                        usage: (USAGE_SAMPLED | USAGE_STORAGE) as u32,
                        ..gbuffer_desc
                    }),
                ),
                origin: ResourceOrigin::Created,
            }),
            ({
                // the two downsample passes: view normal, then depth
                let normal_pass = final(rg).passes@[old(rg).passes@.len() as int];
                let depth_pass = final(rg).passes@[old(rg).passes@.len() + 1int];
                &&& normal_pass.program@
                    == "/shaders/extract_half_res_gbuffer_view_normal_rgba8.hlsl"@
                &&& normal_pass.reads@ =~= seq![
                    PassAccess { resource: geometric_normal.id, access: AccessKind::ShaderRead },
                ]
                &&& normal_pass.writes@ =~= seq![
                    PassAccess {
                        resource: gd.half_view_normal_tex.id,
                        access: AccessKind::ShaderWrite,
                    },
                ]
                &&& depth_pass.program@ == "/shaders/extract_half_res_depth.hlsl"@
                &&& depth_pass.reads@ =~= seq![
                    PassAccess { resource: depth.id, access: AccessKind::DepthAspectShaderRead },
                ]
                &&& depth_pass.writes@ =~= seq![
                    PassAccess { resource: gd.half_depth_tex.id, access: AccessKind::ShaderWrite },
                ]
            }),
    {
        let half_view_normal_tex = rg.create(
            ResourceDesc::Image(
                gbuffer_desc.half_res().with_format(Format::Rgba8Unorm).with_usage(
                    USAGE_SAMPLED | USAGE_STORAGE,
                ),
            ),
        );
        let mut p = Pass::new("/shaders/extract_half_res_gbuffer_view_normal_rgba8.hlsl");
        p.read(geometric_normal, AccessKind::ShaderRead);
        p.write(half_view_normal_tex, AccessKind::ShaderWrite);
        let ghost p_g = p;
        rg.add_pass(p);
        proof {
            crate::graph::lemma_pass_writes_at(p_g, 0);
        }

        let half_depth_tex = rg.create(
            ResourceDesc::Image(
                gbuffer_desc.half_res().with_format(Format::R32Sfloat).with_usage(
                    USAGE_SAMPLED | USAGE_STORAGE,
                ),
            ),
        );
        let mut p = Pass::new("/shaders/extract_half_res_depth.hlsl");
        p.read(depth, AccessKind::DepthAspectShaderRead);
        p.write(half_depth_tex, AccessKind::ShaderWrite);
        let ghost p_g2 = p;
        rg.add_pass(p);
        proof {
            crate::graph::lemma_pass_writes_at(p_g2, 0);
        }

        GbufferDepth {
            gbuffer,
            depth,
            geometric_normal,
            gbuffer_desc,
            depth_desc,
            half_view_normal_tex,
            half_depth_tex,
        }
    }

    pub fn half_view_normal(&self) -> (h: Handle)
        ensures
            h == self.half_view_normal_tex,
    {
        self.half_view_normal_tex
    }

    pub fn half_depth(&self) -> (h: Handle)
        ensures
            h == self.half_depth_tex,
    {
        self.half_depth_tex
    }
}

} // verus!
