use vstd::prelude::*;

use crate::gbuffer::GbufferDepth;
use crate::graph::{AccessKind, Handle, Pass, RenderGraph};
use crate::resource::{Format, ImageDesc, USAGE_SAMPLED, USAGE_TRANSFER_DST};
use crate::temporal::{TemporalError, TemporalRenderGraph};

verus! {

/// Record a full-extent, depth-aspect image-to-image copy pass from
/// `input` to `output`.
pub fn copy_depth(rg: &mut RenderGraph, input: Handle, output: Handle)
    requires
        old(rg).wf(),
        old(rg).readable(input.id as int),
        old(rg).valid_resource(output.id as int),
    ensures
        final(rg).wf(),
        final(rg).resources@ == old(rg).resources@,
        final(rg).passes@.len() == old(rg).passes@.len() + 1,
        forall|r: int| old(rg).readable(r) ==> final(rg).readable(r),
        forall|x: int| 0 <= x < old(rg).passes@.len() ==> final(rg).passes@[x] == old(rg).passes@[x],
        final(rg).readable(output.id as int),
        ({
            let p = final(rg).passes@[final(rg).passes@.len() - 1];
            &&& p.program@ == "copy depth"@
            &&& p.reads@ =~= seq![
                crate::graph::PassAccess { resource: input.id, access: AccessKind::TransferRead },
            ]
            &&& p.writes@ =~= seq![
                crate::graph::PassAccess { resource: output.id, access: AccessKind::TransferWrite },
            ]
        }),
{
    let mut p = Pass::new("copy depth");
    p.read(input, AccessKind::TransferRead);
    p.write(output, AccessKind::TransferWrite);
    let ghost p_g = p;
    rg.add_pass(p);
    proof {
        crate::graph::lemma_pass_writes_at(p_g, 0);
    }
}

/// The stable key of the reprojection stage's previous-depth slot.
pub open spec fn prev_depth_key() -> Seq<char> {
    "reprojection.prev_depth"@
}

/// The descriptor requested for the previous-depth slot, given the current
/// depth buffer's descriptor.
pub open spec fn spec_prev_depth_desc(depth_desc: ImageDesc) -> ImageDesc {
    ImageDesc { usage: (USAGE_SAMPLED | USAGE_TRANSFER_DST) as u32, ..depth_desc }
}

/// Compute the per-frame reprojection map: a pass that reads the current
/// depth and geometric normal, the previous frame's depth (a registry
/// temporal slot) and the velocity image, and writes a map image encoding
/// where each current pixel's surface sat last frame together with a
/// validity signal. After that pass the current depth is copied into the
/// previous-depth slot — strictly after the reprojection pass read it, and
/// visible only from the next frame on.
///
/// Fails exactly when the previous-depth slot already exists with a
/// descriptor incompatible with the current depth buffer's; nothing is
/// recorded in that case.
pub fn calculate_reprojection_map(
    tg: &mut TemporalRenderGraph,
    gbuffer_depth: &GbufferDepth,
    velocity_img: Handle,
) -> (r: Result<Handle, TemporalError>)
    requires
        old(tg).rg.wf(),
        old(tg).registry.wf(),
        old(tg).registry.next_image <= u64::MAX - 2,
        gbuffer_depth.readable_in(old(tg).rg),
        old(tg).rg.readable(velocity_img.id as int),
    ensures
        final(tg).registry.wf(),
        final(tg).registry.next_image <= old(tg).registry.next_image + 2,
        match r {
            Ok(h) => {
                &&& final(tg).rg.wf()
                &&& final(tg).rg.readable(h.id as int)
                &&& gbuffer_depth.readable_in(final(tg).rg)
                &&& final(tg).rg.passes@.len() == old(tg).rg.passes@.len() + 2
                &&& final(tg).rg.resources@[h.id as int].desc
                    == crate::resource::ResourceDesc::Image(
                    (ImageDesc { format: Format::Rgba16Snorm, ..gbuffer_depth.depth_desc }),
                )
                &&& (forall|x: int| old(tg).rg.readable(x) ==> final(tg).rg.readable(x))
                &&& h.id == old(tg).rg.resources@.len() + 1
                &&& ({
                    // the reprojection-map pass reads the previous-depth
                    // slot; the depth copy is recorded after it and
                    // overwrites that same temporal slot, so the copied
                    // depth is observable only from the next frame on
                    let base = old(tg).rg.passes@.len() as int;
                    let prev_id = (h.id - 1) as usize;
                    let map_pass = final(tg).rg.passes@[base];
                    let copy_pass = final(tg).rg.passes@[base + 1];
                    &&& crate::temporal::is_temporal_slot(
                        final(tg).rg.resources@[prev_id as int],
                    )
                    &&& map_pass.program@ == "/shaders/calculate_reprojection_map.hlsl"@
                    &&& map_pass.reads@ =~= seq![
                        crate::graph::PassAccess {
                            resource: gbuffer_depth.depth.id,
                            access: AccessKind::DepthAspectShaderRead,
                        },
                        crate::graph::PassAccess {
                            resource: gbuffer_depth.geometric_normal.id,
                            access: AccessKind::ShaderRead,
                        },
                        crate::graph::PassAccess {
                            resource: prev_id,
                            access: AccessKind::DepthAspectShaderRead,
                        },
                        crate::graph::PassAccess {
                            resource: velocity_img.id,
                            access: AccessKind::ShaderRead,
                        },
                    ]
                    &&& map_pass.writes@ =~= seq![
                        crate::graph::PassAccess {
                            resource: h.id,
                            access: AccessKind::ShaderWrite,
                        },
                    ]
                    &&& copy_pass.program@ == "copy depth"@
                    &&& copy_pass.reads@ =~= seq![
                        crate::graph::PassAccess {
                            resource: gbuffer_depth.depth.id,
                            access: AccessKind::TransferRead,
                        },
                    ]
                    &&& copy_pass.writes@ =~= seq![
                        crate::graph::PassAccess {
                            resource: prev_id,
                            access: AccessKind::TransferWrite,
                        },
                    ]
                })
                &&& final(tg).registry.has_key(prev_depth_key())
                &&& old(tg).registry.accepts(prev_depth_key(), spec_prev_depth_desc(gbuffer_depth.depth_desc))
            },
            Err(e) => {
                &&& e == TemporalError::IncompatibleDescriptor
                &&& !old(tg).registry.accepts(prev_depth_key(), spec_prev_depth_desc(gbuffer_depth.depth_desc))
                &&& *final(tg) == *old(tg)
            },
        },
{
    let key: String = "reprojection.prev_depth".to_owned();
    let prev_depth = match tg.get_or_create_temporal(
        &key,
        gbuffer_depth.depth_desc.with_usage(USAGE_SAMPLED | USAGE_TRANSFER_DST),
    ) {
        Ok(h) => h,
        Err(e) => {
            return Err(e);
        },
    };
    let output_tex = tg.create(
        crate::resource::ResourceDesc::Image(
            gbuffer_depth.depth_desc.with_format(Format::Rgba16Snorm),
        ),
    );

    let mut p = Pass::new("/shaders/calculate_reprojection_map.hlsl");
    p.read(gbuffer_depth.depth, AccessKind::DepthAspectShaderRead);
    p.read(gbuffer_depth.geometric_normal, AccessKind::ShaderRead);
    p.read(prev_depth, AccessKind::DepthAspectShaderRead);
    p.read(velocity_img, AccessKind::ShaderRead);
    p.write(output_tex, AccessKind::ShaderWrite);
    let ghost p_g = p;
    tg.add_pass(p);
    proof {
        crate::graph::lemma_pass_writes_at(p_g, 0);
    }

    copy_depth(&mut tg.rg, gbuffer_depth.depth, prev_depth);

    Ok(output_tex)
}

} // verus!
