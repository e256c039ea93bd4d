use rtdgi_core::graph::{AccessKind, Pass, RenderGraph, ResourceOrigin};
use rtdgi_core::resource::{BufferDesc, Format, ImageDesc, ResourceDesc, USAGE_STORAGE};
use rtdgi_core::temporal::{TemporalError, TemporalRenderGraph, TemporalRegistry, PingPongTemporalResource};

fn image_desc() -> ImageDesc {
    ImageDesc::new_2d(Format::Rgba16Sfloat, 64, 64)
}

#[test]
fn validate_accepts_wired_graph() {
    let mut rg = RenderGraph::new_graph();
    let input = rg.import(ResourceDesc::Image(image_desc()));
    let output = rg.create(ResourceDesc::Image(image_desc()));
    let mut p = Pass::new("blit");
    p.read(input, AccessKind::ShaderRead);
    p.write(output, AccessKind::ShaderWrite);
    rg.add_pass(p);
    let mut p = Pass::new("post");
    p.read(output, AccessKind::ShaderRead);
    rg.add_pass(p);
    assert!(rg.validate());
}

#[test]
fn validate_rejects_dangling_read() {
    let mut rg = RenderGraph::new_graph();
    let never_written = rg.create(ResourceDesc::Image(image_desc()));
    let mut p = Pass::new("reads garbage");
    p.read(never_written, AccessKind::ShaderRead);
    rg.add_pass(p);
    assert!(!rg.validate());
}

#[test]
fn validate_rejects_out_of_order_read() {
    let mut rg = RenderGraph::new_graph();
    let tex = rg.create(ResourceDesc::Image(image_desc()));
    let mut p = Pass::new("consumer");
    p.read(tex, AccessKind::ShaderRead);
    rg.add_pass(p);
    let mut p = Pass::new("producer");
    p.write(tex, AccessKind::ShaderWrite);
    rg.add_pass(p);
    // the write is declared after the read: still a dangling read
    assert!(!rg.validate());
}

#[test]
fn schedule_inserts_barriers_around_writes() {
    let mut rg = RenderGraph::new_graph();
    let tex = rg.create(ResourceDesc::Image(image_desc()));
    let mut p = Pass::new("producer");
    p.write(tex, AccessKind::ShaderWrite);
    rg.add_pass(p);
    let mut p = Pass::new("reader one");
    p.read(tex, AccessKind::ShaderRead);
    rg.add_pass(p);
    let mut p = Pass::new("reader two");
    p.read(tex, AccessKind::ShaderRead);
    rg.add_pass(p);
    assert!(rg.validate());
    let s = rg.compile_schedule();
    // declaration order is execution order
    assert_eq!(s.order, vec![0, 1, 2]);
    // one write-to-read barrier; the read-to-read pair elides it
    assert_eq!(s.barriers.len(), 1);
    let b = s.barriers[0];
    assert_eq!(b.resource, tex.id);
    assert_eq!(b.src_pass, 0);
    assert_eq!(b.dst_pass, 1);
    assert_eq!(b.src_access, AccessKind::ShaderWrite);
    assert_eq!(b.dst_access, AccessKind::ShaderRead);
}

#[test]
fn schedule_orders_buffer_transfer_hazards() {
    let mut rg = RenderGraph::new_graph();
    let buf = rg.import(ResourceDesc::Buffer(BufferDesc { size_bytes: 256, usage: USAGE_STORAGE }));
    let mut p = Pass::new("read before overwrite");
    p.read(buf, AccessKind::TransferRead);
    rg.add_pass(p);
    let mut p = Pass::new("overwrite");
    p.write(buf, AccessKind::TransferWrite);
    rg.add_pass(p);
    assert!(rg.validate());
    let s = rg.compile_schedule();
    // write-after-read needs a barrier
    assert_eq!(s.barriers.len(), 1);
    assert_eq!(s.barriers[0].src_access, AccessKind::TransferRead);
    assert_eq!(s.barriers[0].dst_access, AccessKind::TransferWrite);
}

#[test]
fn ping_pong_alternates_physical_images() {
    let reg = TemporalRegistry::new_registry();
    let pp = PingPongTemporalResource::new("stream.example");
    let desc = image_desc();

    let mut tg = TemporalRenderGraph::begin_frame(reg);
    let (o1, h1) = pp.get_output_and_history(&mut tg, desc);
    let img = |tg: &TemporalRenderGraph, id: usize| match tg.rg.resources[id].origin {
        ResourceOrigin::Temporal { image } => image,
        _ => panic!("expected a temporal resource"),
    };
    let out1 = img(&tg, o1.id);
    let hist1 = img(&tg, h1.id);
    assert_ne!(out1, hist1, "output and history never alias within a frame");
    let (_, reg) = tg.finish_frame();

    let mut tg = TemporalRenderGraph::begin_frame(reg);
    let (o2, h2) = pp.get_output_and_history(&mut tg, desc);
    let out2 = img(&tg, o2.id);
    let hist2 = img(&tg, h2.id);
    assert_eq!(hist2, out1, "next frame's history is this frame's output");
    assert_eq!(out2, hist1, "the stream alternates between exactly two images");
    assert_ne!(out2, hist2);
    // the descriptors stay bit-identical across frames
    assert_eq!(tg.rg.resources[o2.id].desc, ResourceDesc::Image(desc));
    assert_eq!(tg.rg.resources[h2.id].desc, ResourceDesc::Image(desc));
}

#[test]
fn incompatible_temporal_descriptor_is_an_error() {
    let reg = TemporalRegistry::new_registry();
    let mut tg = TemporalRenderGraph::begin_frame(reg);
    let key = String::from("stream.depth");
    let first = tg.get_or_create_temporal(&key, image_desc());
    assert!(first.is_ok());
    let incompatible = image_desc().with_format(Format::R32Sfloat);
    let second = tg.get_or_create_temporal(&key, incompatible);
    assert_eq!(second.unwrap_err(), TemporalError::IncompatibleDescriptor);
    // a compatible repeat still succeeds
    let third = tg.get_or_create_temporal(&key, image_desc());
    assert!(third.is_ok());
}
