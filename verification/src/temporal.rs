use vstd::prelude::*;

use crate::graph::{Handle, Pass, RenderGraph, ResourceSlot};
use crate::resource::{desc_compatible, ImageDesc, ResourceDesc};

verus! {

/// Construction-time errors of the temporal registry: programming defects
/// in pass wiring, reported immediately, never recovered from.
#[derive(Clone, Copy, PartialEq, Eq, Structural, Debug)]
pub enum TemporalError {
    IncompatibleDescriptor,
}

/// One named cross-frame stream: a stable key, the descriptor both backing
/// images were created with, the two physical allocations, and the parity
/// bit that says which of the two currently holds the stream's content.
pub struct TemporalSlot {
    pub key: String,
    pub desc: ImageDesc,
    pub image_a: u64,
    pub image_b: u64,
    pub parity: bool,
}

/// The physical image holding the stream's current content (what this
/// frame observes as history).
pub open spec fn current_image(s: TemporalSlot) -> u64 {
    if s.parity {
        s.image_b
    } else {
        s.image_a
    }
}

/// The other physical image of the pair: the one this frame writes.
pub open spec fn other_image(s: TemporalSlot) -> u64 {
    if s.parity {
        s.image_a
    } else {
        s.image_b
    }
}

/// A frame step of a ping-pong stream: the written image becomes the
/// stored content by flipping the parity bit; nothing else changes.
pub open spec fn stepped_slot(s: TemporalSlot) -> TemporalSlot {
    TemporalSlot {
        key: s.key,
        desc: s.desc,
        image_a: s.image_a,
        image_b: s.image_b,
        parity: !s.parity,
    }
}

/// Ping-pong invariant: for any stream whose two backing images are
/// distinct, this frame's output image and history image are never the
/// same allocation; after the frame step, the next frame observes this
/// frame's output as its history and writes what this frame read — the
/// stream strictly alternates between exactly two physical images, with an
/// unchanged descriptor throughout.
pub proof fn lemma_ping_pong(s0: TemporalSlot)
    requires
        s0.image_a != s0.image_b,
    ensures
        other_image(s0) != current_image(s0),
        current_image(stepped_slot(s0)) == other_image(s0),
        other_image(stepped_slot(s0)) == current_image(s0),
        stepped_slot(s0).desc == s0.desc,
        stepped_slot(stepped_slot(s0)) == s0,
{
}

/// The process-wide registry of temporal streams. It owns the persistent
/// physical images and hands out per-frame borrowed handles; it outlives
/// every frame's graph and is torn down only with the whole renderer.
pub struct TemporalRegistry {
    pub slots: Vec<TemporalSlot>,
    pub next_image: u64,
}

impl TemporalRegistry {
    /// Keys are unique; every stream's two images are distinct allocations,
    /// distinct from every other stream's, and drawn from below the
    /// allocation counter.
    pub open spec fn wf(self) -> bool {
        &&& forall|i: int, j: int|
            0 <= i < self.slots@.len() && 0 <= j < self.slots@.len() && i != j
                ==> (#[trigger] self.slots@[i]).key@ != (#[trigger] self.slots@[j]).key@
        &&& forall|i: int|
            0 <= i < self.slots@.len() ==> (#[trigger] self.slots@[i]).image_a
                != self.slots@[i].image_b
        &&& forall|i: int|
            0 <= i < self.slots@.len() ==> (#[trigger] self.slots@[i]).image_a < self.next_image
                && self.slots@[i].image_b < self.next_image
        &&& forall|i: int, j: int|
            0 <= i < self.slots@.len() && 0 <= j < self.slots@.len() && i != j ==> {
                &&& (#[trigger] self.slots@[i]).image_a != (#[trigger] self.slots@[j]).image_a
                &&& self.slots@[i].image_a != self.slots@[j].image_b
                &&& self.slots@[i].image_b != self.slots@[j].image_a
                &&& self.slots@[i].image_b != self.slots@[j].image_b
            }
    }

    pub open spec fn has_key(self, k: Seq<char>) -> bool {
        exists|i: int| 0 <= i < self.slots@.len() && (#[trigger] self.slots@[i]).key@ == k
    }

    /// A request for stream `k` with descriptor `d` would be accepted:
    /// either the stream does not exist yet, or it was created with a
    /// compatible descriptor.
    pub open spec fn accepts(self, k: Seq<char>, d: ImageDesc) -> bool {
        forall|i: int|
            0 <= i < self.slots@.len() && (#[trigger] self.slots@[i]).key@ == k ==> desc_compatible(
                self.slots@[i].desc,
                d,
            )
    }

    pub fn new_registry() -> (r: TemporalRegistry)
        ensures
            r.slots@ == Seq::<TemporalSlot>::empty(),
            r.next_image == 0u64,
            r.wf(),
    {
        TemporalRegistry { slots: Vec::new(), next_image: 0 }
    }

    /// Index of the slot keyed `k`, if any.
    fn find(&self, key: &String) -> (r: Option<usize>)
        ensures
            match r {
                Some(i) => i < self.slots@.len() && self.slots@[i as int].key@ == key@,
                None => !self.has_key(key@),
            },
    {
        let n = self.slots.len();
        let mut i: usize = 0;
        while i < n
            invariant
                n == self.slots@.len(),
                i <= n,
                forall|j: int| 0 <= j < i ==> (#[trigger] self.slots@[j]).key@ != key@,
            decreases n - i,
        {
            if self.slots[i].key == *key {
                return Some(i);
            }
            i += 1;
        }
        None
    }

    /// Would a request for stream `key` with descriptor `desc` be accepted?
    /// Callers that must not panic check this before driving the pipeline.
    pub fn accepts_stream(&self, key: &String, desc: ImageDesc) -> (b: bool)
        requires
            self.wf(),
        ensures
            b == self.accepts(key@, desc),
    {
        match self.find(key) {
            None => true,
            Some(i) => {
                let s = &self.slots[i];
                let ok = s.desc.format == desc.format && s.desc.width == desc.width && s.desc.height
                    == desc.height && s.desc.depth == desc.depth && s.desc.usage == desc.usage;
                proof {
                    if ok {
                        assert forall|j: int|
                            0 <= j < self.slots@.len() && (#[trigger] self.slots@[j]).key@ == key@
                            implies desc_compatible(self.slots@[j].desc, desc) by {
                            assert(j == i as int);
                        }
                    }
                }
                ok
            },
        }
    }
}

/// A frame's render graph together with the registry it may draw temporal
/// resources from. Built at the start of a frame from the persistent
/// registry; `finish` hands the registry back once the frame is fully
/// recorded, so the next frame's graph can only be built after this one.
pub struct TemporalRenderGraph {
    pub rg: RenderGraph,
    pub registry: TemporalRegistry,
}

impl TemporalRenderGraph {
    pub fn begin_frame(registry: TemporalRegistry) -> (tg: TemporalRenderGraph)
        ensures
            tg.registry == registry,
            tg.rg.resources@ == Seq::<ResourceSlot>::empty(),
            tg.rg.passes@ == Seq::<Pass>::empty(),
            tg.rg.wf(),
    {
        TemporalRenderGraph { rg: RenderGraph::new_graph(), registry }
    }

    pub fn finish_frame(self) -> (r: (RenderGraph, TemporalRegistry))
        ensures
            r.0 == self.rg,
            r.1 == self.registry,
    {
        (self.rg, self.registry)
    }

    pub fn create(&mut self, desc: ResourceDesc) -> (h: Handle)
        ensures
            final(self).registry == old(self).registry,
            h.id == old(self).rg.resources@.len(),
            final(self).rg.resources@ == old(self).rg.resources@.push(
                ResourceSlot { desc, origin: crate::graph::ResourceOrigin::Created },
            ),
            final(self).rg.passes@ == old(self).rg.passes@,
            forall|r: int| old(self).rg.readable(r) ==> final(self).rg.readable(r),
            old(self).rg.wf() ==> final(self).rg.wf(),
    {
        self.rg.create(desc)
    }

    pub fn import(&mut self, desc: ResourceDesc) -> (h: Handle)
        ensures
            final(self).registry == old(self).registry,
            h.id == old(self).rg.resources@.len(),
            final(self).rg.resources@ == old(self).rg.resources@.push(
                ResourceSlot { desc, origin: crate::graph::ResourceOrigin::Imported },
            ),
            final(self).rg.passes@ == old(self).rg.passes@,
            forall|r: int| old(self).rg.readable(r) ==> final(self).rg.readable(r),
            final(self).rg.readable(h.id as int),
            old(self).rg.wf() ==> final(self).rg.wf(),
    {
        self.rg.import(desc)
    }

    pub fn add_pass(&mut self, p: Pass)
        requires
            old(self).rg.wf(),
            old(self).rg.pass_admissible(p),
        ensures
            final(self).registry == old(self).registry,
            final(self).rg.resources@ == old(self).rg.resources@,
            final(self).rg.passes@.len() == old(self).rg.passes@.len() + 1,
            final(self).rg.passes@ =~= old(self).rg.passes@.push(p),
            final(self).rg.wf(),
            forall|r: int| old(self).rg.readable(r) ==> final(self).rg.readable(r),
            forall|r: int|
                old(self).rg.valid_resource(r) && crate::graph::pass_writes(p, r)
                    ==> final(self).rg.readable(r),
    {
        self.rg.add_pass(p)
    }

    /// Get-or-create a named persistent resource and register it with this
    /// frame's graph. The first call in the stream's lifetime allocates it
    /// (content undefined, so consumers must treat first-ever history as
    /// invalid); later calls return the stored slot, and a descriptor
    /// incompatible with the one the stream was created with is an error.
    pub fn get_or_create_temporal(&mut self, key: &String, desc: ImageDesc) -> (r: Result<
        Handle,
        TemporalError,
    >)
        requires
            old(self).registry.wf(),
            old(self).registry.next_image <= u64::MAX - 2,
        ensures
            final(self).registry.wf(),
            final(self).registry.next_image <= old(self).registry.next_image + 2,
            match r {
                Ok(h) => {
                    &&& old(self).registry.accepts(key@, desc)
                    &&& h.id == old(self).rg.resources@.len()
                    &&& final(self).rg.passes@ == old(self).rg.passes@
                    &&& final(self).rg.resources@.len() == old(self).rg.resources@.len() + 1
                    &&& (forall|r: int| old(self).rg.readable(r) ==> final(self).rg.readable(r))
                    &&& (forall|x: int|
                        0 <= x < old(self).rg.resources@.len() ==> final(self).rg.resources@[x]
                            == old(self).rg.resources@[x])
                    &&& final(self).rg.resources@[h.id as int].origin is Temporal
                    &&& final(self).rg.readable(h.id as int)
                    &&& (old(self).rg.wf() ==> final(self).rg.wf())
                    &&& final(self).registry.has_key(key@)
                    &&& (forall|k2: Seq<char>|
                        old(self).registry.has_key(k2) ==> final(self).registry.has_key(k2))
                    &&& (forall|k2: Seq<char>, d2: ImageDesc|
                        k2 != key@ && old(self).registry.accepts(k2, d2)
                            ==> final(self).registry.accepts(k2, d2))
                    &&& final(self).registry.accepts(key@, desc)
                },
                Err(e) => {
                    &&& e == TemporalError::IncompatibleDescriptor
                    &&& !old(self).registry.accepts(key@, desc)
                    &&& *final(self) == *old(self)
                },
            },
            r is Err <==> !old(self).registry.accepts(key@, desc),
    {
        let found = self.registry.find(key);
        match found {
            Some(i) => {
                let compat = self.registry.accepts_stream(key, desc);
                if !compat {
                    return Err(TemporalError::IncompatibleDescriptor);
                }
                let s = &self.registry.slots[i];
                let image = if s.parity {
                    s.image_b
                } else {
                    s.image_a
                };
                let h = self.rg.import_temporal(ResourceDesc::Image(s.desc), image);
                Ok(h)
            },
            None => {
                let image_a = self.registry.next_image;
                let image_b = self.registry.next_image + 1;
                self.registry.next_image = self.registry.next_image + 2;
                self.registry.slots.push(
                    TemporalSlot { key: key.clone(), desc, image_a, image_b, parity: false },
                );
                proof {
                    let reg1 = self.registry;
                    let reg0 = old(self).registry;
                    let n = reg0.slots@.len() as int;
                    assert(reg1.slots@ == reg0.slots@.push(reg1.slots@[n]));
                    assert forall|k2: Seq<char>| reg0.has_key(k2) implies reg1.has_key(k2) by {
                        let w = choose|x: int|
                            0 <= x < reg0.slots@.len() && (#[trigger] reg0.slots@[x]).key@ == k2;
                        assert(reg1.slots@[w].key@ == reg0.slots@[w].key@);
                    }
                    assert forall|i: int, j: int|
                        0 <= i < reg1.slots@.len() && 0 <= j < reg1.slots@.len() && i != j implies (
                    #[trigger] reg1.slots@[i]).key@ != (#[trigger] reg1.slots@[j]).key@ by {
                        if i < n && j < n {
                            assert(reg0.slots@[i] == reg1.slots@[i]);
                            assert(reg0.slots@[j] == reg1.slots@[j]);
                        } else if i == n {
                            assert(reg0.slots@[j] == reg1.slots@[j]);
                        } else {
                            assert(reg0.slots@[i] == reg1.slots@[i]);
                        }
                    }
                }
                let h = self.rg.import_temporal(ResourceDesc::Image(desc), image_a);
                Ok(h)
            },
        }
    }
}

/// True when `s` is a registry-backed resource, and the physical image
/// backing it.
pub open spec fn is_temporal_slot(s: ResourceSlot) -> bool {
    s.origin is Temporal
}

pub open spec fn temporal_image_of(s: ResourceSlot) -> u64 {
    match s.origin {
        crate::graph::ResourceOrigin::Temporal { image } => image,
        _ => 0,
    }
}

impl TemporalRegistry {
    /// The index of the slot keyed `k` (meaningful when `has_key` holds;
    /// unique under `wf`).
    pub open spec fn spec_index_of(self, k: Seq<char>) -> int {
        choose|i: int| 0 <= i < self.slots@.len() && (#[trigger] self.slots@[i]).key@ == k
    }
}

/// A registry-backed helper for one temporal stream: each frame it hands
/// out a fresh "output" handle, bound to be written this frame, and a
/// "history" handle holding last frame's output, strictly alternating the
/// two physical backing images so a frame's history reader never aliases
/// its output writer.
pub struct PingPongTemporalResource {
    pub key: String,
}

impl PingPongTemporalResource {
    pub fn new(key: &str) -> (s: PingPongTemporalResource)
        ensures
            s.key@ == key@,
    {
        PingPongTemporalResource { key: key.to_owned() }
    }

    /// Returns `(output, history)` for this frame and steps the stream, so
    /// the next frame observes this frame's output as its history. Both
    /// handles are registered with this frame's graph against the stream's
    /// descriptor; they are backed by the stream's two distinct physical
    /// images.
    pub fn get_output_and_history(&self, tg: &mut TemporalRenderGraph, desc: ImageDesc) -> (r: (
        Handle,
        Handle,
    ))
        requires
            old(tg).registry.wf(),
            old(tg).registry.accepts(self.key@, desc),
            old(tg).registry.next_image <= u64::MAX - 2,
        ensures
            final(tg).registry.wf(),
            final(tg).registry.next_image <= old(tg).registry.next_image + 2,
            final(tg).rg.passes@ == old(tg).rg.passes@,
            final(tg).rg.resources@.len() == old(tg).rg.resources@.len() + 2,
            r.0.id == old(tg).rg.resources@.len(),
            r.1.id == old(tg).rg.resources@.len() + 1,
            forall|x: int| old(tg).rg.readable(x) ==> final(tg).rg.readable(x),
            forall|x: int|
                0 <= x < old(tg).rg.resources@.len() ==> final(tg).rg.resources@[x] == old(
                    tg,
                ).rg.resources@[x],
            final(tg).rg.readable(r.0.id as int),
            final(tg).rg.readable(r.1.id as int),
            old(tg).rg.wf() ==> final(tg).rg.wf(),
            final(tg).registry.has_key(self.key@),
            forall|k2: Seq<char>|
                old(tg).registry.has_key(k2) ==> final(tg).registry.has_key(k2),
            forall|k2: Seq<char>, d2: ImageDesc|
                k2 != self.key@ && old(tg).registry.accepts(k2, d2) ==> final(tg).registry.accepts(
                    k2,
                    d2,
                ),
            final(tg).registry.accepts(self.key@, desc),
            ({
                let out_res = final(tg).rg.resources@[r.0.id as int];
                let hist_res = final(tg).rg.resources@[r.1.id as int];
                let s1 = final(tg).registry.slots@[final(tg).registry.spec_index_of(self.key@)];
                &&& is_temporal_slot(out_res)
                &&& is_temporal_slot(hist_res)
                &&& out_res.desc == ResourceDesc::Image(s1.desc)
                &&& hist_res.desc == ResourceDesc::Image(s1.desc)
                &&& desc_compatible(s1.desc, desc)
                &&& temporal_image_of(out_res) != temporal_image_of(hist_res)
                &&& temporal_image_of(out_res) == current_image(s1)
                &&& temporal_image_of(hist_res) == other_image(s1)
            }),
            old(tg).registry.has_key(self.key@) ==> ({
                let s0 = old(tg).registry.slots@[old(tg).registry.spec_index_of(self.key@)];
                let s1 = final(tg).registry.slots@[final(tg).registry.spec_index_of(self.key@)];
                &&& s1 == stepped_slot(s0)
                &&& temporal_image_of(final(tg).rg.resources@[r.1.id as int]) == current_image(s0)
                &&& temporal_image_of(final(tg).rg.resources@[r.0.id as int]) == other_image(s0)
            }),
    {
        let found = tg.registry.find(&self.key);
        match found {
            Some(i) => {
                let s_desc = tg.registry.slots[i].desc;
                let p = tg.registry.slots[i].parity;
                let out_img = if p {
                    tg.registry.slots[i].image_a
                } else {
                    tg.registry.slots[i].image_b
                };
                let hist_img = if p {
                    tg.registry.slots[i].image_b
                } else {
                    tg.registry.slots[i].image_a
                };
                tg.registry.slots[i].parity = !p;
                let out = tg.rg.import_temporal(ResourceDesc::Image(s_desc), out_img);
                let hist = tg.rg.import_temporal(ResourceDesc::Image(s_desc), hist_img);
                proof {
                    let reg0 = old(tg).registry;
                    let reg1 = tg.registry;
                    let ghost j0 = reg0.spec_index_of(self.key@);
                    assert(reg0.slots@[i as int].key@ == self.key@);
                    assert(j0 == i as int);
                    assert forall|x: int, y: int|
                        0 <= x < reg1.slots@.len() && 0 <= y < reg1.slots@.len() && x != y implies (
                    #[trigger] reg1.slots@[x]).key@ != (#[trigger] reg1.slots@[y]).key@ by {
                        assert(reg1.slots@[x].key@ == reg0.slots@[x].key@);
                        assert(reg1.slots@[y].key@ == reg0.slots@[y].key@);
                    }
                    assert(reg1.slots@[reg1.spec_index_of(self.key@)].key@ == self.key@);
                    assert(reg1.spec_index_of(self.key@) == i as int);
                    assert forall|k2: Seq<char>| reg0.has_key(k2) implies reg1.has_key(k2) by {
                        let w = choose|x: int|
                            0 <= x < reg0.slots@.len() && (#[trigger] reg0.slots@[x]).key@ == k2;
                        assert(reg1.slots@[w].key@ == reg0.slots@[w].key@);
                    }
                    assert forall|k2: Seq<char>, d2: ImageDesc|
                        k2 != self.key@ && reg0.accepts(k2, d2) implies reg1.accepts(k2, d2) by {
                        assert forall|x: int|
                            0 <= x < reg1.slots@.len() && (#[trigger] reg1.slots@[x]).key@ == k2
                            implies desc_compatible(reg1.slots@[x].desc, d2) by {
                            assert(reg1.slots@[x].key@ == reg0.slots@[x].key@);
                            assert(reg1.slots@[x].desc == reg0.slots@[x].desc);
                        }
                    }
                    assert forall|x: int|
                        0 <= x < reg1.slots@.len() && (#[trigger] reg1.slots@[x]).key@ == self.key@
                        implies desc_compatible(reg1.slots@[x].desc, desc) by {
                        assert(x == i as int);
                        assert(reg0.slots@[i as int].desc == reg1.slots@[x].desc);
                        assert(reg0.accepts(self.key@, desc));
                    }
                }
                (out, hist)
            },
            None => {
                let image_a = tg.registry.next_image;
                let image_b = tg.registry.next_image + 1;
                tg.registry.next_image = tg.registry.next_image + 2;
                tg.registry.slots.push(
                    TemporalSlot {
                        key: self.key.clone(),
                        desc,
                        image_a,
                        image_b,
                        parity: true,
                    },
                );
                let out = tg.rg.import_temporal(ResourceDesc::Image(desc), image_b);
                let hist = tg.rg.import_temporal(ResourceDesc::Image(desc), image_a);
                proof {
                    let reg0 = old(tg).registry;
                    let reg1 = tg.registry;
                    let n = reg0.slots@.len() as int;
                    assert forall|x: int, y: int|
                        0 <= x < reg1.slots@.len() && 0 <= y < reg1.slots@.len() && x != y implies (
                    #[trigger] reg1.slots@[x]).key@ != (#[trigger] reg1.slots@[y]).key@ by {
                        if x < n {
                            assert(reg1.slots@[x] == reg0.slots@[x]);
                        }
                        if y < n {
                            assert(reg1.slots@[y] == reg0.slots@[y]);
                        }
                    }
                    assert(reg1.slots@[n].key@ == self.key@);
                    assert(reg1.spec_index_of(self.key@) == n);
                    assert forall|k2: Seq<char>| reg0.has_key(k2) implies reg1.has_key(k2) by {
                        let w = choose|x: int|
                            0 <= x < reg0.slots@.len() && (#[trigger] reg0.slots@[x]).key@ == k2;
                        assert(reg1.slots@[w].key@ == reg0.slots@[w].key@);
                    }
                    assert forall|k2: Seq<char>, d2: ImageDesc|
                        k2 != self.key@ && reg0.accepts(k2, d2) implies reg1.accepts(k2, d2) by {
                        assert forall|x: int|
                            0 <= x < reg1.slots@.len() && (#[trigger] reg1.slots@[x]).key@ == k2
                            implies desc_compatible(reg1.slots@[x].desc, d2) by {
                            assert(x != n);
                            assert(reg1.slots@[x] == reg0.slots@[x]);
                        }
                    }
                }
                (out, hist)
            },
        }
    }
}

} // verus!
