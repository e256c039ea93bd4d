use vstd::prelude::*;

use crate::resource::ResourceDesc;

verus! {

/// How a pass uses a resource; the scheduler derives synchronization from
/// the combination of consecutive access types on one resource.
#[derive(Clone, Copy, PartialEq, Eq, Structural, Debug)]
pub enum AccessKind {
    TransferRead,
    TransferWrite,
    ShaderRead,
    DepthAspectShaderRead,
    RayTracingShaderRead,
    ShaderWrite,
}

pub open spec fn is_write_access(a: AccessKind) -> bool {
    a is TransferWrite || a is ShaderWrite
}

/// Where a graph resource's backing comes from: created by this frame's
/// graph (content undefined until a pass writes it), imported from outside
/// the graph, or handed out by the temporal registry (content persists from
/// an earlier frame; the `image` is the persistent physical allocation).
#[derive(Clone, Copy, PartialEq, Eq, Structural, Debug)]
pub enum ResourceOrigin {
    Created,
    Imported,
    Temporal { image: u64 },
}

#[derive(Clone, Copy, PartialEq, Eq, Structural, Debug)]
pub struct ResourceSlot {
    pub desc: ResourceDesc,
    pub origin: ResourceOrigin,
}

/// An opaque reference to a graph resource, valid for one frame's graph.
#[derive(Clone, Copy, PartialEq, Eq, Structural, Debug)]
pub struct Handle {
    pub id: usize,
}

/// A handle restricted to reading; what the pipeline hands back to its
/// caller.
#[derive(Clone, Copy, PartialEq, Eq, Structural, Debug)]
pub struct ReadOnlyHandle {
    pub id: usize,
}

impl Handle {
    pub fn read_only(self) -> (r: ReadOnlyHandle)
        ensures
            r.id == self.id,
    {
        ReadOnlyHandle { id: self.id }
    }
}

#[derive(Clone, Copy, PartialEq, Eq, Structural, Debug)]
pub struct PassAccess {
    pub resource: usize,
    pub access: AccessKind,
}

/// A named unit of GPU work together with every resource it touches. The
/// executable kernel itself (a compute/ray-trace program identified by
/// `program`) is opaque to this core; the graph schedules it from the
/// declared accesses alone, so a pass must declare everything it touches.
pub struct Pass {
    pub program: String,
    pub reads: Vec<PassAccess>,
    pub writes: Vec<PassAccess>,
}

impl Pass {
    pub fn new(program: &str) -> (p: Pass)
        ensures
            p.program@ == program@,
            p.reads@ == Seq::<PassAccess>::empty(),
            p.writes@ == Seq::<PassAccess>::empty(),
    {
        Pass { program: program.to_owned(), reads: Vec::new(), writes: Vec::new() }
    }

    /// Declare that this pass reads `h` with the given access type.
    pub fn read(&mut self, h: Handle, access: AccessKind)
        ensures
            final(self).reads@ == old(self).reads@.push(PassAccess { resource: h.id, access }),
            final(self).writes@ == old(self).writes@,
            final(self).program == old(self).program,
    {
        self.reads.push(PassAccess { resource: h.id, access });
    }

    /// Declare that this pass writes `h` with the given access type.
    pub fn write(&mut self, h: Handle, access: AccessKind)
        ensures
            final(self).writes@ == old(self).writes@.push(PassAccess { resource: h.id, access }),
            final(self).reads@ == old(self).reads@,
            final(self).program == old(self).program,
    {
        self.writes.push(PassAccess { resource: h.id, access });
    }
}

/// Does the pass declare a write of resource `r`?
pub open spec fn pass_writes(p: Pass, r: int) -> bool {
    exists|k: int| 0 <= k < p.writes@.len() && p.writes@[k].resource == r
}

/// Witness form of `pass_writes`: the `k`-th declared write is a write.
pub proof fn lemma_pass_writes_at(p: Pass, k: int)
    requires
        0 <= k < p.writes@.len(),
    ensures
        pass_writes(p, p.writes@[k].resource as int),
{
}

/// One frame's dependency graph: a resource table and the passes recorded
/// against it, in declaration order. Declaration order is the execution
/// order (the pipeline is a linear DAG; see the schedule module for the
/// synchronization derived from it).
pub struct RenderGraph {
    pub resources: Vec<ResourceSlot>,
    pub passes: Vec<Pass>,
}

impl RenderGraph {
    pub open spec fn valid_resource(self, r: int) -> bool {
        0 <= r < self.resources@.len()
    }

    /// A resource whose content exists before any pass runs: imported, or
    /// persisted across frames by the temporal registry.
    pub open spec fn resource_external(self, r: int) -> bool {
        !(self.resources@[r].origin is Created)
    }

    /// Some pass among the first `n` writes resource `r`.
    pub open spec fn written_among(self, r: int, n: int) -> bool {
        exists|q: int| 0 <= q < n && pass_writes(self.passes@[q], r)
    }

    /// Resource `r` may be read by the next pass to be recorded: it exists,
    /// and its content is defined (external origin, or some already-recorded
    /// pass wrote it).
    pub open spec fn readable(self, r: int) -> bool {
        self.valid_resource(r) && (self.resource_external(r) || self.written_among(
            r,
            self.passes@.len() as int,
        ))
    }

    pub open spec fn access_in_bounds(self, a: PassAccess) -> bool {
        self.valid_resource(a.resource as int)
    }

    /// Every access of pass `i` is sound: reads only resources written by an
    /// earlier pass or provided from outside the graph, writes only resources
    /// that exist.
    pub open spec fn pass_ok(self, i: int) -> bool {
        (forall|k: int|
            0 <= k < self.passes@[i].reads@.len() ==> {
                let a = #[trigger] self.passes@[i].reads@[k];
                self.valid_resource(a.resource as int) && (self.resource_external(a.resource as int)
                    || self.written_among(a.resource as int, i))
            }) && (forall|k: int|
            0 <= k < self.passes@[i].writes@.len() ==> self.access_in_bounds(
                #[trigger] self.passes@[i].writes@[k],
            ))
    }

    /// The graph is well formed: no pass reads a resource that no earlier
    /// pass wrote and that the registry or an import did not provide — no
    /// dangling reads.
    pub open spec fn wf(self) -> bool {
        forall|i: int| 0 <= i < self.passes@.len() ==> self.pass_ok(i)
    }

    pub fn new_graph() -> (g: RenderGraph)
        ensures
            g.resources@ == Seq::<ResourceSlot>::empty(),
            g.passes@ == Seq::<Pass>::empty(),
            g.wf(),
    {
        RenderGraph { resources: Vec::new(), passes: Vec::new() }
    }

    /// Create a transient resource, scoped to this frame's graph. Its
    /// content is undefined until a pass writes it, so the handle is not
    /// readable yet.
    pub fn create(&mut self, desc: ResourceDesc) -> (h: Handle)
        ensures
            h.id == old(self).resources@.len(),
            final(self).resources@ == old(self).resources@.push(
                ResourceSlot { desc, origin: ResourceOrigin::Created },
            ),
            final(self).passes@ == old(self).passes@,
            forall|r: int| old(self).readable(r) ==> final(self).readable(r),
            old(self).wf() ==> final(self).wf(),
    {
        let h = Handle { id: self.resources.len() };
        self.resources.push(ResourceSlot { desc, origin: ResourceOrigin::Created });
        proof {
            assert forall|i: int| 0 <= i < self.passes@.len() && old(self).pass_ok(i) implies self
                .pass_ok(i) by {}
        }
        h
    }

    /// Import a resource that exists outside the graph (a persistent buffer,
    /// an acceleration structure). Its content is defined from the start.
    pub fn import(&mut self, desc: ResourceDesc) -> (h: Handle)
        ensures
            h.id == old(self).resources@.len(),
            final(self).resources@ == old(self).resources@.push(
                ResourceSlot { desc, origin: ResourceOrigin::Imported },
            ),
            final(self).passes@ == old(self).passes@,
            forall|r: int| old(self).readable(r) ==> final(self).readable(r),
            final(self).readable(h.id as int),
            old(self).wf() ==> final(self).wf(),
    {
        let h = Handle { id: self.resources.len() };
        self.resources.push(ResourceSlot { desc, origin: ResourceOrigin::Imported });
        proof {
            assert forall|i: int| 0 <= i < self.passes@.len() && old(self).pass_ok(i) implies self
                .pass_ok(i) by {}
        }
        h
    }

    /// Used by the temporal registry: register a resource backed by the
    /// persistent physical image `image`.
    pub fn import_temporal(&mut self, desc: ResourceDesc, image: u64) -> (h: Handle)
        ensures
            h.id == old(self).resources@.len(),
            final(self).resources@ == old(self).resources@.push(
                ResourceSlot { desc, origin: ResourceOrigin::Temporal { image } },
            ),
            final(self).passes@ == old(self).passes@,
            forall|r: int| old(self).readable(r) ==> final(self).readable(r),
            final(self).readable(h.id as int),
            old(self).wf() ==> final(self).wf(),
    {
        let h = Handle { id: self.resources.len() };
        self.resources.push(ResourceSlot { desc, origin: ResourceOrigin::Temporal { image } });
        proof {
            assert forall|i: int| 0 <= i < self.passes@.len() && old(self).pass_ok(i) implies self
                .pass_ok(i) by {}
        }
        h
    }

    /// All reads of `p` are readable now and all writes in bounds, so `p`
    /// may be recorded next without creating a dangling read.
    pub open spec fn pass_admissible(self, p: Pass) -> bool {
        (forall|k: int|
            0 <= k < p.reads@.len() ==> self.readable(#[trigger] p.reads@[k].resource as int))
            && (forall|k: int| 0 <= k < p.writes@.len() ==> self.access_in_bounds(#[trigger] p.writes@[k]))
    }

    /// Record a pass. Recording an admissible pass into a well-formed graph
    /// keeps the graph well formed, keeps every readable resource readable,
    /// and makes everything the pass writes readable.
    pub fn add_pass(&mut self, p: Pass)
        requires
            old(self).wf(),
            old(self).pass_admissible(p),
        ensures
            final(self).resources@ == old(self).resources@,
            final(self).passes@.len() == old(self).passes@.len() + 1,
            final(self).passes@ =~= old(self).passes@.push(p),
            final(self).wf(),
            forall|r: int| old(self).readable(r) ==> final(self).readable(r),
            forall|r: int|
                old(self).valid_resource(r) && pass_writes(p, r) ==> final(self).readable(r),
    {
        let ghost n = self.passes@.len() as int;
        self.passes.push(p);
        proof {
            assert forall|i: int| 0 <= i < self.passes@.len() implies self.pass_ok(i) by {
                if i < n {
                    assert(old(self).pass_ok(i));
                    assert forall|k: int|
                        #![trigger self.passes@[i].reads@[k]]
                        0 <= k < self.passes@[i].reads@.len() implies {
                        let a = self.passes@[i].reads@[k];
                        self.valid_resource(a.resource as int) && (self.resource_external(
                            a.resource as int,
                        ) || self.written_among(a.resource as int, i))
                    } by {
                        assert(self.passes@[i] == old(self).passes@[i]);
                        let a = old(self).passes@[i].reads@[k];
                        if !old(self).resource_external(a.resource as int) {
                            let q = choose|q: int|
                                0 <= q < i && pass_writes(old(self).passes@[q], a.resource as int);
                            assert(self.passes@[q] == old(self).passes@[q]);
                            assert(self.written_among(a.resource as int, i));
                        }
                    }
                } else {
                    assert(self.passes@[i] == p);
                    assert forall|k: int|
                        #![trigger self.passes@[i].reads@[k]]
                        0 <= k < self.passes@[i].reads@.len() implies {
                        let a = self.passes@[i].reads@[k];
                        self.valid_resource(a.resource as int) && (self.resource_external(
                            a.resource as int,
                        ) || self.written_among(a.resource as int, i))
                    } by {
                        let a = p.reads@[k];
                        assert(old(self).readable(a.resource as int));
                        if !old(self).resource_external(a.resource as int) {
                            let q = choose|q: int|
                                0 <= q < n && pass_writes(old(self).passes@[q], a.resource as int);
                            assert(self.passes@[q] == old(self).passes@[q]);
                            assert(self.written_among(a.resource as int, i));
                        }
                    }
                }
            }
            assert forall|r: int| old(self).readable(r) implies self.readable(r) by {
                if !old(self).resource_external(r) {
                    let q = choose|q: int| 0 <= q < n && pass_writes(old(self).passes@[q], r);
                    assert(self.passes@[q] == old(self).passes@[q]);
                    assert(self.written_among(r, self.passes@.len() as int));
                }
            }
            assert forall|r: int|
                old(self).valid_resource(r) && pass_writes(p, r) implies self.readable(r) by {
                assert(self.passes@[n] == p);
                assert(self.written_among(r, self.passes@.len() as int));
            }
        }
    }

    /// Runtime validation of the no-dangling-reads property: returns whether
    /// the recorded graph is well formed. A `false` result marks a
    /// construction-time programming error in the pass wiring.
    pub fn validate(&self) -> (b: bool)
        ensures
            b == self.wf(),
    {
        let mut written: Vec<bool> = Vec::new();
        let n_res = self.resources.len();
        let mut r: usize = 0;
        while r < n_res
            invariant
                written@.len() == r,
                r <= n_res,
                n_res == self.resources@.len(),
                forall|j: int| 0 <= j < r ==> written@[j] == false,
            decreases n_res - r,
        {
            written.push(false);
            r += 1;
        }
        let mut i: usize = 0;
        let n = self.passes.len();
        while i < n
            invariant
                n == self.passes@.len(),
                i <= n,
                written@.len() == self.resources@.len(),
                forall|j: int|
                    0 <= j < written@.len() ==> written@[j] == self.written_among(j, i as int),
                forall|q: int| 0 <= q < i ==> self.pass_ok(q),
            decreases n - i,
        {
            let p = &self.passes[i];
            let mut k: usize = 0;
            let nr = p.reads.len();
            while k < nr
                invariant
                    n == self.passes@.len(),
                    i < n,
                    p == self.passes@[i as int],
                    nr == p.reads@.len(),
                    k <= nr,
                    written@.len() == self.resources@.len(),
                    forall|j: int|
                        0 <= j < written@.len() ==> written@[j] == self.written_among(j, i as int),
                    forall|kk: int|
                        0 <= kk < k ==> {
                            let a = #[trigger] self.passes@[i as int].reads@[kk];
                            self.valid_resource(a.resource as int) && (self.resource_external(
                                a.resource as int,
                            ) || self.written_among(a.resource as int, i as int))
                        },
                decreases nr - k,
            {
                let a = p.reads[k];
                if a.resource >= self.resources.len() {
                    proof {
                        assert(self.passes@[i as int].reads@[k as int] == a);
                        assert(!self.pass_ok(i as int));
                    }
                    return false;
                }
                let ext = !matches!(self.resources[a.resource].origin, ResourceOrigin::Created);
                if !ext && !written[a.resource] {
                    proof {
                        assert(self.passes@[i as int].reads@[k as int] == a);
                        assert(!(self.resource_external(a.resource as int) || self.written_among(
                            a.resource as int,
                            i as int,
                        )));
                        assert(!self.pass_ok(i as int));
                    }
                    return false;
                }
                k += 1;
            }
            let mut k: usize = 0;
            let nw = p.writes.len();
            while k < nw
                invariant
                    n == self.passes@.len(),
                    i < n,
                    p == self.passes@[i as int],
                    nw == p.writes@.len(),
                    k <= nw,
                    written@.len() == self.resources@.len(),
                    forall|j: int|
                        0 <= j < written@.len() ==> written@[j] == self.written_among(j, i as int),
                    forall|kk: int|
                        0 <= kk < k ==> self.access_in_bounds(
                            #[trigger] self.passes@[i as int].writes@[kk],
                        ),
                    forall|kk: int|
                        0 <= kk < self.passes@[i as int].reads@.len() ==> {
                            let a = #[trigger] self.passes@[i as int].reads@[kk];
                            self.valid_resource(a.resource as int) && (self.resource_external(
                                a.resource as int,
                            ) || self.written_among(a.resource as int, i as int))
                        },
                decreases nw - k,
            {
                let a = p.writes[k];
                if a.resource >= self.resources.len() {
                    proof {
                        assert(self.passes@[i as int].writes@[k as int] == a);
                        assert(!self.access_in_bounds(self.passes@[i as int].writes@[k as int]));
                        assert(!self.pass_ok(i as int));
                    }
                    return false;
                }
                k += 1;
            }
            // mark everything this pass writes
            let mut k: usize = 0;
            while k < nw
                invariant
                    n == self.passes@.len(),
                    i < n,
                    p == self.passes@[i as int],
                    nw == p.writes@.len(),
                    k <= nw,
                    written@.len() == self.resources@.len(),
                    forall|kk: int|
                        0 <= kk < nw ==> self.access_in_bounds(
                            #[trigger] self.passes@[i as int].writes@[kk],
                        ),
                    forall|j: int|
                        0 <= j < written@.len() ==> written@[j] == (self.written_among(j, i as int)
                            || exists|kk: int|
                            0 <= kk < k && self.passes@[i as int].writes@[kk].resource == j),
                    self.pass_ok(i as int),
                decreases nw - k,
            {
                let a = p.writes[k];
                written.set(a.resource, true);
                k += 1;
            }
            proof {
                assert forall|j: int| 0 <= j < written@.len() implies written@[j]
                    == self.written_among(j, i as int + 1) by {
                    if self.written_among(j, i as int + 1) {
                        let q = choose|q: int|
                            0 <= q < i as int + 1 && pass_writes(self.passes@[q], j);
                        if q < i as int {
                            assert(self.written_among(j, i as int));
                        }
                    }
                    if written@[j] {
                        if self.written_among(j, i as int) {
                            assert(self.written_among(j, i as int + 1));
                        } else {
                            assert(pass_writes(self.passes@[i as int], j));
                            assert(self.written_among(j, i as int + 1));
                        }
                    }
                }
            }
            i += 1;
        }
        true
    }
}

} // verus!
