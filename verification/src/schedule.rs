use vstd::prelude::*;

use crate::graph::{is_write_access, AccessKind, Pass, PassAccess, RenderGraph};

verus! {

/// A synchronization point: between `src_pass` and `dst_pass`, the
/// `resource` must be made visible from its `src_access` use to its
/// `dst_access` use (a layout transition and/or memory barrier).
#[derive(Clone, Copy, PartialEq, Eq, Structural, Debug)]
pub struct Barrier {
    pub resource: usize,
    pub src_pass: usize,
    pub src_access: AccessKind,
    pub dst_pass: usize,
    pub dst_access: AccessKind,
}

/// Two consecutive accesses need a barrier unless both only read:
/// read-after-write, write-after-read and write-after-write synchronize;
/// compatible read-only accesses elide the barrier.
pub open spec fn needs_barrier_between(a: AccessKind, b: AccessKind) -> bool {
    is_write_access(a) || is_write_access(b)
}

/// The first declared access of resource `r` in the list, if any.
pub open spec fn find_access(s: Seq<PassAccess>, r: int) -> Option<AccessKind>
    decreases s.len(),
{
    if s.len() == 0 {
        None
    } else if s[0].resource == r {
        Some(s[0].access)
    } else {
        find_access(s.drop_first(), r)
    }
}

/// How pass `p` accesses resource `r`, if it declares it (reads are
/// considered before writes).
pub open spec fn pass_access(p: Pass, r: int) -> Option<AccessKind> {
    match find_access(p.reads@, r) {
        Some(a) => Some(a),
        None => find_access(p.writes@, r),
    }
}

/// The most recent access of `r` among the first `n` passes.
pub open spec fn last_access(g: RenderGraph, r: int, n: int) -> Option<(int, AccessKind)>
    decreases n,
{
    if n <= 0 {
        None
    } else {
        match pass_access(g.passes@[n - 1], r) {
            Some(a) => Some((n - 1, a)),
            None => last_access(g, r, n - 1),
        }
    }
}

/// The ordered barriers of resource `r` over the first `n` passes: one
/// between each pair of consecutive accesses whose combination requires
/// synchronization.
pub open spec fn barrier_seq(g: RenderGraph, r: int, n: int) -> Seq<Barrier>
    decreases n,
{
    if n <= 0 {
        Seq::empty()
    } else {
        let rest = barrier_seq(g, r, n - 1);
        match (last_access(g, r, n - 1), pass_access(g.passes@[n - 1], r)) {
            (Some((q, a)), Some(b)) => if needs_barrier_between(a, b) {
                rest.push(
                    Barrier {
                        resource: r as usize,
                        src_pass: q as usize,
                        src_access: a,
                        dst_pass: (n - 1) as usize,
                        dst_access: b,
                    },
                )
            } else {
                rest
            },
            _ => rest,
        }
    }
}

/// All barriers of the graph, grouped by resource.
pub open spec fn all_barriers(g: RenderGraph, m: int) -> Seq<Barrier>
    decreases m,
{
    if m <= 0 {
        Seq::empty()
    } else {
        all_barriers(g, m - 1) + barrier_seq(g, m - 1, g.passes@.len() as int)
    }
}

/// Every barrier of a resource joins two of its consecutive accesses, in
/// pass order, and only where the access combination requires one: the
/// source pass is exactly the resource's most recent access before the
/// destination pass.
pub proof fn lemma_barriers_sound(g: RenderGraph, r: int, n: int)
    requires
        n <= g.passes@.len(),
        n <= usize::MAX,
    ensures
        forall|k: int|
            0 <= k < barrier_seq(g, r, n).len() ==> {
                let b = #[trigger] barrier_seq(g, r, n)[k];
                &&& b.resource == r
                &&& b.src_pass < b.dst_pass < n
                &&& needs_barrier_between(b.src_access, b.dst_access)
                &&& pass_access(g.passes@[b.dst_pass as int], r) == Some(b.dst_access)
                &&& last_access(g, r, b.dst_pass as int) == Some(
                    (b.src_pass as int, b.src_access),
                )
            },
    decreases n,
{
    if n > 0 {
        lemma_barriers_sound(g, r, n - 1);
        let la = last_access(g, r, n - 1);
        let pa = pass_access(g.passes@[n - 1], r);
        if la is Some && pa is Some {
            lemma_last_access_in_range(g, r, n - 1);
            match find_access(g.passes@[n - 1].reads@, r) {
                Some(_) => {
                    lemma_find_access_in_range(g.passes@[n - 1].reads@, r);
                },
                None => {
                    lemma_find_access_in_range(g.passes@[n - 1].writes@, r);
                },
            }
        }
    }
}

/// Lemma: the most recent access among `n` passes is an access of a pass
/// before `n`.
pub proof fn lemma_last_access_in_range(g: RenderGraph, r: int, n: int)
    requires
        last_access(g, r, n) is Some,
    ensures
        ({
            let (q, a) = last_access(g, r, n)->Some_0;
            0 <= q < n && pass_access(g.passes@[q], r) == Some(a)
        }),
    decreases n,
{
    if n > 0 {
        if pass_access(g.passes@[n - 1], r) is None {
            lemma_last_access_in_range(g, r, n - 1);
        }
    }
}

/// A found access means the resource index is one of the declared ones,
/// hence in range.
proof fn lemma_find_access_in_range(s: Seq<PassAccess>, r: int)
    requires
        find_access(s, r) is Some,
    ensures
        exists|k: int| 0 <= k < s.len() && (#[trigger] s[k]).resource == r,
    decreases s.len(),
{
    if s.len() > 0 && s[0].resource != r {
        lemma_find_access_in_range(s.drop_first(), r);
        let k = choose|k: int|
            0 <= k < s.drop_first().len() && (#[trigger] s.drop_first()[k]).resource == r;
        assert(s[k + 1].resource == r);
    }
}

/// Scanning a prefix without a match does not change the result.
proof fn lemma_find_access_skip(s: Seq<PassAccess>, r: int, i: int)
    requires
        0 <= i <= s.len(),
        forall|j: int| 0 <= j < i ==> s[j].resource != r,
    ensures
        find_access(s, r) == find_access(s.skip(i), r),
    decreases i,
{
    if i > 0 {
        assert forall|j: int| 0 <= j < i - 1 implies s.drop_first()[j].resource != r by {
            assert(s[j + 1].resource != r);
        }
        lemma_find_access_skip(s.drop_first(), r, i - 1);
        assert(s.drop_first().skip(i - 1) =~= s.skip(i));
    } else {
        assert(s.skip(0) =~= s);
    }
}

/// Executable form of `find_access`.
fn find_access_exec(s: &Vec<PassAccess>, r: usize) -> (res: Option<AccessKind>)
    ensures
        res == find_access(s@, r as int),
{
    let n = s.len();
    let mut i: usize = 0;
    while i < n
        invariant
            n == s@.len(),
            i <= n,
            forall|j: int| 0 <= j < i ==> s@[j].resource != r,
        decreases n - i,
    {
        if s[i].resource == r {
            proof {
                lemma_find_access_skip(s@, r as int, i as int);
                assert(s@.skip(i as int)[0] == s@[i as int]);
            }
            return Some(s[i].access);
        }
        i += 1;
    }
    proof {
        lemma_find_access_skip(s@, r as int, n as int);
        assert(s@.skip(n as int) =~= Seq::<PassAccess>::empty());
    }
    None
}

/// Executable form of `pass_access`.
fn pass_access_exec(p: &Pass, r: usize) -> (res: Option<AccessKind>)
    ensures
        res == pass_access(*p, r as int),
{
    match find_access_exec(&p.reads, r) {
        Some(a) => Some(a),
        None => find_access_exec(&p.writes, r),
    }
}

/// The barriers of one resource, in pass order.
fn barriers_for_resource(g: &RenderGraph, r: usize) -> (out: Vec<Barrier>)
    ensures
        out@ == barrier_seq(*g, r as int, g.passes@.len() as int),
{
    let mut out: Vec<Barrier> = Vec::new();
    let mut last: Option<(usize, AccessKind)> = None;
    let n = g.passes.len();
    let mut i: usize = 0;
    while i < n
        invariant
            n == g.passes@.len(),
            i <= n,
            out@ == barrier_seq(*g, r as int, i as int),
            match last {
                Some((q, a)) => last_access(*g, r as int, i as int) == Some((q as int, a)),
                None => last_access(*g, r as int, i as int) is None,
            },
        decreases n - i,
    {
        let cur = pass_access_exec(&g.passes[i], r);
        match (last, cur) {
            (Some((q, a)), Some(b)) => {
                if is_write_access_exec(a) || is_write_access_exec(b) {
                    out.push(
                        Barrier {
                            resource: r,
                            src_pass: q,
                            src_access: a,
                            dst_pass: i,
                            dst_access: b,
                        },
                    );
                }
                last = Some((i, b));
            },
            (None, Some(b)) => {
                last = Some((i, b));
            },
            _ => {},
        }
        i += 1;
    }
    out
}

/// Executable form of `is_write_access`.
fn is_write_access_exec(a: AccessKind) -> (b: bool)
    ensures
        b == is_write_access(a),
{
    matches!(a, AccessKind::TransferWrite | AccessKind::ShaderWrite)
}

/// A frame's execution plan: the passes in declaration order (declaration
/// order is the topological order of the linear DAG) and every barrier the
/// declared accesses require.
pub struct Schedule {
    pub order: Vec<usize>,
    pub barriers: Vec<Barrier>,
}

impl RenderGraph {
    /// Derive the frame's execution plan from the declared accesses: the
    /// passes run in declaration order, and between each pair of
    /// consecutive accesses of one resource that involves a write a
    /// barrier is inserted; consecutive read-only accesses elide it. The
    /// graph must have been validated first (a dangling read is a fatal
    /// wiring error).
    pub fn compile_schedule(&self) -> (s: Schedule)
        requires
            self.wf(),
        ensures
            s.order@.len() == self.passes@.len(),
            forall|i: int| 0 <= i < s.order@.len() ==> s.order@[i] == i,
            s.barriers@ == all_barriers(*self, self.resources@.len() as int),
    {
        let n = self.passes.len();
        let mut order: Vec<usize> = Vec::new();
        let mut i: usize = 0;
        while i < n
            invariant
                i <= n,
                order@.len() == i,
                forall|j: int| 0 <= j < i ==> order@[j] == j,
            decreases n - i,
        {
            order.push(i);
            i += 1;
        }
        let m = self.resources.len();
        let mut barriers: Vec<Barrier> = Vec::new();
        let mut r: usize = 0;
        while r < m
            invariant
                m == self.resources@.len(),
                r <= m,
                barriers@ == all_barriers(*self, r as int),
            decreases m - r,
        {
            let mut bs = barriers_for_resource(self, r);
            barriers.append(&mut bs);
            r += 1;
        }
        Schedule { order, barriers }
    }
}

} // verus!
