//! Backend of a tiered just-in-time compiler.
//!
//! Two subsystems form the core: an executable-memory pool that places
//! variably-sized objects into raw pages and hands out stable handles
//! (`pool`, `code`), and a priority-ordered compilation scheduler that
//! accepts compile requests, dispatches them to a pluggable backend tier
//! (`tier`), and resolves a one-shot completion channel per request
//! exactly once (`job`).

pub mod code;
pub mod job;
pub mod module_ctx;
pub mod pool;
pub mod text;
pub mod tier;

use crate::code::{Code, CODE_HEADER_SIZE};
use crate::job::{
    job_succeeds, job_wf, oneshot_pair, rank, CompileResult, Job, Mode, Priority,
};
use crate::module_ctx::{FuncIndex, ModuleInfo, SharedFunctionBody};
use crate::pool::{AllocId, PagePool};
use crate::tier::{compiled_into, Anchor, CompileError};
use std::sync::Arc;
use vstd::prelude::*;

verus! {

/// A backend tier: a uniform interface over the pluggable code
/// generators. One `compile` call is solely responsible for deciding the
/// code size, allocating the code object, generating instructions into
/// its code region and populating its call-offset table. Whatever the
/// tier does, it never disturbs objects already placed in the pool, and
/// a returned handle refers to a well-formed code object.
pub trait TieredCompiler {
    fn compile(
        &self,
        pool: &mut PagePool<Code<Anchor>>,
        info: &Arc<ModuleInfo>,
        func_index: FuncIndex,
        body: &SharedFunctionBody,
    ) -> (r: Result<AllocId<Code<Anchor>>, CompileError>)
        requires
            old(pool).wf(),
            body@.len() <= u32::MAX,
            CODE_HEADER_SIZE + body@.len() <= usize::MAX,
        ensures
            final(pool).wf(),
            old(pool).items@.len() <= final(pool).items@.len(),
            old(pool).placements@.len() <= final(pool).placements@.len(),
            final(pool).items@.subrange(0, old(pool).items@.len() as int) == old(pool).items@,
            final(pool).placements@.subrange(0, old(pool).placements@.len() as int) == old(
                pool,
            ).placements@,
            forall|k: int|
                0 <= k < old(pool).placements@.len() ==> final(pool).region_seq(k) == old(
                    pool,
                ).region_seq(k),
            r matches Ok(id) ==> id.index < final(pool).items@.len() && code::code_wf(
                *final(pool),
                id.index as int,
            ),
    ;
}

/// Whether dispatching the job at index `i` respects the queue ordering
/// rule: among ready jobs, strict priority order, ties broken by arrival
/// order (the dispatched job is of maximal rank, and no job of the same
/// rank stands earlier).
pub open spec fn dispatch_choice(q: Seq<Job>, i: int) -> bool {
    &&& 0 <= i < q.len()
    &&& forall|k: int| 0 <= k < q.len() ==> rank(#[trigger] q[k].priority) <= rank(q[i].priority)
    &&& forall|k: int| 0 <= k < i ==> rank(#[trigger] q[k].priority) < rank(q[i].priority)
}

/// Law: priority ordering. The dispatched job is of maximal priority
/// among ready jobs: whenever any hot job is queued, the dispatched job
/// is hot, so no cold or warm job is serviced while a hot one waits; and
/// within one priority class the earliest-submitted job goes first — no
/// job of the same class stands earlier in arrival order.
pub proof fn lemma_priority_ordering(q: Seq<Job>, i: int)
    requires
        dispatch_choice(q, i),
    ensures
        (exists|h: int| 0 <= h < q.len() && q[h].priority == Priority::Hot) ==> q[i].priority
            == Priority::Hot,
        forall|k: int| 0 <= k < i ==> (#[trigger] q[k].priority) != q[i].priority,
{
    if exists|h: int| 0 <= h < q.len() && q[h].priority == Priority::Hot {
        let h = choose|h: int| 0 <= h < q.len() && q[h].priority == Priority::Hot;
        assert(rank(q[h].priority) <= rank(q[i].priority));
    }
    assert forall|k: int| 0 <= k < i implies (#[trigger] q[k].priority) != q[i].priority by {
        assert(rank(q[k].priority) < rank(q[i].priority));
    }
}

/// Law: the queue ordering rule picks one job. For a given queue there is
/// exactly one index a worker step may dispatch, so each step services
/// exactly one job.
pub proof fn lemma_dispatch_deterministic(q: Seq<Job>, i: int, j: int)
    requires
        dispatch_choice(q, i),
        dispatch_choice(q, j),
    ensures
        i == j,
{
    if i < j {
        assert(rank(q[i].priority) < rank(q[j].priority));
        assert(rank(q[j].priority) <= rank(q[i].priority));
    }
    if j < i {
        assert(rank(q[j].priority) < rank(q[i].priority));
        assert(rank(q[i].priority) <= rank(q[j].priority));
    }
}

/// The tiered compilation scheduler: the long-lived context object that
/// holds the shared, priority-ordered work queue. Jobs enter at the tail
/// through `submit` and leave through `run_next`, highest priority first.
pub struct Chimera {
    pub queue: Vec<Job>,
}

impl Chimera {
    /// Every queued job's size arithmetic is meaningful on this machine.
    pub open spec fn wf(self) -> bool {
        forall|i: int| 0 <= i < self.queue@.len() ==> job_wf(#[trigger] self.queue@[i])
    }

    /// A fresh scheduler with an empty queue.
    pub fn new() -> (r: Self)
        ensures
            r.wf(),
            r.queue@.len() == 0,
    {
        Chimera { queue: Vec::new() }
    }

    /// How many jobs are queued and not yet dispatched.
    pub fn pending(&self) -> (r: usize)
        ensures
            r == self.queue@.len(),
    {
        self.queue.len()
    }

    /// Accept a compile request: construct the job, push it onto the work
    /// queue (at the tail — arrival order within its priority class), and
    /// immediately return the future bound to the job's one-shot
    /// completion channel. Never blocks the submitter.
    pub fn submit(
        &mut self,
        info: Arc<ModuleInfo>,
        func_body: SharedFunctionBody,
        func_index: FuncIndex,
        priority: Priority,
        mode: Mode,
    ) -> (r: futures::channel::oneshot::Receiver<CompileResult>)
        requires
            old(self).wf(),
            func_body@.len() <= u32::MAX,
            CODE_HEADER_SIZE + func_body@.len() <= usize::MAX,
        ensures
            final(self).wf(),
            final(self).queue@.len() == old(self).queue@.len() + 1,
            final(self).queue@.subrange(0, old(self).queue@.len() as int) == old(self).queue@,
            final(self).queue@.last().priority == priority,
            final(self).queue@.last().mode == mode,
            final(self).queue@.last().func_index == func_index,
            final(self).queue@.last().func_body@ == func_body@,
            final(self).queue@.last().info == info,
    {
        let (sender, receiver) = oneshot_pair();
        self.queue.push(Job { priority, mode, func_index, func_body, info, sender });
        proof {
            assert(final(self).queue@.subrange(0, old(self).queue@.len() as int) =~= old(
                self,
            ).queue@);
        }
        receiver
    }

    /// Index of the job `run_next` would dispatch: the first job of
    /// maximal priority, or nothing if the queue is empty.
    fn pick_next(&self) -> (r: Option<usize>)
        ensures
            match r {
                None => self.queue@.len() == 0,
                Some(i) => dispatch_choice(self.queue@, i as int),
            },
    {
        if self.queue.len() == 0 {
            return None;
        }
        let mut best: usize = 0;
        let mut best_rank = crate::job::rank_of(self.queue[0].priority);
        let mut k: usize = 1;
        while k < self.queue.len()
            invariant
                0 < self.queue@.len(),
                best < k,
                k <= self.queue@.len(),
                best_rank as int == rank(self.queue@[best as int].priority),
                forall|t: int|
                    0 <= t < k ==> rank(#[trigger] self.queue@[t].priority) <= best_rank as int,
                forall|t: int|
                    0 <= t < best ==> rank(#[trigger] self.queue@[t].priority) < best_rank as int,
            decreases self.queue@.len() - k,
        {
            let rk = crate::job::rank_of(self.queue[k].priority);
            if rk > best_rank {
                best = k;
                best_rank = rk;
            }
            k += 1;
        }
        Some(best)
    }

    /// One worker step: pull the highest-priority ready job (first of its
    /// class by arrival), run the matching backend tier, and — success or
    /// failure — send exactly one result into that job's completion
    /// channel. Returns the dispatched job's former queue index, or
    /// nothing if the queue was empty. A failing job leaves the pool
    /// exactly as it was and every other queued job still queued: one
    /// failure never affects unrelated jobs.
    pub fn run_next(&mut self, pool: &mut PagePool<Code<Anchor>>) -> (r: Option<usize>)
        requires
            old(self).wf(),
            old(pool).wf(),
        ensures
            final(self).wf(),
            final(pool).wf(),
            match r {
                None => {
                    &&& old(self).queue@.len() == 0
                    &&& *final(self) == *old(self)
                    &&& *final(pool) == *old(pool)
                },
                Some(i) => {
                    &&& dispatch_choice(old(self).queue@, i as int)
                    &&& final(self).queue@ == old(self).queue@.remove(i as int)
                    &&& (job_succeeds(old(self).queue@[i as int]) ==> compiled_into(
                        *old(pool),
                        *final(pool),
                        old(self).queue@[i as int].info,
                        old(self).queue@[i as int].func_body@,
                    ))
                    &&& (!job_succeeds(old(self).queue@[i as int]) ==> *final(pool) == *old(pool))
                },
            },
    {
        match self.pick_next() {
            None => None,
            Some(i) => {
                let job = self.queue.remove(i);
                job.do_compile(pool);
                proof {
                    assert forall|t: int| 0 <= t < final(self).queue@.len() implies job_wf(
                        #[trigger] final(self).queue@[t],
                    ) by {
                        if t < i {
                            assert(final(self).queue@[t] == old(self).queue@[t]);
                        } else {
                            assert(final(self).queue@[t] == old(self).queue@[t + 1]);
                        }
                    }
                }
                Some(i)
            },
        }
    }
}

} // verus!
