//! A `Job` represents the compilation of one function that will complete
//! sometime in the future: the target function, its shared body and
//! module metadata, a priority, a tier selector, and the sending half of
//! a one-shot completion channel. A job is created by a submitter,
//! consumed exactly once by a worker, and never persisted beyond
//! completion.

use crate::code::{Code, CODE_HEADER_SIZE};
use crate::module_ctx::{FuncIndex, ModuleInfo, SharedFunctionBody};
use crate::pool::{AllocErr, AllocId, PagePool, PAGE_SIZE};
use crate::text::{dec_str, u32_to_dec};
use crate::tier::{compile_function, compiled_into, Anchor, CompileError, Opt};
use crate::Chimera;
use std::sync::Arc;
use vstd::prelude::*;
use vstd::string::StringExecFns;

verus! {

/// How soon a queued job must be serviced, in increasing urgency.
#[derive(Debug, Copy, Clone, PartialEq, Eq, Structural)]
pub enum Priority {
    /// Get to it at some point.
    Cold,
    /// Sooner rather than later.
    Warm,
    /// As soon as possible.
    Hot,
}

/// The strictness order on priorities: hot jobs are serviced before warm
/// ones, warm before cold.
pub open spec fn rank(p: Priority) -> int {
    match p {
        Priority::Cold => 0,
        Priority::Warm => 1,
        Priority::Hot => 2,
    }
}

/// Executable counterpart of `rank`.
pub fn rank_of(p: Priority) -> (r: u8)
    ensures
        r as int == rank(p),
{
    match p {
        Priority::Cold => 0,
        Priority::Warm => 1,
        Priority::Hot => 2,
    }
}

/// Which backend tier services a job. `Baseline` and `Medium` are valid
/// extension points that fail explicitly rather than silently producing
/// wrong code; `High` is wired to a real generator and carries the
/// optimization sub-level.
#[derive(Debug, Copy, Clone, PartialEq, Eq, Structural)]
pub enum Mode {
    Baseline,
    Medium,
    High(Opt),
}

/// The name a backend reports itself under in failure descriptions.
pub open spec fn spec_mode_name(m: Mode) -> Seq<char> {
    match m {
        Mode::Baseline => "baseline"@,
        Mode::Medium => "medium"@,
        Mode::High(_) => "high"@,
    }
}

/// What went wrong, in words.
pub open spec fn spec_reason(e: CompileError) -> Seq<char> {
    match e {
        CompileError::NotImplemented => "not implemented"@,
        CompileError::Pool(AllocErr::OutOfSpace) => "allocation failed: out of space"@,
    }
}

/// The full human-readable description of a backend failure: which
/// backend, which function, what went wrong.
pub open spec fn spec_describe(m: Mode, f: FuncIndex, e: CompileError) -> Seq<char> {
    spec_mode_name(m) + " backend: function "@ + dec_str(f.value as nat) + ": "@ + spec_reason(e)
}

/// Render a backend failure for delivery through the job's channel.
pub fn describe_error(mode: &Mode, func_index: FuncIndex, err: &CompileError) -> (r: String)
    ensures
        r@ == spec_describe(*mode, func_index, *err),
{
    let mut s = match mode {
        Mode::Baseline => String::from_str("baseline"),
        Mode::Medium => String::from_str("medium"),
        Mode::High(_) => String::from_str("high"),
    };
    s.append(" backend: function ");
    let d = u32_to_dec(func_index.value);
    s.append(d.as_str());
    s.append(": ");
    match err {
        CompileError::NotImplemented => s.append("not implemented"),
        CompileError::Pool(AllocErr::OutOfSpace) => s.append("allocation failed: out of space"),
    }
    s
}

/// What a job's future resolves to: the handle of the generated code
/// object, or a description of the backend failure.
pub type CompileResult = Result<AllocId<Code<Anchor>>, String>;

/// futures' one-shot sender: the end a worker completes a job through.
#[verifier::external_type_specification]
#[verifier::external_body]
#[verifier::reject_recursive_types(T)]
pub struct ExSender<T>(futures::channel::oneshot::Sender<T>);

/// futures' one-shot receiver: the future a submitter awaits.
#[verifier::external_type_specification]
#[verifier::external_body]
#[verifier::reject_recursive_types(T)]
pub struct ExReceiver<T>(futures::channel::oneshot::Receiver<T>);

/// futures' error for a one-shot channel whose sender went away.
#[verifier::external_type_specification]
#[verifier::external_body]
pub struct ExCanceled(futures::channel::oneshot::Canceled);

/// Relies on futures' `oneshot::channel`: creates the two ends of a fresh
/// one-shot (send-once, receive-once) channel; the receiver is the future
/// the submitter awaits.
#[verifier::external_body]
pub(crate) fn oneshot_pair() -> (r: (
    futures::channel::oneshot::Sender<CompileResult>,
    futures::channel::oneshot::Receiver<CompileResult>,
))
{
    futures::channel::oneshot::channel()
}

/// Relies on futures' oneshot `Sender::send`: it consumes the sender, so
/// a job's channel is completed at most once; the value is delivered if
/// the receiving half is still alive, and otherwise handed back — which
/// is a no-op for the worker, not an error.
#[verifier::external_body]
fn send_result(
    sender: futures::channel::oneshot::Sender<CompileResult>,
    value: CompileResult,
) -> (delivered: bool) {
    sender.send(value).is_ok()
}

/// One pending request to compile a single function at a given priority
/// and tier.
pub struct Job {
    pub priority: Priority,
    pub mode: Mode,
    pub func_index: FuncIndex,
    pub func_body: SharedFunctionBody,
    pub info: Arc<ModuleInfo>,
    pub sender: futures::channel::oneshot::Sender<CompileResult>,
}

/// A job's body is small enough for its size arithmetic to be meaningful
/// on this machine.
pub open spec fn job_wf(j: Job) -> bool {
    &&& j.func_body@.len() <= u32::MAX
    &&& CODE_HEADER_SIZE + j.func_body@.len() <= usize::MAX
}

/// Whether the job's code object fits in one pool page.
pub open spec fn job_fits(j: Job) -> bool {
    CODE_HEADER_SIZE + j.func_body@.len() <= PAGE_SIZE
}

/// The inputs on which a job is owed success: a wired tier and a body
/// that fits.
pub open spec fn job_succeeds(j: Job) -> bool {
    &&& j.mode matches Mode::High(_)
    &&& job_fits(j)
}

/// Select the backend tier for `mode` and run it. An unwired tier
/// (`Baseline`, `Medium`) fails explicitly with a not-implemented
/// description and leaves the pool untouched; the high tier succeeds
/// exactly when the code object fits in one page, and otherwise reports
/// the allocation failure, also leaving the pool untouched.
pub fn compile_job(
    pool: &mut PagePool<Code<Anchor>>,
    mode: Mode,
    info: &Arc<ModuleInfo>,
    func_index: FuncIndex,
    func_body: &SharedFunctionBody,
) -> (r: CompileResult)
    requires
        old(pool).wf(),
        func_body@.len() <= u32::MAX,
        CODE_HEADER_SIZE + func_body@.len() <= usize::MAX,
    ensures
        final(pool).wf(),
        (mode == Mode::Baseline || mode == Mode::Medium) ==> {
            &&& *final(pool) == *old(pool)
            &&& r matches Err(m) && m@ == spec_describe(
                mode,
                func_index,
                CompileError::NotImplemented,
            )
        },
        (mode matches Mode::High(_)) ==> if CODE_HEADER_SIZE + func_body@.len() <= PAGE_SIZE {
            r matches Ok(id) && id.index == old(pool).items@.len() && compiled_into(
                *old(pool),
                *final(pool),
                *info,
                func_body@,
            )
        } else {
            &&& *final(pool) == *old(pool)
            &&& r matches Err(m) && m@ == spec_describe(
                mode,
                func_index,
                CompileError::Pool(AllocErr::OutOfSpace),
            )
        },
{
    match mode {
        Mode::Baseline => Err(describe_error(&mode, func_index, &CompileError::NotImplemented)),
        Mode::Medium => Err(describe_error(&mode, func_index, &CompileError::NotImplemented)),
        Mode::High(opt) => match compile_function(pool, info, func_index, func_body, opt) {
            Ok(id) => Ok(id),
            Err(e) => Err(describe_error(&mode, func_index, &e)),
        },
    }
}

impl Job {
    /// Construct a compile job, enqueue it on the scheduler, and
    /// immediately return the future bound to the job's one-shot
    /// completion channel. Never blocks the submitter.
    pub fn create(
        chimera: &mut Chimera,
        info: Arc<ModuleInfo>,
        func_body: SharedFunctionBody,
        func_index: FuncIndex,
        priority: Priority,
        mode: Mode,
    ) -> (r: futures::channel::oneshot::Receiver<CompileResult>)
        requires
            old(chimera).wf(),
            func_body@.len() <= u32::MAX,
            CODE_HEADER_SIZE + func_body@.len() <= usize::MAX,
        ensures
            final(chimera).wf(),
            final(chimera).queue@.len() == old(chimera).queue@.len() + 1,
            final(chimera).queue@.subrange(0, old(chimera).queue@.len() as int) == old(
                chimera,
            ).queue@,
            final(chimera).queue@.last().priority == priority,
            final(chimera).queue@.last().mode == mode,
            final(chimera).queue@.last().func_index == func_index,
            final(chimera).queue@.last().func_body@ == func_body@,
            final(chimera).queue@.last().info == info,
    {
        chimera.submit(info, func_body, func_index, priority, mode)
    }

    /// The priority this job was submitted with.
    pub fn priority(&self) -> (r: Priority)
        ensures
            r == self.priority,
    {
        self.priority
    }

    /// Consume the job: run the selected backend tier, then send exactly
    /// one result — success or failure — into the job's completion
    /// channel and discard the job. If the submitter has already dropped
    /// its future, the send becomes a no-op; the pool is never corrupted
    /// by that.
    pub(crate) fn do_compile(self, pool: &mut PagePool<Code<Anchor>>)
        requires
            old(pool).wf(),
            job_wf(self),
        ensures
            final(pool).wf(),
            job_succeeds(self) ==> compiled_into(
                *old(pool),
                *final(pool),
                self.info,
                self.func_body@,
            ),
            !job_succeeds(self) ==> *final(pool) == *old(pool),
    {
        let Job { priority: _, mode, func_index, func_body, info, sender } = self;
        let code_id_res = compile_job(pool, mode, &info, func_index, &func_body);
        // ignore whether the receiver is still listening
        let _ = send_result(sender, code_id_res);
    }
}

} // verus!
