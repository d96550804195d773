//! The backend tiers' output side: the one tier wired to a real code
//! generator (the high, most-optimizing tier), and the error taxonomy
//! that every tier reports through.
//!
//! A tier is solely responsible for deciding the code size, allocating
//! the code object from the pool, generating the instruction bytes into
//! the object's code region, and populating the call-offset table. The
//! generator wired here emits the function body's instruction form
//! unchanged as straight-line code with no outward calls, so its
//! call-offset table stays empty; the optimization sub-level selects
//! among settings that do not change what this generator emits.

use crate::code::{code_wf, code_region, Code, CallOffset, CODE_HEADER_SIZE};
use crate::module_ctx::{body_bytes, share, FuncIndex, ModuleInfo, SharedFunctionBody};
use crate::pool::{AllocErr, AllocId, PagePool, PAGE_SIZE};
use std::sync::Arc;
use vstd::prelude::*;

verus! {

/// Optimization aggressiveness of the high tier, from none to full.
#[derive(Debug, Clone, Copy, PartialEq, Eq, Structural)]
pub enum Opt {
    O0,
    O1,
    O2,
}

/// The ownership anchor placed alongside generated code: it keeps the
/// function body and the module metadata the code was generated from
/// alive for exactly as long as the code object exists.
pub struct Anchor {
    pub body: SharedFunctionBody,
    pub info: Arc<ModuleInfo>,
}

/// Backend-specific failure: a tier that is a deliberate extension point
/// reports `NotImplemented` rather than silently producing wrong code;
/// `Pool` wraps the lower-level allocation failure.
#[derive(Debug, Clone, Copy, PartialEq, Eq, Structural)]
pub enum CompileError {
    NotImplemented,
    Pool(AllocErr),
}

/// What a successful compilation leaves behind: exactly one new code
/// object, placed after all existing ones, whose instruction region holds
/// `body`, whose call-offset table is empty, and whose anchor keeps
/// `info` and the body alive. Every previously placed object's header and
/// bytes are exactly as they were.
pub open spec fn compiled_into(
    oldp: PagePool<Code<Anchor>>,
    newp: PagePool<Code<Anchor>>,
    info: Arc<ModuleInfo>,
    body: Seq<u8>,
) -> bool {
    &&& newp.items@.len() == oldp.items@.len() + 1
    &&& newp.items@.subrange(0, oldp.items@.len() as int) == oldp.items@
    &&& newp.placements@.subrange(0, oldp.placements@.len() as int) == oldp.placements@
    &&& newp.items@.last().code_size == body.len()
    &&& newp.items@.last().call_offsets@ == Seq::<CallOffset>::empty()
    &&& newp.items@.last().keep_alive.body@ == body
    &&& newp.items@.last().keep_alive.info == info
    &&& code_wf(newp, oldp.items@.len() as int)
    &&& code_region(newp, oldp.items@.len() as int) == body
    &&& forall|k: int| 0 <= k < oldp.items@.len() ==> newp.region_seq(k) == oldp.region_seq(k)
}

/// The high tier's generator. Decides the code size (the body's length),
/// allocates the code object, writes the instruction bytes, and leaves
/// the call-offset table empty. Succeeds exactly when the object fits in
/// one page; on failure the pool is unchanged.
pub fn compile_function(
    pool: &mut PagePool<Code<Anchor>>,
    info: &Arc<ModuleInfo>,
    func_index: FuncIndex,
    body: &SharedFunctionBody,
    opt: Opt,
) -> (r: Result<AllocId<Code<Anchor>>, CompileError>)
    requires
        old(pool).wf(),
        body@.len() <= u32::MAX,
        CODE_HEADER_SIZE + body@.len() <= usize::MAX,
    ensures
        final(pool).wf(),
        if CODE_HEADER_SIZE + body@.len() <= PAGE_SIZE {
            r matches Ok(id) && id.index == old(pool).items@.len() && compiled_into(
                *old(pool),
                *final(pool),
                *info,
                body@,
            )
        } else {
            r == Err::<AllocId<Code<Anchor>>, CompileError>(CompileError::Pool(
                AllocErr::OutOfSpace,
            )) && *final(pool) == *old(pool)
        },
{
    let bytes = body_bytes(body);
    let code_size = bytes.len() as u32;
    let anchor = Anchor { body: share(body), info: share(info) };
    match Code::new(pool, code_size, anchor) {
        Err(e) => Err(CompileError::Pool(e)),
        Ok(id) => {
            Code::write_code(pool, &id, 0, bytes);
            proof {
                assert(code_region(*final(pool), id.index as int) =~= body@);
            }
            Ok(id)
        },
    }
}

/// The high, most-optimizing tier as a pluggable backend: the one tier
/// wired to a real generator.
pub struct HighTier {
    pub opt: Opt,
}

impl crate::TieredCompiler for HighTier {
    fn compile(
        &self,
        pool: &mut PagePool<Code<Anchor>>,
        info: &Arc<ModuleInfo>,
        func_index: FuncIndex,
        body: &SharedFunctionBody,
    ) -> (r: Result<AllocId<Code<Anchor>>, CompileError>)
        ensures
            if CODE_HEADER_SIZE + body@.len() <= PAGE_SIZE {
                r matches Ok(id) && id.index == old(pool).items@.len() && compiled_into(
                    *old(pool),
                    *final(pool),
                    *info,
                    body@,
                )
            } else {
                r == Err::<AllocId<Code<Anchor>>, CompileError>(CompileError::Pool(
                    AllocErr::OutOfSpace,
                )) && *final(pool) == *old(pool)
            },
    {
        compile_function(pool, info, func_index, body, self.opt)
    }
}

} // verus!
