//! The code object: the canonical resident of the executable memory pool.
//!
//! A code object is a fixed-size header (an ownership anchor, a
//! call-offset table and the code size) followed by a variable-length
//! tail of raw instruction bytes inside the pool's page. The header is
//! reached through `PagePool::get`/`get_mut`; the instruction bytes are
//! reached through `write_code`/`code_bytes`, whose bounds are fixed at
//! allocation time and never exceed the reserved size.

use crate::module_ctx::FuncIndex;
use crate::pool::{AllocErr, AllocId, AllocMetadata, ItemAlloc, PagePool, PAGE_SIZE};
use vstd::prelude::*;

verus! {

/// Bytes reserved at the front of a code object's region for its header;
/// the instruction bytes start right after it.
pub const CODE_HEADER_SIZE: usize = 32;

/// One entry of the call-offset table: a call or jump to `func_index`
/// sits `offset` bytes into this code blob and must be patched once that
/// function's final address is known.
#[derive(Debug, Clone, Copy, PartialEq, Eq, Structural)]
pub struct CallOffset {
    pub func_index: FuncIndex,
    pub offset: u32,
}

/// Header of a compiled-code entry. `keep_alive` is an opaque owned value
/// whose sole job is to keep alive whatever the generated code depends
/// on, for exactly as long as the code object exists; `call_offsets`
/// records where cross-function links must be patched; `code_size` fixes,
/// once and for all, how many instruction bytes follow the header.
pub struct Code<K> {
    pub keep_alive: K,
    pub call_offsets: Vec<CallOffset>,
    pub code_size: u32,
}

/// Descriptor that places a `Code<K>` into a pool: it asks for
/// header-plus-code-size bytes, marked executable, and initializes the
/// header with the given anchor, an empty call-offset table and the code
/// size.
pub struct CodeAlloc<K> {
    pub code_size: u32,
    pub keep_alive: K,
}

impl<K> ItemAlloc for CodeAlloc<K> {
    type Output = Code<K>;

    open spec fn desc_wf(&self) -> bool {
        CODE_HEADER_SIZE + self.code_size as int <= usize::MAX
    }

    open spec fn spec_size(&self) -> int {
        CODE_HEADER_SIZE + self.code_size as int
    }

    open spec fn spec_executable(&self) -> bool {
        true
    }

    open spec fn output_matches(&self, out: Code<K>) -> bool {
        &&& out.keep_alive == self.keep_alive
        &&& out.call_offsets@ == Seq::<CallOffset>::empty()
        &&& out.code_size == self.code_size
    }

    fn metadata(&self) -> (m: AllocMetadata) {
        AllocMetadata { size: CODE_HEADER_SIZE + self.code_size as usize, executable: true }
    }

    fn in_place(self) -> (out: Code<K>) {
        Code { keep_alive: self.keep_alive, call_offsets: Vec::new(), code_size: self.code_size }
    }
}

/// A code object's handle is consistent with its pool's bookkeeping: the
/// reserved range is executable and exactly header-plus-code-size bytes
/// long. Established by `Code::new` and preserved by every pool
/// operation that leaves placements in place.
pub open spec fn code_wf<K>(pool: PagePool<Code<K>>, i: int) -> bool {
    &&& 0 <= i < pool.items@.len()
    &&& pool.placements@.len() == pool.items@.len()
    &&& pool.placements@[i].size == CODE_HEADER_SIZE + pool.items@[i].code_size as int
    &&& pool.placements@[i].executable
}

/// The instruction bytes of code object `i`: the tail of its reserved
/// range, starting right after the header.
pub open spec fn code_region<K>(pool: PagePool<Code<K>>, i: int) -> Seq<u8> {
    pool.region_seq(i).subrange(
        CODE_HEADER_SIZE as int,
        CODE_HEADER_SIZE + pool.items@[i].code_size as int,
    )
}

impl<K> Code<K> {
    /// Place a new code object: header-plus-`code_size` bytes, marked
    /// executable, anchored by `keep_alive`, call-offset table empty. The
    /// instruction bytes start zeroed. Succeeds exactly when the request
    /// fits in one page; on failure the pool is unchanged. No other
    /// object in the pool is disturbed.
    pub fn new(pool: &mut PagePool<Code<K>>, code_size: u32, keep_alive: K) -> (r: Result<
        AllocId<Code<K>>,
        AllocErr,
    >)
        requires
            old(pool).wf(),
            CODE_HEADER_SIZE + code_size as int <= usize::MAX,
        ensures
            final(pool).wf(),
            match r {
                Ok(id) => {
                    &&& CODE_HEADER_SIZE + code_size as int <= PAGE_SIZE
                    &&& id.index == old(pool).items@.len()
                    &&& final(pool).items@.len() == old(pool).items@.len() + 1
                    &&& final(pool).items@.subrange(0, old(pool).items@.len() as int) == old(
                        pool,
                    ).items@
                    &&& final(pool).placements@.subrange(0, old(pool).placements@.len() as int)
                        == old(pool).placements@
                    &&& final(pool).items@.last().keep_alive == keep_alive
                    &&& final(pool).items@.last().call_offsets@ == Seq::<CallOffset>::empty()
                    &&& final(pool).items@.last().code_size == code_size
                    &&& code_wf(*final(pool), id.index as int)
                    &&& code_region(*final(pool), id.index as int) == Seq::new(
                        code_size as nat,
                        |k: int| 0u8,
                    )
                    &&& forall|k: int|
                        0 <= k < old(pool).items@.len() ==> final(pool).region_seq(k) == old(
                            pool,
                        ).region_seq(k)
                },
                Err(e) => {
                    &&& e == AllocErr::OutOfSpace
                    &&& CODE_HEADER_SIZE + code_size as int > PAGE_SIZE
                    &&& *final(pool) == *old(pool)
                },
            },
    {
        let r = pool.allocate(CodeAlloc { code_size, keep_alive });
        proof {
            if r is Ok {
                let i = old(pool).items@.len() as int;
                assert(final(pool).placements@[i] == final(pool).placements@.last());
                assert(final(pool).items@[i] == final(pool).items@.last());
                assert(code_region(*final(pool), i) =~= Seq::new(code_size as nat, |k: int| 0u8));
            }
        }
        r
    }

    /// Write `data` into the instruction region, starting `start` bytes
    /// into it. This is the write phase of the code object's lifecycle:
    /// the view never exceeds `code_size` bytes, and no other object's
    /// bytes change.
    pub fn write_code(
        pool: &mut PagePool<Code<K>>,
        id: &AllocId<Code<K>>,
        start: usize,
        data: &Vec<u8>,
    )
        requires
            old(pool).wf(),
            code_wf(*old(pool), id.index as int),
            start + data@.len() <= old(pool).items@[id.index as int].code_size,
        ensures
            final(pool).wf(),
            final(pool).items@ == old(pool).items@,
            final(pool).placements@ == old(pool).placements@,
            code_wf(*final(pool), id.index as int),
            code_region(*final(pool), id.index as int) == code_region(
                *old(pool),
                id.index as int,
            ).update_subrange_with(start as int, data@),
            forall|k: int|
                0 <= k < old(pool).placements@.len() && k != id.index ==> final(pool).region_seq(k)
                    == old(pool).region_seq(k),
    {
        proof {
            assert(old(pool).placement_wf(old(pool).placements@[id.index as int]));
        }
        pool.write_region(id, CODE_HEADER_SIZE + start, data);
        proof {
            assert(code_region(*final(pool), id.index as int) =~= code_region(
                *old(pool),
                id.index as int,
            ).update_subrange_with(start as int, data@));
        }
    }

    /// Copy out the instruction bytes: exactly `code_size` bytes starting
    /// right after the header.
    pub fn code_bytes(pool: &PagePool<Code<K>>, id: &AllocId<Code<K>>) -> (r: Vec<u8>)
        requires
            pool.wf(),
            code_wf(*pool, id.index as int),
        ensures
            r@ == code_region(*pool, id.index as int),
            r@.len() == pool.items@[id.index as int].code_size,
    {
        let cs = pool.get(id).code_size;
        pool.read_region(id, CODE_HEADER_SIZE, cs as usize)
    }

    /// Address of the first instruction byte, as a (page, byte offset)
    /// pair into the pool's backing pages. The addressed page is
    /// executable: by the pool's write/execute policy the region is
    /// already executable before any caller invokes it, and it stays
    /// valid for the lifetime of the owning pool.
    pub fn code_ptr(pool: &PagePool<Code<K>>, id: &AllocId<Code<K>>) -> (r: (usize, usize))
        requires
            pool.wf(),
            code_wf(*pool, id.index as int),
        ensures
            r.0 == pool.placements@[id.index as int].page,
            r.1 == pool.placements@[id.index as int].offset + CODE_HEADER_SIZE,
            pool.pages@[r.0 as int].executable,
    {
        proof {
            assert(pool.placement_wf(pool.placements@[id.index as int]));
        }
        let place = pool.placements[id.index];
        (place.page, place.offset + CODE_HEADER_SIZE)
    }

    /// Replace the call-offset table of an existing code object, before
    /// it is published. The anchor and the code size are untouched, as
    /// are the pool's pages and placements.
    pub fn set_call_offsets(
        pool: &mut PagePool<Code<K>>,
        id: &AllocId<Code<K>>,
        offsets: Vec<CallOffset>,
    )
        requires
            old(pool).wf(),
            id.index < old(pool).items@.len(),
        ensures
            final(pool).wf(),
            final(pool).items@ == old(pool).items@.update(
                id.index as int,
                Code {
                    call_offsets: offsets,
                    ..old(pool).items@[id.index as int]
                },
            ),
            final(pool).pages@ == old(pool).pages@,
            final(pool).placements@ == old(pool).placements@,
    {
        let code = pool.get_mut(id);
        code.call_offsets = offsets;
    }
}

} // verus!
