//! Executable memory pool: owns raw backing pages and hands out stable,
//! typed handles to objects placed into them.
//!
//! The pool is append-only: allocations are never individually freed or
//! compacted; every object lives as long as the pool. Each page tracks a
//! growth cursor, and a placed object occupies the byte range
//! `[offset, offset + size)` of its page, disjoint from every other
//! allocation. Write/execute policy: a page is created with its
//! executability fixed for the pool's whole lifetime, and its bytes stay
//! writable throughout (the dual-mapped policy: a freshly allocated region
//! is writable, and is already executable before any caller invokes it).

use vstd::prelude::*;

verus! {

/// Number of payload bytes in one backing page.
pub const PAGE_SIZE: usize = 65536;

/// What an allocation descriptor reports about the block it asks for:
/// the total byte size (fixed header plus variable trailing data) and
/// whether the backing region must be executable.
pub struct AllocMetadata {
    pub size: usize,
    pub executable: bool,
}

/// The pool cannot satisfy a size/permission request. This is the only
/// expected failure mode of `alloc`; it is non-retryable within the same
/// pool instance.
#[derive(Debug, Clone, Copy, PartialEq, Eq, Structural)]
pub enum AllocErr {
    OutOfSpace,
}

/// Opaque, copyable token identifying one placed object of type `T` inside
/// the pool that issued it. A handle is a back-reference into the pool's
/// bookkeeping, not a counted reference; using it with any other pool
/// instance is a contract violation (every accessor requires the index to
/// be in range of the pool it is handed).
pub struct AllocId<T> {
    pub index: usize,
    pub marker: core::marker::PhantomData<T>,
}

impl<T> Clone for AllocId<T> {
    fn clone(&self) -> (r: Self)
        ensures
            r == *self,
    {
        AllocId { index: self.index, marker: core::marker::PhantomData }
    }
}

impl<T> Copy for AllocId<T> {

}

/// The allocation contract: a descriptor value, supplied by a caller who
/// wants to place a new object, that can report the block it needs and
/// then consume itself to initialize the object's header. The pool is
/// agnostic to the concrete resident type; this trait is its only view of
/// one.
pub trait ItemAlloc: Sized {
    type Output;

    /// When the descriptor's size report is meaningful at all (its total
    /// size fits the machine); `metadata` may only be called then.
    spec fn desc_wf(&self) -> bool;

    /// Total byte size the descriptor will report.
    spec fn spec_size(&self) -> int;

    /// Whether the descriptor will ask for an executable region.
    spec fn spec_executable(&self) -> bool;

    /// Which header values a well-behaved descriptor may produce.
    spec fn output_matches(&self, out: Self::Output) -> bool;

    /// Report the required size and permissions of the block.
    fn metadata(&self) -> (m: AllocMetadata)
        requires
            self.desc_wf(),
        ensures
            m.size as int == self.spec_size(),
            m.executable == self.spec_executable(),
    ;

    /// Consume the descriptor and produce the initialized header.
    /// Placement is infallible once space is reserved.
    fn in_place(self) -> (out: Self::Output)
        ensures
            self.output_matches(out),
    ;
}

/// One backing page: a fixed-size byte region, a growth cursor, and the
/// executability the page was created with.
pub struct Page {
    pub bytes: Vec<u8>,
    pub cursor: usize,
    pub executable: bool,
}

impl Page {
    /// A page always holds exactly `PAGE_SIZE` bytes, its cursor never
    /// passes the end, and the bytes past the cursor are still zero.
    pub open spec fn wf(self) -> bool {
        &&& self.bytes@.len() == PAGE_SIZE
        &&& self.cursor <= PAGE_SIZE
        &&& forall|i: int| self.cursor <= i < PAGE_SIZE ==> self.bytes@[i] == 0u8
    }
}

/// Bookkeeping for one placed object: which page it lives in, where its
/// reserved byte range starts, how long that range is, and whether the
/// range is executable.
#[derive(Clone, Copy)]
pub struct Placement {
    pub page: usize,
    pub offset: usize,
    pub size: usize,
    pub executable: bool,
}

/// The pool itself: backing pages, the headers of the placed objects, and
/// one placement record per object. `items[i]` and `placements[i]`
/// describe the object that `AllocId { index: i }` refers to.
pub struct PagePool<T> {
    pub pages: Vec<Page>,
    pub items: Vec<T>,
    pub placements: Vec<Placement>,
}

impl<T> PagePool<T> {
    /// A placement record points into an existing page, lies entirely
    /// under that page's cursor, and matches the page's executability.
    pub open spec fn placement_wf(self, r: Placement) -> bool {
        &&& r.page < self.pages@.len()
        &&& r.offset + r.size <= self.pages@[r.page as int].cursor
        &&& self.pages@[r.page as int].executable == r.executable
    }

    /// Pool invariant: one placement per item, every page and placement
    /// well formed, and the reserved ranges of any two objects on the same
    /// page disjoint (ranges appear in allocation order).
    pub open spec fn wf(self) -> bool {
        &&& self.placements@.len() == self.items@.len()
        &&& forall|p: int| 0 <= p < self.pages@.len() ==> (#[trigger] self.pages@[p]).wf()
        &&& forall|i: int|
            0 <= i < self.placements@.len() ==> self.placement_wf(#[trigger] self.placements@[i])
        &&& forall|i: int, j: int|
            0 <= i < j < self.placements@.len() && (#[trigger] self.placements@[i]).page == (
            #[trigger] self.placements@[j]).page ==> self.placements@[i].offset
                + self.placements@[i].size <= self.placements@[j].offset
    }

    /// The bytes currently stored in object `i`'s reserved range.
    pub open spec fn region_seq(self, i: int) -> Seq<u8> {
        let r = self.placements@[i];
        self.pages@[r.page as int].bytes@.subrange(r.offset as int, r.offset + r.size)
    }

    /// A fresh pool: no pages, no objects.
    pub fn new() -> (r: Self)
        ensures
            r.wf(),
            r.items@.len() == 0,
            r.placements@.len() == 0,
            r.pages@.len() == 0,
    {
        PagePool { pages: Vec::new(), items: Vec::new(), placements: Vec::new() }
    }

    /// Reserve a region sized per the descriptor's report, run the
    /// descriptor's placement step, and return a handle to the new object.
    /// Succeeds exactly when the requested block fits in one page; on
    /// failure nothing is placed and the pool is unchanged. A fresh region
    /// is zeroed, and no existing object's bytes are disturbed.
    pub fn allocate<A: ItemAlloc<Output = T>>(&mut self, desc: A) -> (r: Result<
        AllocId<T>,
        AllocErr,
    >)
        requires
            old(self).wf(),
            desc.desc_wf(),
        ensures
            final(self).wf(),
            match r {
                Ok(id) => {
                    &&& desc.spec_size() <= PAGE_SIZE
                    &&& id.index == old(self).items@.len()
                    &&& final(self).items@.len() == old(self).items@.len() + 1
                    &&& final(self).items@.subrange(0, old(self).items@.len() as int) == old(
                        self,
                    ).items@
                    &&& desc.output_matches(final(self).items@.last())
                    &&& final(self).placements@.len() == old(self).placements@.len() + 1
                    &&& final(self).placements@.subrange(0, old(self).placements@.len() as int)
                        == old(self).placements@
                    &&& final(self).placements@.last().size as int == desc.spec_size()
                    &&& final(self).placements@.last().executable == desc.spec_executable()
                    &&& final(self).region_seq(old(self).items@.len() as int) == Seq::new(
                        desc.spec_size() as nat,
                        |k: int| 0u8,
                    )
                    &&& forall|k: int|
                        0 <= k < old(self).items@.len() ==> final(self).region_seq(k) == old(
                            self,
                        ).region_seq(k)
                },
                Err(e) => {
                    &&& e == AllocErr::OutOfSpace
                    &&& desc.spec_size() > PAGE_SIZE
                    &&& *final(self) == *old(self)
                },
            },
    {
        let m = desc.metadata();
        if m.size > PAGE_SIZE {
            return Err(AllocErr::OutOfSpace);
        }
        let n_pages = self.pages.len();
        let reuse_last = n_pages > 0 && self.pages[n_pages - 1].executable == m.executable
            && self.pages[n_pages - 1].cursor + m.size <= PAGE_SIZE;
        if !reuse_last {
            self.pages.push(new_page(m.executable));
        }
        let page_idx = self.pages.len() - 1;
        let offset = self.pages[page_idx].cursor;
        let page_ref = &mut self.pages[page_idx];
        page_ref.cursor = offset + m.size;
        let out = desc.in_place();
        self.items.push(out);
        self.placements.push(
            Placement { page: page_idx, offset, size: m.size, executable: m.executable },
        );
        let id = AllocId { index: self.items.len() - 1, marker: core::marker::PhantomData };
        proof {
            assert(final(self).region_seq(old(self).items@.len() as int) =~= Seq::new(
                desc.spec_size() as nat,
                |k: int| 0u8,
            ));
            assert(final(self).items@.subrange(0, old(self).items@.len() as int) =~= old(
                self,
            ).items@);
            assert(final(self).placements@.subrange(0, old(self).placements@.len() as int) =~= old(
                self,
            ).placements@);
            assert forall|k: int| 0 <= k < old(self).items@.len() implies final(self).region_seq(k)
                == old(self).region_seq(k) by {
                assert(old(self).placement_wf(old(self).placements@[k]));
                assert(final(self).region_seq(k) =~= old(self).region_seq(k));
            }
        }
        Ok(id)
    }

    /// Resolve a handle to a shared reference to the object's header.
    pub fn get(&self, id: &AllocId<T>) -> (r: &T)
        requires
            id.index < self.items@.len(),
        ensures
            *r == self.items@[id.index as int],
    {
        &self.items[id.index]
    }

    /// Resolve a handle to a mutable reference to the object's header, for
    /// the originating backend to populate before the object is published.
    /// Only the addressed object changes; pages and placements do not.
    pub fn get_mut(&mut self, id: &AllocId<T>) -> (r: &mut T)
        requires
            old(self).wf(),
            id.index < old(self).items@.len(),
        ensures
            *r == old(self).items@[id.index as int],
            final(self).items@ == old(self).items@.update(id.index as int, *final(r)),
            final(self).pages@ == old(self).pages@,
            final(self).placements@ == old(self).placements@,
            final(self).wf(),
    {
        &mut self.items[id.index]
    }

    /// Write `data` into object `id`'s reserved range, starting `start`
    /// bytes into it. Bounds are fixed at allocation time: the write must
    /// stay inside the range, and every other object's bytes, all headers
    /// and all placements are untouched.
    pub fn write_region(&mut self, id: &AllocId<T>, start: usize, data: &Vec<u8>)
        requires
            old(self).wf(),
            id.index < old(self).placements@.len(),
            start + data@.len() <= old(self).placements@[id.index as int].size,
        ensures
            final(self).wf(),
            final(self).items@ == old(self).items@,
            final(self).placements@ == old(self).placements@,
            final(self).pages@.len() == old(self).pages@.len(),
            final(self).region_seq(id.index as int) == old(self).region_seq(
                id.index as int,
            ).update_subrange_with(start as int, data@),
            forall|k: int|
                0 <= k < old(self).placements@.len() && k != id.index ==> final(self).region_seq(k)
                    == old(self).region_seq(k),
    {
        let place = self.placements[id.index];
        let mut page = self.pages.remove(place.page);
        let mut k: usize = 0;
        while k < data.len()
            invariant
                old(self).wf(),
                id.index < old(self).placements@.len(),
                place == old(self).placements@[id.index as int],
                start + data@.len() <= place.size,
                k <= data@.len(),
                page.cursor == old(self).pages@[place.page as int].cursor,
                page.executable == old(self).pages@[place.page as int].executable,
                page.bytes@.len() == PAGE_SIZE,
                forall|t: int|
                    0 <= t < PAGE_SIZE && !(place.offset + start <= t < place.offset + start + k)
                        ==> page.bytes@[t] == old(self).pages@[place.page as int].bytes@[t],
                forall|t: int|
                    0 <= t < k ==> page.bytes@[place.offset + start + t] == data@[t],
            decreases data@.len() - k,
        {
            proof {
                assert(old(self).placement_wf(old(self).placements@[id.index as int]));
            }
            page.bytes[place.offset + start + k] = data[k];
            k += 1;
        }
        self.pages.insert(place.page, page);
        proof {
            assert(old(self).placement_wf(old(self).placements@[id.index as int]));
            assert(final(self).pages@ =~= old(self).pages@.update(
                place.page as int,
                final(self).pages@[place.page as int],
            ));
            assert(final(self).region_seq(id.index as int) =~= old(self).region_seq(
                id.index as int,
            ).update_subrange_with(start as int, data@));
            assert forall|k2: int|
                0 <= k2 < old(self).placements@.len() && k2 != id.index implies final(self).region_seq(
                k2,
            ) == old(self).region_seq(k2) by {
                assert(old(self).placement_wf(old(self).placements@[k2]));
                if old(self).placements@[k2].page == place.page {
                    lemma_regions_disjoint(*old(self), k2, id.index as int);
                }
                assert(final(self).region_seq(k2) =~= old(self).region_seq(k2));
            }
        }
    }

    /// Copy out the bytes currently stored in object `id`'s reserved
    /// range, starting `start` bytes into it, `len` bytes long.
    pub fn read_region(&self, id: &AllocId<T>, start: usize, len: usize) -> (r: Vec<u8>)
        requires
            self.wf(),
            id.index < self.placements@.len(),
            start + len <= self.placements@[id.index as int].size,
        ensures
            r@ == self.region_seq(id.index as int).subrange(start as int, start + len),
    {
        let place = self.placements[id.index];
        let mut r: Vec<u8> = Vec::new();
        let mut k: usize = 0;
        proof {
            assert(self.placement_wf(self.placements@[id.index as int]));
        }
        while k < len
            invariant
                self.wf(),
                id.index < self.placements@.len(),
                place == self.placements@[id.index as int],
                start + len <= place.size,
                k <= len,
                r@ == self.region_seq(id.index as int).subrange(start as int, start + k),
            decreases len - k,
        {
            proof {
                assert(self.placement_wf(self.placements@[id.index as int]));
            }
            r.push(self.pages[place.page].bytes[place.offset + start + k]);
            proof {
                assert(r@ =~= self.region_seq(id.index as int).subrange(
                    start as int,
                    start + k + 1,
                ));
            }
            k += 1;
        }
        r
    }
}

/// Law: allocation correctness. Any two objects placed in a well-formed
/// pool occupy disjoint byte ranges, so writing one never disturbs the
/// other — allocations are independent of each other.
pub proof fn lemma_regions_disjoint<T>(pool: PagePool<T>, i: int, j: int)
    requires
        pool.wf(),
        0 <= i < pool.placements@.len(),
        0 <= j < pool.placements@.len(),
        i != j,
        pool.placements@[i].page == pool.placements@[j].page,
    ensures
        pool.placements@[i].offset + pool.placements@[i].size <= pool.placements@[j].offset
            || pool.placements@[j].offset + pool.placements@[j].size <= pool.placements@[i].offset,
{
}

/// A fresh, zeroed page with the requested executability.
fn new_page(executable: bool) -> (r: Page)
    ensures
        r.wf(),
        r.cursor == 0,
        r.executable == executable,
{
    Page { bytes: vec![0u8; PAGE_SIZE], cursor: 0, executable }
}

} // verus!
