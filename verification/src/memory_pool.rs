use vstd::prelude::*;

use crate::errors::PerformanceOptimizationError;

verus! {

/// Bytes in a mebibyte.
pub const MIB: usize = 1048576;

/// `n` is a power of two.
pub open spec fn is_power_of_two(n: nat) -> bool
    decreases n,
{
    if n == 1 {
        true
    } else if n < 2 || n % 2 != 0 {
        false
    } else {
        is_power_of_two(n / 2)
    }
}

/// Whether `n` is a power of two.
pub fn power_of_two(n: usize) -> (r: bool)
    ensures
        r == is_power_of_two(n as nat),
{
    let mut m = n;
    while m >= 2 && m % 2 == 0
        invariant
            is_power_of_two(m as nat) == is_power_of_two(n as nat),
        decreases m,
    {
        m = m / 2;
    }
    m == 1
}

/// What is known of a block of the pool.
#[derive(Debug, Clone, Copy, PartialEq, Eq, Structural)]
pub struct BlockView {
    pub id: u64,
    pub size: usize,
    pub is_free: bool,
    pub alignment: usize,
}

/// The state of a memory pool.
pub struct PoolView {
    pub pool_size_mb: nat,
    pub allocated_bytes: nat,
    pub peak_allocated_bytes: nat,
    pub allocation_count: nat,
    pub deallocation_count: nat,
    pub blocks: Seq<BlockView>,
    pub free_blocks: Seq<usize>,
    pub next_id: nat,
}

/// Total bytes of the pool.
pub open spec fn pool_bytes(v: PoolView) -> nat {
    v.pool_size_mb * MIB as nat
}

/// Whole mebibytes not yet allocated.
pub open spec fn available_mb(v: PoolView) -> nat {
    ((pool_bytes(v) - v.allocated_bytes) / MIB as int) as nat
}

/// The blocks that are in use, in order.
pub open spec fn blocks_in_use(s: Seq<BlockView>) -> Seq<BlockView>
    decreases s.len(),
{
    if s.len() == 0 {
        s
    } else if s.last().is_free {
        blocks_in_use(s.drop_last())
    } else {
        blocks_in_use(s.drop_last()).push(s.last())
    }
}

/// `s` with every occurrence of `x` removed.
pub open spec fn without(s: Seq<usize>, x: usize) -> Seq<usize>
    decreases s.len(),
{
    if s.len() == 0 {
        s
    } else if s.last() == x {
        without(s.drop_last(), x)
    } else {
        without(s.drop_last(), x).push(s.last())
    }
}

/// Block `idx` can serve a request of `size` bytes aligned to `alignment`.
pub open spec fn fits(v: PoolView, idx: usize, size: nat, alignment: nat) -> bool {
    &&& idx < v.blocks.len()
    &&& v.blocks[idx as int].is_free
    &&& v.blocks[idx as int].size >= size
    &&& v.blocks[idx as int].alignment >= alignment
}

/// Position in the free list, from `j` on, of the first block that fits.
pub open spec fn first_fit(v: PoolView, size: nat, alignment: nat, j: int) -> Option<int>
    decreases v.free_blocks.len() - j,
{
    if j < 0 || j >= v.free_blocks.len() {
        None
    } else if fits(v, v.free_blocks[j], size, alignment) {
        Some(j)
    } else {
        first_fit(v, size, alignment, j + 1)
    }
}

/// The pool after its free blocks are released.
pub open spec fn cleaned(v: PoolView) -> PoolView {
    PoolView { blocks: blocks_in_use(v.blocks), free_blocks: Seq::empty(), ..v }
}

/// Total size of the blocks in use.
pub open spec fn used_total(s: Seq<BlockView>) -> nat
    decreases s.len(),
{
    if s.len() == 0 {
        0
    } else if s.last().is_free {
        used_total(s.drop_last())
    } else {
        used_total(s.drop_last()) + s.last().size as nat
    }
}

proof fn lemma_used_total_update(s: Seq<BlockView>, i: int, b: BlockView)
    requires
        0 <= i < s.len(),
    ensures
        used_total(s.update(i, b)) + (if s[i].is_free {
            0
        } else {
            s[i].size as int
        }) == used_total(s) + (if b.is_free {
            0
        } else {
            b.size as int
        }),
    decreases s.len(),
{
    if i < s.len() - 1 {
        lemma_used_total_update(s.drop_last(), i, b);
        assert(s.update(i, b).drop_last() =~= s.drop_last().update(i, b));
    } else {
        assert(s.update(i, b).drop_last() =~= s.drop_last());
    }
}

proof fn lemma_used_total_in_use(s: Seq<BlockView>)
    ensures
        used_total(blocks_in_use(s)) == used_total(s),
        forall|i: int| 0 <= i < blocks_in_use(s).len() ==> s.contains(#[trigger] blocks_in_use(s)[i]),
    decreases s.len(),
{
    if s.len() > 0 {
        lemma_used_total_in_use(s.drop_last());
        let t = blocks_in_use(s.drop_last());
        if !s.last().is_free {
            assert(t.push(s.last()).drop_last() =~= t);
        }
        assert forall|i: int| 0 <= i < blocks_in_use(s).len() implies s.contains(
            #[trigger] blocks_in_use(s)[i],
        ) by {
            if !s.last().is_free && i == t.len() {
                assert(s[s.len() - 1] == s.last());
            } else {
                assert(blocks_in_use(s)[i] == t[i]);
                assert(s.drop_last().contains(t[i]));
                let k = choose|k: int| 0 <= k < s.drop_last().len() && s.drop_last()[k] == t[i];
                assert(s[k] == t[i]);
            }
        }
    }
}

/// Block ids increase along the sequence.
pub open spec fn ids_increasing(s: Seq<BlockView>) -> bool {
    forall|i: int, j: int| 0 <= i < j < s.len() ==> s[i].id < s[j].id
}

proof fn lemma_in_use_increasing(s: Seq<BlockView>)
    requires
        ids_increasing(s),
    ensures
        ids_increasing(blocks_in_use(s)),
    decreases s.len(),
{
    if s.len() > 0 {
        lemma_in_use_increasing(s.drop_last());
        lemma_used_total_in_use(s.drop_last());
        let t = blocks_in_use(s.drop_last());
        if !s.last().is_free {
            assert forall|i: int, j: int| 0 <= i < j < t.push(s.last()).len() implies t.push(
                s.last(),
            )[i].id < t.push(s.last())[j].id by {
                if j == t.len() {
                    assert(s.drop_last().contains(t[i]));
                    let k = choose|k: int| 0 <= k < s.drop_last().len() && s.drop_last()[k] == t[i];
                    assert(s[k] == t[i]);
                }
            }
        }
    }
}

/// The block sizes fit a request of `size` with `alignment`: Rust's layout rule
/// (the size rounded up to the alignment stays within `isize::MAX`).
pub open spec fn layout_ok(size: nat, alignment: nat) -> bool {
    size + alignment - 1 <= isize::MAX
}

/// The pool as the allocation of `size` bytes finds it after its capacity check:
/// cleaned up when the request does not fit as things stand.
pub open spec fn before_search(v: PoolView, size: nat) -> PoolView {
    if v.allocated_bytes + size > pool_bytes(v) {
        cleaned(v)
    } else {
        v
    }
}

/// When an allocation of `size` bytes aligned to `alignment` reuses a free block,
/// the bytes allocated plus that block's size fit a `usize`.
pub open spec fn reuse_fits(v: PoolView, size: nat, alignment: nat) -> bool {
    let w = before_search(v, size);
    size > 0 && is_power_of_two(alignment) && w.allocated_bytes + size <= pool_bytes(w) ==> match first_fit(
        w,
        size,
        alignment,
        0,
    ) {
        Some(j) => w.allocated_bytes + w.blocks[w.free_blocks[j] as int].size <= usize::MAX,
        None => true,
    }
}

/// The outcome of allocating `size` bytes aligned to `alignment` from `v`: the
/// result (the new block's id, or the error) and the pool afterwards.
pub open spec fn allocate_outcome(v: PoolView, size: nat, alignment: nat) -> (
    Result<u64, PerformanceOptimizationError>,
    PoolView,
) {
    let requested_mb = size / MIB as nat;
    if size == 0 {
        (
            Err(PerformanceOptimizationError::MemoryError { requested_mb: 0, available_mb: available_mb(v) as usize }),
            v,
        )
    } else if !is_power_of_two(alignment) {
        (
            Err(PerformanceOptimizationError::MemoryError {
                requested_mb: requested_mb as usize,
                available_mb: available_mb(v) as usize,
            }),
            v,
        )
    } else {
        let w = before_search(v, size);
        if w.allocated_bytes + size > pool_bytes(w) {
            (
                Err(PerformanceOptimizationError::MemoryError {
                    requested_mb: requested_mb as usize,
                    available_mb: available_mb(w) as usize,
                }),
                w,
            )
        } else {
            match first_fit(w, size, alignment, 0) {
                Some(j) => {
                    let idx = w.free_blocks[j] as int;
                    let b = w.blocks[idx];
                    let allocated = w.allocated_bytes + b.size as nat;
                    (
                        Ok(b.id),
                        PoolView {
                            blocks: w.blocks.update(idx, BlockView { is_free: false, ..b }),
                            allocated_bytes: allocated,
                            peak_allocated_bytes: if allocated > w.peak_allocated_bytes {
                                allocated
                            } else {
                                w.peak_allocated_bytes
                            },
                            allocation_count: w.allocation_count + 1,
                            free_blocks: without(w.free_blocks, idx as usize),
                            ..w
                        },
                    )
                },
                None => {
                    if !layout_ok(size, alignment) {
                        (
                            Err(PerformanceOptimizationError::MemoryError {
                                requested_mb: requested_mb as usize,
                                available_mb: available_mb(w) as usize,
                            }),
                            w,
                        )
                    } else {
                        let allocated = w.allocated_bytes + size;
                        (
                            Ok(w.next_id as u64),
                            PoolView {
                                blocks: w.blocks.push(
                                    BlockView {
                                        id: w.next_id as u64,
                                        size: size as usize,
                                        is_free: false,
                                        alignment: alignment as usize,
                                    },
                                ),
                                allocated_bytes: allocated,
                                peak_allocated_bytes: if allocated > w.peak_allocated_bytes {
                                    allocated
                                } else {
                                    w.peak_allocated_bytes
                                },
                                allocation_count: w.allocation_count + 1,
                                next_id: w.next_id + 1,
                                ..w
                            },
                        )
                    }
                },
            }
        }
    }
}

/// Position of the block in use named `id`, if there is one.
pub open spec fn used_block_named(s: Seq<BlockView>, id: u64) -> Option<int> {
    if exists|i: int| 0 <= i < s.len() && s[i].id == id && !s[i].is_free {
        Some(choose|i: int| 0 <= i < s.len() && s[i].id == id && !s[i].is_free)
    } else {
        None
    }
}

/// The outcome of releasing the block named `id` from `v`: whether a block in use
/// had that name, and the pool afterwards (the block free and at the end of the free
/// list, its bytes no longer allocated).
pub open spec fn deallocate_outcome(v: PoolView, id: u64) -> (bool, PoolView) {
    match used_block_named(v.blocks, id) {
        None => (false, v),
        Some(i) => {
            let b = v.blocks[i];
            (
                true,
                PoolView {
                    blocks: v.blocks.update(i, BlockView { is_free: true, ..b }),
                    allocated_bytes: (v.allocated_bytes - b.size) as nat,
                    deallocation_count: v.deallocation_count + 1,
                    free_blocks: v.free_blocks.push(i as usize),
                    ..v
                },
            )
        },
    }
}

struct MemoryBlock {
    id: u64,
    buffer: Vec<u8>,
    size: usize,
    is_free: bool,
    alignment: usize,
}

/// A pool that hands out blocks of memory, reusing freed blocks and keeping
/// count of what is allocated. Blocks are named by the id returned on allocation.
pub struct MemoryPool {
    pool_size_mb: usize,
    allocated_bytes: usize,
    peak_allocated_bytes: usize,
    allocation_count: u64,
    deallocation_count: u64,
    blocks: Vec<MemoryBlock>,
    free_blocks: Vec<usize>,
    next_id: u64,
}

spec fn block_view(b: MemoryBlock) -> BlockView {
    BlockView { id: b.id, size: b.size, is_free: b.is_free, alignment: b.alignment }
}

impl View for MemoryPool {
    type V = PoolView;

    closed spec fn view(&self) -> PoolView {
        PoolView {
            pool_size_mb: self.pool_size_mb as nat,
            allocated_bytes: self.allocated_bytes as nat,
            peak_allocated_bytes: self.peak_allocated_bytes as nat,
            allocation_count: self.allocation_count as nat,
            deallocation_count: self.deallocation_count as nat,
            blocks: self.blocks@.map_values(|b: MemoryBlock| block_view(b)),
            free_blocks: self.free_blocks@,
            next_id: self.next_id as nat,
        }
    }
}

proof fn lemma_ids_unique(p: &MemoryPool, i: int)
    requires
        p.wf(),
        0 <= i < p@.blocks.len(),
        !p@.blocks[i].is_free,
    ensures
        used_block_named(p@.blocks, p@.blocks[i].id) == Some(i),
{
    let s = p@.blocks;
    let id = s[i].id;
    assert(exists|k: int| 0 <= k < s.len() && s[k].id == id && !s[k].is_free);
    let k = choose|k: int| 0 <= k < s.len() && s[k].id == id && !s[k].is_free;
    if k < i {
        assert(s[k].id < s[i].id);
    } else if k > i {
        assert(s[i].id < s[k].id);
    }
}

impl MemoryPool {
    /// The pool's bookkeeping is consistent: its size in bytes fits a `usize`, the
    /// bytes allocated are the sum of the blocks in use and never above the peak,
    /// every block is no larger than the pool and ids are below the next id.
    pub closed spec fn wf(&self) -> bool {
        &&& self.pool_size_mb * MIB <= usize::MAX
        &&& self@.allocated_bytes == used_total(self@.blocks)
        &&& self@.peak_allocated_bytes >= self@.allocated_bytes
        &&& ids_increasing(self@.blocks)
        &&& forall|i: int|
            0 <= i < self.blocks@.len() ==> (#[trigger] self.blocks@[i]).size <= self.pool_size_mb
                * MIB && self.blocks@[i].id < self.next_id && self.blocks@[i].buffer@.len()
                == self.blocks@[i].size
    }

    /// Creates an empty pool of `pool_size_mb` mebibytes.
    pub fn new(pool_size_mb: usize) -> (r: Result<MemoryPool, PerformanceOptimizationError>)
        requires
            pool_size_mb * MIB <= usize::MAX,
        ensures
            r matches Ok(p) && p.wf() && p@ == (PoolView {
                pool_size_mb: pool_size_mb as nat,
                allocated_bytes: 0,
                peak_allocated_bytes: 0,
                allocation_count: 0,
                deallocation_count: 0,
                blocks: Seq::empty(),
                free_blocks: Seq::empty(),
                next_id: 0,
            }),
    {
        let p = MemoryPool {
            pool_size_mb,
            allocated_bytes: 0,
            peak_allocated_bytes: 0,
            allocation_count: 0,
            deallocation_count: 0,
            blocks: Vec::new(),
            free_blocks: Vec::new(),
            next_id: 0,
        };
        assert(p@.blocks =~= Seq::<BlockView>::empty());
        Ok(p)
    }

    /// Total size of the pool in bytes.
    pub fn pool_size_bytes(&self) -> (n: usize)
        requires
            self.wf(),
        ensures
            n == pool_bytes(self@),
    {
        self.pool_size_mb * MIB
    }

    /// Bytes currently allocated.
    pub fn allocated_bytes(&self) -> (n: usize)
        ensures
            n == self@.allocated_bytes,
    {
        self.allocated_bytes
    }

    /// Largest number of bytes allocated at once.
    pub fn peak_allocated_bytes(&self) -> (n: usize)
        ensures
            n == self@.peak_allocated_bytes,
    {
        self.peak_allocated_bytes
    }

    /// Number of successful allocations.
    pub fn allocation_count(&self) -> (n: u64)
        ensures
            n == self@.allocation_count,
    {
        self.allocation_count
    }

    /// Number of successful deallocations.
    pub fn deallocation_count(&self) -> (n: u64)
        ensures
            n == self@.deallocation_count,
    {
        self.deallocation_count
    }

    /// Allocates `size` bytes aligned to `alignment` and returns the id of the block.
    /// A free block that is large and aligned enough is reused (the first one in the
    /// free list); otherwise a new block is made. A request that does not fit is first
    /// retried after releasing the free blocks.
    pub fn allocate(&mut self, size: usize, alignment: usize) -> (r: Result<u64, PerformanceOptimizationError>)
        requires
            old(self).wf(),
            old(self)@.allocated_bytes <= pool_bytes(old(self)@),
            size <= usize::MAX - pool_bytes(old(self)@),
            reuse_fits(old(self)@, size as nat, alignment as nat),
            old(self)@.allocation_count < u64::MAX,
            old(self)@.next_id < u64::MAX,
        ensures
            final(self).wf(),
            (r, final(self)@) == allocate_outcome(old(self)@, size as nat, alignment as nat),
    {
        if size == 0 {
            return Err(PerformanceOptimizationError::MemoryError { requested_mb: 0, available_mb: self.available_memory_mb() });
        }
        if !power_of_two(alignment) {
            return Err(PerformanceOptimizationError::MemoryError {
                requested_mb: size / MIB,
                available_mb: self.available_memory_mb(),
            });
        }
        let pool_size_bytes = self.pool_size_mb * MIB;
        if self.allocated_bytes + size > pool_size_bytes {
            self.cleanup();
            if self.allocated_bytes + size > pool_size_bytes {
                return Err(PerformanceOptimizationError::MemoryError {
                    requested_mb: size / MIB,
                    available_mb: self.available_memory_mb(),
                });
            }
        }
        let ghost w = self@;
        let mut j: usize = 0;
        while j < self.free_blocks.len()
            invariant
                self.wf(),
                self@ == w,
                w == before_search(old(self)@, size as nat),
                size > 0,
                is_power_of_two(alignment as nat),
                old(self)@.allocated_bytes <= pool_bytes(old(self)@),
                j <= self.free_blocks@.len(),
                first_fit(w, size as nat, alignment as nat, 0) == first_fit(w, size as nat, alignment as nat, j as int),
                w.allocated_bytes + size <= pool_bytes(w),
                reuse_fits(old(self)@, size as nat, alignment as nat),
                w.allocation_count < u64::MAX,
            decreases self.free_blocks.len() - j,
        {
            let idx = self.free_blocks[j];
            if idx < self.blocks.len() && self.blocks[idx].is_free && self.blocks[idx].size >= size
                && self.blocks[idx].alignment >= alignment {
                let block_size = self.blocks[idx].size;
                let id = self.blocks[idx].id;
                let ghost old_blocks = self.blocks@;
                self.blocks[idx].is_free = false;
                proof {
                    assert(self.blocks@ =~= old_blocks.update(idx as int, MemoryBlock { is_free: false, ..old_blocks[idx as int] }));
                    assert(self@.blocks =~= w.blocks.update(idx as int, BlockView { is_free: false, ..w.blocks[idx as int] }));
                    lemma_used_total_update(w.blocks, idx as int, BlockView { is_free: false, ..w.blocks[idx as int] });
                }
                self.allocated_bytes = self.allocated_bytes + block_size;
                if self.allocated_bytes > self.peak_allocated_bytes {
                    self.peak_allocated_bytes = self.allocated_bytes;
                }
                self.allocation_count = self.allocation_count + 1;
                let mut kept: Vec<usize> = Vec::new();
                let mut k: usize = 0;
                while k < self.free_blocks.len()
                    invariant
                        k <= self.free_blocks@.len(),
                        self.free_blocks@ == w.free_blocks,
                        kept@ == without(w.free_blocks.take(k as int), idx),
                    decreases self.free_blocks.len() - k,
                {
                    assert(w.free_blocks.take(k as int + 1).drop_last() =~= w.free_blocks.take(k as int));
                    if self.free_blocks[k] != idx {
                        kept.push(self.free_blocks[k]);
                    }
                    k = k + 1;
                }
                assert(w.free_blocks.take(w.free_blocks.len() as int) =~= w.free_blocks);
                self.free_blocks = kept;
                return Ok(id);
            }
            j = j + 1;
        }
        if size as u128 + alignment as u128 - 1 > isize::MAX as u128 {
            return Err(PerformanceOptimizationError::MemoryError {
                requested_mb: size / MIB,
                available_mb: self.available_memory_mb(),
            });
        }
        let id = self.next_id;
        let buffer: Vec<u8> = vec![0u8; size];
        let ghost old_blocks = self.blocks@;
        self.blocks.push(MemoryBlock { id, buffer, size, is_free: false, alignment });
        proof {
            assert(self@.blocks =~= w.blocks.push(BlockView { id, size, is_free: false, alignment }));
            assert(self@.blocks.drop_last() =~= w.blocks);
        }
        self.next_id = self.next_id + 1;
        self.allocated_bytes = self.allocated_bytes + size;
        self.allocation_count = self.allocation_count + 1;
        if self.allocated_bytes > self.peak_allocated_bytes {
            self.peak_allocated_bytes = self.allocated_bytes;
        }
        Ok(id)
    }

    /// Returns the block in use named `id` to the pool; `false` when there is none.
    pub fn deallocate(&mut self, id: u64) -> (r: bool)
        requires
            old(self).wf(),
            old(self)@.deallocation_count < u64::MAX,
        ensures
            final(self).wf(),
            (r, final(self)@) == deallocate_outcome(old(self)@, id),
            r == (used_block_named(old(self)@.blocks, id) is Some),
            match used_block_named(old(self)@.blocks, id) {
                None => final(self)@ == old(self)@,
                Some(i) => {
                    let b = old(self)@.blocks[i];
                    final(self)@ == PoolView {
                        blocks: old(self)@.blocks.update(i, BlockView { is_free: true, ..b }),
                        allocated_bytes: (old(self)@.allocated_bytes - b.size) as nat,
                        deallocation_count: old(self)@.deallocation_count + 1,
                        free_blocks: old(self)@.free_blocks.push(i as usize),
                        ..old(self)@
                    }
                },
            },
    {
        let ghost v = self@;
        let mut i: usize = 0;
        while i < self.blocks.len()
            invariant
                self@ == v,
                v == old(self)@,
                self.wf(),
                i <= self.blocks@.len(),
                forall|m: int| 0 <= m < i ==> !(v.blocks[m].id == id && !v.blocks[m].is_free),
                v.deallocation_count < u64::MAX,
            decreases self.blocks.len() - i,
        {
            if self.blocks[i].id == id && !self.blocks[i].is_free {
                let block_size = self.blocks[i].size;
                proof {
                    lemma_ids_unique(self, i as int);
                    assert(used_block_named(v.blocks, id) == Some(i as int));
                }
                let ghost old_blocks = self.blocks@;
                self.blocks[i].is_free = true;
                proof {
                    assert(self.blocks@ =~= old_blocks.update(i as int, MemoryBlock { is_free: true, ..old_blocks[i as int] }));
                    assert(self@.blocks =~= v.blocks.update(i as int, BlockView { is_free: true, ..v.blocks[i as int] }));
                    lemma_used_total_update(v.blocks, i as int, BlockView { is_free: true, ..v.blocks[i as int] });
                }
                self.allocated_bytes = if self.allocated_bytes >= block_size {
                    self.allocated_bytes - block_size
                } else {
                    0
                };
                self.deallocation_count = self.deallocation_count + 1;
                self.free_blocks.push(i);
                return true;
            }
            i = i + 1;
        }
        false
    }

    fn available_memory_mb(&self) -> (n: usize)
        requires
            self.wf(),
            self@.allocated_bytes <= pool_bytes(self@),
        ensures
            n == available_mb(self@),
    {
        (self.pool_size_mb * MIB - self.allocated_bytes) / MIB
    }

    /// Releases every free block and empties the free list.
    pub fn cleanup(&mut self)
        requires
            old(self).wf(),
        ensures
            final(self).wf(),
            final(self)@ == cleaned(old(self)@),
    {
        let mut rest: Vec<MemoryBlock> = Vec::new();
        std::mem::swap(&mut rest, &mut self.blocks);
        let ghost old_blocks = rest@;
        let ghost old_view = old_blocks.map_values(|b: MemoryBlock| block_view(b));
        let ghost n = old_blocks.len();
        let mut kept: Vec<MemoryBlock> = Vec::new();
        while rest.len() > 0
            invariant
                old_blocks.len() == n,
                old_view.len() == n,
                old_view == old_blocks.map_values(|b: MemoryBlock| block_view(b)),
                rest@.len() <= n,
                rest@ == old_blocks.skip(n - rest@.len()),
                kept@.map_values(|b: MemoryBlock| block_view(b)) == blocks_in_use(
                    old_view.take(n - rest@.len()),
                ),
                forall|i: int|
                    0 <= i < n ==> (#[trigger] old_blocks[i]).size <= self.pool_size_mb * MIB
                        && old_blocks[i].id < self.next_id && old_blocks[i].buffer@.len()
                        == old_blocks[i].size,
                forall|i: int|
                    0 <= i < kept@.len() ==> (#[trigger] kept@[i]).size <= self.pool_size_mb * MIB
                        && kept@[i].id < self.next_id && kept@[i].buffer@.len() == kept@[i].size,
            decreases rest.len(),
        {
            let ghost m = n - rest@.len();
            let b = rest.remove(0);
            assert(b == old_blocks[m]);
            assert(rest@ =~= old_blocks.skip(n - rest@.len()));
            assert(old_view.take(m + 1).drop_last() =~= old_view.take(m));
            assert(old_view[m] == block_view(old_blocks[m]));
            assert(old_view.take(m + 1).last() == block_view(b));
            if !b.is_free {
                let ghost kb = kept@;
                kept.push(b);
                assert(kept@.map_values(|b: MemoryBlock| block_view(b)) =~= kb.map_values(
                    |b: MemoryBlock| block_view(b),
                ).push(block_view(b)));
            }
        }
        assert(old_view.take(n as int) =~= old_view);
        proof {
            lemma_used_total_in_use(old_view);
            lemma_in_use_increasing(old_view);
        }
        self.blocks = kept;
        self.free_blocks = Vec::new();
        proof {
            assert(self@.free_blocks =~= Seq::<usize>::empty());
        }
    }
}


proof fn lemma_first_fit_found(v: PoolView, size: nat, alignment: nat, j: int)
    ensures
        first_fit(v, size, alignment, j) matches Some(k) ==> j <= k < v.free_blocks.len() && fits(
            v,
            v.free_blocks[k],
            size,
            alignment,
        ),
    decreases v.free_blocks.len() - j,
{
    if j >= 0 && j < v.free_blocks.len() && !fits(v, v.free_blocks[j], size, alignment) {
        lemma_first_fit_found(v, size, alignment, j + 1);
    }
}

/// In a view whose ids increase and stay below the next id, a block in use is the
/// only one in use with its id.
proof fn lemma_named_unique(s: Seq<BlockView>, i: int)
    requires
        ids_increasing(s),
        0 <= i < s.len(),
        !s[i].is_free,
    ensures
        used_block_named(s, s[i].id) == Some(i),
{
    let id = s[i].id;
    assert(exists|k: int| 0 <= k < s.len() && s[k].id == id && !s[k].is_free);
    let k = choose|k: int| 0 <= k < s.len() && s[k].id == id && !s[k].is_free;
    if k < i {
        assert(s[k].id < s[i].id);
    } else if k > i {
        assert(s[i].id < s[k].id);
    }
}

/// What an allocation takes, its deallocation gives back: the block an allocation
/// hands out is the one in use under that id, and returning it leaves the pool with
/// the bytes allocated before.
pub proof fn lemma_allocation_undone(p: &MemoryPool, size: usize, alignment: usize)
    requires
        p.wf(),
        allocate_outcome(p@, size as nat, alignment as nat).0 is Ok,
    ensures
        ({
            let (r, v) = allocate_outcome(p@, size as nat, alignment as nat);
            used_block_named(v.blocks, r->Ok_0) matches Some(i) && v.allocated_bytes - v.blocks[i].size
                == p@.allocated_bytes
        }),
{
    let v0 = p@;
    let w = before_search(v0, size as nat);
    lemma_used_total_in_use(v0.blocks);
    lemma_in_use_increasing(v0.blocks);
    assert(ids_increasing(w.blocks));
    assert(w.allocated_bytes == v0.allocated_bytes);
    assert forall|i: int| 0 <= i < w.blocks.len() implies (#[trigger] w.blocks[i]).id < w.next_id by {
        if v0.allocated_bytes + size > pool_bytes(v0) {
            assert(v0.blocks.contains(w.blocks[i]));
            let k = choose|k: int| 0 <= k < v0.blocks.len() && v0.blocks[k] == w.blocks[i];
            assert(p.blocks@[k].id < p.next_id);
        } else {
            assert(p.blocks@[i].id < p.next_id);
        }
    }
    let (r, v) = allocate_outcome(v0, size as nat, alignment as nat);
    match first_fit(w, size as nat, alignment as nat, 0) {
        Some(j) => {
            lemma_first_fit_found(w, size as nat, alignment as nat, 0);
            let idx = w.free_blocks[j] as int;
            let b = w.blocks[idx];
            assert(v.blocks == w.blocks.update(idx, BlockView { is_free: false, ..b }));
            assert(ids_increasing(v.blocks)) by {
                assert forall|a: int, c: int| 0 <= a < c < v.blocks.len() implies v.blocks[a].id
                    < v.blocks[c].id by {
                    assert(v.blocks[a].id == w.blocks[a].id);
                    assert(v.blocks[c].id == w.blocks[c].id);
                }
            }
            lemma_named_unique(v.blocks, idx);
        },
        None => {
            let n = w.blocks.len() as int;
            assert(v.blocks[n].id == w.next_id);
            assert(ids_increasing(v.blocks)) by {
                assert forall|a: int, c: int| 0 <= a < c < v.blocks.len() implies v.blocks[a].id
                    < v.blocks[c].id by {
                    if c == n {
                        assert(w.blocks[a].id < w.next_id);
                    } else {
                        assert(v.blocks[a] == w.blocks[a]);
                        assert(v.blocks[c] == w.blocks[c]);
                    }
                }
            }
            lemma_named_unique(v.blocks, n);
        },
    }
}

/// In a pool in good order the bytes allocated never exceed the peak.
pub proof fn lemma_peak_covers_allocated(p: &MemoryPool)
    requires
        p.wf(),
    ensures
        p@.peak_allocated_bytes >= p@.allocated_bytes,
{
}

/// A block is released once: releasing the block in use named `id` succeeds, gives
/// its bytes back and counts one release; releasing it again finds nothing and
/// changes nothing.
pub proof fn lemma_release_once(p: &MemoryPool, id: u64)
    requires
        p.wf(),
        used_block_named(p@.blocks, id) is Some,
    ensures
        ({
            let i = used_block_named(p@.blocks, id)->0;
            let (first, v1) = deallocate_outcome(p@, id);
            let (second, v2) = deallocate_outcome(v1, id);
            &&& first
            &&& v1.allocated_bytes == p@.allocated_bytes - p@.blocks[i].size
            &&& v1.deallocation_count == p@.deallocation_count + 1
            &&& !second
            &&& v2 == v1
        }),
{
    let v = p@;
    let i = used_block_named(v.blocks, id)->0;
    lemma_used_total_in_use(v.blocks);
    assert(0 <= i < v.blocks.len() && v.blocks[i].id == id && !v.blocks[i].is_free);
    lemma_used_total_update(v.blocks, i, BlockView { is_free: true, ..v.blocks[i] });
    let (first, v1) = deallocate_outcome(v, id);
    assert forall|k: int| 0 <= k < v1.blocks.len() && v1.blocks[k].id == id implies v1.blocks[k].is_free by {
        if k != i {
            assert(v1.blocks[k] == v.blocks[k]);
            if k < i {
                assert(v.blocks[k].id < v.blocks[i].id);
            } else {
                assert(v.blocks[i].id < v.blocks[k].id);
            }
        }
    }
    assert(used_block_named(v1.blocks, id) is None);
}


/// Every successful allocation counts one allocation and no release, adds at least
/// the bytes asked for (a reused block may be larger), and leaves the peak at or
/// above the bytes allocated.
pub proof fn lemma_allocation_counters(p: &MemoryPool, size: usize, alignment: usize)
    requires
        p.wf(),
        allocate_outcome(p@, size as nat, alignment as nat).0 is Ok,
    ensures
        ({
            let v = allocate_outcome(p@, size as nat, alignment as nat).1;
            &&& v.allocation_count == p@.allocation_count + 1
            &&& v.deallocation_count == p@.deallocation_count
            &&& v.allocated_bytes >= p@.allocated_bytes + size
            &&& v.peak_allocated_bytes >= v.allocated_bytes
        }),
{
    let w = before_search(p@, size as nat);
    assert(w.allocated_bytes == p@.allocated_bytes);
    lemma_first_fit_found(w, size as nat, alignment as nat, 0);
}

} // verus!
