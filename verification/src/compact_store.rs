use vstd::prelude::*;

use std::collections::VecDeque;

use crate::engine::{keep_newest, reduced_capacity, since_after_push, LDCEngine, ring_push};
use crate::errors::PerformanceOptimizationError;
use crate::features::{
    features_finite, optimized_of, training_of, unaligned_of, OptimizedTrainingSample, TrainingSample,
};
use crate::mmap_storage::MemoryMappedStorage;

verus! {

/// The compact form of each sample, in order.
pub open spec fn compact_all(s: Seq<TrainingSample>) -> Seq<OptimizedTrainingSample> {
    s.map_values(|t: TrainingSample| optimized_of(t))
}

/// The sample each compact form stands for, in order.
pub open spec fn expand_all(s: Seq<OptimizedTrainingSample>) -> Seq<TrainingSample> {
    s.map_values(|o: OptimizedTrainingSample| training_of(o))
}

/// The samples the first `n` slots of a mapped storage hold, in order (a slot that
/// holds no sample is passed over).
pub open spec fn present_samples(m: MemoryMappedStorage, n: nat) -> Seq<TrainingSample>
    decreases n,
{
    if n == 0 {
        Seq::empty()
    } else {
        let before = present_samples(m, (n - 1) as nat);
        match m.sample_at((n - 1) as nat) {
            Some(o) => before.push(training_of(o)),
            None => before,
        }
    }
}

/// At most the first `n` elements of `s`.
pub open spec fn first_n<T>(s: Seq<T>, n: nat) -> Seq<T> {
    if s.len() > n {
        s.take(n as int)
    } else {
        s
    }
}

/// Every compact sample can be stored in `m` after what it holds: there is room,
/// `m` takes writes, and their features are finite.
pub open spec fn migratable(m: MemoryMappedStorage, s: Seq<OptimizedTrainingSample>) -> bool {
    s.len() == 0 || (m.count() + s.len() <= m.max() && !m.is_read_only() && forall|k: int|
        0 <= k < s.len() ==> features_finite(unaligned_of(#[trigger] s[k].features)))
}

/// The compact storage mode of the training samples: an in-memory window of compact
/// samples and, once attached, a memory-mapped storage that takes new samples while
/// it has room.
pub struct CompactStore {
    enabled: bool,
    samples: VecDeque<OptimizedTrainingSample>,
    mapped: Option<MemoryMappedStorage>,
}

impl CompactStore {
    /// Whether the compact mode is on.
    pub closed spec fn is_enabled(&self) -> bool {
        self.enabled
    }

    /// The in-memory compact samples, oldest first.
    pub closed spec fn compact(&self) -> Seq<OptimizedTrainingSample> {
        self.samples@
    }

    /// The attached mapped storage, if any.
    pub closed spec fn mapping(&self) -> Option<MemoryMappedStorage> {
        self.mapped
    }

    /// The attached storage is consistent.
    pub closed spec fn wf(&self) -> bool {
        self.mapped matches Some(m) ==> m.wf()
    }

    /// The compact mode off, with nothing stored.
    pub fn new() -> (s: CompactStore)
        ensures
            s.wf(),
            !s.is_enabled(),
            s.compact().len() == 0,
            s.mapping() is None,
    {
        CompactStore { enabled: false, samples: VecDeque::new(), mapped: None }
    }

    /// Whether the compact mode is on.
    pub fn is_optimized_storage_enabled(&self) -> (b: bool)
        ensures
            b == self.is_enabled(),
    {
        self.enabled
    }

    /// Number of in-memory compact samples.
    pub fn compact_len(&self) -> (n: usize)
        ensures
            n == self.compact().len(),
    {
        self.samples.len()
    }

    /// Count and capacity of the attached storage, if any.
    pub fn get_memory_mapped_stats(&self) -> (r: Option<(usize, usize)>)
        ensures
            r == match self.mapping() {
                Some(m) => Some((m.count() as usize, m.max() as usize)),
                None => None::<(usize, usize)>,
            },
    {
        match &self.mapped {
            Some(m) => Some((m.len(), m.capacity())),
            None => None,
        }
    }

    /// Writes the attached storage to its file; nothing to do without one.
    pub fn flush_memory_mapped_storage(&mut self) -> (r: Result<(), PerformanceOptimizationError>)
        requires
            old(self).wf(),
        ensures
            final(self).wf(),
            final(self).is_enabled() == old(self).is_enabled(),
            final(self).compact() == old(self).compact(),
            final(self).mapping() == old(self).mapping(),
            old(self).mapping() is None ==> r is Ok,
            old(self).mapping() matches Some(m) && m.is_read_only() ==> r is Ok,
            r matches Err(e) ==> e is MemoryMappingError
                && e->MemoryMappingError_message@ == "Failed to flush memory map to disk"@,
    {
        match &mut self.mapped {
            Some(m) => m.flush(),
            None => Ok(()),
        }
    }

    /// Attaches `storage` as it is, unless a storage is attached already.
    pub fn attach_memory_mapped_storage(&mut self, storage: MemoryMappedStorage)
        requires
            old(self).wf(),
            storage.wf(),
        ensures
            final(self).wf(),
            final(self).is_enabled() == old(self).is_enabled(),
            final(self).compact() == old(self).compact(),
            final(self).mapping() == if old(self).mapping() is Some {
                old(self).mapping()
            } else {
                Some(storage)
            },
    {
        if self.mapped.is_none() {
            self.mapped = Some(storage);
        }
    }

    /// Whether a mapped storage is attached.
    pub fn has_memory_mapped_storage(&self) -> (b: bool)
        ensures
            b == self.mapping() is Some,
    {
        self.mapped.is_some()
    }

    /// Attaches `storage`, unless a storage is attached already (then nothing
    /// changes). The in-memory compact samples are copied into it after what it
    /// holds, and it is written to its file; on a failure nothing is attached.
    pub fn initialize_memory_mapped_storage(&mut self, storage: MemoryMappedStorage) -> (r: Result<
        (),
        PerformanceOptimizationError,
    >)
        requires
            old(self).wf(),
            storage.wf(),
        ensures
            final(self).wf(),
            final(self).is_enabled() == old(self).is_enabled(),
            final(self).compact() == old(self).compact(),
            old(self).mapping() is Some ==> r is Ok && final(self).mapping() == old(self).mapping(),
            old(self).mapping() is None && r is Err ==> final(self).mapping() is None,
            old(self).mapping() is None && !migratable(storage, old(self).compact()) ==> r is Err,
            old(self).mapping() is None && r is Ok ==> (final(self).mapping() matches Some(m) && {
                &&& m.max() == storage.max()
                &&& m.is_read_only() == storage.is_read_only()
                &&& m.count() == storage.count() + old(self).compact().len()
                &&& forall|j: nat| j < storage.count() ==> #[trigger] m.sample_at(j) == storage.sample_at(j)
                &&& forall|k: int|
                    0 <= k < old(self).compact().len() ==> m.sample_at((storage.count() + k) as nat)
                        == Some(#[trigger] old(self).compact()[k])
            }),
    {
        if self.mapped.is_some() {
            return Ok(());
        }
        let mut m = storage;
        if self.samples.len() > 0 {
            let mut i: usize = 0;
            while i < self.samples.len()
                invariant
                    self.enabled == old(self).enabled,
                    self.samples@ == old(self).samples@,
                    self.mapped is None,
                    self.samples@.len() > 0,
                    i <= self.samples@.len(),
                    i > 0 ==> !storage.is_read_only(),
                    m.wf(),
                    m.max() == storage.max(),
                    m.is_read_only() == storage.is_read_only(),
                    m.count() == storage.count() + i,
                    forall|j: nat| j < storage.count() ==> #[trigger] m.sample_at(j) == storage.sample_at(j),
                    forall|k: int|
                        0 <= k < i ==> m.sample_at((storage.count() + k) as nat) == Some(
                            #[trigger] self.samples@[k],
                        ),
                    forall|k: int|
                        0 <= k < i ==> features_finite(unaligned_of(#[trigger] self.samples@[k].features)),
                decreases self.samples.len() - i,
            {
                let ghost before = m;
                match m.push_sample(&self.samples[i]) {
                    Err(e) => {
                        proof {
                            if migratable(storage, self.samples@) {
                                assert(features_finite(unaligned_of(self.samples@[i as int].features)));
                            }
                        }
                        return Err(e);
                    },
                    Ok(()) => {},
                }
                assert forall|j: nat| j < storage.count() implies #[trigger] m.sample_at(j)
                    == storage.sample_at(j) by {
                    assert(m.sample_at(j) == before.sample_at(j));
                }
                assert forall|k: int| 0 <= k < i + 1 implies m.sample_at((storage.count() + k) as nat)
                    == Some(#[trigger] self.samples@[k]) by {
                    if k < i {
                        assert(m.sample_at((storage.count() + k) as nat) == before.sample_at(
                            (storage.count() + k) as nat,
                        ));
                    }
                }
                i = i + 1;
            }
            proof {
                m.lemma_count_within_max();
            }
            match m.flush() {
                Err(e) => {
                    return Err(e);
                },
                Ok(()) => {},
            }
        }
        self.mapped = Some(m);
        Ok(())
    }

    /// Keeps the newest compact samples, at most `capacity` of them.
    fn keep_newest_compact(&mut self, capacity: usize)
        ensures
            final(self).compact() == first_tail(old(self).compact(), capacity as nat),
            final(self).is_enabled() == old(self).is_enabled(),
            final(self).mapping() == old(self).mapping(),
    {
        let ghost start = self.samples@;
        while self.samples.len() > capacity
            invariant
                self.enabled == old(self).enabled,
                self.mapped == old(self).mapped,
                self.samples@.len() <= start.len(),
                self.samples@ == start.subrange(start.len() - self.samples@.len(), start.len() as int),
                start.len() > capacity ==> self.samples@.len() >= capacity,
                start.len() <= capacity ==> self.samples@.len() == start.len(),
            decreases self.samples.len(),
        {
            let _ = self.samples.pop_front();
            assert(self.samples@ =~= start.subrange(
                start.len() - self.samples@.len(),
                start.len() as int,
            ));
        }
        assert(start.subrange(0, start.len() as int) =~= start);
    }
}

/// The samples the compact mode's search looks at, at most `limit` of them: with
/// the mode off, the first samples of the window; with it on, the samples of the
/// attached storage first and then the in-memory compact samples.
pub open spec fn compact_search_samples(
    window: Seq<TrainingSample>,
    enabled: bool,
    compact: Seq<OptimizedTrainingSample>,
    mapping: Option<MemoryMappedStorage>,
    limit: nat,
) -> Seq<TrainingSample> {
    if !enabled {
        first_n(window, limit)
    } else {
        match mapping {
            Some(m) => {
                let p = present_samples(m, if m.count() < limit { m.count() } else { limit });
                p + first_n(expand_all(compact), (limit - p.len()) as nat)
            },
            None => first_n(expand_all(compact), limit),
        }
    }
}

/// The compact window after `x` arrives in the compact mode, before it is stored:
/// the oldest compact sample leaves when the window is full.
pub open spec fn compact_room(s: Seq<OptimizedTrainingSample>, max: nat) -> Seq<OptimizedTrainingSample> {
    if s.len() >= max && s.len() > 0 {
        s.drop_first()
    } else {
        s
    }
}

proof fn lemma_present_len(m: MemoryMappedStorage, n: nat)
    ensures
        present_samples(m, n).len() <= n,
    decreases n,
{
    if n > 0 {
        lemma_present_len(m, (n - 1) as nat);
    }
}

impl LDCEngine {
    /// Turns the compact mode on, holding the compact form of every training sample;
    /// nothing changes when it is on already.
    pub fn enable_optimized_storage(&self, store: &mut CompactStore)
        ensures
            final(store).is_enabled(),
            final(store).mapping() == old(store).mapping(),
            final(store).compact() == if old(store).is_enabled() {
                old(store).compact()
            } else {
                compact_all(self.samples())
            },
    {
        if store.enabled {
            return;
        }
        let window = self.training_samples();
        let mut compact: VecDeque<OptimizedTrainingSample> = VecDeque::new();
        let mut i: usize = 0;
        while i < window.len()
            invariant
                i <= window@.len(),
                window@ == self.samples(),
                compact@ == compact_all(window@.take(i as int)),
            decreases window.len() - i,
        {
            compact.push_back(OptimizedTrainingSample::from_training_sample(&window[i]));
            i = i + 1;
            assert(compact@ =~= compact_all(window@.take(i as int)));
        }
        assert(window@.take(i as int) =~= window@);
        store.samples = compact;
        store.enabled = true;
    }

    /// Turns the compact mode off, the training window becoming the samples the
    /// compact ones stand for; nothing changes when it is off.
    pub fn disable_optimized_storage(&mut self, store: &mut CompactStore)
        ensures
            !final(store).is_enabled(),
            final(store).compact() == old(store).compact(),
            final(store).mapping() == old(store).mapping(),
            final(self).samples() == if old(store).is_enabled() {
                expand_all(old(store).compact())
            } else {
                old(self).samples()
            },
            final(self).cfg() == old(self).cfg(),
            final(self).hnsw_active() == old(self).hnsw_active(),
            final(self).since_rebuild() == old(self).since_rebuild(),
    {
        if !store.enabled {
            return;
        }
        let mut window: Vec<TrainingSample> = Vec::new();
        let mut i: usize = 0;
        while i < store.samples.len()
            invariant
                i <= store.samples@.len(),
                window@ == expand_all(store.samples@.take(i as int)),
            decreases store.samples.len() - i,
        {
            window.push(store.samples[i].to_training_sample());
            i = i + 1;
            assert(window@ =~= expand_all(store.samples@.take(i as int)));
        }
        assert(store.samples@.take(i as int) =~= store.samples@);
        self.replace_samples(window);
        store.enabled = false;
    }

    /// Adds a sample in the storage mode in use, without checking its features. With
    /// the compact mode off it enters the training window as usual. With it on, the
    /// oldest compact sample leaves a full compact window, and the compact sample goes
    /// to the attached storage while it has room (a refused write is an error, after
    /// the oldest sample left), else to the in-memory compact window. Either way a
    /// full window schedules an HNSW rebuild. Returns the position the HNSW index
    /// should give the sample.
    pub fn add_training_sample_optimized(&mut self, store: &mut CompactStore, sample: TrainingSample) -> (r:
        Result<usize, PerformanceOptimizationError>)
        requires
            old(store).wf(),
        ensures
            final(store).wf(),
            final(store).is_enabled() == old(store).is_enabled(),
            final(self).cfg() == old(self).cfg(),
            final(self).hnsw_active() == old(self).hnsw_active(),
            !old(store).is_enabled() ==> {
                &&& r == Ok::<usize, PerformanceOptimizationError>(old(self).samples().len() as usize)
                &&& final(self).samples() == ring_push(
                    old(self).samples(),
                    sample,
                    old(self).cfg().max_bars_back as nat,
                )
                &&& final(self).since_rebuild() == since_after_push(
                    old(self).hnsw_active(),
                    old(self).samples().len(),
                    old(self).cfg(),
                    old(self).since_rebuild(),
                )
                &&& final(store).compact() == old(store).compact()
                &&& final(store).mapping() == old(store).mapping()
            },
            old(store).is_enabled() ==> {
                let room = compact_room(old(store).compact(), old(self).cfg().max_bars_back as nat);
                &&& final(self).samples() == old(self).samples()
                &&& final(self).since_rebuild() == since_after_push(
                    old(self).hnsw_active(),
                    old(store).compact().len(),
                    old(self).cfg(),
                    old(self).since_rebuild(),
                )
                &&& match old(store).mapping() {
                    Some(m) if m.count() < m.max() => {
                        &&& final(store).compact() == room
                        &&& (r is Ok <==> !m.is_read_only() && features_finite(sample.features))
                        &&& r is Err ==> final(store).mapping() == old(store).mapping()
                        &&& r is Ok ==> r == Ok::<usize, PerformanceOptimizationError>(
                            old(store).compact().len() as usize,
                        ) && (final(store).mapping() matches Some(n) && n.max() == m.max()
                            && n.count() == m.count() + 1 && n.sample_at(m.count()) == Some(
                            optimized_of(sample),
                        ) && forall|j: nat| j < m.count() ==> #[trigger] n.sample_at(j) == m.sample_at(j))
                    },
                    _ => {
                        &&& r == Ok::<usize, PerformanceOptimizationError>(
                            old(store).compact().len() as usize,
                        )
                        &&& final(store).compact() == room.push(optimized_of(sample))
                        &&& final(store).mapping() == old(store).mapping()
                    },
                }
            },
    {
        if !store.enabled {
            let index = self.training_samples_count();
            self.window_push(sample);
            return Ok(index);
        }
        let index = store.samples.len();
        if store.samples.len() >= self.config().max_bars_back {
            if store.samples.len() > 0 {
                let _ = store.samples.pop_front();
            }
            self.schedule_rebuild();
        }
        let compact = OptimizedTrainingSample::from_training_sample(&sample);
        proof {
            crate::features::lemma_aligned_round_trip(sample.features);
        }
        match &mut store.mapped {
            Some(m) => {
                if m.len() < m.capacity() {
                    match m.push_sample(&compact) {
                        Err(e) => {
                            return Err(e);
                        },
                        Ok(()) => {
                            return Ok(index);
                        },
                    }
                }
            },
            None => {},
        }
        store.samples.push_back(compact);
        Ok(index)
    }

    /// The samples a search looks at in the storage mode in use, at most
    /// `max_samples` of them (no limit when none is given); see
    /// [`compact_search_samples`].
    pub fn get_training_samples_for_search_optimized(&self, store: &CompactStore, max_samples: Option<
        usize,
    >) -> (v: Vec<TrainingSample>)
        requires
            store.wf(),
        ensures
            v@ == compact_search_samples(
                self.samples(),
                store.is_enabled(),
                store.compact(),
                store.mapping(),
                (match max_samples {
                    Some(m) => m,
                    None => usize::MAX,
                }) as nat,
            ),
    {
        let limit = match max_samples {
            Some(m) => m,
            None => usize::MAX,
        };
        if !store.enabled {
            let mut v = self.training_samples();
            if v.len() > limit {
                v.truncate(limit);
            }
            return v;
        }
        let mut v: Vec<TrainingSample> = Vec::new();
        let mut taken: usize = 0;
        match &store.mapped {
            Some(m) => {
                let count = if m.len() < limit {
                    m.len()
                } else {
                    limit
                };
                let mut i: usize = 0;
                while i < count
                    invariant
                        i <= count,
                        m.wf(),
                        v@ == present_samples(*m, i as nat),
                    decreases count - i,
                {
                    match m.get_sample(i) {
                        Some(o) => {
                            v.push(o.to_training_sample());
                        },
                        None => {},
                    }
                    i = i + 1;
                }
                proof {
                    lemma_present_len(*m, count as nat);
                }
                taken = v.len();
            },
            None => {},
        }
        let remaining = limit - taken;
        let mut i: usize = 0;
        let ghost head = v@;
        while i < store.samples.len() && i < remaining
            invariant
                i <= store.samples@.len(),
                i <= remaining,
                v@ == head + expand_all(store.samples@.take(i as int)),
            decreases store.samples.len() - i,
        {
            v.push(store.samples[i].to_training_sample());
            i = i + 1;
            assert(v@ =~= head + expand_all(store.samples@.take(i as int)));
        }
        assert(expand_all(store.samples@.take(i as int)) =~= first_n(
            expand_all(store.samples@),
            remaining as nat,
        ));
        v
    }

    /// The gentle response to memory pressure: the compact mode on when the
    /// configuration has a memory pool (releasing the pool's free blocks is the
    /// caller's, which owns the pool).
    pub fn soft_memory_cleanup(&self, store: &mut CompactStore)
        ensures
            final(store).mapping() == old(store).mapping(),
            final(store).is_enabled() == (old(store).is_enabled() || self.cfg().memory_pool_size > 0),
            final(store).compact() == if !old(store).is_enabled() && self.cfg().memory_pool_size > 0 {
                compact_all(self.samples())
            } else {
                old(store).compact()
            },
    {
        if !store.enabled && self.config().memory_pool_size > 0 {
            self.enable_optimized_storage(store);
        }
    }

    /// The last step of the forced response to memory pressure: the storage in use
    /// shrinks to three quarters of its samples, but no fewer than twice the
    /// neighbour count, dropping the oldest, and an engine with an HNSW index
    /// schedules a rebuild.
    pub fn shrink_after_cleanup(&mut self, store: &mut CompactStore)
        requires
            old(self).samples().len() * 3 <= usize::MAX,
            old(store).compact().len() * 3 <= usize::MAX,
            old(self).cfg().neighbors_count * 2 <= usize::MAX,
        ensures
            final(store).is_enabled() == old(store).is_enabled(),
            final(store).mapping() == old(store).mapping(),
            final(self).cfg() == old(self).cfg(),
            final(self).hnsw_active() == old(self).hnsw_active(),
            final(self).since_rebuild() == if old(self).hnsw_active() {
                old(self).cfg().hnsw_rebuild_threshold as nat
            } else {
                old(self).since_rebuild()
            },
            old(store).is_enabled() ==> final(self).samples() == old(self).samples()
                && final(store).compact() == first_tail(
                old(store).compact(),
                reduced_capacity(old(store).compact().len(), old(self).cfg().neighbors_count as nat),
            ),
            !old(store).is_enabled() ==> final(store).compact() == old(store).compact()
                && final(self).samples() == keep_newest(
                old(self).samples(),
                reduced_capacity(old(self).samples().len(), old(self).cfg().neighbors_count as nat),
            ),
    {
        if store.enabled {
            let len = store.samples.len();
            let quarter_less = len * 3 / 4;
            let floor = self.config().neighbors_count * 2;
            let capacity = if quarter_less >= floor {
                quarter_less
            } else {
                floor
            };
            store.keep_newest_compact(capacity);
            self.schedule_rebuild();
        } else {
            self.force_memory_cleanup();
        }
    }
}

/// Turning the compact mode on and off again gives back the training window, when
/// every bar index fits in 32 bits (the compact form keeps 32 of them).
pub proof fn lemma_compact_round_trip(s: Seq<TrainingSample>)
    requires
        forall|i: int| 0 <= i < s.len() ==> (#[trigger] s[i]).bar_index <= u32::MAX,
    ensures
        expand_all(compact_all(s)) == s,
{
    assert forall|i: int| 0 <= i < s.len() implies expand_all(compact_all(s))[i] == s[i] by {
        crate::features::lemma_optimized_round_trip(s[i]);
    }
    assert(expand_all(compact_all(s)) =~= s);
}

/// The newest `max` elements of `s`, or all of them when there are fewer.
pub open spec fn first_tail<T>(s: Seq<T>, max: nat) -> Seq<T> {
    if s.len() > max {
        s.subrange(s.len() - max, s.len() as int)
    } else {
        s
    }
}

} // verus!
