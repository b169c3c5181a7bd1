use vstd::prelude::*;

use crate::engine::LDCEngine;
use crate::features::TrainingSample;
use crate::knn::{
    every_fourth, exact_neighbors, exact_select, take_every_fourth, Neighbor, UNORDERED_DISTANCE,
};

verus! {

/// Parameters of an HNSW graph.
#[derive(Debug, Clone, Copy, PartialEq, Eq, Structural)]
pub struct HNSWConfig {
    /// Connections per node.
    pub m: usize,
    pub ef_construction: usize,
    pub ef_search: usize,
    pub max_elements: usize,
}

impl HNSWConfig {
    /// M 16, construction width 200, search width 50, room for 100000 elements.
    pub fn default() -> (c: HNSWConfig)
        ensures
            c == (HNSWConfig { m: 16, ef_construction: 200, ef_search: 50, max_elements: 100000 }),
    {
        HNSWConfig { m: 16, ef_construction: 200, ef_search: 50, max_elements: 100000 }
    }
}

/// The capacity a rebuild over `n` samples uses: twice the samples when the
/// configured capacity is smaller than that.
pub fn rebuild_capacity(config: &HNSWConfig, n: usize) -> (max: usize)
    requires
        n * 2 <= usize::MAX,
    ensures
        max == (if config.max_elements < n {
            n * 2
        } else {
            config.max_elements as int
        }),
{
    if config.max_elements < n {
        n * 2
    } else {
        config.max_elements
    }
}

/// Whether a rebuild that inserted `inserted` of `total` samples is kept: at least
/// four in five of them went in (fewer, and the previous graph is restored). An
/// empty sample set is never rebuilt.
pub fn rebuild_accepted(inserted: usize, total: usize) -> (r: bool)
    ensures
        r == (total > 0 && inserted * 5 >= total * 4),
{
    total > 0 && (inserted as u128) * 5 >= (total as u128) * 4
}

/// Why an HNSW search gave no neighbours.
#[derive(Debug, Clone, Copy, PartialEq, Eq, Structural)]
pub enum HnswSearchError {
    /// No neighbour was asked for.
    ZeroK,
    /// The index holds nothing.
    EmptyIndex,
    /// No result mapped to a sample with an ordered distance.
    NoValidResults,
    /// Fewer results than neighbours wanted (or samples held); an exact search
    /// is needed.
    InsufficientResults,
}

/// The identifiers of an HNSW graph: identifier `i` is the `i`-th sample inserted
/// since the graph was made, and maps to that sample's position in the training
/// window.
pub struct HnswIdMap {
    samples: Vec<usize>,
}

impl HnswIdMap {
    /// Sample position of each identifier.
    pub closed spec fn ids(&self) -> Seq<usize> {
        self.samples@
    }

    /// A map for an empty graph.
    pub fn new() -> (m: HnswIdMap)
        ensures
            m.ids().len() == 0,
    {
        HnswIdMap { samples: Vec::new() }
    }

    /// Number of identifiers given out.
    pub fn len(&self) -> (n: usize)
        ensures
            n == self.ids().len(),
    {
        self.samples.len()
    }

    /// Whether no identifier was given out.
    pub fn is_empty(&self) -> (b: bool)
        ensures
            b == (self.ids().len() == 0),
    {
        self.samples.len() == 0
    }

    /// Records that the sample at `sample_index` was inserted and returns its
    /// identifier, the next one in order.
    pub fn record_insert(&mut self, sample_index: usize) -> (id: usize)
        ensures
            id == old(self).ids().len(),
            final(self).ids() == old(self).ids().push(sample_index),
    {
        let id = self.samples.len();
        self.samples.push(sample_index);
        id
    }

    /// Forgets every identifier, as a rebuild starts.
    pub fn clear(&mut self)
        ensures
            final(self).ids().len() == 0,
    {
        self.samples.clear();
    }

    /// The sample position of identifier `id`, if it was given out.
    pub fn sample_of(&self, id: usize) -> (r: Option<usize>)
        ensures
            r == (if id < self.ids().len() {
                Some(self.ids()[id as int])
            } else {
                None::<usize>
            }),
    {
        if id < self.samples.len() {
            Some(self.samples[id])
        } else {
            None
        }
    }

    /// How many candidates to ask the graph for: twice the neighbours wanted, but
    /// no more than it holds.
    pub fn search_width(&self, k: usize) -> (r: Result<usize, HnswSearchError>)
        ensures
            r == (if k == 0 {
                Err::<usize, HnswSearchError>(HnswSearchError::ZeroK)
            } else if self.ids().len() == 0 {
                Err(HnswSearchError::EmptyIndex)
            } else if k * 2 <= self.ids().len() {
                Ok((k * 2) as usize)
            } else {
                Ok(self.ids().len() as usize)
            }),
    {
        if k == 0 {
            return Err(HnswSearchError::ZeroK);
        }
        if self.samples.len() == 0 {
            return Err(HnswSearchError::EmptyIndex);
        }
        let n = self.samples.len();
        if k <= n / 2 {
            Ok(k * 2)
        } else {
            Ok(n)
        }
    }
}

/// The candidates of an HNSW search, in the order the graph returned them: each
/// found identifier that maps to a sample of the window and has an ordered
/// distance, with that sample's label.
pub open spec fn hnsw_candidates(
    ids: Seq<usize>,
    samples: Seq<TrainingSample>,
    found: Seq<(usize, u32)>,
) -> Seq<Neighbor>
    decreases found.len(),
{
    if found.len() == 0 {
        Seq::empty()
    } else {
        let prev = hnsw_candidates(ids, samples, found.drop_last());
        let (id, key) = found.last();
        if id < ids.len() && ids[id as int] < samples.len() && key != UNORDERED_DISTANCE {
            prev.push(Neighbor { distance: key, label: samples[ids[id as int] as int].label })
        } else {
            prev
        }
    }
}

/// The outcome of an HNSW search for `k` neighbours among `n` samples: no valid
/// candidate is an error; otherwise the `k` nearest (stably by distance), every
/// fourth of them with chronological spacing, and an error when that leaves fewer
/// than `k` (or `n`).
pub open spec fn hnsw_outcome(cands: Seq<Neighbor>, k: nat, spacing: bool, n: nat) -> Result<
    Seq<Neighbor>,
    HnswSearchError,
> {
    if cands.len() == 0 {
        Err(HnswSearchError::NoValidResults)
    } else {
        let nearest = exact_neighbors(cands, k);
        let kept = if spacing {
            every_fourth(nearest)
        } else {
            nearest
        };
        let wanted = if k <= n {
            k
        } else {
            n
        };
        if kept.len() < wanted {
            Err(HnswSearchError::InsufficientResults)
        } else {
            Ok(kept)
        }
    }
}

impl LDCEngine {
    /// The candidates of an HNSW search from what the graph found: pairs of an
    /// identifier and the order key of the Lorentzian distance to its sample (the
    /// unordered key for a NaN distance).
    pub fn hnsw_candidates(&self, map: &HnswIdMap, found: &Vec<(usize, u32)>) -> (out: Vec<Neighbor>)
        ensures
            out@ == hnsw_candidates(map.ids(), self.samples(), found@),
    {
        let samples = self.training_samples();
        let mut out: Vec<Neighbor> = Vec::new();
        let mut i: usize = 0;
        while i < found.len()
            invariant
                i <= found@.len(),
                samples@ == self.samples(),
                out@ == hnsw_candidates(map.ids(), self.samples(), found@.take(i as int)),
            decreases found.len() - i,
        {
            assert(found@.take(i as int + 1).drop_last() =~= found@.take(i as int));
            assert(found@.take(i as int + 1).last() == found@[i as int]);
            let (id, key) = found[i];
            match map.sample_of(id) {
                Some(s) => {
                    if s < samples.len() && key != UNORDERED_DISTANCE {
                        out.push(Neighbor { distance: key, label: samples[s].label });
                    }
                },
                None => {},
            }
            i = i + 1;
        }
        assert(found@.take(i as int) =~= found@);
        out
    }

    /// The neighbours an HNSW search gives from its candidates; see
    /// [`hnsw_outcome`]. On an error the caller searches exactly.
    pub fn finish_hnsw_search(&self, cands: &Vec<Neighbor>) -> (r: Result<
        Vec<Neighbor>,
        HnswSearchError,
    >)
        ensures
            match hnsw_outcome(
                cands@,
                self.cfg().neighbors_count as nat,
                self.cfg().use_chronological_spacing,
                self.samples().len(),
            ) {
                Ok(s) => r matches Ok(v) && v@ == s,
                Err(e) => r == Err::<Vec<Neighbor>, HnswSearchError>(e),
            },
    {
        if cands.len() == 0 {
            return Err(HnswSearchError::NoValidResults);
        }
        let k = self.config().neighbors_count;
        let nearest = exact_select(cands, k);
        let kept = if self.config().use_chronological_spacing {
            take_every_fourth(&nearest)
        } else {
            nearest
        };
        let n = self.training_samples_count();
        let wanted = if k <= n {
            k
        } else {
            n
        };
        if kept.len() < wanted {
            Err(HnswSearchError::InsufficientResults)
        } else {
            Ok(kept)
        }
    }
}

} // verus!
