use vstd::prelude::*;

use memmap2::{Mmap, MmapMut};

use crate::errors::PerformanceOptimizationError;
use crate::text::{text_with, text_with_two};
use crate::features::{
    decode_sample, encode_sample, features_finite, sample_bytes, sample_from_bytes,
    unaligned_of, OptimizedTrainingSample, OPTIMIZED_SAMPLE_SIZE,
};

verus! {

#[verifier::external_type_specification]
#[verifier::external_body]
pub struct ExMmap(Mmap);

#[verifier::external_type_specification]
#[verifier::external_body]
pub struct ExMmapMut(MmapMut);

#[verifier::external_type_specification]
#[verifier::external_body]
pub struct ExIoError(std::io::Error);

/// The bytes a writable memory map holds.
pub uninterp spec fn mapped_bytes_mut(m: MmapMut) -> Seq<u8>;

/// Length of a writable map (the length of the byte slice it dereferences to).
#[verifier::external_body]
fn mmap_mut_len(m: &MmapMut) -> (n: usize)
    ensures
        n == mapped_bytes_mut(*m).len(),
{
    m.len()
}

/// Copy of `m[off..off + n]` of a writable map.
#[verifier::external_body]
fn mmap_mut_read(m: &MmapMut, off: usize, n: usize) -> (r: Vec<u8>)
    requires
        off + n <= mapped_bytes_mut(*m).len(),
    ensures
        r@ == mapped_bytes_mut(*m).subrange(off as int, off + n),
{
    m[off..off + n].to_vec()
}

/// Writes `data` into `m` at `off` (`copy_from_slice` on the mapped bytes): those
/// bytes change and no others.
#[verifier::external_body]
fn mmap_write(m: &mut MmapMut, off: usize, data: &Vec<u8>)
    requires
        off + data@.len() <= mapped_bytes_mut(*old(m)).len(),
    ensures
        mapped_bytes_mut(*final(m)) == mapped_bytes_mut(*old(m)).subrange(0, off as int)
            + data@ + mapped_bytes_mut(*old(m)).subrange(
            off + data@.len(),
            mapped_bytes_mut(*old(m)).len() as int,
        ),
{
    m[off..off + data.len()].copy_from_slice(data.as_slice())
}

/// Flushes the map to its file (`MmapMut::flush`); whether the disk accepts it is
/// not known beforehand, so nothing is stated of the result.
#[verifier::external_body]
fn mmap_flush(m: &MmapMut) -> std::io::Result<()> {
    m.flush()
}

/// Largest file a storage may map: ten gibibytes.
pub const MAX_FILE_SIZE_BYTES: u64 = 10737418240;

/// Fixed-capacity storage of compact training samples in a memory-mapped file. The
/// map is made by the caller (it opens the file); the storage keeps the samples at
/// `index * 64` bytes.
pub struct MemoryMappedStorage {
    mmap: Option<Mmap>,
    mmap_mut: Option<MmapMut>,
    file_path: String,
    sample_count: usize,
    max_samples: usize,
    sample_size: usize,
    read_only: bool,
}

/// Check of a requested capacity: the byte size of the file, or the reason it is refused.
pub open spec fn capacity_check(max_samples: nat) -> Result<u64, ()> {
    if max_samples == 0 {
        Err(())
    } else if max_samples * 64 > MAX_FILE_SIZE_BYTES {
        Err(())
    } else {
        Ok((max_samples * 64) as u64)
    }
}

/// Writing a sample's bytes at slot `index` makes that slot read back the sample
/// and leaves every other slot as it was.
proof fn lemma_written(ob: Seq<u8>, o: OptimizedTrainingSample, index: nat)
    requires
        (index + 1) * 64 <= ob.len(),
    ensures
        ({
            let off = (index * 64) as int;
            let b = ob.subrange(0, off) + sample_bytes(o) + ob.subrange(off + 64, ob.len() as int);
            &&& sample_from_bytes(b, off) == Some(o)
            &&& forall|j: nat|
                (j + 1) * 64 <= ob.len() && j != index ==> #[trigger] sample_from_bytes(
                    b,
                    (j * 64) as int,
                ) == sample_from_bytes(ob, (j * 64) as int)
        }),
{
    let off = (index * 64) as int;
    let b = ob.subrange(0, off) + sample_bytes(o) + ob.subrange(off + 64, ob.len() as int);
    assert(b.subrange(off, off + 64) =~= sample_bytes(o));
    crate::features::lemma_sample_bytes_round_trip(o, b, off);
    assert forall|j: nat| (j + 1) * 64 <= ob.len() && j != index implies #[trigger] sample_from_bytes(
        b,
        (j * 64) as int,
    ) == sample_from_bytes(ob, (j * 64) as int) by {
        assert forall|i: int| j * 64 <= i < j * 64 + 64 implies b[i] == ob[i] by {
            if j < index {
                assert(b[i] == ob.subrange(0, off)[i]);
            } else {
                assert(b[i] == ob.subrange(off + 64, ob.len() as int)[i - off - 64]);
            }
        }
        crate::features::lemma_sample_from_bytes_frame(b, ob, (j * 64) as int);
    }
}

impl MemoryMappedStorage {
    /// The storage is consistent: samples are 64 bytes, at most `max_samples` are
    /// stored, and the map that matches the mode is present; a writable map is large
    /// enough for every sample, and a read-only storage holds no sample.
    pub closed spec fn wf(&self) -> bool {
        &&& self.sample_size == OPTIMIZED_SAMPLE_SIZE
        &&& self.sample_count <= self.max_samples
        &&& self.max_samples * 64 <= MAX_FILE_SIZE_BYTES
        &&& self.max_samples * 64 <= usize::MAX
        &&& self.read_only ==> self.mmap is Some && self.mmap_mut is None && self.sample_count == 0
        &&& !self.read_only ==> self.mmap is None && self.mmap_mut is Some && mapped_bytes_mut(
            self.mmap_mut->0,
        ).len() >= self.max_samples * 64
    }

    /// The bytes samples are kept in: those of the writable map (a read-only
    /// storage holds no sample, so none are read from its map).
    pub closed spec fn bytes(&self) -> Seq<u8> {
        match self.mmap_mut {
            Some(m) => mapped_bytes_mut(m),
            None => Seq::empty(),
        }
    }

    /// The path of the mapped file.
    pub closed spec fn path(&self) -> Seq<char> {
        self.file_path@
    }

    /// Number of samples stored.
    pub closed spec fn count(&self) -> nat {
        self.sample_count as nat
    }

    /// Maximum number of samples.
    pub closed spec fn max(&self) -> nat {
        self.max_samples as nat
    }

    /// Whether the storage refuses writes.
    pub closed spec fn is_read_only(&self) -> bool {
        self.read_only
    }

    /// The sample stored at `index`, when `index` is below the count and the bytes
    /// there hold a sample.
    pub closed spec fn sample_at(&self, index: nat) -> Option<OptimizedTrainingSample> {
        if index < self.sample_count {
            sample_from_bytes(self.bytes(), (index * 64) as int)
        } else {
            None
        }
    }

    /// Checks a requested capacity before the file is mapped: it must be positive and
    /// the file (64 bytes a sample) must not exceed ten gibibytes. Returns the file size.
    pub fn validate_capacity(max_samples: usize) -> (r: Result<u64, PerformanceOptimizationError>)
        ensures
            r is Ok <==> capacity_check(max_samples as nat) is Ok,
            r matches Ok(n) ==> capacity_check(max_samples as nat) == Ok::<u64, ()>(n),
            r matches Err(e) ==> e is MemoryMappingError,
    {
        if max_samples == 0 {
            return Err(
                PerformanceOptimizationError::MemoryMappingError {
                    message: "max_samples must be greater than 0".to_owned(),
                },
            );
        }
        if max_samples as u128 * 64 > MAX_FILE_SIZE_BYTES as u128 {
            return Err(
                PerformanceOptimizationError::MemoryMappingError {
                    message: text_with(
                        "Requested file size ",
                        (max_samples as u128 * 64 / 1073741824) as usize,
                        "GB exceeds maximum 10GB",
                    ),
                },
            );
        }
        Ok((max_samples as u64) * 64)
    }

    /// Builds the storage over the map the caller made for `file_path`: `mmap` for a
    /// read-only storage, `mmap_mut` for a writable one. It starts empty. It is
    /// refused when the capacity check fails, when the map of its mode is missing or
    /// the other one is given, and when a writable map is too small for
    /// `max_samples` samples.
    pub fn from_maps(
        file_path: String,
        mmap: Option<Mmap>,
        mmap_mut: Option<MmapMut>,
        max_samples: usize,
        read_only: bool,
    ) -> (r: Result<MemoryMappedStorage, PerformanceOptimizationError>)
        requires
            max_samples * 64 <= usize::MAX,
        ensures
            r is Ok <==> {
                &&& capacity_check(max_samples as nat) is Ok
                &&& read_only ==> mmap is Some && mmap_mut is None
                &&& !read_only ==> mmap is None && (mmap_mut matches Some(m) && mapped_bytes_mut(m).len()
                    >= max_samples * 64)
            },
            match r {
                Ok(s) => {
                    &&& s.wf()
                    &&& s.count() == 0
                    &&& s.max() == max_samples
                    &&& s.is_read_only() == read_only
                    &&& s.path() == file_path@
                    &&& !read_only ==> s.bytes() == mapped_bytes_mut(mmap_mut->0)
                },
                Err(e) => e is MemoryMappingError,
            },
    {
        match Self::validate_capacity(max_samples) {
            Err(e) => {
                return Err(e);
            },
            Ok(_) => {},
        }
        let need = max_samples * OPTIMIZED_SAMPLE_SIZE;
        if read_only {
            if mmap.is_none() || mmap_mut.is_some() {
                return Err(
                    PerformanceOptimizationError::MemoryMappingError {
                        message: "read-only map is missing".to_owned(),
                    },
                );
            }
        } else {
            match &mmap_mut {
                Some(m) => {
                    if mmap_mut_len(m) < need || mmap.is_some() {
                        return Err(
                            PerformanceOptimizationError::MemoryMappingError {
                                message: "mutable map is missing or too small".to_owned(),
                            },
                        );
                    }
                },
                None => {
                    return Err(
                        PerformanceOptimizationError::MemoryMappingError {
                            message: "mutable map is missing or too small".to_owned(),
                        },
                    );
                },
            }
        }
        Ok(
            MemoryMappedStorage {
                mmap,
                mmap_mut,
                file_path,
                sample_count: 0,
                max_samples,
                sample_size: OPTIMIZED_SAMPLE_SIZE,
                read_only,
            },
        )
    }

    /// The sample at `index`, or `None` when `index` is not below the number stored.
    pub fn get_sample(&self, index: usize) -> (r: Option<OptimizedTrainingSample>)
        requires
            self.wf(),
        ensures
            r == self.sample_at(index as nat),
    {
        if index >= self.sample_count {
            return None;
        }
        let offset = index * self.sample_size;
        match &self.mmap_mut {
            Some(m) => {
                let bytes = mmap_mut_read(m, offset, 64);
                let r = decode_sample(&bytes, 0);
                proof {
                    lemma_decode_window(self.bytes(), bytes@, offset as int);
                }
                r
            },
            None => None,
        }
    }

    /// Writes `sample` at `index`. Refused when the storage is read-only, when `index`
    /// is not below the capacity, or when a used feature lane is not finite. Writing at
    /// or past the count makes the count `index + 1`.
    pub fn set_sample(&mut self, index: usize, sample: &OptimizedTrainingSample) -> (r: Result<
        (),
        PerformanceOptimizationError,
    >)
        requires
            old(self).wf(),
        ensures
            final(self).wf(),
            final(self).max() == old(self).max(),
            final(self).is_read_only() == old(self).is_read_only(),
            r is Ok <==> (!old(self).is_read_only() && index < old(self).max() && features_finite(
                unaligned_of(sample.features),
            )),
            r is Err ==> *final(self) == *old(self),
            r matches Err(e) ==> e is MemoryMappingError,
            r is Ok ==> {
                &&& final(self).count() == if index >= old(self).count() {
                    index as nat + 1
                } else {
                    old(self).count()
                }
                &&& final(self).bytes() == old(self).bytes().subrange(0, index * 64) + sample_bytes(
                    *sample,
                ) + old(self).bytes().subrange(index * 64 + 64, old(self).bytes().len() as int)
                &&& final(self).sample_at(index as nat) == Some(*sample)
                &&& forall|j: nat|
                    j < old(self).count() && j != index ==> #[trigger] final(self).sample_at(j) == old(
                        self,
                    ).sample_at(j)
            },
    {
        if self.read_only {
            return Err(
                PerformanceOptimizationError::MemoryMappingError {
                    message: "Cannot write to read-only memory-mapped storage".to_owned(),
                },
            );
        }
        if index >= self.max_samples {
            return Err(
                PerformanceOptimizationError::MemoryMappingError {
                    message: text_with_two(
                        "Index ",
                        index,
                        " exceeds maximum samples ",
                        self.max_samples,
                        "",
                    ),
                },
            );
        }
        if !sample.features.is_valid_for_simd() {
            return Err(
                PerformanceOptimizationError::MemoryMappingError {
                    message: text_with("Sample ", index, " contains invalid feature values"),
                },
            );
        }
        let offset = index * self.sample_size;
        let data = encode_sample(sample);
        match &mut self.mmap_mut {
            Some(m) => {
                mmap_write(m, offset, &data);
            },
            None => {
                return Err(
                    PerformanceOptimizationError::MemoryMappingError {
                        message: "No mutable memory map available".to_owned(),
                    },
                );
            },
        }
        if index >= self.sample_count {
            self.sample_count = index + 1;
        }
        proof {
            lemma_written(old(self).bytes(), *sample, index as nat);
        }
        Ok(())
    }

    /// A consistent storage holds no more samples than its capacity.
    pub proof fn lemma_count_within_max(&self)
        requires
            self.wf(),
        ensures
            self.count() <= self.max(),
    {
    }

    /// Appends `sample` after the stored ones; refused when the storage is full.
    pub fn push_sample(&mut self, sample: &OptimizedTrainingSample) -> (r: Result<
        (),
        PerformanceOptimizationError,
    >)
        requires
            old(self).wf(),
        ensures
            final(self).wf(),
            final(self).max() == old(self).max(),
            final(self).is_read_only() == old(self).is_read_only(),
            r is Ok <==> (old(self).count() < old(self).max() && !old(self).is_read_only()
                && features_finite(unaligned_of(sample.features))),
            r is Err ==> *final(self) == *old(self),
            r is Ok ==> final(self).count() == old(self).count() + 1 && final(self).sample_at(
                old(self).count(),
            ) == Some(*sample),
            r is Ok ==> forall|j: nat|
                j < old(self).count() ==> #[trigger] final(self).sample_at(j) == old(self).sample_at(j),
    {
        if self.sample_count >= self.max_samples {
            return Err(
                PerformanceOptimizationError::MemoryMappingError {
                    message: text_with_two(
                        "Storage is full: ",
                        self.sample_count,
                        "/",
                        self.max_samples,
                        " samples",
                    ),
                },
            );
        }
        let index = self.sample_count;
        let r = self.set_sample(index, sample);
        r
    }

    /// Number of samples stored.
    pub fn len(&self) -> (n: usize)
        ensures
            n == self.count(),
    {
        self.sample_count
    }

    /// Whether no sample is stored.
    pub fn is_empty(&self) -> (b: bool)
        ensures
            b == (self.count() == 0),
    {
        self.sample_count == 0
    }

    /// Maximum number of samples.
    pub fn capacity(&self) -> (n: usize)
        ensures
            n == self.max(),
    {
        self.max_samples
    }

    /// The path of the mapped file.
    pub fn file_path(&self) -> (p: &String)
        ensures
            p@ == self.path(),
    {
        &self.file_path
    }

    /// Flushes a writable map to disk (a read-only storage has nothing to flush). The
    /// storage is not changed; only a failure of the disk makes this an error.
    pub fn flush(&mut self) -> (r: Result<(), PerformanceOptimizationError>)
        requires
            old(self).wf(),
        ensures
            *final(self) == *old(self),
            old(self).is_read_only() ==> r is Ok,
            r matches Err(e) ==> e is MemoryMappingError
                && e->MemoryMappingError_message@ == "Failed to flush memory map to disk"@,
    {
        match &self.mmap_mut {
            Some(m) => {
                match mmap_flush(m) {
                    Ok(()) => Ok(()),
                    Err(_) => Err(
                        PerformanceOptimizationError::MemoryMappingError {
                            message: "Failed to flush memory map to disk".to_owned(),
                        },
                    ),
                }
            },
            None => Ok(()),
        }
    }

    /// All stored samples, in index order (the samples an iteration yields).
    pub fn samples(&self) -> (out: Vec<OptimizedTrainingSample>)
        requires
            self.wf(),
        ensures
            out@.len() <= self.count(),
            forall|i: int| 0 <= i < out@.len() ==> self.sample_at(i as nat) == Some(#[trigger] out@[i]),
            out@.len() < self.count() ==> self.sample_at(out@.len()) is None,
    {
        let mut out: Vec<OptimizedTrainingSample> = Vec::new();
        let mut i: usize = 0;
        while i < self.sample_count
            invariant
                self.wf(),
                i <= self.sample_count,
                out@.len() == i,
                forall|j: int| 0 <= j < i ==> self.sample_at(j as nat) == Some(#[trigger] out@[j]),
            decreases self.sample_count - i,
        {
            match self.get_sample(i) {
                Some(s) => out.push(s),
                None => {
                    return out;
                },
            }
            i = i + 1;
        }
        out
    }
}

proof fn lemma_decode_window(all: Seq<u8>, window: Seq<u8>, off: int)
    requires
        0 <= off,
        off + 64 <= all.len(),
        window == all.subrange(off, off + 64),
    ensures
        sample_from_bytes(window, 0) == sample_from_bytes(all, off),
{
    assert forall|i: int| 0 <= i < 64 implies window[i] == all[off + i] by {}
    lemma_le_window(all, window, off, 0, 4);
    lemma_le_window(all, window, off, 4, 4);
    lemma_le_window(all, window, off, 8, 4);
    lemma_le_window(all, window, off, 12, 4);
    lemma_le_window(all, window, off, 16, 4);
    lemma_le_window(all, window, off, 20, 4);
    lemma_le_window(all, window, off, 24, 4);
    lemma_le_window(all, window, off, 28, 4);
    lemma_le_window(all, window, off, 40, 8);
    lemma_le_window(all, window, off, 48, 4);
    let a = sample_from_bytes(window, 0);
    let b = sample_from_bytes(all, off);
    if a is Some {
        assert(a->0.features.features =~= b->0.features.features);
        assert(a->0._padding =~= b->0._padding);
    }
}

proof fn lemma_le_window(all: Seq<u8>, window: Seq<u8>, off: int, start: int, n: nat)
    requires
        0 <= off,
        0 <= start,
        start + n <= 64,
        off + 64 <= all.len(),
        window.len() == 64,
        forall|i: int| 0 <= i < 64 ==> window[i] == all[off + i],
    ensures
        crate::features::le_value(window, start, n) == crate::features::le_value(all, off + start, n),
    decreases n,
{
    if n > 0 {
        lemma_le_window(all, window, off, start + 1, (n - 1) as nat);
        assert(window[start] == all[off + start]);
    }
}

} // verus!
