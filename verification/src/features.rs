use vstd::prelude::*;

use crate::direction::Direction;

verus! {

/// A 32-bit floating-point value is finite (neither infinite nor NaN) exactly when
/// the eight exponent bits of its IEEE-754 pattern are not all ones.
pub open spec fn finite_bits(b: u32) -> bool {
    b & 0x7f80_0000u32 != 0x7f80_0000u32
}

/// Whether the `f32` with bit pattern `b` is finite.
pub fn is_finite_bits(b: u32) -> (r: bool)
    ensures
        r == finite_bits(b),
{
    b & 0x7f80_0000u32 != 0x7f80_0000u32
}

/// The five features of a bar (RSI, WaveTrend, CCI, ADX, RSI variant), each held
/// as the IEEE-754 bit pattern of its `f32` value.
#[derive(Debug, Clone, Copy, PartialEq, Eq, Structural)]
pub struct FeatureSeries {
    pub f1: u32,
    pub f2: u32,
    pub f3: u32,
    pub f4: u32,
    pub f5: u32,
}

/// The features as a sequence, in order.
pub open spec fn feature_seq(fs: FeatureSeries) -> Seq<u32> {
    seq![fs.f1, fs.f2, fs.f3, fs.f4, fs.f5]
}

/// All five features are finite.
pub open spec fn features_finite(fs: FeatureSeries) -> bool {
    &&& finite_bits(fs.f1)
    &&& finite_bits(fs.f2)
    &&& finite_bits(fs.f3)
    &&& finite_bits(fs.f4)
    &&& finite_bits(fs.f5)
}

impl FeatureSeries {
    /// The features as an array `[f1, f2, f3, f4, f5]`.
    pub fn to_array(&self) -> (a: [u32; 5])
        ensures
            a@ == feature_seq(*self),
    {
        let a = [self.f1, self.f2, self.f3, self.f4, self.f5];
        assert(a@ =~= feature_seq(*self));
        a
    }

    /// The feature series holding `arr[0..5]` in order.
    pub fn from_array(arr: [u32; 5]) -> (fs: FeatureSeries)
        ensures
            feature_seq(fs) == arr@,
    {
        let fs = FeatureSeries { f1: arr[0], f2: arr[1], f3: arr[2], f4: arr[3], f5: arr[4] };
        assert(feature_seq(fs) =~= arr@);
        fs
    }

    /// Copies the features into the padded eight-lane layout.
    pub fn to_aligned(&self) -> (a: AlignedFeatureSeries)
        ensures
            a == aligned_of(*self),
    {
        AlignedFeatureSeries::from_feature_series(self)
    }

    /// All five features are finite, which the vectorised distance needs.
    pub fn is_valid_for_simd(&self) -> (r: bool)
        ensures
            r == features_finite(*self),
    {
        is_finite_bits(self.f1) && is_finite_bits(self.f2) && is_finite_bits(self.f3)
            && is_finite_bits(self.f4) && is_finite_bits(self.f5)
    }
}

/// Features padded to eight lanes (lanes 5..8 hold the pattern of `0.0`).
#[derive(Debug, Clone, Copy)]
pub struct AlignedFeatureSeries {
    pub features: [u32; 8],
}

/// The padded layout of a feature series.
pub open spec fn aligned_of(fs: FeatureSeries) -> AlignedFeatureSeries {
    AlignedFeatureSeries { features: [fs.f1, fs.f2, fs.f3, fs.f4, fs.f5, 0, 0, 0] }
}

/// The feature series of the first five lanes.
pub open spec fn unaligned_of(a: AlignedFeatureSeries) -> FeatureSeries {
    FeatureSeries {
        f1: a.features@[0],
        f2: a.features@[1],
        f3: a.features@[2],
        f4: a.features@[3],
        f5: a.features@[4],
    }
}

impl AlignedFeatureSeries {
    /// Pads a feature series to eight lanes.
    pub fn from_feature_series(fs: &FeatureSeries) -> (a: AlignedFeatureSeries)
        ensures
            a == aligned_of(*fs),
    {
        AlignedFeatureSeries { features: [fs.f1, fs.f2, fs.f3, fs.f4, fs.f5, 0, 0, 0] }
    }

    /// The feature series held in the first five lanes.
    pub fn to_feature_series(&self) -> (fs: FeatureSeries)
        ensures
            fs == unaligned_of(*self),
    {
        FeatureSeries {
            f1: self.features[0],
            f2: self.features[1],
            f3: self.features[2],
            f4: self.features[3],
            f5: self.features[4],
        }
    }

    /// The five used lanes are finite (the padding lanes are not looked at).
    pub fn is_valid_for_simd(&self) -> (r: bool)
        ensures
            r == features_finite(unaligned_of(*self)),
    {
        is_finite_bits(self.features[0]) && is_finite_bits(self.features[1]) && is_finite_bits(
            self.features[2],
        ) && is_finite_bits(self.features[3]) && is_finite_bits(self.features[4])
    }
}

/// Padding a feature series and reading it back gives the same series.
pub proof fn lemma_aligned_round_trip(fs: FeatureSeries)
    ensures
        unaligned_of(aligned_of(fs)) == fs,
{
}

/// A labelled training sample.
#[derive(Debug, Clone, Copy, PartialEq, Eq, Structural)]
pub struct TrainingSample {
    pub features: FeatureSeries,
    pub label: Direction,
    pub timestamp: i64,
    pub bar_index: usize,
}

/// The compact, 64-byte form of a training sample kept in memory-mapped storage.
#[derive(Debug, Clone, Copy)]
pub struct OptimizedTrainingSample {
    pub features: AlignedFeatureSeries,
    pub label: Direction,
    pub timestamp: i64,
    pub bar_index: u32,
    pub _padding: [u8; 12],
}

/// Size in bytes of one stored sample.
pub const OPTIMIZED_SAMPLE_SIZE: usize = 64;

/// The compact form of a sample: features padded, bar index truncated to 32 bits.
pub open spec fn optimized_of(s: TrainingSample) -> OptimizedTrainingSample {
    OptimizedTrainingSample {
        features: aligned_of(s.features),
        label: s.label,
        timestamp: s.timestamp,
        bar_index: s.bar_index as u32,
        _padding: [0u8, 0, 0, 0, 0, 0, 0, 0, 0, 0, 0, 0],
    }
}

/// The sample a compact form stands for.
pub open spec fn training_of(o: OptimizedTrainingSample) -> TrainingSample {
    TrainingSample {
        features: unaligned_of(o.features),
        label: o.label,
        timestamp: o.timestamp,
        bar_index: o.bar_index as usize,
    }
}

impl OptimizedTrainingSample {
    /// The compact form of a training sample.
    pub fn from_training_sample(sample: &TrainingSample) -> (o: OptimizedTrainingSample)
        ensures
            o == optimized_of(*sample),
            sample.bar_index <= u32::MAX ==> o.bar_index == sample.bar_index,
    {
        OptimizedTrainingSample {
            features: AlignedFeatureSeries::from_feature_series(&sample.features),
            label: sample.label,
            timestamp: sample.timestamp,
            bar_index: sample.bar_index as u32,
            _padding: [0u8, 0, 0, 0, 0, 0, 0, 0, 0, 0, 0, 0],
        }
    }

    /// The training sample this compact form stands for.
    pub fn to_training_sample(&self) -> (s: TrainingSample)
        ensures
            s == training_of(*self),
    {
        TrainingSample {
            features: self.features.to_feature_series(),
            label: self.label,
            timestamp: self.timestamp,
            bar_index: self.bar_index as usize,
        }
    }

    /// Size in bytes of the compact form.
    pub fn size_of() -> (n: usize)
        ensures
            n == OPTIMIZED_SAMPLE_SIZE,
    {
        OPTIMIZED_SAMPLE_SIZE
    }
}

/// A sample whose bar index fits in 32 bits survives the compact form unchanged.
pub proof fn lemma_optimized_round_trip(s: TrainingSample)
    requires
        s.bar_index <= u32::MAX,
    ensures
        training_of(optimized_of(s)) == s,
{
    lemma_aligned_round_trip(s.features);
}

// ---------------------------------------------------------------------------
// Byte layout of a stored sample (little-endian):
//   0..32  the eight feature lanes, four bytes each
//   32     label (0xff Short, 0 Neutral, 1 Long), 33..40 zero
//   40..48 timestamp, 48..52 bar index, 52..64 the padding bytes
// ---------------------------------------------------------------------------

/// Byte `i` (0 = least significant) of `x`.
pub open spec fn byte_of(x: u64, i: int) -> u8 {
    ((x >> ((8 * i) as u64)) & 0xff) as u8
}

/// The label's byte.
pub open spec fn label_byte(d: Direction) -> u8 {
    match d {
        Direction::Short => 0xff,
        Direction::Neutral => 0,
        Direction::Long => 1,
    }
}

/// The label a byte encodes, if any.
pub open spec fn label_of_byte(b: u8) -> Option<Direction> {
    if b == 0xff {
        Some(Direction::Short)
    } else if b == 0 {
        Some(Direction::Neutral)
    } else if b == 1 {
        Some(Direction::Long)
    } else {
        None
    }
}

/// Byte `i` of the stored form of `o`.
pub open spec fn sample_byte(o: OptimizedTrainingSample, i: int) -> u8 {
    if i < 32 {
        byte_of(o.features.features@[i / 4] as u64, i % 4)
    } else if i == 32 {
        label_byte(o.label)
    } else if i < 40 {
        0
    } else if i < 48 {
        byte_of(o.timestamp as u64, i - 40)
    } else if i < 52 {
        byte_of(o.bar_index as u64, i - 48)
    } else {
        o._padding@[i - 52]
    }
}

/// The 64 stored bytes of `o`.
pub open spec fn sample_bytes(o: OptimizedTrainingSample) -> Seq<u8> {
    Seq::new(64, |i: int| sample_byte(o, i))
}

/// The little-endian value of `n` bytes of `b` starting at `off`.
pub open spec fn le_value(b: Seq<u8>, off: int, n: nat) -> nat
    decreases n,
{
    if n == 0 {
        0
    } else {
        b[off] as nat + 256 * le_value(b, off + 1, (n - 1) as nat)
    }
}

/// The sample stored in `b[off..off + 64]`, if its label byte is valid.
pub open spec fn sample_from_bytes(b: Seq<u8>, off: int) -> Option<OptimizedTrainingSample> {
    match label_of_byte(b[off + 32]) {
        None => None,
        Some(label) => Some(
            OptimizedTrainingSample {
                features: AlignedFeatureSeries {
                    features: [
                        le_value(b, off, 4) as u32,
                        le_value(b, off + 4, 4) as u32,
                        le_value(b, off + 8, 4) as u32,
                        le_value(b, off + 12, 4) as u32,
                        le_value(b, off + 16, 4) as u32,
                        le_value(b, off + 20, 4) as u32,
                        le_value(b, off + 24, 4) as u32,
                        le_value(b, off + 28, 4) as u32,
                    ],
                },
                label,
                timestamp: le_value(b, off + 40, 8) as u64 as i64,
                bar_index: le_value(b, off + 48, 4) as u32,
                _padding: [
                    b[off + 52],
                    b[off + 53],
                    b[off + 54],
                    b[off + 55],
                    b[off + 56],
                    b[off + 57],
                    b[off + 58],
                    b[off + 59],
                    b[off + 60],
                    b[off + 61],
                    b[off + 62],
                    b[off + 63],
                ],
            },
        ),
    }
}

proof fn lemma_le4(x: u32, b: Seq<u8>, off: int)
    requires
        0 <= off,
        off + 4 <= b.len(),
        forall|i: int| 0 <= i < 4 ==> b[off + i] == #[trigger] byte_of(x as u64, i),
    ensures
        le_value(b, off, 4) == x,
{
    reveal_with_fuel(le_value, 5);
    let x64 = x as u64;
    let b0 = byte_of(x64, 0);
    let b1 = byte_of(x64, 1);
    let b2 = byte_of(x64, 2);
    let b3 = byte_of(x64, 3);
    assert(b[off] == b0);
    assert(b[off + 1] == b1);
    assert(b[off + 2] == b2);
    assert(b[off + 3] == b3);
    assert(b0 == ((x64 >> 0u64) & 0xff) as u8);
    assert(b1 == ((x64 >> 8u64) & 0xff) as u8);
    assert(b2 == ((x64 >> 16u64) & 0xff) as u8);
    assert(b3 == ((x64 >> 24u64) & 0xff) as u8);
    assert(x64 == (((x64 >> 0u64) & 0xff) as u8) as u64 + 256 * ((((x64 >> 8u64) & 0xff) as u8) as u64
        + 256 * ((((x64 >> 16u64) & 0xff) as u8) as u64 + 256 * ((((x64 >> 24u64) & 0xff) as u8) as u64))))
        by (bit_vector)
        requires
            x64 <= 0xffff_ffffu64,
    ;
}

proof fn lemma_le8(x: u64, b: Seq<u8>, off: int)
    requires
        0 <= off,
        off + 8 <= b.len(),
        forall|i: int| 0 <= i < 8 ==> b[off + i] == #[trigger] byte_of(x, i),
    ensures
        le_value(b, off, 8) == x,
{
    reveal_with_fuel(le_value, 9);
    assert(b[off] == byte_of(x, 0));
    assert(b[off + 1] == byte_of(x, 1));
    assert(b[off + 2] == byte_of(x, 2));
    assert(b[off + 3] == byte_of(x, 3));
    assert(b[off + 4] == byte_of(x, 4));
    assert(b[off + 5] == byte_of(x, 5));
    assert(b[off + 6] == byte_of(x, 6));
    assert(b[off + 7] == byte_of(x, 7));
    assert(x == (((x >> 0u64) & 0xff) as u8) as u64 + 256 * ((((x >> 8u64) & 0xff) as u8) as u64
        + 256 * ((((x >> 16u64) & 0xff) as u8) as u64 + 256 * ((((x >> 24u64) & 0xff) as u8) as u64
        + 256 * ((((x >> 32u64) & 0xff) as u8) as u64 + 256 * ((((x >> 40u64) & 0xff) as u8) as u64
        + 256 * ((((x >> 48u64) & 0xff) as u8) as u64 + 256 * ((((x >> 56u64) & 0xff) as u8) as u64))))))))
        by (bit_vector);
}

proof fn lemma_le_value_frame(b1: Seq<u8>, b2: Seq<u8>, off: int, n: nat)
    requires
        forall|i: int| off <= i < off + n ==> b1[i] == b2[i],
    ensures
        le_value(b1, off, n) == le_value(b2, off, n),
    decreases n,
{
    if n > 0 {
        lemma_le_value_frame(b1, b2, off + 1, (n - 1) as nat);
    }
}

/// The sample read at `off` depends only on the 64 bytes from `off`.
pub proof fn lemma_sample_from_bytes_frame(b1: Seq<u8>, b2: Seq<u8>, off: int)
    requires
        forall|i: int| off <= i < off + 64 ==> b1[i] == b2[i],
    ensures
        sample_from_bytes(b1, off) == sample_from_bytes(b2, off),
{
    lemma_le_value_frame(b1, b2, off + 4 * 0, 4);
    lemma_le_value_frame(b1, b2, off + 4 * 1, 4);
    lemma_le_value_frame(b1, b2, off + 4 * 2, 4);
    lemma_le_value_frame(b1, b2, off + 4 * 3, 4);
    lemma_le_value_frame(b1, b2, off + 4 * 4, 4);
    lemma_le_value_frame(b1, b2, off + 4 * 5, 4);
    lemma_le_value_frame(b1, b2, off + 4 * 6, 4);
    lemma_le_value_frame(b1, b2, off + 4 * 7, 4);
    lemma_le_value_frame(b1, b2, off + 40, 8);
    lemma_le_value_frame(b1, b2, off + 48, 4);
    assert(b1[off + 32] == b2[off + 32]);
    assert(b1[off + 52] == b2[off + 52]);
    assert(b1[off + 53] == b2[off + 53]);
    assert(b1[off + 54] == b2[off + 54]);
    assert(b1[off + 55] == b2[off + 55]);
    assert(b1[off + 56] == b2[off + 56]);
    assert(b1[off + 57] == b2[off + 57]);
    assert(b1[off + 58] == b2[off + 58]);
    assert(b1[off + 59] == b2[off + 59]);
    assert(b1[off + 60] == b2[off + 60]);
    assert(b1[off + 61] == b2[off + 61]);
    assert(b1[off + 62] == b2[off + 62]);
    assert(b1[off + 63] == b2[off + 63]);
}

/// Reading back the stored bytes of a sample gives the sample.
pub proof fn lemma_sample_bytes_round_trip(o: OptimizedTrainingSample, b: Seq<u8>, off: int)
    requires
        0 <= off,
        off + 64 <= b.len(),
        b.subrange(off, off + 64) == sample_bytes(o),
    ensures
        sample_from_bytes(b, off) == Some(o),
{
    let sb = sample_bytes(o);
    assert forall|i: int| 0 <= i < 64 implies b[off + i] == #[trigger] sample_byte(o, i) by {
        assert(b.subrange(off, off + 64)[i] == b[off + i]);
    }
    assert forall|lane: int| 0 <= lane < 8 implies le_value(b, off + 4 * lane, 4)
        == #[trigger] o.features.features@[lane] by {
        assert forall|i: int| 0 <= i < 4 implies b[off + 4 * lane + i] == #[trigger] byte_of(
            o.features.features@[lane] as u64,
            i,
        ) by {
            assert(b[off + (4 * lane + i)] == sample_byte(o, 4 * lane + i));
            assert((4 * lane + i) / 4 == lane);
            assert((4 * lane + i) % 4 == i);
        }
        lemma_le4(o.features.features@[lane], b, off + 4 * lane);
    }
    assert(le_value(b, off + 4 * 0, 4) == o.features.features@[0]);
    assert(le_value(b, off + 4 * 1, 4) == o.features.features@[1]);
    assert(le_value(b, off + 4 * 2, 4) == o.features.features@[2]);
    assert(le_value(b, off + 4 * 3, 4) == o.features.features@[3]);
    assert(le_value(b, off + 4 * 4, 4) == o.features.features@[4]);
    assert(le_value(b, off + 4 * 5, 4) == o.features.features@[5]);
    assert(le_value(b, off + 4 * 6, 4) == o.features.features@[6]);
    assert(le_value(b, off + 4 * 7, 4) == o.features.features@[7]);
    assert forall|i: int| 0 <= i < 8 implies b[off + 40 + i] == #[trigger] byte_of(
        o.timestamp as u64,
        i,
    ) by {
        assert(b[off + (40 + i)] == sample_byte(o, 40 + i));
    }
    lemma_le8(o.timestamp as u64, b, off + 40);
    assert forall|i: int| 0 <= i < 4 implies b[off + 48 + i] == #[trigger] byte_of(
        o.bar_index as u64,
        i,
    ) by {
        assert(b[off + (48 + i)] == sample_byte(o, 48 + i));
    }
    lemma_le4(o.bar_index, b, off + 48);
    assert(b[off + 32] == sample_byte(o, 32));
    let ts = o.timestamp;
    assert(ts as u64 as i64 == ts) by (bit_vector);
    let r = sample_from_bytes(b, off)->0;
    assert(r.features.features =~= o.features.features);
    assert forall|i: int| 0 <= i < 12 implies b[off + 52 + i] == o._padding@[i] by {
        assert(b[off + (52 + i)] == sample_byte(o, 52 + i));
    }
    assert(r._padding =~= o._padding);
}

fn push_le(out: &mut Vec<u8>, x: u64, n: usize)
    requires
        n <= 8,
    ensures
        final(out)@ == old(out)@ + Seq::new(n as nat, |i: int| byte_of(x, i)),
{
    let ghost start = out@;
    let mut i: usize = 0;
    while i < n
        invariant
            i <= n,
            n <= 8,
            out@ == start + Seq::new(i as nat, |j: int| byte_of(x, j)),
        decreases n - i,
    {
        let byte = ((x >> (8 * i as u64)) & 0xff) as u8;
        out.push(byte);
        assert(out@ =~= start + Seq::new((i + 1) as nat, |j: int| byte_of(x, j)));
        i = i + 1;
    }
}

/// The 64 bytes that store `o`.
pub fn encode_sample(o: &OptimizedTrainingSample) -> (out: Vec<u8>)
    ensures
        out@ == sample_bytes(*o),
{
    let mut out: Vec<u8> = Vec::new();
    let mut lane: usize = 0;
    while lane < 8
        invariant
            lane <= 8,
            out@.len() == 4 * lane,
            forall|i: int| 0 <= i < 4 * lane ==> out@[i] == #[trigger] sample_byte(*o, i),
        decreases 8 - lane,
    {
        let ghost before = out@;
        push_le(&mut out, o.features.features[lane] as u64, 4);
        assert forall|i: int| 0 <= i < 4 * (lane + 1) implies out@[i] == #[trigger] sample_byte(
            *o,
            i,
        ) by {
            if i >= 4 * lane {
                assert(i / 4 == lane as int);
                assert(i % 4 == i - 4 * lane);
            } else {
                assert(out@[i] == before[i]);
            }
        }
        lane = lane + 1;
    }
    let lb: u8 = match o.label {
        Direction::Short => 0xff,
        Direction::Neutral => 0,
        Direction::Long => 1,
    };
    out.push(lb);
    let mut z: usize = 0;
    while z < 7
        invariant
            z <= 7,
            out@.len() == 33 + z,
            forall|i: int| 0 <= i < 33 + z ==> out@[i] == #[trigger] sample_byte(*o, i),
        decreases 7 - z,
    {
        out.push(0);
        z = z + 1;
    }
    let ghost before_ts = out@;
    push_le(&mut out, o.timestamp as u64, 8);
    assert forall|i: int| 0 <= i < 48 implies out@[i] == #[trigger] sample_byte(*o, i) by {
        if i < 40 {
            assert(out@[i] == before_ts[i]);
        }
    }
    let ghost before_bi = out@;
    push_le(&mut out, o.bar_index as u64, 4);
    assert forall|i: int| 0 <= i < 52 implies out@[i] == #[trigger] sample_byte(*o, i) by {
        if i < 48 {
            assert(out@[i] == before_bi[i]);
        }
    }
    let mut p: usize = 0;
    while p < 12
        invariant
            p <= 12,
            out@.len() == 52 + p,
            forall|i: int| 0 <= i < 52 + p ==> out@[i] == #[trigger] sample_byte(*o, i),
        decreases 12 - p,
    {
        out.push(o._padding[p]);
        p = p + 1;
    }
    assert(out@ =~= sample_bytes(*o));
    out
}

fn read_le(b: &Vec<u8>, off: usize, n: usize) -> (v: u64)
    requires
        1 <= n <= 8,
        off + n <= b@.len(),
    ensures
        v == le_value(b@, off as int, n as nat),
    decreases n,
{
    let _len = b.len();
    let rest: u64 = if n == 1 {
        0
    } else {
        read_le(b, off + 1, n - 1)
    };
    proof {
        reveal_with_fuel(le_value, 2);
        lemma_le_value_bound(b@, off as int + 1, (n - 1) as nat);
        vstd::arithmetic::power2::lemma2_to64();
        assert(rest < pow2_nat(8 * (n - 1) as nat));
        assert(rest * 256 + 255 < 0x1_0000_0000_0000_0000) by {
            lemma_pow2_bytes((n - 1) as nat);
        }
    }
    b[off] as u64 + 256 * rest
}

spec fn pow2_nat(e: nat) -> nat {
    vstd::arithmetic::power2::pow2(e)
}

proof fn lemma_pow2_bytes(m: nat)
    requires
        m <= 7,
    ensures
        pow2_nat(8 * m) * 256 <= 0x1_0000_0000_0000_0000,
{
    vstd::arithmetic::power2::lemma2_to64();
    vstd::arithmetic::power2::lemma2_to64_rest();
    assert(m == 0 || m == 1 || m == 2 || m == 3 || m == 4 || m == 5 || m == 6 || m == 7);
}

proof fn lemma_le_value_bound(b: Seq<u8>, off: int, n: nat)
    ensures
        le_value(b, off, n) < pow2_nat(8 * n),
    decreases n,
{
    vstd::arithmetic::power2::lemma2_to64();
    if n > 0 {
        lemma_le_value_bound(b, off + 1, (n - 1) as nat);
        vstd::arithmetic::power2::lemma_pow2_adds(8, 8 * (n - 1) as nat);
        vstd::arithmetic::power2::lemma2_to64();
        assert(8 + 8 * (n - 1) as nat == 8 * n);
        assert(b[off] as nat + 256 * le_value(b, off + 1, (n - 1) as nat) < 256 * pow2_nat(
            8 * (n - 1) as nat,
        )) by (nonlinear_arith)
            requires
                b[off] < 256,
                le_value(b, off + 1, (n - 1) as nat) < pow2_nat(8 * (n - 1) as nat),
        ;
    }
}

/// The sample stored in `b[off..off + 64]`, or `None` when its label byte is not valid.
pub fn decode_sample(b: &Vec<u8>, off: usize) -> (r: Option<OptimizedTrainingSample>)
    requires
        off + 64 <= b@.len(),
    ensures
        r == sample_from_bytes(b@, off as int),
{
    let _len = b.len();
    let lb = b[off + 32];
    let label = if lb == 0xff {
        Direction::Short
    } else if lb == 0 {
        Direction::Neutral
    } else if lb == 1 {
        Direction::Long
    } else {
        return None;
    };
    let mut lanes = [0u32; 8];
    let mut lane: usize = 0;
    while lane < 8
        invariant
            lane <= 8,
            off + 64 <= b@.len(),
            b@.len() <= usize::MAX,
            forall|j: int| 0 <= j < lane ==> lanes@[j] == le_value(b@, off + 4 * j, 4) as u32,
        decreases 8 - lane,
    {
        let v = read_le(b, off + 4 * lane, 4);
        lanes[lane] = v as u32;
        lane = lane + 1;
    }
    let ts = read_le(b, off + 40, 8);
    let bi = read_le(b, off + 48, 4);
    let mut pad = [0u8; 12];
    let mut p: usize = 0;
    while p < 12
        invariant
            p <= 12,
            off + 64 <= b@.len(),
            b@.len() <= usize::MAX,
            forall|j: int| 0 <= j < p ==> pad@[j] == b@[off + 52 + j],
        decreases 12 - p,
    {
        pad[p] = b[off + 52 + p];
        p = p + 1;
    }
    let o = OptimizedTrainingSample {
        features: AlignedFeatureSeries { features: lanes },
        label,
        timestamp: ts as i64,
        bar_index: bi as u32,
        _padding: pad,
    };
    let ghost expect = sample_from_bytes(b@, off as int)->0;
    assert(o.features.features =~= expect.features.features);
    assert(o._padding =~= expect._padding);
    Some(o)
}

} // verus!
