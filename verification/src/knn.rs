use vstd::prelude::*;

use crate::direction::{Direction, direction_value};

verus! {

broadcast use vstd::seq_lib::group_to_multiset_ensures;

/// Key of a distance that has no order (a NaN distance). Every ordered distance
/// is the bit pattern of a non-negative `f32`, which is at most `0x7f80_0000`
/// (+infinity), so this value is never the key of an ordered distance.
pub const UNORDERED_DISTANCE: u32 = 0xffff_ffff;

/// A candidate neighbour: the order key of its Lorentzian distance to the query
/// and its label. For non-negative `f32` distances the bit pattern orders as the
/// numbers do, so the key stands for the distance in every comparison.
#[derive(Debug, Clone, Copy, PartialEq, Eq, Structural)]
pub struct Neighbor {
    pub distance: u32,
    pub label: Direction,
}

// ---------------------------------------------------------------------------
// Stable ordering by distance
// ---------------------------------------------------------------------------

/// Inserts `x` into `s` after every element whose distance is not greater than
/// `x`'s, scanning from the back: the step of a stable insertion sort.
pub open spec fn insert_by_distance(s: Seq<Neighbor>, x: Neighbor) -> Seq<Neighbor>
    decreases s.len(),
{
    if s.len() == 0 {
        seq![x]
    } else if s.last().distance <= x.distance {
        s.push(x)
    } else {
        insert_by_distance(s.drop_last(), x).push(s.last())
    }
}

/// The stable sort of `s` by ascending distance.
pub open spec fn sort_by_distance(s: Seq<Neighbor>) -> Seq<Neighbor>
    decreases s.len(),
{
    if s.len() == 0 {
        Seq::empty()
    } else {
        insert_by_distance(sort_by_distance(s.drop_last()), s.last())
    }
}

/// `s` is ordered by ascending distance.
pub open spec fn sorted_by_distance(s: Seq<Neighbor>) -> bool {
    forall|i: int, j: int| 0 <= i <= j < s.len() ==> s[i].distance <= s[j].distance
}

proof fn lemma_insert_by_distance(s: Seq<Neighbor>, x: Neighbor)
    requires
        sorted_by_distance(s),
    ensures
        sorted_by_distance(insert_by_distance(s, x)),
        insert_by_distance(s, x).to_multiset() =~= s.to_multiset().insert(x),
        insert_by_distance(s, x).len() == s.len() + 1,
        insert_by_distance(s, x).len() > 0,
        insert_by_distance(s, x).last().distance >= x.distance,
        s.len() > 0 ==> insert_by_distance(s, x).last().distance >= s.last().distance,
    decreases s.len(),
{
    if s.len() == 0 {
        assert(seq![x] =~= Seq::<Neighbor>::empty().push(x));
    } else if s.last().distance <= x.distance {
    } else {
        let t = s.drop_last();
        lemma_insert_by_distance(t, x);
        let r = insert_by_distance(t, x);
        assert(s =~= t.push(s.last()));
        assert forall|i: int, j: int| 0 <= i <= j < r.push(s.last()).len() implies r.push(
            s.last(),
        )[i].distance <= r.push(s.last())[j].distance by {
            if j == r.len() {
                if i < r.len() {
                    if r.len() > 0 && t.len() > 0 {
                        assert(r[i].distance <= r.last().distance);
                    }
                    if t.len() == 0 {
                        assert(r =~= seq![x]);
                    }
                }
            }
        }
    }
}

/// Sorting by distance orders the sequence and keeps its elements.
pub proof fn lemma_sort_by_distance(s: Seq<Neighbor>)
    ensures
        sorted_by_distance(sort_by_distance(s)),
        sort_by_distance(s).to_multiset() =~= s.to_multiset(),
        sort_by_distance(s).len() == s.len(),
    decreases s.len(),
{
    if s.len() > 0 {
        lemma_sort_by_distance(s.drop_last());
        lemma_insert_by_distance(sort_by_distance(s.drop_last()), s.last());
        assert(s =~= s.drop_last().push(s.last()));
    }
}

proof fn lemma_insert_at(s: Seq<Neighbor>, x: Neighbor, p: int)
    requires
        0 <= p <= s.len(),
        forall|j: int| p <= j < s.len() ==> s[j].distance > x.distance,
        p > 0 ==> s[p - 1].distance <= x.distance,
    ensures
        insert_by_distance(s, x) =~= s.insert(p, x),
    decreases s.len(),
{
    if s.len() == 0 {
    } else if p == s.len() {
    } else {
        lemma_insert_at(s.drop_last(), x, p);
        assert(s.insert(p, x) =~= s.drop_last().insert(p, x).push(s.last()));
    }
}

/// Inserts `x` into the distance-ordered vector `v` as a stable insertion sort does.
fn insert_neighbor(v: &mut Vec<Neighbor>, x: Neighbor)
    ensures
        final(v)@ =~= insert_by_distance(old(v)@, x),
{
    let mut p = v.len();
    while p > 0 && v[p - 1].distance > x.distance
        invariant
            p <= v.len(),
            forall|j: int| p <= j < v.len() ==> v[j].distance > x.distance,
        decreases p,
    {
        p = p - 1;
    }
    proof {
        lemma_insert_at(v@, x, p as int);
    }
    v.insert(p, x);
}

/// Sorts neighbours by ascending distance; neighbours at equal distance keep
/// their relative order.
pub fn sort_neighbors(cands: &Vec<Neighbor>) -> (out: Vec<Neighbor>)
    ensures
        out@ == sort_by_distance(cands@),
{
    let mut out: Vec<Neighbor> = Vec::new();
    let mut i: usize = 0;
    while i < cands.len()
        invariant
            i <= cands.len(),
            out@ == sort_by_distance(cands@.take(i as int)),
        decreases cands.len() - i,
    {
        let x = cands[i];
        insert_neighbor(&mut out, x);
        assert(cands@.take(i as int + 1).drop_last() =~= cands@.take(i as int));
        i = i + 1;
    }
    assert(cands@.take(cands.len() as int) =~= cands@);
    out
}

// ---------------------------------------------------------------------------
// Chronological spacing
// ---------------------------------------------------------------------------

/// Every fourth element of `s`, starting with the first (Pine Script's `i % 4 == 0`).
pub open spec fn every_fourth<T>(s: Seq<T>) -> Seq<T> {
    Seq::new(((s.len() + 3) / 4) as nat, |j: int| s[4 * j])
}

/// The elements of `s` at indices divisible by four, in order.
pub fn take_every_fourth<T: Copy>(s: &Vec<T>) -> (out: Vec<T>)
    ensures
        out@ == every_fourth(s@),
{
    let n = s.len();
    let count = n / 4 + if n % 4 != 0 {
        1
    } else {
        0
    };
    assert(count == (n + 3) / 4) by (nonlinear_arith)
        requires
            count == n / 4 + if n % 4 != 0 {
                1int
            } else {
                0int
            },
    ;
    let mut out: Vec<T> = Vec::new();
    let mut j: usize = 0;
    while j < count
        invariant
            j <= count,
            n == s@.len(),
            count == (n + 3) / 4,
            out@.len() == j,
            forall|m: int| 0 <= m < j ==> out@[m] == s@[4 * m],
        decreases count - j,
    {
        assert(4 * j < n) by (nonlinear_arith)
            requires
                j < count,
                count == (n + 3) / 4,
        ;
        out.push(s[4 * j]);
        j = j + 1;
    }
    assert(out@ =~= every_fourth(s@));
    out
}

// ---------------------------------------------------------------------------
// Nearest-neighbour selection
// ---------------------------------------------------------------------------

/// Position, in a window of `len` kept neighbours, whose distance becomes the
/// acceptance bound after the window drops its oldest entry: `min(k * 3 / 4, len - 1)`.
pub open spec fn lower_quartile_index(k: nat, len: nat) -> int {
    let q = (k * 3 / 4) as int;
    if q < len - 1 {
        q
    } else {
        len - 1
    }
}

/// A candidate at index `i` passes the chronological filter.
pub open spec fn passes_spacing(i: int, spacing: bool) -> bool {
    i % 4 == 0 || !spacing
}

/// One step of the Pine Script approximate nearest-neighbour scan. The state is the
/// window of kept neighbours and the current acceptance bound (`None` stands for the
/// initial bound -1, below every distance).
pub open spec fn ann_step(
    kept: Seq<Neighbor>,
    bound: Option<u32>,
    i: int,
    c: Neighbor,
    k: nat,
    spacing: bool,
) -> (Seq<Neighbor>, Option<u32>) {
    let accepted = c.distance != UNORDERED_DISTANCE && (bound is None || c.distance
        >= bound->0) && passes_spacing(i, spacing);
    if !accepted {
        (kept, bound)
    } else if kept.len() + 1 > k {
        let window = kept.push(c).drop_first();
        if window.len() > 3 {
            (window, Some(window[lower_quartile_index(k, window.len())].distance))
        } else {
            (window, Some(c.distance))
        }
    } else {
        (kept.push(c), Some(c.distance))
    }
}

/// The state of the approximate scan after the candidates of `cands`.
pub open spec fn ann_scan(cands: Seq<Neighbor>, k: nat, spacing: bool) -> (
    Seq<Neighbor>,
    Option<u32>,
)
    decreases cands.len(),
{
    if cands.len() == 0 {
        (Seq::empty(), None)
    } else {
        let prev = ann_scan(cands.drop_last(), k, spacing);
        ann_step(prev.0, prev.1, cands.len() - 1, cands.last(), k, spacing)
    }
}

/// The neighbours the approximate scan keeps, ordered by distance.
pub open spec fn ann_neighbors(cands: Seq<Neighbor>, k: nat, spacing: bool) -> Seq<Neighbor> {
    sort_by_distance(ann_scan(cands, k, spacing).0)
}

/// The `k` nearest candidates (all of them when there are fewer), in stable distance order.
pub open spec fn exact_neighbors(cands: Seq<Neighbor>, k: nat) -> Seq<Neighbor> {
    let sorted = sort_by_distance(cands);
    if k < sorted.len() {
        sorted.take(k as int)
    } else {
        sorted
    }
}

proof fn lemma_ann_scan_bounds(cands: Seq<Neighbor>, k: nat, spacing: bool)
    ensures
        ann_scan(cands, k, spacing).0.len() <= k || ann_scan(cands, k, spacing).0.len() == 0,
        forall|j: int|
            0 <= j < ann_scan(cands, k, spacing).0.len() ==> cands.contains(
                #[trigger] ann_scan(cands, k, spacing).0[j],
            ),
    decreases cands.len(),
{
    if cands.len() > 0 {
        let t = cands.drop_last();
        lemma_ann_scan_bounds(t, k, spacing);
        let prev = ann_scan(t, k, spacing);
        let cur = ann_scan(cands, k, spacing);
        assert forall|j: int| 0 <= j < cur.0.len() implies cands.contains(#[trigger] cur.0[j]) by {
            if cur.0[j] == cands.last() {
                assert(cands[cands.len() - 1] == cands.last());
            } else {
                let w = prev.0.push(cands.last());
                if cur.0 == prev.0 {
                    assert(t.contains(prev.0[j]));
                    let m = choose|m: int| 0 <= m < t.len() && t[m] == prev.0[j];
                    assert(cands[m] == t[m]);
                } else if cur.0 == w {
                    assert(j < prev.0.len());
                    let m = choose|m: int| 0 <= m < t.len() && t[m] == prev.0[j];
                    assert(cands[m] == t[m]);
                } else {
                    assert(cur.0 == w.drop_first());
                    assert(cur.0[j] == w[j + 1]);
                    assert(j + 1 < prev.0.len());
                    assert(t.contains(prev.0[j + 1]));
                    let m = choose|m: int| 0 <= m < t.len() && t[m] == prev.0[j + 1];
                    assert(cands[m] == t[m]);
                }
            }
        }
    }
}

/// Scanning one more candidate is one more step of the scan.
proof fn lemma_ann_scan_push(cands: Seq<Neighbor>, c: Neighbor, k: nat, spacing: bool)
    ensures
        ann_scan(cands.push(c), k, spacing) == ({
            let prev = ann_scan(cands, k, spacing);
            ann_step(prev.0, prev.1, cands.len() as int, c, k, spacing)
        }),
{
    assert(cands.push(c).drop_last() =~= cands);
}

/// The acceptance bound of the scan, once there is one, is the distance of one of
/// the neighbours it keeps.
proof fn lemma_ann_bound_kept(cands: Seq<Neighbor>, k: nat, spacing: bool)
    requires
        k >= 1,
    ensures
        ann_scan(cands, k, spacing).1 matches Some(d) ==> exists|j: int|
            0 <= j < ann_scan(cands, k, spacing).0.len() && #[trigger] ann_scan(
                cands,
                k,
                spacing,
            ).0[j].distance == d,
    decreases cands.len(),
{
    if cands.len() > 0 {
        let t = cands.drop_last();
        let c = cands.last();
        lemma_ann_bound_kept(t, k, spacing);
        lemma_ann_scan_push(t, c, k, spacing);
        assert(t.push(c) =~= cands);
        let prev = ann_scan(t, k, spacing);
        let cur = ann_scan(cands, k, spacing);
        let accepted = c.distance != UNORDERED_DISTANCE && (prev.1 is None || c.distance
            >= prev.1->0) && passes_spacing(t.len() as int, spacing);
        if accepted {
            if prev.0.len() + 1 > k {
                let window = prev.0.push(c).drop_first();
                assert(window.len() == prev.0.len());
                if window.len() > 3 {
                    let q = lower_quartile_index(k, window.len());
                    assert(0 <= q < window.len());
                    assert(cur.0[q].distance == cur.1->0);
                } else {
                    assert(window[window.len() - 1] == c);
                    assert(cur.0[cur.0.len() - 1].distance == cur.1->0);
                }
            } else {
                assert(cur.0[cur.0.len() - 1] == c);
                assert(cur.0[cur.0.len() - 1].distance == cur.1->0);
            }
        }
    }
}

/// Once the window of the approximate scan is full with more than three
/// neighbours, accepting the farthest candidate so far moves the acceptance bound
/// down to the lower-quartile neighbour of the window (position `k * 3 / 4`), not to
/// the candidate just accepted: the next candidate at least that far is kept, and
/// the oldest neighbour leaves.
pub proof fn lemma_ann_bound_after_overflow(
    cands: Seq<Neighbor>,
    c1: Neighbor,
    c2: Neighbor,
    k: nat,
    spacing: bool,
)
    requires
        k >= 4,
        ann_scan(cands, k, spacing).0.len() == k,
        passes_spacing(cands.len() as int, spacing),
        passes_spacing(cands.len() + 1int, spacing),
        c1.distance != UNORDERED_DISTANCE,
        c2.distance != UNORDERED_DISTANCE,
        forall|j: int|
            0 <= j < k ==> #[trigger] ann_scan(cands, k, spacing).0[j].distance <= c1.distance,
        c2.distance >= ann_scan(cands, k, spacing).0.push(c1).drop_first()[(k * 3 / 4) as int].distance,
    ensures
        ann_scan(cands.push(c1), k, spacing).0 == ann_scan(cands, k, spacing).0.push(c1).drop_first(),
        ann_scan(cands.push(c1).push(c2), k, spacing).0 == ann_scan(cands, k, spacing).0.push(
            c1,
        ).drop_first().push(c2).drop_first(),
{
    let w0 = ann_scan(cands, k, spacing);
    lemma_ann_bound_kept(cands, k, spacing);
    lemma_ann_scan_push(cands, c1, k, spacing);
    if w0.1 is Some {
        let j = choose|j: int| 0 <= j < w0.0.len() && #[trigger] w0.0[j].distance == w0.1->0;
        assert(w0.0[j].distance <= c1.distance);
    }
    let w1 = w0.0.push(c1).drop_first();
    assert(w1.len() == k);
    assert((k * 3 / 4) as int <= k - 1) by (nonlinear_arith)
        requires
            k >= 4,
    ;
    assert(lower_quartile_index(k, w1.len()) == (k * 3 / 4) as int);
    let s1 = ann_scan(cands.push(c1), k, spacing);
    assert(s1.0 == w1);
    assert(s1.1 == Some(w1[(k * 3 / 4) as int].distance));
    lemma_ann_scan_push(cands.push(c1), c2, k, spacing);
    assert(cands.push(c1).len() == cands.len() + 1);
}

/// Every neighbour the approximate scan keeps is one of the candidates, at most
/// `k` of them are kept, and they come out ordered by distance.
pub proof fn lemma_ann_neighbors(cands: Seq<Neighbor>, k: nat, spacing: bool)
    ensures
        sorted_by_distance(ann_neighbors(cands, k, spacing)),
        ann_neighbors(cands, k, spacing).len() <= k,
        forall|j: int|
            0 <= j < ann_neighbors(cands, k, spacing).len() ==> cands.contains(
                #[trigger] ann_neighbors(cands, k, spacing)[j],
            ),
{
    let kept = ann_scan(cands, k, spacing).0;
    lemma_ann_scan_bounds(cands, k, spacing);
    lemma_sort_by_distance(kept);
    let s = ann_neighbors(cands, k, spacing);
    assert forall|j: int| 0 <= j < s.len() implies cands.contains(#[trigger] s[j]) by {
        assert(s.to_multiset().count(s[j]) > 0);
        assert(kept.contains(s[j]));
        let m = choose|m: int| 0 <= m < kept.len() && kept[m] == s[j];
        assert(cands.contains(kept[m]));
    }
}

/// The exact selection returns the `min(k, n)` candidates of smallest distance, in
/// order: nothing left out is nearer than the farthest one kept.
pub proof fn lemma_exact_neighbors(cands: Seq<Neighbor>, k: nat)
    ensures
        sorted_by_distance(exact_neighbors(cands, k)),
        exact_neighbors(cands, k).len() == if k < cands.len() {
            k as int
        } else {
            cands.len() as int
        },
        forall|i: int, j: int|
            0 <= i < exact_neighbors(cands, k).len() && exact_neighbors(cands, k).len() <= j
                < cands.len() ==> #[trigger] exact_neighbors(cands, k)[i].distance
                <= #[trigger] sort_by_distance(cands)[j].distance,
        k >= cands.len() ==> exact_neighbors(cands, k).to_multiset() =~= cands.to_multiset(),
{
    lemma_sort_by_distance(cands);
}

/// Pine Script's approximate nearest-neighbour scan over `cands` (the candidates in
/// chronological order): a candidate is taken when its distance is at least the
/// current bound and it passes the chronological filter; once more than `k` are
/// kept the oldest is dropped and the bound moves to the lower quartile of the
/// window. The kept neighbours come back ordered by distance.
pub fn ann_select(cands: &Vec<Neighbor>, k: usize, spacing: bool) -> (out: Vec<Neighbor>)
    ensures
        out@ == ann_neighbors(cands@, k as nat, spacing),
{
    let mut kept: Vec<Neighbor> = Vec::new();
    let mut bound: Option<u32> = None;
    let mut i: usize = 0;
    while i < cands.len()
        invariant
            i <= cands.len(),
            (kept@, bound) == ann_scan(cands@.take(i as int), k as nat, spacing),
        decreases cands.len() - i,
    {
        let c = cands[i];
        assert(cands@.take(i as int + 1).drop_last() =~= cands@.take(i as int));
        assert(cands@.take(i as int + 1).last() == c);
        let accepted = c.distance != UNORDERED_DISTANCE && (match bound {
            None => true,
            Some(b) => c.distance >= b,
        }) && (i % 4 == 0 || !spacing);
        if accepted {
            let ghost before = kept@;
            kept.push(c);
            if kept.len() > k {
                kept.remove(0);
                assert(kept@ =~= before.push(c).drop_first());
                if kept.len() > 3 {
                    let q = ((k as u128) * 3 / 4) as usize;
                    let idx = if q < kept.len() - 1 {
                        q
                    } else {
                        kept.len() - 1
                    };
                    bound = Some(kept[idx].distance);
                } else {
                    bound = Some(c.distance);
                }
            } else {
                bound = Some(c.distance);
            }
        }
        i = i + 1;
    }
    assert(cands@.take(cands.len() as int) =~= cands@);
    sort_neighbors(&kept)
}

/// Exact nearest-neighbour selection: the `k` candidates of smallest distance
/// (all of them when there are fewer), ordered by distance; ties keep input order.
pub fn exact_select(cands: &Vec<Neighbor>, k: usize) -> (out: Vec<Neighbor>)
    ensures
        out@ == exact_neighbors(cands@, k as nat),
{
    let mut sorted = sort_neighbors(cands);
    proof {
        lemma_sort_by_distance(cands@);
    }
    if k < sorted.len() {
        sorted.truncate(k);
    }
    sorted
}

// ---------------------------------------------------------------------------
// Voting
// ---------------------------------------------------------------------------

/// Sum of the labels of `s`.
pub open spec fn label_sum(s: Seq<Neighbor>) -> int
    decreases s.len(),
{
    if s.len() == 0 {
        0
    } else {
        label_sum(s.drop_last()) + direction_value(s.last().label)
    }
}

/// Direction of a signal: its sign.
pub open spec fn signal_direction(signal: int) -> Direction {
    if signal > 0 {
        Direction::Long
    } else if signal < 0 {
        Direction::Short
    } else {
        Direction::Neutral
    }
}

proof fn lemma_label_sum_bounds(s: Seq<Neighbor>)
    ensures
        -s.len() <= label_sum(s) <= s.len(),
    decreases s.len(),
{
    if s.len() > 0 {
        lemma_label_sum_bounds(s.drop_last());
    }
}

/// The vote of neighbours: the sum of their labels (between `-n` and `n` for `n`
/// neighbours) and the direction of its sign.
pub fn vote(neighbors: &Vec<Neighbor>) -> (res: (i64, Direction))
    requires
        neighbors@.len() <= i64::MAX,
    ensures
        res.0 as int == label_sum(neighbors@),
        res.1 == signal_direction(res.0 as int),
        -(neighbors@.len() as int) <= res.0 <= neighbors@.len(),
{
    let mut sum: i64 = 0;
    let mut i: usize = 0;
    while i < neighbors.len()
        invariant
            i <= neighbors.len(),
            neighbors@.len() <= i64::MAX,
            sum as int == label_sum(neighbors@.take(i as int)),
            -(i as int) <= sum <= i,
        decreases neighbors.len() - i,
    {
        proof {
            lemma_label_sum_bounds(neighbors@.take(i as int));
        }
        assert(neighbors@.take(i as int + 1).drop_last() =~= neighbors@.take(i as int));
        let v = neighbors[i].label.to_i32();
        sum = sum + v as i64;
        i = i + 1;
    }
    assert(neighbors@.take(neighbors.len() as int) =~= neighbors@);
    let d = if sum > 0 {
        Direction::Long
    } else if sum < 0 {
        Direction::Short
    } else {
        Direction::Neutral
    };
    (sum, d)
}

} // verus!
