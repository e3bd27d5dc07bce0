//! The selection model of the light search.
//!
//! Both search strategies scan candidate positions in a fixed order,
//! read a brightness sample at each one, and keep the incumbent best
//! under strict improvement only (`candidate > incumbent`), so among
//! equal maxima the first one found wins.  This module states that
//! selection rule over plain sample sequences, together with the shape
//! of the angle sequences a sweep visits and the border classification
//! of the bounded grid search.

use vstd::prelude::*;

verus! {

/// Index `i` holds the sample that strict-improvement scanning selects:
/// no sample beats it, and every earlier sample is strictly below it.
/// This pins the selection of a scan down to exactly one index.
pub open spec fn is_first_max(s: Seq<u32>, i: int) -> bool {
    &&& 0 <= i < s.len()
    &&& forall|j: int| 0 <= j < s.len() ==> s[j] <= s[i]
    &&& forall|j: int| 0 <= j < i ==> s[j] < s[i]
}

/// Selection is deterministic: a sample sequence has at most one
/// first-maximum index, so any two scans of the same readings agree.
pub proof fn lemma_first_max_deterministic(s: Seq<u32>, i: int, j: int)
    requires
        is_first_max(s, i),
        is_first_max(s, j),
    ensures
        i == j,
{
    if i < j {
        assert(s[i] < s[j]);
        assert(s[j] <= s[i]);
    }
    if j < i {
        assert(s[j] < s[i]);
        assert(s[i] <= s[j]);
    }
}

proof fn lemma_chain_increasing(s: Seq<u32>, a: int, b: int)
    requires
        0 <= a <= b < s.len(),
        forall|j: int| a <= j < b ==> #[trigger] s[j] < s[j + 1],
    ensures
        s[a] <= s[b],
        a < b ==> s[a] < s[b],
    decreases b - a,
{
    if a < b {
        lemma_chain_increasing(s, a, b - 1);
        assert(s[b - 1] < s[b]);
    }
}

proof fn lemma_chain_decreasing(s: Seq<u32>, a: int, b: int)
    requires
        0 <= a <= b < s.len(),
        forall|j: int| a <= j < b ==> s[j + 1] < #[trigger] s[j],
    ensures
        s[b] <= s[a],
        a < b ==> s[b] < s[a],
    decreases b - a,
{
    if a < b {
        lemma_chain_decreasing(s, a, b - 1);
        assert(s[b] < s[b - 1]);
    }
}

/// Over a strictly unimodal sample sequence — rising up to the peak,
/// falling after it — strict-improvement scanning selects exactly the
/// peak.  A sweep over a brightness field with a single maximum
/// therefore converges to the sample taken nearest that maximum.
pub proof fn lemma_unimodal_first_max(s: Seq<u32>, p: int)
    requires
        0 <= p < s.len(),
        forall|j: int| 0 <= j < p ==> #[trigger] s[j] < s[j + 1],
        forall|j: int| p <= j < s.len() - 1 ==> s[j + 1] < #[trigger] s[j],
    ensures
        is_first_max(s, p),
{
    assert forall|j: int| 0 <= j < s.len() implies s[j] <= s[p] by {
        if j < p {
            lemma_chain_increasing(s, j, p);
        } else if j > p {
            lemma_chain_decreasing(s, p, j);
        }
    }
    assert forall|j: int| 0 <= j < p implies s[j] < s[p] by {
        lemma_chain_increasing(s, j, p);
    }
}

/// One more step of size `ss` from `current` toward `target` stays
/// inside `[0, maxa]` and does not cross the target.  Mirrors the
/// per-axis `rotatable` guard over plain integers.
pub open spec fn can_step_toward(current: int, target: int, ss: int, maxa: int) -> bool {
    &&& 0 <= target <= maxa
    &&& if current < target {
            current + ss <= target
        } else if current > target {
            current - ss >= target
        } else {
            false
        }
}

/// `angles` is exactly the position trace of a sweep toward `target`:
/// it starts somewhere, advances one guarded step at a time, and stops
/// at the first position from which no further guarded step exists.
pub open spec fn sweep_record(angles: Seq<int>, target: int, ss: int, maxa: int) -> bool {
    &&& angles.len() >= 1
    &&& forall|i: int| 0 <= i < angles.len() - 1 ==> {
            &&& can_step_toward(#[trigger] angles[i], target, ss, maxa)
            &&& angles[i + 1] == if angles[i] < target {
                    angles[i] + ss
                } else {
                    angles[i] - ss
                }
        }
    &&& !can_step_toward(angles[angles.len() - 1], target, ss, maxa)
}

/// An ascending arithmetic progression of guarded steps is exactly a
/// sweep trace: starting at `base` and advancing by `ss` until one more
/// step would cross `target`, the closed-form positions satisfy
/// `sweep_record`.
pub proof fn lemma_ascending_sweep(angles: Seq<int>, base: int, ss: int, target: int, maxa: int)
    requires
        1 <= ss,
        0 <= base,
        0 <= target <= maxa,
        angles.len() >= 1,
        forall|i: int| 0 <= i < angles.len() ==> #[trigger] angles[i] == base + i * ss,
        angles.len() > 1 ==> base <= target,
        angles.len() > 1 ==> angles[angles.len() - 1] <= target,
        !can_step_toward(angles[angles.len() - 1], target, ss, maxa),
    ensures
        sweep_record(angles, target, ss, maxa),
{
    let n = angles.len() as int;
    assert forall|i: int| 0 <= i < n - 1 implies (can_step_toward(
        #[trigger] angles[i],
        target,
        ss,
        maxa,
    ) && angles[i + 1] == (if angles[i] < target {
        angles[i] + ss
    } else {
        angles[i] - ss
    })) by {
        assert(angles[i] == base + i * ss);
        assert(angles[i + 1] == base + (i + 1) * ss);
        assert((i + 1) * ss == i * ss + ss) by (nonlinear_arith);
        vstd::arithmetic::mul::lemma_mul_inequality(i + 1, n - 1, ss);
        assert(angles[n - 1] == base + (n - 1) * ss);
    }
}

proof fn lemma_sweep_prefix_eq(
    a1: Seq<int>,
    a2: Seq<int>,
    target: int,
    ss: int,
    maxa: int,
    i: int,
)
    requires
        sweep_record(a1, target, ss, maxa),
        sweep_record(a2, target, ss, maxa),
        a1[0] == a2[0],
        0 <= i < a1.len(),
        i < a2.len(),
    ensures
        a1[i] == a2[i],
    decreases i,
{
    if i > 0 {
        lemma_sweep_prefix_eq(a1, a2, target, ss, maxa, i - 1);
    }
}

/// A sweep is deterministic: its trace follows one step rule from its
/// start position and ends at the first position that cannot step, so
/// two sweeps toward the same target from the same start visit exactly
/// the same positions.
pub proof fn lemma_sweep_record_unique(
    a1: Seq<int>,
    a2: Seq<int>,
    target: int,
    ss: int,
    maxa: int,
)
    requires
        sweep_record(a1, target, ss, maxa),
        sweep_record(a2, target, ss, maxa),
        a1[0] == a2[0],
    ensures
        a1 == a2,
{
    let n1 = a1.len() as int;
    let n2 = a2.len() as int;
    if n1 < n2 {
        lemma_sweep_prefix_eq(a1, a2, target, ss, maxa, n1 - 1);
        assert(can_step_toward(a2[n1 - 1], target, ss, maxa));
        assert(false);
    }
    if n2 < n1 {
        lemma_sweep_prefix_eq(a1, a2, target, ss, maxa, n2 - 1);
        assert(can_step_toward(a1[n2 - 1], target, ss, maxa));
        assert(false);
    }
    assert forall|i: int| 0 <= i < n1 implies a1[i] == a2[i] by {
        lemma_sweep_prefix_eq(a1, a2, target, ss, maxa, i);
    }
    assert(a1 =~= a2);
}

/// The geometric column index (along the first axis, `0` at the lowest
/// angle) of the `m`-th position of a boustrophedon raster over an
/// `nh`-column grid: rows alternate their sweep direction, and
/// `corner_low_hor` says whether the very first row starts at the low
/// corner.
pub open spec fn spec_scan_cell_i(m: int, nh: int, corner_low_hor: bool) -> int {
    let jrow = m / nh;
    let k = m % nh;
    if (jrow % 2 == 0) == corner_low_hor {
        k
    } else {
        nh - 1 - k
    }
}

/// The geometric row index (along the second axis) of the `m`-th
/// position of the raster: rows are visited bottom-up when
/// `corner_low_ver`, top-down otherwise.
pub open spec fn spec_scan_cell_j(m: int, nh: int, nv: int, corner_low_ver: bool) -> int {
    let jrow = m / nh;
    if corner_low_ver {
        jrow
    } else {
        nv - 1 - jrow
    }
}

/// The geometric cell indices of the `m`-th raster position.
pub fn scan_cell(m: u32, nh: u32, nv: u32, corner_low_hor: bool, corner_low_ver: bool) -> (r: (
    u32,
    u32,
))
    requires
        1 <= nh <= 999,
        1 <= nv <= 999,
        m < nh * nv,
    ensures
        r.0 == spec_scan_cell_i(m as int, nh as int, corner_low_hor),
        r.1 == spec_scan_cell_j(m as int, nh as int, nv as int, corner_low_ver),
        r.0 < nh,
        r.1 < nv,
{
    proof {
        vstd::arithmetic::div_mod::lemma_mod_division_less_than_divisor(m as int, nh as int);
        vstd::arithmetic::div_mod::lemma_multiply_divide_lt(m as int, nh as int, nv as int);
        vstd::arithmetic::div_mod::lemma_div_pos_is_pos(m as int, nh as int);
    }
    let jrow = m / nh;
    let k = m % nh;
    let i = if (jrow % 2 == 0) == corner_low_hor {
        k
    } else {
        nh - 1 - k
    };
    let j = if corner_low_ver {
        jrow
    } else {
        nv - 1 - jrow
    };
    (i, j)
}

/// The angle of grid cell `idx` along one axis: the grid is centered on
/// `center` with one step between neighboring cells, and positions are
/// clamped into the travel range.
pub open spec fn spec_cell_angle(center: int, n: int, idx: int, ss: int, maxa: int) -> int {
    let t = center + (idx - (n - 1) / 2) * ss;
    if t < 0 {
        0
    } else if t > maxa {
        maxa
    } else {
        t
    }
}

/// The clamped target angle of one grid cell.
pub fn cell_angle(center: i32, n: i32, idx: i32, ss: i32, maxa: i32) -> (r: i32)
    requires
        0 <= center <= maxa,
        maxa <= 1000000,
        1 <= ss <= 1000000,
        1 <= n <= 999,
        0 <= idx < n,
    ensures
        r == spec_cell_angle(center as int, n as int, idx as int, ss as int, maxa as int),
        0 <= r <= maxa,
{
    let rel = idx - (n - 1) / 2;
    proof {
        assert(-999 <= rel <= 999);
        assert(-999 * 1000000 <= rel * ss <= 999 * 1000000) by (nonlinear_arith)
            requires
                -999 <= rel <= 999,
                1 <= ss <= 1000000,
        ;
    }
    let t = center + rel * ss;
    if t < 0 {
        0
    } else if t > maxa {
        maxa
    } else {
        t
    }
}

/// A cell index lies within `border` cells of either end of a grid axis
/// with `n` cells.
pub open spec fn spec_is_border_cell(idx: int, n: int, border: int) -> bool {
    idx < border || idx >= n - border
}

/// Border classification of a winning grid cell along one axis.
pub fn is_border_cell(idx: i32, n: i32, border: i32) -> (r: bool)
    requires
        0 <= border <= n,
    ensures
        r == spec_is_border_cell(idx as int, n as int, border as int),
{
    idx < border || idx >= n - border
}

/// A winner classified as interior never sits on the outermost ring of
/// the grid: with a margin of at least one cell, interior indices keep
/// a distance of one full cell from both edges.
pub proof fn lemma_interior_not_edge(idx: int, n: int, border: int)
    requires
        1 <= border,
        0 <= idx < n,
        !spec_is_border_cell(idx, n, border),
    ensures
        idx != 0,
        idx != n - 1,
{
}

} // verus!
