//! Integer side of the table generator: repairing the rounded positive
//! half-grid and mirroring it into the full, shifted grid.

use vstd::prelude::*;

verus! {

/// Next grid point after `prev` for the rounded distance `v`: bumped past
/// `prev`, then held below the endpoint `xmax`.
pub open spec fn repair_step(prev: int, v: int, xmax: int) -> int {
    let bumped = if v <= prev {
        prev + 1
    } else {
        v
    };
    if bumped >= xmax {
        xmax - 1
    } else {
        bumped
    }
}

/// `0` followed by the first `n` rounded distances of `raw`, repaired in turn.
pub open spec fn repaired(raw: Seq<u32>, xmax: int, n: nat) -> Seq<int>
    decreases n,
{
    if n == 0 {
        seq![0]
    } else {
        let p = repaired(raw, xmax, (n - 1) as nat);
        p.push(repair_step(p.last(), raw[n - 1] as int, xmax))
    }
}

/// The positive half-grid for rounded interior distances `raw` and endpoint
/// `xmax`.
pub open spec fn half_grid(raw: Seq<u32>, xmax: int) -> Seq<int> {
    repaired(raw, xmax, raw.len()).push(xmax)
}

pub open spec fn strictly_increasing(s: Seq<int>) -> bool {
    forall|i: int, j: int| 0 <= i < j < s.len() ==> s[i] < s[j]
}

proof fn lemma_repaired_len(raw: Seq<u32>, xmax: int, n: nat)
    ensures
        repaired(raw, xmax, n).len() == n + 1,
        repaired(raw, xmax, n)[0] == 0,
    decreases n,
{
    if n > 0 {
        lemma_repaired_len(raw, xmax, (n - 1) as nat);
    }
}

/// Builds the positive half-grid from the rounded interior distances `raw`
/// (point `i + 1` of the grid) and the endpoint `xmax_q`: `0`, the repaired
/// points, then `xmax_q`. `None` where the repaired grid is not strictly
/// increasing, which no table may be built from.
pub fn build_positive_x_grid(raw: &Vec<u32>, xmax_q: u32) -> (r: Option<Vec<u32>>)
    requires
        raw@.len() < usize::MAX,
    ensures
        r is Some <==> strictly_increasing(half_grid(raw@, xmax_q as int)),
        r matches Some(g) ==> g@.len() == raw@.len() + 2 && forall|i: int|
            0 <= i < g@.len() ==> g@[i] as int == #[trigger] half_grid(raw@, xmax_q as int)[i],
{
    let ghost target = half_grid(raw@, xmax_q as int);
    proof {
        lemma_repaired_len(raw@, xmax_q as int, raw@.len());
    }
    if xmax_q == 0 {
        assert(target[0] == 0 && target[target.len() - 1] == 0);
        assert(!strictly_increasing(target));
        return None;
    }
    let mut grid: Vec<u32> = Vec::new();
    grid.push(0);
    let mut prev: u32 = 0;
    let mut ok = true;
    let mut i: usize = 0;
    while i < raw.len()
        invariant
            i <= raw@.len(),
            xmax_q > 0,
            grid@.len() == i + 1,
            prev == grid@[i as int],
            prev < xmax_q,
            repaired(raw@, xmax_q as int, i as nat).len() == i + 1,
            forall|k: int| 0 <= k <= i ==> grid@[k] as int == #[trigger] repaired(raw@, xmax_q as int, i as nat)[k],
            ok <==> strictly_increasing(repaired(raw@, xmax_q as int, i as nat)),
        decreases raw@.len() - i,
    {
        let ghost before = repaired(raw@, xmax_q as int, i as nat);
        let mut x = raw[i];
        if x <= prev {
            x = prev + 1;
        }
        if x >= xmax_q {
            x = xmax_q - 1;
        }
        if x <= prev {
            ok = false;
        }
        grid.push(x);
        prev = x;
        i = i + 1;
        proof {
            lemma_repaired_len(raw@, xmax_q as int, i as nat);
            lemma_repaired_len(raw@, xmax_q as int, (i - 1) as nat);
            let after = repaired(raw@, xmax_q as int, i as nat);
            assert(after == before.push(repair_step(before.last(), raw@[i - 1] as int, xmax_q as int)));
            assert(before.last() == grid@[i - 1]);
            if strictly_increasing(before) && x > grid@[i - 1] {
                assert forall|a: int, b: int| 0 <= a < b < after.len() implies after[a] < after[b] by {
                    if b < after.len() - 1 {
                        assert(after[a] == before[a] && after[b] == before[b]);
                    } else if a < after.len() - 2 {
                        assert(after[a] == before[a]);
                        assert(before[a] < before[before.len() - 1]);
                    }
                }
            }
            if !strictly_increasing(before) {
                let (a, b) = choose|a: int, b: int| 0 <= a < b < before.len() && !(before[a] < before[b]);
                assert(after[a] == before[a] && after[b] == before[b]);
            }
            if x <= grid@[i - 1] {
                assert(!(after[i - 1] < after[i as int]));
            }
        }
    }
    let ghost body = repaired(raw@, xmax_q as int, i as nat);
    assert(target == body.push(xmax_q as int));
    if ok {
        assert forall|a: int, b: int| 0 <= a < b < target.len() implies target[a] < target[b] by {
            if b < target.len() - 1 {
                assert(target[a] == body[a] && target[b] == body[b]);
            } else {
                assert(target[a] == body[a]);
                assert(body[a] <= body[body.len() - 1]);
            }
        }
        grid.push(xmax_q);
        assert forall|k: int| 0 <= k < grid@.len() implies grid@[k] as int == #[trigger] target[k] by {
            if k < grid@.len() - 1 {
                assert(target[k] == body[k]);
            }
        }
        Some(grid)
    } else {
        proof {
            let (a, b) = choose|a: int, b: int| 0 <= a < b < body.len() && !(body[a] < body[b]);
            assert(target[a] == body[a] && target[b] == body[b]);
        }
        None
    }
}

/// Point `k` of the full grid mirrored from `half` and shifted by `offset`:
/// the negated points (but zero) in reverse, zero, then the positive points.
pub open spec fn mirrored_at(half: Seq<u32>, offset: int, k: int) -> int {
    let m = half.len() as int;
    if k < m - 1 {
        offset - half[m - 1 - k]
    } else {
        offset + half[k - (m - 1)]
    }
}

/// Mirrors the positive half-grid around zero and shifts it by `offset`, so
/// that the full grid starts at `offset - half[last]`.
pub fn mirror_grid(half: &Vec<u32>, offset: u32) -> (r: Vec<u32>)
    requires
        1 <= half@.len(),
        2 * half@.len() <= usize::MAX,
        half@[0] == 0,
        forall|i: int, j: int| 0 <= i < j < half@.len() ==> half@[i] < half@[j],
        half@[half@.len() - 1] <= offset,
        offset + half@[half@.len() - 1] <= u32::MAX,
    ensures
        r@.len() == 2 * half@.len() - 1,
        forall|k: int| 0 <= k < r@.len() ==> r@[k] as int == #[trigger] mirrored_at(half@, offset as int, k),
        forall|a: int, b: int| 0 <= a < b < r@.len() ==> r@[a] < r@[b],
{
    let m = half.len();
    let ghost last = half@[m - 1];
    let mut full: Vec<u32> = Vec::new();
    let mut k: usize = 0;
    while k < m - 1
        invariant
            m == half@.len(),
            last == half@[m - 1],
            half@[0] == 0,
            forall|i: int, j: int| 0 <= i < j < half@.len() ==> half@[i] < half@[j],
            last <= offset,
            k <= m - 1,
            full@.len() == k,
            forall|j: int| 0 <= j < k ==> full@[j] as int == #[trigger] mirrored_at(half@, offset as int, j),
        decreases m - 1 - k,
    {
        assert(half@[m - 1 - k as int] <= last);
        full.push(offset - half[m - 1 - k]);
        k = k + 1;
    }
    while k < 2 * m - 1
        invariant
            m == half@.len(),
            1 <= m,
            2 * m <= usize::MAX,
            last == half@[m - 1],
            forall|i: int, j: int| 0 <= i < j < half@.len() ==> half@[i] < half@[j],
            offset + last <= u32::MAX,
            m - 1 <= k <= 2 * m - 1,
            full@.len() == k,
            forall|j: int| 0 <= j < k ==> full@[j] as int == #[trigger] mirrored_at(half@, offset as int, j),
        decreases 2 * m - 1 - k,
    {
        assert(half@[k - (m - 1)] <= last);
        full.push(offset + half[k - (m - 1)]);
        k = k + 1;
    }
    assert forall|a: int, b: int| 0 <= a < b < full@.len() implies full@[a] < full@[b] by {
        assert(full@[a] as int == mirrored_at(half@, offset as int, a));
        assert(full@[b] as int == mirrored_at(half@, offset as int, b));
        let mi = m as int;
        if b < mi - 1 {
            assert(half@[mi - 1 - b] < half@[mi - 1 - a]);
        } else if a < mi - 1 {
            assert(half@[0] < half@[mi - 1 - a]);
        } else {
            assert(half@[a - (mi - 1)] < half@[b - (mi - 1)]);
        }
    }
    full
}

} // verus!
