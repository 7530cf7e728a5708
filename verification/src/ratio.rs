use vstd::prelude::*;

verus! {

// The fixed table of supported output aspect ratios, in the order that decides
// ties: 21:9, 16:9, 5:4, 4:3, 3:2, 1:1, 4:5, 3:4, 2:3, 9:16. The first entry
// achieving the minimum distance to the input ratio wins.

/// Numerator of table entry `i`.
pub open spec fn ratio_w(i: int) -> int {
    if i == 0 { 21 } else if i == 1 { 16 } else if i == 2 { 5 } else if i == 3 { 4 }
    else if i == 4 { 3 } else if i == 5 { 1 } else if i == 6 { 4 } else if i == 7 { 3 }
    else if i == 8 { 2 } else { 9 }
}

/// Denominator of table entry `i`.
pub open spec fn ratio_h(i: int) -> int {
    if i == 0 { 9 } else if i == 1 { 9 } else if i == 2 { 4 } else if i == 3 { 3 }
    else if i == 4 { 2 } else if i == 5 { 1 } else if i == 6 { 5 } else if i == 7 { 4 }
    else if i == 8 { 3 } else { 16 }
}

/// Label of table entry `i`.
pub open spec fn ratio_label(i: int) -> Seq<char> {
    if i == 0 { "21:9"@ } else if i == 1 { "16:9"@ } else if i == 2 { "5:4"@ }
    else if i == 3 { "4:3"@ } else if i == 4 { "3:2"@ } else if i == 5 { "1:1"@ }
    else if i == 6 { "4:5"@ } else if i == 7 { "3:4"@ } else if i == 8 { "2:3"@ }
    else { "9:16"@ }
}

pub open spec fn abs_diff(a: int, b: int) -> int {
    if a >= b { a - b } else { b - a }
}

/// Distance of w/h from table entry `i`, as the numerator of
/// |w/h - ratio_w(i)/ratio_h(i)| over the common denominator h * ratio_h(i).
pub open spec fn ratio_err(w: int, h: int, i: int) -> int {
    abs_diff(w * ratio_h(i), ratio_w(i) * h)
}

/// Entry `i` is strictly closer to w/h than entry `j`: the comparison
/// ratio_err(i)/ratio_h(i) < ratio_err(j)/ratio_h(j), cross-multiplied by the
/// positive denominators (the common factor h cancels).
pub open spec fn strictly_closer(w: int, h: int, i: int, j: int) -> bool {
    ratio_err(w, h, i) * ratio_h(j) < ratio_err(w, h, j) * ratio_h(i)
}

/// The entry chosen among the first `n` table entries: the scan keeps the
/// current best and replaces it only by a strictly closer later entry, so the
/// result is the first entry achieving the minimum distance.
pub open spec fn best_upto(w: int, h: int, n: int) -> int
    decreases n,
{
    if n <= 1 {
        0
    } else if strictly_closer(w, h, n - 1, best_upto(w, h, n - 1)) {
        n - 1
    } else {
        best_upto(w, h, n - 1)
    }
}

/// Index of the resolved aspect ratio for a w x h raster. A height of zero
/// leaves the ratio undefined; 1:1 (entry 5) is returned for it.
pub open spec fn resolve_index(w: int, h: int) -> int {
    if h <= 0 { 5 } else { best_upto(w, h, 10) }
}

proof fn lemma_frac_lt_le_trans(n1: int, d1: int, n2: int, d2: int, n3: int, d3: int)
    by (nonlinear_arith)
    requires
        d1 > 0,
        d2 > 0,
        d3 > 0,
        n1 * d2 < n2 * d1,
        n2 * d3 <= n3 * d2,
    ensures
        n1 * d3 < n3 * d1,
{
}

/// The chosen entry is in range, no entry is strictly closer than it, and it
/// is strictly closer than every entry before it: it is the first entry
/// achieving the minimum distance.
pub proof fn lemma_best_upto_first_min(w: int, h: int, n: int)
    requires
        1 <= n,
    ensures
        0 <= best_upto(w, h, n) < n,
        forall|j: int| 0 <= j < n ==> !strictly_closer(w, h, j, best_upto(w, h, n)),
        forall|j: int| 0 <= j < best_upto(w, h, n) ==> strictly_closer(w, h, best_upto(w, h, n), j),
    decreases n,
{
    if n == 1 {
        assert(!strictly_closer(w, h, 0, 0));
    } else {
        let b = best_upto(w, h, n - 1);
        lemma_best_upto_first_min(w, h, n - 1);
        if strictly_closer(w, h, n - 1, b) {
            assert(!strictly_closer(w, h, n - 1, n - 1));
            assert forall|j: int| 0 <= j < n - 1 implies !#[trigger] strictly_closer(w, h, j, n - 1) by {
                assert(!strictly_closer(w, h, j, b));
                lemma_frac_lt_le_trans(
                    ratio_err(w, h, n - 1), ratio_h(n - 1),
                    ratio_err(w, h, b), ratio_h(b),
                    ratio_err(w, h, j), ratio_h(j),
                );
            }
            assert forall|j: int| 0 <= j < n - 1 implies #[trigger] strictly_closer(w, h, n - 1, j) by {
                assert(!strictly_closer(w, h, j, b));
                lemma_frac_lt_le_trans(
                    ratio_err(w, h, n - 1), ratio_h(n - 1),
                    ratio_err(w, h, b), ratio_h(b),
                    ratio_err(w, h, j), ratio_h(j),
                );
            }
        }
    }
}

proof fn lemma_abs_diff_scales(a: int, b: int, k: int)
    by (nonlinear_arith)
    requires
        k > 0,
    ensures
        abs_diff(k * a, k * b) == k * abs_diff(a, b),
{
}

proof fn lemma_err_scales(w: int, h: int, k: int, i: int)
    requires
        k > 0,
    ensures
        ratio_err(k * w, k * h, i) == k * ratio_err(w, h, i),
{
    assert((k * w) * ratio_h(i) == k * (w * ratio_h(i))) by (nonlinear_arith);
    assert(ratio_w(i) * (k * h) == k * (ratio_w(i) * h)) by (nonlinear_arith);
    lemma_abs_diff_scales(w * ratio_h(i), ratio_w(i) * h, k);
}

proof fn lemma_mul_lt_cancel(k: int, a: int, b: int, c: int, d: int)
    by (nonlinear_arith)
    requires
        k > 0,
    ensures
        ((k * a) * c < (k * b) * d) == (a * c < b * d),
{
}

proof fn lemma_closer_scales(w: int, h: int, k: int, i: int, j: int)
    requires
        k > 0,
    ensures
        strictly_closer(k * w, k * h, i, j) == strictly_closer(w, h, i, j),
{
    lemma_err_scales(w, h, k, i);
    lemma_err_scales(w, h, k, j);
    lemma_mul_lt_cancel(
        k, ratio_err(w, h, i), ratio_err(w, h, j), ratio_h(j), ratio_h(i),
    );
}

proof fn lemma_best_upto_scales(w: int, h: int, k: int, n: int)
    requires
        k > 0,
    ensures
        best_upto(k * w, k * h, n) == best_upto(w, h, n),
    decreases n,
{
    if n > 1 {
        lemma_best_upto_scales(w, h, k, n - 1);
        lemma_closer_scales(w, h, k, n - 1, best_upto(w, h, n - 1));
    }
}

/// Resolution is scale-invariant: a raster and any positive integer multiple
/// of it resolve to the same aspect ratio.
pub proof fn lemma_resolve_scale_invariant(w: int, h: int, k: int)
    requires
        k > 0,
        h >= 0,
    ensures
        resolve_index(k * w, k * h) == resolve_index(w, h),
{
    if h > 0 {
        assert(k * h > 0) by (nonlinear_arith)
            requires k > 0 && h > 0;
        lemma_best_upto_scales(w, h, k, 10);
    } else {
        assert(k * h == 0);
    }
}

fn abs_diff_u64(a: u64, b: u64) -> (r: u64)
    ensures
        r == abs_diff(a as int, b as int),
{
    if a >= b { a - b } else { b - a }
}

fn entry_w(i: usize) -> (r: u64)
    requires
        i < 10,
    ensures
        r == ratio_w(i as int),
{
    if i == 0 { 21 } else if i == 1 { 16 } else if i == 2 { 5 } else if i == 3 { 4 }
    else if i == 4 { 3 } else if i == 5 { 1 } else if i == 6 { 4 } else if i == 7 { 3 }
    else if i == 8 { 2 } else { 9 }
}

fn entry_h(i: usize) -> (r: u64)
    requires
        i < 10,
    ensures
        r == ratio_h(i as int),
{
    if i == 0 { 9 } else if i == 1 { 9 } else if i == 2 { 4 } else if i == 3 { 3 }
    else if i == 4 { 2 } else if i == 5 { 1 } else if i == 6 { 5 } else if i == 7 { 4 }
    else if i == 8 { 3 } else { 16 }
}

fn entry_label(i: usize) -> (r: String)
    requires
        i < 10,
    ensures
        r@ == ratio_label(i as int),
{
    if i == 0 { String::from_str("21:9") } else if i == 1 { String::from_str("16:9") }
    else if i == 2 { String::from_str("5:4") } else if i == 3 { String::from_str("4:3") }
    else if i == 4 { String::from_str("3:2") } else if i == 5 { String::from_str("1:1") }
    else if i == 6 { String::from_str("4:5") } else if i == 7 { String::from_str("3:4") }
    else if i == 8 { String::from_str("2:3") } else { String::from_str("9:16") }
}

fn entry_err(width: u32, height: u32, i: usize) -> (r: u64)
    requires
        i < 10,
    ensures
        r == ratio_err(width as int, height as int, i as int),
        r <= 0x2_0000_0000u64 * 21,
{
    let wq = width as u64 * entry_h(i);
    let ph = entry_w(i) * height as u64;
    assert(wq <= 0x2_0000_0000u64 * 21 && ph <= 0x2_0000_0000u64 * 21) by (nonlinear_arith)
        requires
            wq == width as int * ratio_h(i as int),
            ph == ratio_w(i as int) * height as int,
            width <= 0xffff_ffffu64,
            height <= 0xffff_ffffu64,
            1 <= ratio_h(i as int) <= 16,
            1 <= ratio_w(i as int) <= 21;
    abs_diff_u64(wq, ph)
}

fn closer_exec(width: u32, height: u32, i: usize, j: usize) -> (r: bool)
    requires
        i < 10,
        j < 10,
    ensures
        r == strictly_closer(width as int, height as int, i as int, j as int),
{
    let ei = entry_err(width, height, i);
    let ej = entry_err(width, height, j);
    let qi = entry_h(i);
    let qj = entry_h(j);
    assert(ei * qj <= 0x2_0000_0000u64 * 21 * 16 && ej * qi <= 0x2_0000_0000u64 * 21 * 16)
        by (nonlinear_arith)
        requires
            ei <= 0x2_0000_0000u64 * 21,
            ej <= 0x2_0000_0000u64 * 21,
            0 <= qi <= 16,
            0 <= qj <= 16;
    ei * qj < ej * qi
}

/// Resolve raster dimensions to the label of the closest supported aspect
/// ratio, ties going to the entry listed first in the table.
pub fn calculate_aspect_ratio(width: u32, height: u32) -> (r: String)
    ensures
        r@ == ratio_label(resolve_index(width as int, height as int)),
{
    if height == 0 {
        return String::from_str("1:1");
    }
    let mut best: usize = 0;
    let mut i: usize = 1;
    while i < 10
        invariant
            1 <= i <= 10,
            best < i,
            best == best_upto(width as int, height as int, i as int),
        decreases 10 - i,
    {
        if closer_exec(width, height, i, best) {
            best = i;
        }
        i = i + 1;
    }
    entry_label(best)
}

} // verus!
