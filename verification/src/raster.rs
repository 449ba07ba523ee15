//! Filling one scan line of a bitmap between the places where an outline
//! crosses it.

use vstd::prelude::*;
use vstd::relations::sorted_by;
use vstd::relations::total_ordering;
use vstd::seq_lib::lemma_sorted_unique;

verus! {

/// The order of crossings from left to right.
pub open spec fn ascending() -> spec_fn(i32, i32) -> bool {
    |a: i32, b: i32| a <= b
}

/// The column of pixels in which the crossing `x`, in raw pixel units,
/// lies. A crossing to the left of the bitmap counts as lying in its first
/// column.
pub open spec fn column(x: i32) -> int {
    if x < 0 {
        0
    } else {
        x as int / 64
    }
}

/// Whether the pixel `i` lies in one of the first `pairs` spans of `xs`.
/// Each two crossings that follow each other make a span, which runs from
/// the column of the first to the column before that of the second.
pub open spec fn covered(xs: Seq<i32>, pairs: nat, i: int) -> bool
    decreases pairs,
{
    pairs > 0 && (covered(xs, (pairs - 1) as nat, i) || column(xs[2 * pairs - 2]) <= i < column(
        xs[2 * pairs - 1],
    ))
}

/// The row `row` with every pixel white that lies in a span of `xs`; a
/// crossing without a partner at the end of `xs` makes no span.
pub open spec fn filled(row: Seq<u8>, xs: Seq<i32>) -> Seq<u8> {
    Seq::new(
        row.len(),
        |i: int|
            if covered(xs, xs.len() / 2, i) {
                255u8
            } else {
                row[i]
            },
    )
}

/// The row `row` after the scan line has been filled between the
/// crossings, taken from left to right in pairs.
pub open spec fn scanline(row: Seq<u8>, crossings: Seq<i32>) -> Seq<u8> {
    filled(row, crossings.sort_by(ascending()))
}

proof fn lemma_ascending_is_total()
    ensures
        total_ordering(ascending()),
{
}

/// Puts the crossings into the order from left to right.
pub fn sort_crossings(xs: &Vec<i32>) -> (out: Vec<i32>)
    ensures
        out@ == xs@.sort_by(ascending()),
{
    let mut out: Vec<i32> = Vec::new();
    let mut i: usize = 0;
    proof {
        assert(xs@.subrange(0, 0) =~= Seq::<i32>::empty());
    }
    while i < xs.len()
        invariant
            i <= xs@.len(),
            out@.len() == i,
            sorted_by(out@, ascending()),
            out@.to_multiset() == xs@.subrange(0, i as int).to_multiset(),
        decreases xs.len() - i,
    {
        let v = xs[i];
        let mut j: usize = 0;
        while j < out.len() && out[j] <= v
            invariant
                j <= out@.len(),
                forall|k: int| 0 <= k < j ==> out@[k] <= v,
            decreases out@.len() - j,
        {
            j = j + 1;
        }
        let ghost before = out@;
        out.insert(j, v);
        proof {
            vstd::seq_lib::to_multiset_insert(before, j as int, v);
            vstd::seq_lib::to_multiset_build(xs@.subrange(0, i as int), v);
            assert(xs@.subrange(0, i + 1) =~= xs@.subrange(0, i as int).push(v));
            assert forall|a: int, b: int| 0 <= a < b < out@.len() implies ascending()(
                out@[a],
                out@[b],
            ) by {
                if b < j {
                    assert(out@[a] == before[a] && out@[b] == before[b]);
                } else if b == j {
                    assert(out@[a] == before[a]);
                } else if a < j {
                    assert(out@[a] == before[a] && out@[b] == before[b - 1]);
                    assert(ascending()(before[j as int], before[b - 1]) || j == b - 1);
                } else if a == j {
                    assert(out@[b] == before[b - 1]);
                    assert(ascending()(before[j as int], before[b - 1]) || j == b - 1);
                } else {
                    assert(out@[a] == before[a - 1] && out@[b] == before[b - 1]);
                }
            }
        }
        i = i + 1;
    }
    proof {
        assert(xs@.subrange(0, xs@.len() as int) =~= xs@);
        lemma_ascending_is_total();
        xs@.lemma_sort_by_ensures(ascending());
        lemma_sorted_unique(out@, xs@.sort_by(ascending()), ascending());
    }
    out
}

fn column_of(x: i32) -> (c: usize)
    ensures
        c == column(x),
{
    if x < 0 {
        0
    } else {
        (x / 64) as usize
    }
}

/// Makes the pixels from `from` up to, but without, `until` white.
fn fill_span(row: &mut Vec<u8>, from: usize, until: usize)
    ensures
        final(row)@ == Seq::new(
            old(row)@.len(),
            |i: int|
                if from <= i < until {
                    255u8
                } else {
                    old(row)@[i]
                },
        ),
{
    let n = row.len();
    let stop: usize = if until < n { until } else { n };
    if from >= stop {
        assert(row@ =~= Seq::new(
            old(row)@.len(),
            |i: int|
                if from <= i < until {
                    255u8
                } else {
                    old(row)@[i]
                },
        ));
        return ;
    }
    let mut x: usize = from;
    while x < stop
        invariant
            from <= x <= stop,
            stop <= n,
            n == old(row)@.len(),
            row@.len() == n,
            forall|i: int|
                0 <= i < n ==> row@[i] == (if from <= i < x {
                    255u8
                } else {
                    old(row)@[i]
                }),
        decreases stop - x,
    {
        row.set(x, 255);
        x = x + 1;
    }
    assert(row@ =~= Seq::new(
        old(row)@.len(),
        |i: int|
            if from <= i < until {
                255u8
            } else {
                old(row)@[i]
            },
    ));
}

/// Makes every pixel of the row white that lies in a span of `xs`.
pub fn fill_row(row: &mut Vec<u8>, xs: &Vec<i32>)
    ensures
        final(row)@ == filled(old(row)@, xs@),
{
    let n = row.len();
    let len = xs.len();
    let pairs: usize = len / 2;
    let mut k: usize = 0;
    while k < pairs
        invariant
            k <= pairs,
            len == xs@.len(),
            pairs == len / 2,
            n == old(row)@.len(),
            row@.len() == n,
            forall|i: int|
                0 <= i < n ==> row@[i] == (if covered(xs@, k as nat, i) {
                    255u8
                } else {
                    old(row)@[i]
                }),
        decreases pairs - k,
    {
        let from = column_of(xs[2 * k]);
        let until = column_of(xs[2 * k + 1]);
        fill_span(row, from, until);
        k = k + 1;
    }
    assert(row@ =~= filled(old(row)@, xs@));
}

/// Fills the scan line between the crossings, which may come in any order.
pub fn fill_scanline(row: &mut Vec<u8>, crossings: &Vec<i32>)
    ensures
        final(row)@ == scanline(old(row)@, crossings@),
{
    let xs = sort_crossings(crossings);
    fill_row(row, &xs);
}

} // verus!
