use vstd::prelude::*;

use crate::float_bits::{is_finite, is_finite_bits};

verus! {

/// Applies `f` to every element of `input`, in index order, and returns the
/// results in a new buffer of the same length. `input` is only read.
pub fn map_elements<T, U, F: Fn(&T) -> U>(input: &[T], f: F) -> (r: Vec<U>)
    requires
        forall|i: int| 0 <= i < input@.len() ==> f.requires((&input@[i],)),
    ensures
        r@.len() == input@.len(),
        forall|i: int| 0 <= i < input@.len() ==> f.ensures((&input@[i],), #[trigger] r@[i]),
{
    let mut out: Vec<U> = Vec::with_capacity(input.len());
    let mut k: usize = 0;
    while k < input.len()
        invariant
            k <= input@.len(),
            out@.len() == k,
            forall|i: int| 0 <= i < input@.len() ==> f.requires((&input@[i],)),
            forall|i: int| 0 <= i < k ==> f.ensures((&input@[i],), #[trigger] out@[i]),
        decreases input@.len() - k,
    {
        let y = f(&input[k]);
        out.push(y);
        k = k + 1;
    }
    out
}

/// A price/volume pair takes part in a weighted average only when both
/// values are finite.
pub open spec fn pair_counts(price: u64, volume: u64) -> bool {
    is_finite_bits(price) && is_finite_bits(volume)
}

/// The indices below `n` whose pairs take part in the average, in increasing
/// order.
pub open spec fn counted_indices(prices: Seq<u64>, volumes: Seq<u64>, n: nat) -> Seq<usize>
    decreases n,
{
    if n == 0 {
        Seq::empty()
    } else {
        let earlier = counted_indices(prices, volumes, (n - 1) as nat);
        if pair_counts(prices[n - 1], volumes[n - 1]) {
            earlier.push((n - 1) as usize)
        } else {
            earlier
        }
    }
}

/// Decides how a volume-weighted average of `prices` by `volumes` is formed.
///
/// Returns `None` when the buffers differ in length or are empty: the average
/// is then the sentinel zero. Otherwise returns the indices of the pairs whose
/// price and volume are both finite, in increasing order; the products and the
/// volumes of exactly these pairs, summed in this order, give the numerator and
/// the denominator. Neither buffer is changed.
pub fn vwap_selection(prices: &[u64], volumes: &[u64]) -> (r: Option<Vec<usize>>)
    ensures
        r is None <==> (prices@.len() != volumes@.len() || prices@.len() == 0),
        r matches Some(idx) ==> idx@ == counted_indices(prices@, volumes@, prices@.len()),
{
    let n = prices.len();
    if volumes.len() != n || n == 0 {
        return None;
    }
    let mut idx: Vec<usize> = Vec::new();
    let mut k: usize = 0;
    while k < n
        invariant
            n == prices@.len(),
            n == volumes@.len(),
            k <= n,
            idx@ == counted_indices(prices@, volumes@, k as nat),
        decreases n - k,
    {
        if is_finite(volumes[k]) && is_finite(prices[k]) {
            idx.push(k);
        }
        k = k + 1;
    }
    Some(idx)
}

/// The selection made for a weighted average is exact: its entries are
/// strictly increasing indices of the buffers, and an index is among them if
/// and only if both the price and the volume at that index are finite. Pairs
/// holding a NaN or an infinity are left out of both sums.
pub proof fn lemma_selection_exact(prices: Seq<u64>, volumes: Seq<u64>, n: nat)
    requires
        n <= prices.len(),
        n <= volumes.len(),
        n <= usize::MAX + 1,
    ensures
        forall|a: int, b: int|
            0 <= a < b < counted_indices(prices, volumes, n).len() ==> counted_indices(prices, volumes, n)[a]
                < counted_indices(prices, volumes, n)[b],
        forall|a: int|
            0 <= a < counted_indices(prices, volumes, n).len() ==> #[trigger] counted_indices(prices, volumes, n)[a] < n,
        forall|j: int|
            0 <= j < n ==> (pair_counts(prices[j], volumes[j]) <==> counted_indices(prices, volumes, n).contains(
                j as usize,
            )),
    decreases n,
{
    if n > 0 {
        let m = (n - 1) as nat;
        lemma_selection_exact(prices, volumes, m);
        let earlier = counted_indices(prices, volumes, m);
        let now = counted_indices(prices, volumes, n);
        assert forall|j: int| 0 <= j < n implies (pair_counts(prices[j], volumes[j]) <==> now.contains(
            j as usize,
        )) by {
            if j < m {
                if now.contains(j as usize) && !earlier.contains(j as usize) {
                    let a = choose|a: int| 0 <= a < now.len() && now[a] == j as usize;
                    assert(a == earlier.len());
                }
                if earlier.contains(j as usize) {
                    let a = choose|a: int| 0 <= a < earlier.len() && earlier[a] == j as usize;
                    assert(now[a] == j as usize);
                }
            } else {
                if pair_counts(prices[j], volumes[j]) {
                    assert(now[now.len() - 1] == j as usize);
                } else if now.contains(j as usize) {
                    let a = choose|a: int| 0 <= a < now.len() && now[a] == j as usize;
                    assert(earlier[a] < m);
                }
            }
        }
    }
}

} // verus!
