//! Index lists: the components that fall into a class, in component order.

use vstd::prelude::*;
use crate::number::Number;
use crate::number::has_magnitude;
use crate::number::is_nonzero;
use crate::number::is_zero;
use crate::number::magnitude_exceeds_zero;
use crate::number::nonzero;

verus! {

/// The positions below `k` at which `flags` holds, in increasing order.
pub open spec fn positions(flags: Seq<bool>, k: nat) -> Seq<usize>
    decreases k,
{
    if k == 0 {
        Seq::empty()
    } else {
        let before = positions(flags, (k - 1) as nat);
        if flags[k - 1] {
            before.push((k - 1) as usize)
        } else {
            before
        }
    }
}

/// For each number, whether it differs from zero.
pub open spec fn nonzero_flags(values: Seq<Number>) -> Seq<bool> {
    Seq::new(values.len(), |i: int| is_nonzero(values[i]))
}

/// For each number, whether it is zero.
pub open spec fn zero_flags(values: Seq<Number>) -> Seq<bool> {
    Seq::new(values.len(), |i: int| is_zero(values[i]))
}

/// For each pattern, whether it encodes a number whose magnitude exceeds zero.
pub open spec fn magnitude_flags(values: Seq<Number>) -> Seq<bool> {
    Seq::new(values.len(), |i: int| has_magnitude(values[i]))
}

/// The positions of the numbers whose magnitude exceeds zero, in increasing
/// order.
pub open spec fn magnitude_positions(values: Seq<Number>) -> Seq<usize> {
    positions(magnitude_flags(values), values.len())
}

/// The positions of the numbers that differ from zero, in increasing order.
pub open spec fn nonzero_positions(values: Seq<Number>) -> Seq<usize> {
    positions(nonzero_flags(values), values.len())
}

/// The positions of the numbers that are zero, in increasing order.
pub open spec fn zero_positions(values: Seq<Number>) -> Seq<usize> {
    positions(zero_flags(values), values.len())
}

/// What `positions` holds: exactly the positions below `k` at which the flag
/// holds, each once, in strictly increasing order.
pub proof fn lemma_positions(flags: Seq<bool>, k: nat)
    requires
        k <= flags.len(),
        k <= usize::MAX,
    ensures
        positions(flags, k).len() <= k,
        forall|a: int| 0 <= a < positions(flags, k).len() ==> (#[trigger] positions(flags, k)[a]) < k,
        forall|a: int|
            0 <= a < positions(flags, k).len() ==> flags[(#[trigger] positions(
                flags,
                k,
            )[a]) as int],
        forall|a: int, b: int|
            0 <= a < b < positions(flags, k).len() ==> (#[trigger] positions(flags, k)[a]) < (
            #[trigger] positions(flags, k)[b]),
        forall|i: int|
            0 <= i < k && flags[i] ==> positions(flags, k).contains(#[trigger] (i as usize)),
    decreases k,
{
    if k > 0 {
        let before = positions(flags, (k - 1) as nat);
        lemma_positions(flags, (k - 1) as nat);
        let now = positions(flags, k);
        if flags[k - 1] {
            assert(now == before.push((k - 1) as usize));
            assert(now[now.len() - 1] == (k - 1) as usize);
            assert forall|i: int| 0 <= i < k && flags[i] implies now.contains(
                #[trigger] (i as usize),
            ) by {
                if i < k - 1 {
                    let a = choose|a: int| 0 <= a < before.len() && before[a] == i as usize;
                    assert(now[a] == i as usize);
                } else {
                    assert(now[now.len() - 1] == i as usize);
                }
            }
        } else {
            assert(now == before);
        }
    }
}

/// A position occurs in `positions` exactly if it is below `k` and its flag
/// holds.
pub proof fn lemma_positions_contains(flags: Seq<bool>, k: nat, i: usize)
    requires
        k <= flags.len(),
        k <= usize::MAX,
    ensures
        positions(flags, k).contains(i) <==> (i < k && flags[i as int]),
{
    lemma_positions(flags, k);
    if positions(flags, k).contains(i) {
        let a = choose|a: int| 0 <= a < positions(flags, k).len() && positions(flags, k)[a] == i;
        assert(positions(flags, k)[a] < k);
    }
    if i < k && flags[i as int] {
        assert(positions(flags, k).contains((i as int) as usize));
    }
}

/// Two classes that complement each other share no position, and together they
/// hold every position: each position below the length is in exactly one of the
/// two lists, and the lengths of the two lists add up to the length.
pub proof fn lemma_complement_partition(flags: Seq<bool>, others: Seq<bool>, k: nat)
    requires
        k <= flags.len(),
        flags.len() == others.len(),
        k <= usize::MAX,
        forall|i: int| 0 <= i < flags.len() ==> flags[i] == !others[i],
    ensures
        positions(flags, k).to_set().disjoint(positions(others, k).to_set()),
        positions(flags, k).to_set().union(positions(others, k).to_set()) =~= Set::new(
            |i: usize| i < k,
        ),
        positions(flags, k).len() + positions(others, k).len() == k,
    decreases k,
{
    let a = positions(flags, k);
    let b = positions(others, k);
    assert forall|i: usize| !(a.to_set().contains(i) && b.to_set().contains(i)) by {
        lemma_positions_contains(flags, k, i);
        lemma_positions_contains(others, k, i);
    }
    assert forall|i: usize| (a.to_set().contains(i) || b.to_set().contains(i)) <==> i < k by {
        lemma_positions_contains(flags, k, i);
        lemma_positions_contains(others, k, i);
    }
    if k > 0 {
        lemma_complement_partition(flags, others, (k - 1) as nat);
    }
}

/// The positions found below `c` are the first of the positions found below any
/// larger bound.
pub proof fn lemma_positions_prefix(flags: Seq<bool>, c: nat, n: nat)
    requires
        c <= n,
    ensures
        positions(flags, c).len() <= positions(flags, n).len(),
        forall|a: int|
            0 <= a < positions(flags, c).len() ==> positions(flags, c)[a] == positions(
                flags,
                n,
            )[a],
    decreases n - c,
{
    if c < n {
        lemma_positions_prefix(flags, c, (n - 1) as nat);
    }
}

/// The positions at which `flags` holds, in increasing order.
pub fn select(flags: &Vec<bool>) -> (r: Vec<usize>)
    ensures
        r@ == positions(flags@, flags@.len()),
{
    let n: usize = flags.len();
    let mut out: Vec<usize> = Vec::new();
    let mut i: usize = 0;
    while i < n
        invariant
            n == flags@.len(),
            i <= n,
            out@ == positions(flags@, i as nat),
        decreases n - i,
    {
        if flags[i] {
            out.push(i);
        }
        i = i + 1;
    }
    out
}

/// The positions of the numbers whose magnitude exceeds zero, in increasing
/// order.
pub fn with_magnitude(values: &Vec<Number>) -> (r: Vec<usize>)
    ensures
        r@ == magnitude_positions(values@),
{
    let n: usize = values.len();
    let mut out: Vec<usize> = Vec::new();
    let mut i: usize = 0;
    while i < n
        invariant
            n == values@.len(),
            i <= n,
            out@ == positions(magnitude_flags(values@), i as nat),
        decreases n - i,
    {
        if magnitude_exceeds_zero(values[i]) {
            out.push(i);
        }
        i = i + 1;
    }
    out
}

/// The positions of the numbers that differ from zero, and the positions of those
/// that are zero, each in increasing order.
pub fn split_by_zero(values: &Vec<Number>) -> (r: (Vec<usize>, Vec<usize>))
    ensures
        r.0@ == nonzero_positions(values@),
        r.1@ == zero_positions(values@),
{
    let n: usize = values.len();
    let mut differ: Vec<usize> = Vec::new();
    let mut vanish: Vec<usize> = Vec::new();
    let mut i: usize = 0;
    while i < n
        invariant
            n == values@.len(),
            i <= n,
            differ@ == positions(nonzero_flags(values@), i as nat),
            vanish@ == positions(zero_flags(values@), i as nat),
        decreases n - i,
    {
        if nonzero(values[i]) {
            differ.push(i);
        } else {
            vanish.push(i);
        }
        i = i + 1;
    }
    (differ, vanish)
}

} // verus!
