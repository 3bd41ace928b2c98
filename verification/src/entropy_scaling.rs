//! Tables of entropy-scaling coefficients.
//!
//! A family of coefficients (viscosity, diffusion, thermal conductivity) has a
//! table only if every component supplies its set. The table has one row per
//! coefficient and one column per component.

use vstd::prelude::*;
use crate::arrays::table;
use crate::number::Number;

verus! {

/// Every component supplies its set of coefficients.
pub open spec fn all_present<const N: usize>(sets: Seq<Option<[Number; N]>>) -> bool {
    forall|i: int| 0 <= i < sets.len() ==> (#[trigger] sets[i]) is Some
}

/// The table of a family: the entry in row `k` and column `i` is coefficient `k`
/// of component `i`.
pub open spec fn coefficient_rows<const N: usize>(sets: Seq<Option<[Number; N]>>) -> Seq<
    Seq<Number>,
> {
    Seq::new(N as nat, |k: int| Seq::new(sets.len(), |i: int| sets[i]->0@[k]))
}

/// The rows of the table of a family, or nothing where a component supplies no
/// set.
pub fn coefficient_table<const N: usize>(sets: &Vec<Option<[Number; N]>>) -> (r: Option<
    Vec<Vec<Number>>,
>)
    ensures
        r is Some <==> all_present(sets@),
        r matches Some(t) ==> table(t@) == coefficient_rows(sets@),
{
    let n: usize = sets.len();
    let mut i: usize = 0;
    while i < n
        invariant
            n == sets@.len(),
            i <= n,
            forall|a: int| 0 <= a < i ==> (#[trigger] sets@[a]) is Some,
        decreases n - i,
    {
        if sets[i].is_none() {
            return None;
        }
        i = i + 1;
    }
    let mut t: Vec<Vec<Number>> = Vec::new();
    let mut k: usize = 0;
    while k < N
        invariant
            n == sets@.len(),
            k <= N,
            all_present(sets@),
            t@.len() == k,
            forall|c: int|
                0 <= c < k ==> (#[trigger] t@[c])@ == Seq::new(
                    sets@.len(),
                    |a: int| sets@[a]->0@[c],
                ),
        decreases N - k,
    {
        let mut row: Vec<Number> = Vec::new();
        let mut a: usize = 0;
        while a < n
            invariant
                n == sets@.len(),
                k < N,
                a <= n,
                all_present(sets@),
                row@ == Seq::new(a as nat, |b: int| sets@[b]->0@[k as int]),
            decreases n - a,
        {
            assert(sets@[a as int] is Some);
            let value: Number = match &sets[a] {
                Some(c) => c[k],
                None => 0,
            };
            row.push(value);
            a = a + 1;
            assert(row@ =~= Seq::new(a as nat, |b: int| sets@[b]->0@[k as int]));
        }
        t.push(row);
        k = k + 1;
    }
    proof {
        assert forall|c: int| 0 <= c < N implies #[trigger] table(t@)[c] == coefficient_rows(
            sets@,
        )[c] by {}
        assert(table(t@) =~= coefficient_rows(sets@));
    }
    Some(t)
}

} // verus!
