//! The table of binary interaction coefficients and the binary association
//! overrides, both read from the binary records.

use vstd::prelude::*;
use crate::errors::ParameterError;
use crate::number::Number;
use crate::number::ONE;
use crate::number::ZERO;
use crate::number::is_nonzero;
use crate::number::nonzero;
use crate::records::BinaryAssociationRecord;
use crate::records::ElectrolytePcSaftBinaryRecord;

verus! {

/// The binary records form a table of `n` rows with `n` records each.
pub open spec fn square(binary: Seq<Vec<ElectrolytePcSaftBinaryRecord>>, n: nat) -> bool {
    &&& binary.len() == n
    &&& forall|i: int| 0 <= i < n ==> (#[trigger] binary[i])@.len() == n
}

/// The number of interaction coefficients that the pair `(i, j)` is given.
pub open spec fn coefficient_count(
    binary: Seq<Vec<ElectrolytePcSaftBinaryRecord>>,
    i: int,
    j: int,
) -> nat {
    binary[i]@[j].k_ij@.len()
}

/// The pair `(a, b)` comes before the pair `(i, j)` where the table is read row by
/// row.
pub open spec fn comes_before(a: int, b: int, i: int, j: int) -> bool {
    a < i || (a == i && b < j)
}

/// No pair of the table is given more than four interaction coefficients.
pub open spec fn within_four(binary: Seq<Vec<ElectrolytePcSaftBinaryRecord>>, n: nat) -> bool {
    forall|i: int, j: int|
        0 <= i < n && 0 <= j < n ==> #[trigger] coefficient_count(binary, i, j) <= 4
}

/// The pair `(i, j)` is the first pair of the table, read row by row, that is
/// given more than four interaction coefficients.
pub open spec fn first_beyond_four(
    binary: Seq<Vec<ElectrolytePcSaftBinaryRecord>>,
    n: nat,
    i: int,
    j: int,
) -> bool {
    &&& 0 <= i < n
    &&& 0 <= j < n
    &&& coefficient_count(binary, i, j) > 4
    &&& forall|a: int, b: int|
        0 <= a < n && 0 <= b < n && comes_before(a, b, i, j) ==> #[trigger] coefficient_count(
            binary,
            a,
            b,
        ) <= 4
}

/// Coefficient `k` as the binary records give it for the pair `(i, j)`: zero
/// where there are no binary records or the pair is given fewer coefficients.
pub open spec fn supplied(
    binary: Option<Vec<Vec<ElectrolytePcSaftBinaryRecord>>>,
    i: int,
    j: int,
    k: int,
) -> Number {
    match binary {
        Some(b) => if k < coefficient_count(b@, i, j) {
            b@[i]@[j].k_ij@[k]
        } else {
            ZERO
        },
        None => ZERO,
    }
}

/// The four interaction coefficients of the pair `(i, j)`. A charged component has
/// with itself the coefficients one, zero, zero, zero, whatever the binary
/// records say. Every other pair has what the binary records give it, filled up
/// with zeros.
pub open spec fn interaction(
    binary: Option<Vec<Vec<ElectrolytePcSaftBinaryRecord>>>,
    charges: Seq<Number>,
    i: int,
    j: int,
) -> Seq<Number> {
    if i == j && is_nonzero(charges[i]) {
        seq![ONE, ZERO, ZERO, ZERO]
    } else {
        Seq::new(4, |k: int| supplied(binary, i, j, k))
    }
}

/// The whole table of interaction coefficients of `n` components.
pub open spec fn interaction_table(
    binary: Option<Vec<Vec<ElectrolytePcSaftBinaryRecord>>>,
    charges: Seq<Number>,
    n: nat,
) -> Seq<Seq<Seq<Number>>> {
    Seq::new(n, |i: int| Seq::new(n, |j: int| interaction(binary, charges, i, j)))
}

/// Tests whether the binary records form a table of `n` rows with `n` records
/// each.
pub fn is_square(binary: &Vec<Vec<ElectrolytePcSaftBinaryRecord>>, n: usize) -> (r: bool)
    ensures
        r == square(binary@, n as nat),
{
    if binary.len() != n {
        return false;
    }
    let mut i: usize = 0;
    while i < n
        invariant
            binary@.len() == n,
            i <= n,
            forall|a: int| 0 <= a < i ==> (#[trigger] binary@[a])@.len() == n,
        decreases n - i,
    {
        if binary[i].len() != n {
            return false;
        }
        i = i + 1;
    }
    true
}

/// The four interaction coefficients of one pair.
fn pair_coefficients(
    binary: &Option<Vec<Vec<ElectrolytePcSaftBinaryRecord>>>,
    charges: &Vec<Number>,
    n: usize,
    i: usize,
    j: usize,
) -> (r: Vec<Number>)
    requires
        i < n,
        j < n,
        charges@.len() == n,
        binary matches Some(b) ==> square(b@, n as nat) && coefficient_count(
            b@,
            i as int,
            j as int,
        ) <= 4,
    ensures
        r@ == interaction(*binary, charges@, i as int, j as int),
{
    let mut out: Vec<Number> = Vec::new();
    if i == j && nonzero(charges[i]) {
        out.push(ONE);
        out.push(ZERO);
        out.push(ZERO);
        out.push(ZERO);
        assert(out@ =~= seq![ONE, ZERO, ZERO, ZERO]);
        return out;
    }
    let mut k: usize = 0;
    while k < 4
        invariant
            i < n,
            j < n,
            k <= 4,
            binary matches Some(b) ==> square(b@, n as nat),
            out@ == Seq::new(k as nat, |c: int| supplied(*binary, i as int, j as int, c)),
        decreases 4 - k,
    {
        let value: Number = match binary {
            Some(b) => {
                assert(b@[i as int]@.len() == n);
                if k < b[i][j].k_ij.len() {
                    b[i][j].k_ij[k]
                } else {
                    ZERO
                }
            },
            None => ZERO,
        };
        out.push(value);
        k = k + 1;
        assert(out@ =~= Seq::new(k as nat, |c: int| supplied(*binary, i as int, j as int, c)));
    }
    out
}

/// The table of interaction coefficients of `n` components with the given
/// charges.
///
/// Binary records that do not form a square table are rejected, and so is a
/// table in which a pair has more than four coefficients: the error names the
/// first such pair, read row by row, and the number of its coefficients.
pub fn interaction_coefficients(
    binary: &Option<Vec<Vec<ElectrolytePcSaftBinaryRecord>>>,
    charges: &Vec<Number>,
) -> (r: Result<Vec<Vec<Vec<Number>>>, ParameterError>)
    ensures
        match r {
            Ok(t) => {
                &&& binary matches Some(b) ==> square(b@, charges@.len()) && within_four(
                    b@,
                    charges@.len(),
                )
                &&& crate::arrays::list_table(t@) == interaction_table(
                    *binary,
                    charges@,
                    charges@.len(),
                )
            },
            Err(ParameterError::BinaryRecordShape) => {
                &&& binary matches Some(b)
                &&& !square(b@, charges@.len())
            },
            Err(ParameterError::InteractionCoefficients { i, j, count }) => {
                &&& binary matches Some(b)
                &&& square(b@, charges@.len())
                &&& first_beyond_four(b@, charges@.len(), i as int, j as int)
                &&& count == coefficient_count(b@, i as int, j as int)
            },
            Err(_) => false,
        },
{
    let n: usize = charges.len();
    match binary {
        Some(b) => {
            if !is_square(b, n) {
                return Err(ParameterError::BinaryRecordShape);
            }
        },
        None => {},
    }
    let mut t: Vec<Vec<Vec<Number>>> = Vec::new();
    let mut i: usize = 0;
    while i < n
        invariant
            n == charges@.len(),
            i <= n,
            binary matches Some(b) ==> square(b@, n as nat),
            binary matches Some(b) ==> forall|a: int, c: int|
                0 <= a < i && 0 <= c < n ==> #[trigger] coefficient_count(b@, a, c) <= 4,
            t@.len() == i,
            forall|a: int| 0 <= a < i ==> (#[trigger] t@[a])@.len() == n,
            forall|a: int, c: int|
                0 <= a < i && 0 <= c < n ==> (#[trigger] t@[a]@[c])@ == interaction(
                    *binary,
                    charges@,
                    a,
                    c,
                ),
        decreases n - i,
    {
        let mut row: Vec<Vec<Number>> = Vec::new();
        let mut j: usize = 0;
        while j < n
            invariant
                n == charges@.len(),
                i < n,
                j <= n,
                binary matches Some(b) ==> square(b@, n as nat),
                binary matches Some(b) ==> forall|a: int, c: int|
                    0 <= a < i && 0 <= c < n ==> #[trigger] coefficient_count(b@, a, c) <= 4,
                binary matches Some(b) ==> forall|c: int|
                    0 <= c < j ==> #[trigger] coefficient_count(b@, i as int, c) <= 4,
                row@.len() == j,
                forall|c: int|
                    0 <= c < j ==> (#[trigger] row@[c])@ == interaction(
                        *binary,
                        charges@,
                        i as int,
                        c,
                    ),
            decreases n - j,
        {
            match binary {
                Some(b) => {
                    assert(b@[i as int]@.len() == n);
                    let count: usize = b[i][j].k_ij.len();
                    if count > 4 {
                        assert(count == coefficient_count(b@, i as int, j as int));
                        assert forall|a: int, c: int|
                            0 <= a < n && 0 <= c < n && comes_before(
                                a,
                                c,
                                i as int,
                                j as int,
                            ) implies #[trigger] coefficient_count(b@, a, c) <= 4 by {}
                        return Err(ParameterError::InteractionCoefficients { i, j, count });
                    }
                },
                None => {},
            }
            let entry = pair_coefficients(binary, charges, n, i, j);
            row.push(entry);
            j = j + 1;
        }
        t.push(row);
        i = i + 1;
    }
    proof {
        let lt = crate::arrays::list_table(t@);
        let it = interaction_table(*binary, charges@, n as nat);
        assert forall|a: int| 0 <= a < n implies #[trigger] lt[a] == it[a] by {
            assert(t@[a]@.len() == n);
            assert forall|c: int| 0 <= c < n implies lt[a][c] == it[a][c] by {
                assert(t@[a]@[c]@ == interaction(*binary, charges@, a, c));
            }
            assert(lt[a] =~= it[a]);
        }
        assert(lt =~= it);
    }
    Ok(t)
}

/// The association overrides of the first `m` records of row `i`, each with the
/// pair that it belongs to.
pub open spec fn row_overrides(
    row: Seq<ElectrolytePcSaftBinaryRecord>,
    i: usize,
    m: nat,
) -> Seq<((usize, usize), BinaryAssociationRecord)>
    decreases m,
{
    if m == 0 {
        Seq::empty()
    } else {
        let before = row_overrides(row, i, (m - 1) as nat);
        match row[m - 1].association {
            Some(a) => before.push(((i, (m - 1) as usize), a)),
            None => before,
        }
    }
}

/// The association overrides of the first `k` rows of the binary records, read
/// row by row, each with the pair that it belongs to.
pub open spec fn overrides(binary: Seq<Vec<ElectrolytePcSaftBinaryRecord>>, k: nat) -> Seq<
    ((usize, usize), BinaryAssociationRecord),
>
    decreases k,
{
    if k == 0 {
        Seq::empty()
    } else {
        overrides(binary, (k - 1) as nat) + row_overrides(
            binary[k - 1]@,
            (k - 1) as usize,
            binary[k - 1]@.len(),
        )
    }
}

/// What `row_overrides` holds: exactly the overrides of the first `m` records of
/// the row, each once and with its pair, in the order of the columns.
pub proof fn lemma_row_overrides(row: Seq<ElectrolytePcSaftBinaryRecord>, i: usize, m: nat)
    requires
        m <= row.len(),
        m <= usize::MAX,
    ensures
        forall|x: int|
            0 <= x < row_overrides(row, i, m).len() ==> {
                let o = #[trigger] row_overrides(row, i, m)[x];
                o.0.0 == i && o.0.1 < m && row[o.0.1 as int].association == Some(o.1)
            },
        forall|x: int, y: int|
            0 <= x < y < row_overrides(row, i, m).len() ==> (#[trigger] row_overrides(
                row,
                i,
                m,
            )[x]).0.1 < (#[trigger] row_overrides(row, i, m)[y]).0.1,
        forall|j: int|
            0 <= j < m && row[j].association is Some ==> row_overrides(row, i, m).contains(
                ((i, j as usize), (#[trigger] row[j]).association->0),
            ),
    decreases m,
{
    if m > 0 {
        let before = row_overrides(row, i, (m - 1) as nat);
        let now = row_overrides(row, i, m);
        lemma_row_overrides(row, i, (m - 1) as nat);
        match row[m - 1].association {
            Some(a) => {
                assert(now == before.push(((i, (m - 1) as usize), a)));
                assert(now[now.len() - 1] == ((i, (m - 1) as usize), a));
            },
            None => {
                assert(now == before);
            },
        }
        assert forall|j: int| 0 <= j < m && row[j].association is Some implies now.contains(
            ((i, j as usize), (#[trigger] row[j]).association->0),
        ) by {
            let o = ((i, j as usize), row[j].association->0);
            if j < m - 1 {
                let x = choose|x: int| 0 <= x < before.len() && before[x] == o;
                assert(now[x] == o);
            } else {
                assert(now[now.len() - 1] == o);
            }
        }
    }
}

/// What `overrides` holds: exactly the overrides of the first `k` rows, each once
/// and with its pair, in the order in which the table is read row by row.
pub proof fn lemma_overrides(binary: Seq<Vec<ElectrolytePcSaftBinaryRecord>>, k: nat)
    requires
        k <= binary.len(),
        k <= usize::MAX,
        forall|i: int| 0 <= i < k ==> (#[trigger] binary[i])@.len() <= usize::MAX,
    ensures
        forall|x: int|
            0 <= x < overrides(binary, k).len() ==> {
                let o = #[trigger] overrides(binary, k)[x];
                o.0.0 < k && o.0.1 < binary[o.0.0 as int]@.len()
                    && binary[o.0.0 as int]@[o.0.1 as int].association == Some(o.1)
            },
        forall|x: int, y: int|
            0 <= x < y < overrides(binary, k).len() ==> comes_before(
                (#[trigger] overrides(binary, k)[x]).0.0 as int,
                overrides(binary, k)[x].0.1 as int,
                (#[trigger] overrides(binary, k)[y]).0.0 as int,
                overrides(binary, k)[y].0.1 as int,
            ),
        forall|i: int, j: int|
            0 <= i < k && 0 <= j < binary[i]@.len() && binary[i]@[j].association is Some
                ==> overrides(binary, k).contains(
                ((i as usize, j as usize), (#[trigger] binary[i]@[j]).association->0),
            ),
    decreases k,
{
    if k > 0 {
        let before = overrides(binary, (k - 1) as nat);
        let row = binary[k - 1]@;
        let last = row_overrides(row, (k - 1) as usize, row.len());
        let now = overrides(binary, k);
        lemma_overrides(binary, (k - 1) as nat);
        lemma_row_overrides(row, (k - 1) as usize, row.len());
        assert(now == before + last);
        assert forall|x: int| 0 <= x < now.len() implies {
            let o = #[trigger] now[x];
            o.0.0 < k && o.0.1 < binary[o.0.0 as int]@.len()
                && binary[o.0.0 as int]@[o.0.1 as int].association == Some(o.1)
        } by {
            if x < before.len() {
                assert(now[x] == before[x]);
            } else {
                assert(now[x] == last[x - before.len()]);
            }
        }
        assert forall|x: int, y: int| 0 <= x < y < now.len() implies comes_before(
            (#[trigger] now[x]).0.0 as int,
            now[x].0.1 as int,
            (#[trigger] now[y]).0.0 as int,
            now[y].0.1 as int,
        ) by {
            if y < before.len() {
                assert(now[x] == before[x] && now[y] == before[y]);
            } else if x < before.len() {
                assert(now[x] == before[x] && now[y] == last[y - before.len()]);
            } else {
                assert(now[x] == last[x - before.len()] && now[y] == last[y - before.len()]);
            }
        }
        assert forall|i: int, j: int|
            0 <= i < k && 0 <= j < binary[i]@.len() && binary[i]@[j].association is Some implies now.contains(
            ((i as usize, j as usize), (#[trigger] binary[i]@[j]).association->0),
        ) by {
            let o = ((i as usize, j as usize), binary[i]@[j].association->0);
            if i < k - 1 {
                let x = choose|x: int| 0 <= x < before.len() && before[x] == o;
                assert(now[x] == o);
            } else {
                assert(last.contains((((k - 1) as usize, j as usize), row[j].association->0)));
                let x = choose|x: int| 0 <= x < last.len() && last[x] == o;
                assert(now[before.len() + x] == o);
            }
        }
    }
}

/// The list `r` holds exactly the overrides of the binary records, each once and
/// with its pair, in the order in which the table is read row by row.
pub open spec fn lists_overrides(
    binary: Seq<Vec<ElectrolytePcSaftBinaryRecord>>,
    r: Seq<((usize, usize), BinaryAssociationRecord)>,
) -> bool {
    &&& forall|x: int|
        0 <= x < r.len() ==> {
            let o = #[trigger] r[x];
            o.0.0 < binary.len() && o.0.1 < binary[o.0.0 as int]@.len()
                && binary[o.0.0 as int]@[o.0.1 as int].association == Some(o.1)
        }
    &&& forall|x: int, y: int|
        0 <= x < y < r.len() ==> comes_before(
            (#[trigger] r[x]).0.0 as int,
            r[x].0.1 as int,
            (#[trigger] r[y]).0.0 as int,
            r[y].0.1 as int,
        )
    &&& forall|i: int, j: int|
        0 <= i < binary.len() && 0 <= j < binary[i]@.len() && binary[i]@[j].association is Some
            ==> r.contains(((i as usize, j as usize), (#[trigger] binary[i]@[j]).association->0))
}

/// The association overrides that the binary records hold, none where there are
/// no binary records.
pub open spec fn association_overrides(
    binary: Option<Vec<Vec<ElectrolytePcSaftBinaryRecord>>>,
) -> Seq<((usize, usize), BinaryAssociationRecord)> {
    match binary {
        Some(b) => overrides(b@, b@.len()),
        None => Seq::empty(),
    }
}

/// Collects the association overrides of the binary records, row by row.
pub fn binary_association(binary: &Option<Vec<Vec<ElectrolytePcSaftBinaryRecord>>>) -> (r: Vec<
    ((usize, usize), BinaryAssociationRecord),
>)
    ensures
        r@ == association_overrides(*binary),
        binary matches Some(b) ==> lists_overrides(b@, r@),
{
    let mut out: Vec<((usize, usize), BinaryAssociationRecord)> = Vec::new();
    match binary {
        Some(b) => {
            proof {
                assert(b.len() == b@.len());
                assert forall|i: int| 0 <= i < b@.len() implies (#[trigger] b@[i])@.len()
                    <= usize::MAX by {
                    assert(b@[i].len() == b@[i]@.len());
                }
                lemma_overrides(b@, b@.len());
            }
            let mut i: usize = 0;
            while i < b.len()
                invariant
                    i <= b@.len(),
                    out@ == overrides(b@, i as nat),
                decreases b@.len() - i,
            {
                let row = &b[i];
                let ghost start = out@;
                let mut j: usize = 0;
                while j < row.len()
                    invariant
                        j <= row@.len(),
                        out@ == start + row_overrides(row@, i, j as nat),
                    decreases row@.len() - j,
                {
                    match row[j].association {
                        Some(a) => {
                            out.push(((i, j), a));
                            assert(out@ =~= start + row_overrides(row@, i, (j + 1) as nat));
                        },
                        None => {},
                    }
                    j = j + 1;
                }
                i = i + 1;
            }
        },
        None => {},
    }
    out
}

} // verus!
