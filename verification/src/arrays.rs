//! The arrays of the parameter set.
//!
//! The arrays are those of the `ndarray` crate. Each kind of array is held inside a
//! struct of this module, and what it holds is named by a specification function.
//! The functions that make the calls into `ndarray` are private and their contracts
//! are unproved statements about that crate; everything else is verified
//! against them.

use vstd::prelude::*;
use crate::number::Number;
use crate::number::ZERO;

verus! {

/// A one-dimensional `ndarray` array of component indices.
#[verifier::external_body]
pub struct IndexArray {
    inner: ndarray::Array1<usize>,
}

/// The elements of an index array, first to last.
pub uninterp spec fn index_array_view(a: IndexArray) -> Seq<usize>;

impl View for IndexArray {
    type V = Seq<usize>;

    open spec fn view(&self) -> Seq<usize> {
        index_array_view(*self)
    }
}

/// `ndarray::Array1::from_vec`: the array holds the elements of the vector in the
/// vector's order.
#[verifier::external_body]
fn index_array_from_vec(v: Vec<usize>) -> (r: IndexArray)
    ensures
        index_array_view(r) == v@,
{
    IndexArray { inner: ndarray::Array1::from_vec(v) }
}

/// `ndarray::ArrayBase::len`: the number of elements.
#[verifier::external_body]
fn index_array_len(a: &IndexArray) -> (r: usize)
    ensures
        r == index_array_view(*a).len(),
{
    a.inner.len()
}

/// Indexing of a one-dimensional `ndarray` array by a `usize`: the element at that
/// position. The index must be in bounds, else `ndarray` panics.
#[verifier::external_body]
fn index_array_get(a: &IndexArray, i: usize) -> (r: usize)
    requires
        i < index_array_view(*a).len(),
    ensures
        r == index_array_view(*a)[i as int],
{
    a.inner[i]
}

impl IndexArray {
    /// The array that holds the elements of `v` in order.
    pub fn from_vec(v: Vec<usize>) -> (r: Self)
        ensures
            r@ == v@,
    {
        index_array_from_vec(v)
    }

    /// The number of elements.
    pub fn len(&self) -> (r: usize)
        ensures
            r == self@.len(),
    {
        index_array_len(self)
    }

    /// The element at position `i`.
    pub fn get(&self, i: usize) -> (r: usize)
        requires
            i < self@.len(),
        ensures
            r == self@[i as int],
    {
        index_array_get(self, i)
    }

    /// The elements as a vector, in order.
    pub fn to_vec(&self) -> (r: Vec<usize>)
        ensures
            r@ == self@,
    {
        let n: usize = self.len();
        let mut out: Vec<usize> = Vec::new();
        let mut i: usize = 0;
        while i < n
            invariant
                n == self@.len(),
                i <= n,
                out@ == self@.take(i as int),
            decreases n - i,
        {
            out.push(self.get(i));
            i = i + 1;
        }
        out
    }
}

/// A one-dimensional `ndarray` array of numbers.
#[verifier::external_body]
pub struct NumberArray {
    inner: ndarray::Array1<u64>,
}

/// The elements of a number array, first to last.
pub uninterp spec fn number_array_view(a: NumberArray) -> Seq<u64>;

impl View for NumberArray {
    type V = Seq<Number>;

    open spec fn view(&self) -> Seq<Number> {
        number_array_view(*self)
    }
}

/// `ndarray::Array1::from_vec`: the array holds the elements of the vector in the
/// vector's order.
#[verifier::external_body]
fn number_array_from_vec(v: Vec<u64>) -> (r: NumberArray)
    ensures
        number_array_view(r) == v@,
{
    NumberArray { inner: ndarray::Array1::from_vec(v) }
}

/// `ndarray::ArrayBase::len`: the number of elements.
#[verifier::external_body]
fn number_array_len(a: &NumberArray) -> (r: usize)
    ensures
        r == number_array_view(*a).len(),
{
    a.inner.len()
}

/// Indexing of a one-dimensional `ndarray` array by a `usize`: the element at that
/// position. The index must be in bounds, else `ndarray` panics.
#[verifier::external_body]
fn number_array_get(a: &NumberArray, i: usize) -> (r: u64)
    requires
        i < number_array_view(*a).len(),
    ensures
        r == number_array_view(*a)[i as int],
{
    a.inner[i]
}

impl NumberArray {
    /// The array that holds the elements of `v` in order.
    pub fn from_vec(v: Vec<Number>) -> (r: Self)
        ensures
            r@ == v@,
    {
        number_array_from_vec(v)
    }

    /// The number of elements.
    pub fn len(&self) -> (r: usize)
        ensures
            r == self@.len(),
    {
        number_array_len(self)
    }

    /// The element at position `i`.
    pub fn get(&self, i: usize) -> (r: Number)
        requires
            i < self@.len(),
        ensures
            r == self@[i as int],
    {
        number_array_get(self, i)
    }

    /// The elements as a vector, in order.
    pub fn to_vec(&self) -> (r: Vec<Number>)
        ensures
            r@ == self@,
    {
        let n: usize = self.len();
        let mut out: Vec<Number> = Vec::new();
        let mut i: usize = 0;
        while i < n
            invariant
                n == self@.len(),
                i <= n,
                out@ == self@.take(i as int),
            decreases n - i,
        {
            out.push(self.get(i));
            i = i + 1;
        }
        out
    }
}

/// The rows of a list of vectors, each as a sequence.
pub open spec fn table(rows: Seq<Vec<Number>>) -> Seq<Seq<Number>> {
    Seq::new(rows.len(), |i: int| rows[i]@)
}

/// Every row has `ncols` entries.
pub open spec fn rectangular(t: Seq<Seq<Number>>, ncols: nat) -> bool {
    forall|i: int| 0 <= i < t.len() ==> (#[trigger] t[i]).len() == ncols
}

/// The entry of `rows` in row `i` and column `j`, zero where there is none.
pub open spec fn entry_or_zero(rows: Seq<Vec<Number>>, i: int, j: int) -> Number {
    if 0 <= i < rows.len() && 0 <= j < rows[i]@.len() {
        rows[i]@[j]
    } else {
        ZERO
    }
}

/// The entry of `rows` in row `i` and column `j`, zero where there is none.
pub fn get_entry_or_zero(rows: &Vec<Vec<Number>>, i: usize, j: usize) -> (r: Number)
    ensures
        r == entry_or_zero(rows@, i as int, j as int),
{
    if i < rows.len() {
        if j < rows[i].len() {
            rows[i][j]
        } else {
            ZERO
        }
    } else {
        ZERO
    }
}

/// A two-dimensional `ndarray` array of numbers.
#[verifier::external_body]
pub struct NumberMatrix {
    inner: ndarray::Array2<u64>,
}

/// The rows of a number matrix, first to last, each from its first column to its
/// last.
pub uninterp spec fn number_matrix_view(a: NumberMatrix) -> Seq<Seq<u64>>;

/// The number of columns of a number matrix, which its rows do not tell where
/// there are none.
pub uninterp spec fn number_matrix_columns(a: NumberMatrix) -> nat;

impl View for NumberMatrix {
    type V = Seq<Seq<Number>>;

    open spec fn view(&self) -> Seq<Seq<Number>> {
        number_matrix_view(*self)
    }
}

/// `ndarray::Array2::from_shape_fn` with the shape `(nrows, ncols)`: the array has
/// that many rows and columns, and its element at `(i, j)` is what the function
/// returns for `(i, j)`, here the entry of `rows` there. `ndarray` panics where the
/// product of the axis lengths that are not zero overflows `isize`.
#[verifier::external_body]
fn number_matrix_from_shape_fn(nrows: usize, ncols: usize, rows: &Vec<Vec<u64>>) -> (r:
    NumberMatrix)
    requires
        nrows <= isize::MAX,
        ncols <= isize::MAX,
        nrows * ncols <= isize::MAX,
    ensures
        number_matrix_view(r).len() == nrows,
        number_matrix_columns(r) == ncols,
        forall|i: int| 0 <= i < nrows ==> (#[trigger] number_matrix_view(r)[i]).len() == ncols,
        forall|i: int, j: int|
            0 <= i < nrows && 0 <= j < ncols ==> #[trigger] number_matrix_view(r)[i][j]
                == entry_or_zero(rows@, i, j),
{
    NumberMatrix {
        inner: ndarray::Array2::from_shape_fn((nrows, ncols), |(i, j)| get_entry_or_zero(rows, i, j)),
    }
}

/// `ndarray::ArrayBase::nrows`: the number of rows.
#[verifier::external_body]
fn number_matrix_nrows(a: &NumberMatrix) -> (r: usize)
    ensures
        r == number_matrix_view(*a).len(),
{
    a.inner.nrows()
}

/// `ndarray::ArrayBase::ncols`: the number of columns, which is the length of
/// every row.
#[verifier::external_body]
fn number_matrix_ncols(a: &NumberMatrix) -> (r: usize)
    ensures
        r == number_matrix_columns(*a),
        forall|i: int|
            0 <= i < number_matrix_view(*a).len() ==> (#[trigger] number_matrix_view(*a)[i]).len()
                == r,
{
    a.inner.ncols()
}

/// Indexing of a two-dimensional `ndarray` array by `[i, j]`: the element in row
/// `i` and column `j`. Both indices must be in bounds, else `ndarray` panics.
#[verifier::external_body]
fn number_matrix_get(a: &NumberMatrix, i: usize, j: usize) -> (r: u64)
    requires
        i < number_matrix_view(*a).len(),
        j < number_matrix_view(*a)[i as int].len(),
    ensures
        r == number_matrix_view(*a)[i as int][j as int],
{
    a.inner[[i, j]]
}

impl NumberMatrix {
    /// The number of columns.
    pub open spec fn columns(&self) -> nat {
        number_matrix_columns(*self)
    }

    /// The matrix whose rows are those of `rows`, each of which has `ncols`
    /// entries.
    pub fn from_rows(rows: &Vec<Vec<Number>>, ncols: usize) -> (r: Self)
        requires
            rectangular(table(rows@), ncols as nat),
            rows@.len() <= isize::MAX,
            ncols <= isize::MAX,
            rows@.len() * ncols <= isize::MAX,
        ensures
            r@ == table(rows@),
            r.columns() == ncols,
    {
        let r = number_matrix_from_shape_fn(rows.len(), ncols, rows);
        proof {
            assert forall|i: int| 0 <= i < rows@.len() implies #[trigger] r@[i] == table(rows@)[i] by {
                assert(table(rows@)[i].len() == ncols);
                assert(r@[i].len() == ncols);
                assert forall|j: int| 0 <= j < ncols implies r@[i][j] == table(rows@)[i][j] by {
                    assert(r@[i][j] == entry_or_zero(rows@, i, j));
                }
                assert(r@[i] =~= table(rows@)[i]);
            }
            assert(r@ =~= table(rows@));
        }
        r
    }

    /// The number of rows.
    pub fn nrows(&self) -> (r: usize)
        ensures
            r == self@.len(),
    {
        number_matrix_nrows(self)
    }

    /// The number of columns, which is the length of every row.
    pub fn ncols(&self) -> (r: usize)
        ensures
            r == self.columns(),
            rectangular(self@, r as nat),
    {
        number_matrix_ncols(self)
    }

    /// The entry in row `i` and column `j`.
    pub fn get(&self, i: usize, j: usize) -> (r: Number)
        requires
            i < self@.len(),
            j < self@[i as int].len(),
        ensures
            r == self@[i as int][j as int],
    {
        number_matrix_get(self, i, j)
    }

    /// Row `i` as a vector.
    pub fn row_to_vec(&self, i: usize) -> (r: Vec<Number>)
        requires
            i < self@.len(),
        ensures
            r@ == self@[i as int],
    {
        let m: usize = self.ncols();
        let mut out: Vec<Number> = Vec::new();
        let mut j: usize = 0;
        while j < m
            invariant
                i < self@.len(),
                m == self@[i as int].len(),
                j <= m,
                out@ == self@[i as int].take(j as int),
            decreases m - j,
        {
            out.push(self.get(i, j));
            j = j + 1;
        }
        out
    }
}

/// The lists at each place of a table of lists, each as a sequence.
pub open spec fn list_table(rows: Seq<Vec<Vec<Number>>>) -> Seq<Seq<Seq<Number>>> {
    Seq::new(rows.len(), |i: int| table(rows[i]@))
}

/// Every row has `ncols` lists.
pub open spec fn rectangular_lists(t: Seq<Seq<Seq<Number>>>, ncols: nat) -> bool {
    forall|i: int| 0 <= i < t.len() ==> (#[trigger] t[i]).len() == ncols
}

/// The list of `rows` in row `i` and column `j`, empty where there is none.
pub open spec fn list_or_empty(rows: Seq<Vec<Vec<Number>>>, i: int, j: int) -> Seq<Number> {
    if 0 <= i < rows.len() && 0 <= j < rows[i]@.len() {
        rows[i]@[j]@
    } else {
        Seq::empty()
    }
}

/// A copy of the list of `rows` in row `i` and column `j`, empty where there is
/// none.
pub fn get_list_or_empty(rows: &Vec<Vec<Vec<Number>>>, i: usize, j: usize) -> (r: Vec<Number>)
    ensures
        r@ == list_or_empty(rows@, i as int, j as int),
{
    let mut out: Vec<Number> = Vec::new();
    if i < rows.len() {
        if j < rows[i].len() {
            let list = &rows[i][j];
            let mut k: usize = 0;
            while k < list.len()
                invariant
                    k <= list@.len(),
                    out@ == list@.take(k as int),
                decreases list@.len() - k,
            {
                out.push(list[k]);
                k = k + 1;
            }
            assert(list@.take(list@.len() as int) =~= list@);
        }
    }
    out
}

/// A two-dimensional `ndarray` array whose elements are lists of numbers.
#[verifier::external_body]
pub struct CoefficientMatrix {
    inner: ndarray::Array2<Vec<u64>>,
}

/// The rows of a coefficient matrix, first to last, each from its first column to
/// its last, each element as the sequence of its numbers.
pub uninterp spec fn coefficient_matrix_view(a: CoefficientMatrix) -> Seq<Seq<Seq<u64>>>;

/// The number of columns of a coefficient matrix, which its rows do not tell
/// where there are none.
pub uninterp spec fn coefficient_matrix_columns(a: CoefficientMatrix) -> nat;

impl View for CoefficientMatrix {
    type V = Seq<Seq<Seq<Number>>>;

    open spec fn view(&self) -> Seq<Seq<Seq<Number>>> {
        coefficient_matrix_view(*self)
    }
}

/// `ndarray::Array2::from_shape_fn` with the shape `(nrows, ncols)`: the array has
/// that many rows and columns, and its element at `(i, j)` is what the function
/// returns for `(i, j)`, here a copy of the list of `rows` there. `ndarray` panics
/// where the product of the axis lengths that are not zero overflows `isize`.
#[verifier::external_body]
fn coefficient_matrix_from_shape_fn(nrows: usize, ncols: usize, rows: &Vec<Vec<Vec<u64>>>) -> (r:
    CoefficientMatrix)
    requires
        nrows <= isize::MAX,
        ncols <= isize::MAX,
        nrows * ncols <= isize::MAX,
    ensures
        coefficient_matrix_view(r).len() == nrows,
        coefficient_matrix_columns(r) == ncols,
        forall|i: int|
            0 <= i < nrows ==> (#[trigger] coefficient_matrix_view(r)[i]).len() == ncols,
        forall|i: int, j: int|
            0 <= i < nrows && 0 <= j < ncols ==> #[trigger] coefficient_matrix_view(r)[i][j]
                == list_or_empty(rows@, i, j),
{
    CoefficientMatrix {
        inner: ndarray::Array2::from_shape_fn((nrows, ncols), |(i, j)| get_list_or_empty(rows, i, j)),
    }
}

/// `ndarray::ArrayBase::nrows`: the number of rows.
#[verifier::external_body]
fn coefficient_matrix_nrows(a: &CoefficientMatrix) -> (r: usize)
    ensures
        r == coefficient_matrix_view(*a).len(),
{
    a.inner.nrows()
}

/// `ndarray::ArrayBase::ncols`: the number of columns, which is the length of
/// every row.
#[verifier::external_body]
fn coefficient_matrix_ncols(a: &CoefficientMatrix) -> (r: usize)
    ensures
        r == coefficient_matrix_columns(*a),
        forall|i: int|
            0 <= i < coefficient_matrix_view(*a).len() ==> (#[trigger] coefficient_matrix_view(
                *a,
            )[i]).len() == r,
{
    a.inner.ncols()
}

/// Indexing of a two-dimensional `ndarray` array by `[i, j]`: the element in row
/// `i` and column `j`. Both indices must be in bounds, else `ndarray` panics.
#[verifier::external_body]
fn coefficient_matrix_get(a: &CoefficientMatrix, i: usize, j: usize) -> (r: &Vec<u64>)
    requires
        i < coefficient_matrix_view(*a).len(),
        j < coefficient_matrix_view(*a)[i as int].len(),
    ensures
        r@ == coefficient_matrix_view(*a)[i as int][j as int],
{
    &a.inner[[i, j]]
}

impl CoefficientMatrix {
    /// The number of columns.
    pub open spec fn columns(&self) -> nat {
        coefficient_matrix_columns(*self)
    }

    /// The matrix whose rows are those of `rows`, each of which has `ncols`
    /// lists.
    pub fn from_rows(rows: &Vec<Vec<Vec<Number>>>, ncols: usize) -> (r: Self)
        requires
            rectangular_lists(list_table(rows@), ncols as nat),
            rows@.len() <= isize::MAX,
            ncols <= isize::MAX,
            rows@.len() * ncols <= isize::MAX,
        ensures
            r@ == list_table(rows@),
            r.columns() == ncols,
    {
        let r = coefficient_matrix_from_shape_fn(rows.len(), ncols, rows);
        proof {
            assert forall|i: int| 0 <= i < rows@.len() implies #[trigger] r@[i] == list_table(
                rows@,
            )[i] by {
                assert(list_table(rows@)[i].len() == ncols);
                assert(r@[i].len() == ncols);
                assert forall|j: int| 0 <= j < ncols implies r@[i][j] == list_table(
                    rows@,
                )[i][j] by {
                    assert(r@[i][j] == list_or_empty(rows@, i, j));
                }
                assert(r@[i] =~= list_table(rows@)[i]);
            }
            assert(r@ =~= list_table(rows@));
        }
        r
    }

    /// The number of rows.
    pub fn nrows(&self) -> (r: usize)
        ensures
            r == self@.len(),
    {
        coefficient_matrix_nrows(self)
    }

    /// The number of columns, which is the length of every row.
    pub fn ncols(&self) -> (r: usize)
        ensures
            r == self.columns(),
            rectangular_lists(self@, r as nat),
    {
        coefficient_matrix_ncols(self)
    }

    /// The list in row `i` and column `j`.
    pub fn get(&self, i: usize, j: usize) -> (r: &Vec<Number>)
        requires
            i < self@.len(),
            j < self@[i as int].len(),
        ensures
            r@ == self@[i as int][j as int],
    {
        coefficient_matrix_get(self, i, j)
    }
}

} // verus!
