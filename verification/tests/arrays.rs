use epcsaft::arrays::{
    get_entry_or_zero, get_list_or_empty, CoefficientMatrix, IndexArray, NumberArray, NumberMatrix,
};

#[test]
fn index_array_holds_the_vector() {
    let a = IndexArray::from_vec(vec![4, 0, 7]);
    assert_eq!(a.len(), 3);
    assert_eq!(a.get(0), 4);
    assert_eq!(a.get(1), 0);
    assert_eq!(a.get(2), 7);
    assert_eq!(a.to_vec(), vec![4, 0, 7]);
    let e = IndexArray::from_vec(vec![]);
    assert_eq!(e.len(), 0);
    assert!(e.to_vec().is_empty());
}

#[test]
fn number_array_holds_the_vector() {
    let a = NumberArray::from_vec(vec![10, 20, 30, 40]);
    assert_eq!(a.len(), 4);
    assert_eq!(a.get(0), 10);
    assert_eq!(a.get(3), 40);
    assert_eq!(a.to_vec(), vec![10, 20, 30, 40]);
}

#[test]
fn number_matrix_holds_the_rows() {
    let rows = vec![vec![1, 2, 3], vec![4, 5, 6]];
    let m = NumberMatrix::from_rows(&rows, 3);
    assert_eq!(m.nrows(), 2);
    assert_eq!(m.ncols(), 3);
    assert_eq!(m.get(0, 0), 1);
    assert_eq!(m.get(0, 2), 3);
    assert_eq!(m.get(1, 0), 4);
    assert_eq!(m.get(1, 1), 5);
    assert_eq!(m.row_to_vec(0), vec![1, 2, 3]);
    assert_eq!(m.row_to_vec(1), vec![4, 5, 6]);
}

#[test]
fn number_matrix_without_rows_or_columns() {
    let m = NumberMatrix::from_rows(&vec![], 0);
    assert_eq!(m.nrows(), 0);
    assert_eq!(m.ncols(), 0);
    let m = NumberMatrix::from_rows(&vec![], 5);
    assert_eq!(m.nrows(), 0);
    assert_eq!(m.ncols(), 5);
    let m = CoefficientMatrix::from_rows(&vec![], 3);
    assert_eq!(m.nrows(), 0);
    assert_eq!(m.ncols(), 3);
    let m = NumberMatrix::from_rows(&vec![vec![], vec![], vec![]], 0);
    assert_eq!(m.nrows(), 3);
    assert_eq!(m.ncols(), 0);
    assert!(m.row_to_vec(2).is_empty());
}

#[test]
fn coefficient_matrix_holds_the_lists() {
    let rows = vec![
        vec![vec![1, 2, 3, 4], vec![5]],
        vec![vec![], vec![6, 7]],
        vec![vec![8], vec![9, 10, 11]],
    ];
    let m = CoefficientMatrix::from_rows(&rows, 2);
    assert_eq!(m.nrows(), 3);
    assert_eq!(m.ncols(), 2);
    assert_eq!(m.get(0, 0), &vec![1, 2, 3, 4]);
    assert_eq!(m.get(0, 1), &vec![5]);
    assert!(m.get(1, 0).is_empty());
    assert_eq!(m.get(1, 1), &vec![6, 7]);
    assert_eq!(m.get(2, 0), &vec![8]);
    assert_eq!(m.get(2, 1), &vec![9, 10, 11]);
}

#[test]
fn entries_outside_a_table_are_zero() {
    let rows = vec![vec![1, 2], vec![3]];
    assert_eq!(get_entry_or_zero(&rows, 0, 1), 2);
    assert_eq!(get_entry_or_zero(&rows, 1, 0), 3);
    assert_eq!(get_entry_or_zero(&rows, 1, 1), 0);
    assert_eq!(get_entry_or_zero(&rows, 2, 0), 0);
}

#[test]
fn lists_outside_a_table_are_empty() {
    let rows = vec![vec![vec![1, 2], vec![3]], vec![vec![4]]];
    assert_eq!(get_list_or_empty(&rows, 0, 0), vec![1, 2]);
    assert_eq!(get_list_or_empty(&rows, 0, 1), vec![3]);
    assert_eq!(get_list_or_empty(&rows, 1, 0), vec![4]);
    assert!(get_list_or_empty(&rows, 1, 1).is_empty());
    assert!(get_list_or_empty(&rows, 2, 0).is_empty());
}
