use epcsaft::classify::{select, split_by_zero};
use epcsaft::entropy_scaling::coefficient_table;
use epcsaft::interaction::{binary_association, interaction_coefficients, is_square};
use epcsaft::errors::ParameterError;
use epcsaft::marker::is_marked;
use epcsaft::number::{ONE, ZERO};
use epcsaft::permittivity::{consolidate, count_records, kind, points_in_order, PermittivityKind};
use epcsaft::records::{ElectrolytePcSaftBinaryRecord, PermittivityRecord};

fn bits(x: f64) -> u64 {
    x.to_bits()
}

#[test]
fn select_lists_the_positions_that_hold() {
    assert_eq!(select(&vec![true, false, false, true, true]), vec![0, 3, 4]);
    assert_eq!(select(&vec![false, false]), Vec::<usize>::new());
    assert_eq!(select(&vec![]), Vec::<usize>::new());
    assert_eq!(select(&vec![true]), vec![0]);
}

#[test]
fn split_by_zero_parts_the_positions() {
    let values = vec![bits(0.0), bits(1.0), bits(-0.0), bits(-2.5), bits(f64::NAN), bits(0.0)];
    let (differ, vanish) = split_by_zero(&values);
    assert_eq!(differ, vec![1, 3, 4]);
    assert_eq!(vanish, vec![0, 2, 5]);
    let (differ, vanish) = split_by_zero(&vec![]);
    assert!(differ.is_empty());
    assert!(vanish.is_empty());
}

#[test]
fn marker_is_found_anywhere_in_a_name() {
    assert!(is_marked(&Some("water_np_sigma_t".to_string())));
    assert!(is_marked(&Some("sigma_t".to_string())));
    assert!(is_marked(&Some("sigma_t_water".to_string())));
    assert!(is_marked(&Some("a sigma_t b".to_string())));
    assert!(is_marked(&Some("sigsigma_t".to_string())));
    assert!(!is_marked(&Some("water_np".to_string())));
    assert!(!is_marked(&Some("sigma_".to_string())));
    assert!(!is_marked(&Some("sigma-t".to_string())));
    assert!(!is_marked(&Some("SIGMA_T".to_string())));
    assert!(!is_marked(&Some("t_sigma".to_string())));
    assert!(!is_marked(&Some("unknown".to_string())));
    assert!(!is_marked(&Some("".to_string())));
    assert!(!is_marked(&None));
}

#[test]
fn coefficient_table_has_a_row_per_coefficient() {
    let sets = vec![Some([1u64, 2, 3, 4]), Some([5, 6, 7, 8]), Some([9, 10, 11, 12])];
    let t = coefficient_table(&sets).unwrap();
    assert_eq!(t, vec![vec![1, 5, 9], vec![2, 6, 10], vec![3, 7, 11], vec![4, 8, 12]]);
    let sets = vec![Some([1u64, 2, 3, 4, 5])];
    assert_eq!(coefficient_table(&sets).unwrap(), vec![vec![1], vec![2], vec![3], vec![4], vec![5]]);
}

#[test]
fn coefficient_table_is_absent_where_a_set_is_absent() {
    let sets = vec![Some([1u64, 2, 3, 4]), None, Some([9, 10, 11, 12])];
    assert!(coefficient_table(&sets).is_none());
    let sets = vec![None, Some([1u64, 2, 3, 4])];
    assert!(coefficient_table(&sets).is_none());
    let sets: Vec<Option<[u64; 4]>> = vec![None];
    assert!(coefficient_table(&sets).is_none());
    let sets: Vec<Option<[u64; 4]>> = vec![];
    assert_eq!(coefficient_table(&sets).unwrap(), vec![Vec::<u64>::new(); 4]);
}

fn pair(k: &[f64]) -> ElectrolytePcSaftBinaryRecord {
    ElectrolytePcSaftBinaryRecord::new(Some(k.iter().map(|x| bits(*x)).collect()), None, None)
}

#[test]
fn square_tables_are_told_from_others() {
    assert!(is_square(&vec![], 0));
    assert!(is_square(&vec![vec![pair(&[])]], 1));
    assert!(!is_square(&vec![vec![pair(&[])]], 2));
    assert!(!is_square(&vec![vec![pair(&[]), pair(&[])]], 1));
    assert!(!is_square(&vec![vec![pair(&[])], vec![]], 2));
    assert!(is_square(&vec![vec![pair(&[]), pair(&[])], vec![pair(&[]), pair(&[])]], 2));
}

#[test]
fn interaction_coefficients_are_filled_up_with_zeros() {
    let binary = Some(vec![
        vec![pair(&[0.5, 0.25]), pair(&[0.1])],
        vec![pair(&[0.2, 0.3, 0.4, 0.5]), pair(&[9.0])],
    ]);
    let charges = vec![bits(0.0), bits(2.0)];
    let t = interaction_coefficients(&binary, &charges).unwrap();
    assert_eq!(t[0][0], vec![bits(0.5), bits(0.25), ZERO, ZERO]);
    assert_eq!(t[0][1], vec![bits(0.1), ZERO, ZERO, ZERO]);
    assert_eq!(t[1][0], vec![bits(0.2), bits(0.3), bits(0.4), bits(0.5)]);
    assert_eq!(t[1][1], vec![ONE, ZERO, ZERO, ZERO]);
    let t = interaction_coefficients(&None, &charges).unwrap();
    assert_eq!(t[0][0], vec![ZERO; 4]);
    assert_eq!(t[0][1], vec![ZERO; 4]);
    assert_eq!(t[1][0], vec![ZERO; 4]);
    assert_eq!(t[1][1], vec![ONE, ZERO, ZERO, ZERO]);
    assert_eq!(
        interaction_coefficients(&binary, &vec![ZERO]).err(),
        Some(ParameterError::BinaryRecordShape)
    );
}

#[test]
fn association_overrides_of_no_binary_records() {
    assert!(binary_association(&None).is_empty());
    assert!(binary_association(&Some(vec![vec![pair(&[1.0])]])).is_empty());
}

#[test]
fn points_are_held_against_their_predecessor() {
    let p = |v: &[f64]| -> Vec<(u64, u64)> { v.iter().map(|t| (bits(*t), bits(1.0))).collect() };
    assert!(points_in_order(&p(&[])));
    assert!(points_in_order(&p(&[0.0])));
    assert!(points_in_order(&p(&[-0.0])));
    assert!(points_in_order(&p(&[273.15, 298.15, 298.15, 373.15])));
    assert!(!points_in_order(&p(&[273.15, 298.15, 298.14])));
    assert!(points_in_order(&p(&[-1e-300])));
    assert!(points_in_order(&p(&[-5.0, -1.0, -0.0, 0.0, 3.0])));
    assert!(!points_in_order(&p(&[-1.0, -5.0])));
    assert!(!points_in_order(&p(&[300.0, 200.0, 400.0])));
    assert!(points_in_order(&p(&[f64::INFINITY])));
    assert!(!points_in_order(&p(&[f64::INFINITY, 1e308])));
    // a temperature that is no number is below nothing, and nothing is below it
    assert!(points_in_order(&p(&[300.0, f64::NAN, 200.0])));
}

#[test]
fn kinds_of_permittivity_records() {
    let a = PermittivityRecord::PerturbationTheory {
        dipole_scaling: vec![],
        polarizability_scaling: vec![],
        correlation_integral_parameter: vec![],
    };
    let c = PermittivityRecord::ExperimentalData { data: vec![] };
    assert_eq!(kind(&a), PermittivityKind::PerturbationTheory);
    assert_eq!(kind(&c), PermittivityKind::ExperimentalData);
}

#[test]
fn no_components_have_no_permittivity() {
    assert_eq!(count_records(&vec![]), 0);
    assert!(consolidate(&vec![], 0, 0).unwrap().is_none());
    assert_eq!(consolidate(&vec![], 1, 0).err(), Some(ParameterError::UnspecifiedPermittivity));
    assert_eq!(
        consolidate(&vec![], 1, 1).err(),
        Some(ParameterError::MissingPermittivity { records: 0, solvents: 1 })
    );
}
