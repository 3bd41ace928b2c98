use epcsaft::number::ZERO;
use epcsaft::records::{
    AssociationRecord, BinaryAssociationRecord, ElectrolytePcSaftBinaryRecord,
    ElectrolytePcSaftRecord, Identifier, PermittivityRecord, PureRecord,
};

fn bits(x: f64) -> u64 {
    x.to_bits()
}

#[test]
fn record_without_association_entries_has_no_association_record() {
    let r = ElectrolytePcSaftRecord::new(
        bits(2.0),
        bits(3.6),
        bits(208.0),
        Some(bits(1.3)),
        Some(bits(4.4)),
        None,
        None,
        None,
        None,
        None,
        Some([bits(1.0), bits(2.0), bits(3.0), bits(4.0)]),
        Some([bits(5.0), bits(6.0), bits(7.0), bits(8.0), bits(9.0)]),
        Some([bits(10.0), bits(11.0), bits(12.0), bits(13.0)]),
        Some(bits(-1.0)),
        None,
    );
    assert_eq!(r.m, bits(2.0));
    assert_eq!(r.sigma, bits(3.6));
    assert_eq!(r.epsilon_k, bits(208.0));
    assert_eq!(r.mu, Some(bits(1.3)));
    assert_eq!(r.q, Some(bits(4.4)));
    assert!(r.association_record.is_none());
    assert_eq!(r.viscosity, Some([bits(1.0), bits(2.0), bits(3.0), bits(4.0)]));
    assert_eq!(r.diffusion, Some([bits(5.0), bits(6.0), bits(7.0), bits(8.0), bits(9.0)]));
    assert_eq!(r.thermal_conductivity, Some([bits(10.0), bits(11.0), bits(12.0), bits(13.0)]));
    assert_eq!(r.z, Some(bits(-1.0)));
    assert!(r.permittivity_record.is_none());
}

#[test]
fn record_with_one_association_entry_has_the_others_zero() {
    let r = ElectrolytePcSaftRecord::new(
        bits(1.065587),
        bits(3.000683),
        bits(366.5121),
        None,
        None,
        None,
        None,
        None,
        Some(bits(1.0)),
        None,
        None,
        None,
        None,
        None,
        None,
    );
    let a = r.association_record.unwrap();
    assert_eq!(a.kappa_ab, ZERO);
    assert_eq!(a.epsilon_k_ab, ZERO);
    assert_eq!(a.na, ZERO);
    assert_eq!(a.nb, bits(1.0));
    assert_eq!(a.nc, ZERO);
    assert!(r.mu.is_none());
    assert!(r.z.is_none());
}

#[test]
fn record_with_all_association_entries() {
    let r = ElectrolytePcSaftRecord::new(
        bits(1.065587),
        bits(3.000683),
        bits(366.5121),
        None,
        None,
        Some(bits(0.034867983)),
        Some(bits(2500.6706)),
        Some(bits(1.0)),
        Some(bits(2.0)),
        Some(bits(3.0)),
        None,
        None,
        None,
        None,
        Some(PermittivityRecord::ExperimentalData { data: vec![vec![(bits(298.15), bits(78.4))]] }),
    );
    let a = r.association_record.unwrap();
    assert_eq!(a.kappa_ab, bits(0.034867983));
    assert_eq!(a.epsilon_k_ab, bits(2500.6706));
    assert_eq!(a.na, bits(1.0));
    assert_eq!(a.nb, bits(2.0));
    assert_eq!(a.nc, bits(3.0));
    match r.permittivity_record {
        Some(PermittivityRecord::ExperimentalData { data }) => {
            assert_eq!(data, vec![vec![(bits(298.15), bits(78.4))]]);
        }
        _ => panic!("the permittivity record is kept"),
    }
}

#[test]
fn association_record_keeps_its_entries() {
    let a = AssociationRecord::new(bits(0.1), bits(0.2), bits(0.3), bits(0.4), bits(0.5));
    assert_eq!(a.kappa_ab, bits(0.1));
    assert_eq!(a.epsilon_k_ab, bits(0.2));
    assert_eq!(a.na, bits(0.3));
    assert_eq!(a.nb, bits(0.4));
    assert_eq!(a.nc, bits(0.5));
}

#[test]
fn binary_association_record_defaults_its_sites() {
    let a = BinaryAssociationRecord::new(Some(bits(0.1)), None, None);
    assert_eq!(a.kappa_ab, Some(bits(0.1)));
    assert_eq!(a.epsilon_k_ab, None);
    assert_eq!(a.site_indices, [0, 0]);
    let a = BinaryAssociationRecord::new(None, Some(bits(0.2)), Some([1, 2]));
    assert_eq!(a.kappa_ab, None);
    assert_eq!(a.epsilon_k_ab, Some(bits(0.2)));
    assert_eq!(a.site_indices, [1, 2]);
}

#[test]
fn binary_record_without_entries_is_empty() {
    let r = ElectrolytePcSaftBinaryRecord::new(None, None, None);
    assert!(r.k_ij.is_empty());
    assert!(r.association.is_none());
}

#[test]
fn binary_record_keeps_its_coefficients() {
    let r = ElectrolytePcSaftBinaryRecord::new(Some(vec![bits(0.1), bits(-0.2)]), None, None);
    assert_eq!(r.k_ij, vec![bits(0.1), bits(-0.2)]);
    assert!(r.association.is_none());
}

#[test]
fn binary_record_with_an_association_entry() {
    let r = ElectrolytePcSaftBinaryRecord::new(None, None, Some(bits(1500.0)));
    assert!(r.k_ij.is_empty());
    let a = r.association.unwrap();
    assert_eq!(a.kappa_ab, None);
    assert_eq!(a.epsilon_k_ab, Some(bits(1500.0)));
    assert_eq!(a.site_indices, [0, 0]);
    let r = ElectrolytePcSaftBinaryRecord::new(Some(vec![]), Some(bits(0.5)), None);
    let a = r.association.unwrap();
    assert_eq!(a.kappa_ab, Some(bits(0.5)));
    assert_eq!(a.epsilon_k_ab, None);
}

#[test]
fn binary_record_from_one_coefficient() {
    let r = ElectrolytePcSaftBinaryRecord::from_k_ij(bits(0.317));
    assert_eq!(r.k_ij, vec![bits(0.317), ZERO, ZERO, ZERO]);
    assert!(r.association.is_none());
    let k: Vec<f64> = r.k_ij.iter().map(|x| f64::from_bits(*x)).collect();
    assert_eq!(k, vec![0.317, 0.0, 0.0, 0.0]);
}

#[test]
fn pure_record_keeps_its_parts() {
    let id = Identifier {
        cas: Some("74-98-6".to_string()),
        name: Some("propane".to_string()),
        iupac_name: None,
        smiles: Some("CCC".to_string()),
        inchi: None,
        formula: Some("C3H8".to_string()),
    };
    let model = ElectrolytePcSaftRecord::new(
        bits(2.001829),
        bits(3.618353),
        bits(208.1101),
        None,
        None,
        None,
        None,
        None,
        None,
        None,
        None,
        None,
        None,
        None,
        None,
    );
    let r = PureRecord::new(id, bits(44.0962), model);
    assert_eq!(r.identifier.cas.as_deref(), Some("74-98-6"));
    assert_eq!(r.identifier.name.as_deref(), Some("propane"));
    assert_eq!(r.identifier.smiles.as_deref(), Some("CCC"));
    assert_eq!(r.identifier.formula.as_deref(), Some("C3H8"));
    assert!(r.identifier.iupac_name.is_none());
    assert_eq!(r.molarweight, bits(44.0962));
    assert_eq!(r.model_record.m, bits(2.001829));
}

#[test]
fn default_records_are_bare() {
    let r = ElectrolytePcSaftRecord::default();
    assert_eq!(r.m, ZERO);
    assert_eq!(r.sigma, ZERO);
    assert_eq!(r.epsilon_k, ZERO);
    assert!(r.mu.is_none() && r.q.is_none() && r.z.is_none());
    assert!(r.association_record.is_none() && r.permittivity_record.is_none());
    assert!(r.viscosity.is_none() && r.diffusion.is_none() && r.thermal_conductivity.is_none());
    let b = ElectrolytePcSaftBinaryRecord::default();
    assert!(b.k_ij.is_empty());
    assert!(b.association.is_none());
}
