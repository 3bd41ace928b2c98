use epcsaft::hard_sphere::{HardSphereRule, MonomerShape};
use epcsaft::parameters::{CombinedQuantities, ElectrolytePcSaftParameters};
use epcsaft::records::{
    ElectrolytePcSaftRecord, Identifier, PermittivityRecord, PureRecord,
};

fn bits(x: f64) -> u64 {
    x.to_bits()
}

fn component(name: &str, sigma: f64, epsilon_k: f64, z: Option<f64>) -> PureRecord {
    let record = ElectrolytePcSaftRecord::new(
        bits(1.0),
        bits(sigma),
        bits(epsilon_k),
        None,
        None,
        None,
        None,
        None,
        None,
        None,
        None,
        None,
        None,
        z.map(bits),
        Some(PermittivityRecord::PerturbationTheory {
            dipole_scaling: vec![bits(1.0)],
            polarizability_scaling: vec![bits(1.0)],
            correlation_integral_parameter: vec![bits(1.0)],
        }),
    );
    let identifier = Identifier {
        cas: None,
        name: Some(name.to_string()),
        iupac_name: None,
        smiles: None,
        inchi: None,
        formula: None,
    };
    PureRecord::new(identifier, bits(18.0), record)
}

fn mixture(pure: Vec<PureRecord>) -> ElectrolytePcSaftParameters {
    let n = pure.len();
    let combined = CombinedQuantities {
        mu2: vec![0; n],
        q2: vec![0; n],
        sigma_ij: vec![vec![0; n]; n],
        e_k_ij: vec![vec![0; n]; n],
    };
    ElectrolytePcSaftParameters::from_records(pure, None, combined).unwrap()
}

fn correlation(sigma: f64, t: f64) -> f64 {
    sigma + (t * -0.01775).exp() * 10.11 - (t * -0.01146).exp() * 1.417
}

fn diameters_at(p: &ElectrolytePcSaftParameters, t: f64) -> Vec<f64> {
    let corrected: Vec<u64> =
        p.sigma.to_vec().iter().map(|s| bits(correlation(f64::from_bits(*s), t))).collect();
    p.sigma_t(&corrected).to_vec().iter().map(|x| f64::from_bits(*x)).collect()
}

#[test]
fn unmarked_components_keep_their_diameter_at_every_temperature() {
    let p = mixture(vec![
        component("na+", 2.8232, 230.0, Some(1.0)),
        component("water_np_sigma_t", 2.7927, 353.95, None),
        component("cl-", 2.7560, 170.0, Some(-1.0)),
    ]);
    for t in [1.0, 200.0, 298.15, 500.0, 5000.0] {
        let d = diameters_at(&p, t);
        assert_eq!(d[0], 2.8232);
        assert_eq!(d[2], 2.7560);
        assert_eq!(d[1], correlation(2.7927, t));
    }
    let d = diameters_at(&p, 298.15);
    assert_eq!(d[1], 2.7927 + (298.15f64 * -0.01775).exp() * 10.11 - (298.15f64 * -0.01146).exp() * 1.417);
    assert_ne!(d[1], 2.7927);
}

#[test]
fn marked_components_take_the_corrected_value_wherever_they_stand() {
    let p = mixture(vec![
        component("a", 1.0, 100.0, None),
        component("b", 2.0, 100.0, None),
        component("c_sigma_t", 3.0, 100.0, None),
        component("d", 4.0, 100.0, None),
        component("e_sigma_t", 5.0, 100.0, None),
    ]);
    let corrected = vec![bits(10.0), bits(20.0), bits(30.0), bits(40.0), bits(50.0)];
    let d = p.sigma_t(&corrected);
    assert_eq!(d.to_vec(), vec![bits(1.0), bits(2.0), bits(30.0), bits(4.0), bits(50.0)]);
    assert_eq!(d.len(), 5);
}

#[test]
fn without_marked_components_nothing_is_corrected() {
    let p = mixture(vec![component("a", 1.0, 100.0, None), component("b", 2.0, 100.0, None)]);
    let d = p.sigma_t(&vec![bits(7.0), bits(8.0)]);
    assert_eq!(d.to_vec(), vec![bits(1.0), bits(2.0)]);
    let none = mixture(vec![]);
    assert!(none.sigma_t(&vec![]).to_vec().is_empty());
}

#[test]
fn ions_are_rigid_whatever_their_energy() {
    let p = mixture(vec![
        component("water_np_sigma_t", 2.7927, 353.95, None),
        component("na+", 2.8232, 230.0, Some(1.0)),
        component("cl-", 2.7560, 170.0, Some(-1.0)),
        component("odd", 2.7560, 0.0, Some(2.0)),
        component("neutral", 3.0, 150.0, Some(0.0)),
    ]);
    assert_eq!(
        p.hs_diameter_rules(),
        vec![
            HardSphereRule::TemperatureCorrected,
            HardSphereRule::RigidIon,
            HardSphereRule::RigidIon,
            HardSphereRule::RigidIon,
            HardSphereRule::TemperatureCorrected,
        ]
    );
}

#[test]
fn hard_sphere_diameter_of_an_ion_is_a_fixed_fraction() {
    let p = mixture(vec![
        component("water_np_sigma_t", 2.7927, 353.95, None),
        component("na+", 2.8232, 230.0, Some(1.0)),
    ]);
    let rules = p.hs_diameter_rules();
    let epsilon_k: Vec<f64> = p.epsilon_k.to_vec().iter().map(|x| f64::from_bits(*x)).collect();
    for t in [250.0f64, 298.15, 400.0] {
        let sigma_t = diameters_at(&p, t);
        let d: Vec<f64> = (0..2)
            .map(|i| match rules[i] {
                HardSphereRule::RigidIon => 1.0 * sigma_t[i] * (1.0 - 0.12),
                HardSphereRule::TemperatureCorrected => {
                    -(((1.0 / t) * -3.0 * epsilon_k[i]).exp() * 0.12 - 1.0) * sigma_t[i]
                }
            })
            .collect();
        assert_eq!(d[1], 0.88 * 2.8232);
        assert_eq!(d[0], -(((1.0 / t) * -3.0 * 353.95).exp() * 0.12 - 1.0) * correlation(2.7927, t));
    }
}

#[test]
fn without_components_there_are_no_rules() {
    assert!(mixture(vec![]).hs_diameter_rules().is_empty());
}

#[test]
fn every_component_is_a_chain_of_its_segments() {
    let p = mixture(vec![
        component("a", 1.0, 100.0, None),
        component("b", 2.0, 100.0, Some(1.0)),
    ]);
    match p.monomer_shape() {
        MonomerShape::NonSpherical(m) => assert_eq!(m, vec![bits(1.0), bits(1.0)]),
        MonomerShape::Spherical(_) => panic!("chains are expected"),
    }
    assert_eq!(p.m.to_vec(), vec![bits(1.0), bits(1.0)]);
}
