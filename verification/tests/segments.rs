use epcsaft::records::{AssociationRecord, ElectrolytePcSaftRecord};
use epcsaft::segments::{segment_entries, SegmentEntries, SegmentTotals};

fn bits(x: f64) -> u64 {
    x.to_bits()
}

fn segment(m: f64, sigma: f64, epsilon_k: f64) -> ElectrolytePcSaftRecord {
    ElectrolytePcSaftRecord::new(
        bits(m),
        bits(sigma),
        bits(epsilon_k),
        None,
        None,
        None,
        None,
        None,
        None,
        None,
        None,
        None,
        None,
        None,
        None,
    )
}

/// The sums over the segments as real arithmetic gives them.
fn totals(segments: &Vec<(ElectrolytePcSaftRecord, u64)>) -> SegmentTotals {
    let f = f64::from_bits;
    let (mut m, mut sigma3, mut epsilon_k, mut z) = (0.0, 0.0, 0.0, 0.0);
    let (mut mu, mut q) = (0.0, 0.0);
    let mut a = [0.0; 5];
    for (s, n) in segments {
        let n = f(*n);
        m += f(s.m) * n;
        sigma3 += f(s.m) * f(s.sigma).powi(3) * n;
        epsilon_k += f(s.m) * f(s.epsilon_k) * n;
        z += s.z.map(f).unwrap_or(0.0);
        mu += s.mu.map(f).unwrap_or(0.0) * n;
        q += s.q.map(f).unwrap_or(0.0) * n;
        if let Some(r) = &s.association_record {
            a[0] += f(r.kappa_ab) * n;
            a[1] += f(r.epsilon_k_ab) * n;
            a[2] += f(r.na) * n;
            a[3] += f(r.nb) * n;
            a[4] += f(r.nc) * n;
        }
    }
    let present = segment_entries(segments);
    let n_t = segments.iter().fold(0.0, |acc, (_, n)| acc + f(*n));
    let mut viscosity = [0.0; 4];
    let mut thermal = [0.0; 4];
    for (s, n) in segments {
        let n = f(*n);
        let s3 = f(s.m) * f(s.sigma).powi(3) * n;
        if present.viscosity {
            let v = s.viscosity.unwrap();
            viscosity[0] += s3 * f(v[0]);
            viscosity[1] += s3 * f(v[1]) / sigma3.powf(0.45);
            viscosity[2] += n * f(v[2]);
            viscosity[3] += n * f(v[3]);
        }
        if present.thermal_conductivity {
            let v = s.thermal_conductivity.unwrap();
            thermal[0] += n * f(v[0]);
            thermal[1] += n * f(v[1]);
            thermal[2] += n * f(v[2]);
            thermal[3] += n_t * f(v[3]);
        }
    }
    viscosity[0] -= 0.5 * m.ln();
    SegmentTotals {
        m: bits(m),
        sigma: bits((sigma3 / m).cbrt()),
        epsilon_k: bits(epsilon_k / m),
        mu: bits(mu),
        q: bits(q),
        association: AssociationRecord::new(bits(a[0]), bits(a[1]), bits(a[2]), bits(a[3]), bits(a[4])),
        viscosity: viscosity.map(bits),
        diffusion: [bits(0.0); 5],
        thermal_conductivity: thermal.map(bits),
        z: bits(z),
    }
}

fn aggregate(segments: &Vec<(ElectrolytePcSaftRecord, u64)>) -> ElectrolytePcSaftRecord {
    ElectrolytePcSaftRecord::from_segments(segments, totals(segments))
}

#[test]
fn plain_segments_aggregate_to_a_plain_record() {
    let segments = vec![(segment(0.5, 3.0, 200.0), bits(2.0)), (segment(1.0, 3.0, 300.0), bits(1.0))];
    let r = aggregate(&segments);
    assert_eq!(f64::from_bits(r.m), 2.0);
    assert_eq!(f64::from_bits(r.sigma), (54.0f64 / 2.0).cbrt());
    assert_eq!(f64::from_bits(r.epsilon_k), 250.0);
    assert_eq!(r.mu, None);
    assert_eq!(r.q, None);
    assert!(r.association_record.is_none());
    assert_eq!(r.viscosity, None);
    assert_eq!(r.diffusion, None);
    assert_eq!(r.thermal_conductivity, None);
    assert_eq!(r.z, Some(bits(0.0)));
    assert!(r.permittivity_record.is_none());
}

#[test]
fn a_moment_is_there_if_some_segment_has_one() {
    let mut a = segment(1.0, 3.0, 200.0);
    a.mu = Some(bits(1.5));
    let c = segment(1.0, 3.0, 200.0);
    let mut d = segment(1.0, 3.0, 200.0);
    d.q = Some(bits(4.0));
    d.mu = Some(bits(0.25));
    let r = aggregate(&vec![(a, bits(2.0)), (c, bits(3.0)), (d, bits(1.0))]);
    assert_eq!(r.mu, Some(bits(3.25)));
    assert_eq!(r.q, Some(bits(4.0)));
}

#[test]
fn association_is_there_if_some_segment_has_it() {
    let mut a = segment(1.0, 3.0, 200.0);
    a.association_record =
        Some(AssociationRecord::new(bits(0.5), bits(1000.0), bits(1.0), bits(2.0), bits(0.0)));
    let c = segment(1.0, 3.0, 200.0);
    let r = aggregate(&vec![(c, bits(1.0)), (a, bits(2.0))]);
    let s = r.association_record.unwrap();
    assert_eq!(f64::from_bits(s.kappa_ab), 1.0);
    assert_eq!(f64::from_bits(s.epsilon_k_ab), 2000.0);
    assert_eq!(f64::from_bits(s.na), 2.0);
    assert_eq!(f64::from_bits(s.nb), 4.0);
    assert_eq!(f64::from_bits(s.nc), 0.0);
}

#[test]
fn charges_are_summed_and_always_there() {
    let mut a = segment(1.0, 3.0, 200.0);
    a.z = Some(bits(1.0));
    let mut c = segment(1.0, 3.0, 200.0);
    c.z = Some(bits(-3.0));
    let d = segment(1.0, 3.0, 200.0);
    let r = aggregate(&vec![(a, bits(2.0)), (c, bits(1.0)), (d, bits(5.0))]);
    assert_eq!(r.z, Some(bits(-2.0)));
}

#[test]
fn entropy_scaling_needs_every_segment() {
    let mut a = segment(1.0, 3.0, 200.0);
    a.viscosity = Some([bits(1.0), bits(2.0), bits(3.0), bits(4.0)]);
    a.thermal_conductivity = Some([bits(1.0), bits(2.0), bits(3.0), bits(4.0)]);
    a.diffusion = Some([bits(1.0); 5]);
    let mut c = segment(1.0, 3.0, 200.0);
    c.viscosity = Some([bits(10.0), bits(20.0), bits(30.0), bits(40.0)]);
    c.diffusion = Some([bits(2.0); 5]);
    let segments = vec![(a, bits(2.0)), (c, bits(1.0))];
    let r = aggregate(&segments);
    assert_eq!(r.thermal_conductivity, None);
    assert_eq!(r.diffusion, Some([bits(0.0); 5]));
    let v = r.viscosity.unwrap().map(f64::from_bits);
    let sigma3: f64 = 1.0 * 27.0 * 2.0 + 1.0 * 27.0 * 1.0;
    let first = 0.0 + 54.0 * 1.0 + 27.0 * 10.0 - 0.5 * 3.0f64.ln();
    let second = 0.0 + 54.0 * 2.0 / sigma3.powf(0.45) + 27.0 * 20.0 / sigma3.powf(0.45);
    assert_eq!(v[0], first);
    assert_eq!(v[1], second);
    assert_eq!(v[2], 2.0 * 3.0 + 1.0 * 30.0);
    assert_eq!(v[3], 2.0 * 4.0 + 1.0 * 40.0);
    assert_eq!(
        segment_entries(&segments),
        SegmentEntries {
            mu: false,
            q: false,
            association: false,
            viscosity: true,
            diffusion: true,
            thermal_conductivity: false,
        }
    );
}

#[test]
fn no_segments_have_every_set_and_no_moment() {
    let none: Vec<(ElectrolytePcSaftRecord, u64)> = vec![];
    assert_eq!(
        segment_entries(&none),
        SegmentEntries {
            mu: false,
            q: false,
            association: false,
            viscosity: true,
            diffusion: true,
            thermal_conductivity: true,
        }
    );
}

#[test]
fn entries_do_not_depend_on_grouping() {
    let mut a = segment(1.0, 3.0, 200.0);
    a.mu = Some(bits(1.5));
    a.viscosity = Some([bits(1.0), bits(2.0), bits(3.0), bits(4.0)]);
    let mut c = segment(2.0, 3.5, 250.0);
    c.viscosity = Some([bits(1.0), bits(2.0), bits(3.0), bits(4.0)]);
    c.association_record =
        Some(AssociationRecord::new(bits(0.5), bits(1000.0), bits(1.0), bits(2.0), bits(0.0)));
    let mut d = segment(0.5, 4.0, 150.0);
    d.q = Some(bits(4.0));
    d.thermal_conductivity = Some([bits(1.0), bits(2.0), bits(3.0), bits(4.0)]);
    let first = vec![(a.clone(), bits(2.0)), (c.clone(), bits(1.0))];
    let grouped = vec![(aggregate(&first), bits(1.0)), (d.clone(), bits(3.0))];
    let flat = vec![(a, bits(2.0)), (c, bits(1.0)), (d, bits(3.0))];
    assert_eq!(segment_entries(&grouped), segment_entries(&flat));
    let g = aggregate(&grouped);
    let f = aggregate(&flat);
    assert_eq!(g.mu.is_some(), f.mu.is_some());
    assert_eq!(g.q.is_some(), f.q.is_some());
    assert_eq!(g.association_record.is_some(), f.association_record.is_some());
    assert_eq!(g.viscosity.is_some(), f.viscosity.is_some());
    assert_eq!(g.thermal_conductivity.is_some(), f.thermal_conductivity.is_some());
    assert_eq!(g.diffusion.is_some(), f.diffusion.is_some());
    // the sums that need no root agree too
    assert_eq!(g.m, f.m);
    assert_eq!(g.epsilon_k, f.epsilon_k);
    assert_eq!(g.mu, f.mu);
    assert_eq!(g.q, f.q);
    assert_eq!(g.z, f.z);
}
