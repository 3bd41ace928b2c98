//! The records that a parameter set is built from.

use vstd::prelude::*;
use crate::number::Number;
use crate::number::ZERO;

verus! {

/// Association sites of one component: association strength, association energy
/// and the numbers of sites of kind A, B and C.
#[derive(Clone, Copy, Debug)]
pub struct AssociationRecord {
    /// Association volume parameter
    pub kappa_ab: Number,
    /// Association energy parameter in units of Kelvin
    pub epsilon_k_ab: Number,
    /// Number of association sites of kind A
    pub na: Number,
    /// Number of association sites of kind B
    pub nb: Number,
    /// Number of association sites of kind C
    pub nc: Number,
}

impl AssociationRecord {
    pub fn new(kappa_ab: Number, epsilon_k_ab: Number, na: Number, nb: Number, nc: Number) -> (r:
        Self)
        ensures
            r == (AssociationRecord { kappa_ab, epsilon_k_ab, na, nb, nc }),
    {
        AssociationRecord { kappa_ab, epsilon_k_ab, na, nb, nc }
    }
}

/// An override of the association between the sites of two components.
#[derive(Clone, Copy, Debug)]
pub struct BinaryAssociationRecord {
    /// Cross-association volume parameter
    pub kappa_ab: Option<Number>,
    /// Cross-association energy parameter
    pub epsilon_k_ab: Option<Number>,
    /// Indices of the sites that the record refers to
    pub site_indices: [usize; 2],
}

impl BinaryAssociationRecord {
    /// Site indices that are not given are both zero.
    pub fn new(
        kappa_ab: Option<Number>,
        epsilon_k_ab: Option<Number>,
        site_indices: Option<[usize; 2]>,
    ) -> (r: Self)
        ensures
            r.kappa_ab == kappa_ab,
            r.epsilon_k_ab == epsilon_k_ab,
            r.site_indices@ == (match site_indices {
                Some(s) => s@,
                None => seq![0usize, 0usize],
            }),
    {
        let site_indices: [usize; 2] = match site_indices {
            Some(s) => s,
            None => [0, 0],
        };
        BinaryAssociationRecord { kappa_ab, epsilon_k_ab, site_indices }
    }
}

/// The dielectric model of a solvent. In the record of one component each list
/// holds that component's entry first; in a parameter set each list holds one
/// entry per component that has a model, in component order.
#[derive(Clone, Debug)]
pub enum PermittivityRecord {
    /// A correlation fitted by perturbation theory.
    PerturbationTheory {
        dipole_scaling: Vec<Number>,
        polarizability_scaling: Vec<Number>,
        correlation_integral_parameter: Vec<Number>,
    },
    /// Tabulated points of temperature and permittivity.
    ExperimentalData { data: Vec<Vec<(Number, Number)>> },
}

/// The parameters of one component.
#[derive(Clone, Debug)]
pub struct ElectrolytePcSaftRecord {
    /// Segment number
    pub m: Number,
    /// Segment diameter in units of Angstrom
    pub sigma: Number,
    /// Energetic parameter in units of Kelvin
    pub epsilon_k: Number,
    /// Dipole moment in units of Debye
    pub mu: Option<Number>,
    /// Quadrupole moment in units of Debye
    pub q: Option<Number>,
    /// Association parameters
    pub association_record: Option<AssociationRecord>,
    /// Entropy scaling coefficients for the viscosity
    pub viscosity: Option<[Number; 4]>,
    /// Entropy scaling coefficients for the diffusion coefficient
    pub diffusion: Option<[Number; 5]>,
    /// Entropy scaling coefficients for the thermal conductivity
    pub thermal_conductivity: Option<[Number; 4]>,
    /// Ionic charge
    pub z: Option<Number>,
    /// Dielectric model
    pub permittivity_record: Option<PermittivityRecord>,
}

/// The value of an optional number, zero where it is absent.
pub open spec fn or_zero(x: Option<Number>) -> Number {
    match x {
        Some(v) => v,
        None => ZERO,
    }
}

/// The association record that five optional entries describe: none where all
/// five are absent, else a record in which each absent entry is zero.
pub open spec fn association_of(
    kappa_ab: Option<Number>,
    epsilon_k_ab: Option<Number>,
    na: Option<Number>,
    nb: Option<Number>,
    nc: Option<Number>,
) -> Option<AssociationRecord> {
    if kappa_ab is None && epsilon_k_ab is None && na is None && nb is None && nc is None {
        None
    } else {
        Some(
            AssociationRecord {
                kappa_ab: or_zero(kappa_ab),
                epsilon_k_ab: or_zero(epsilon_k_ab),
                na: or_zero(na),
                nb: or_zero(nb),
                nc: or_zero(nc),
            },
        )
    }
}

/// The value of an optional number, zero where it is absent.
pub fn value_or_zero(x: Option<Number>) -> (r: Number)
    ensures
        r == or_zero(x),
{
    match x {
        Some(v) => v,
        None => ZERO,
    }
}

impl ElectrolytePcSaftRecord {
    /// A record from its entries. The five association entries become one
    /// association record (see [`association_of`]).
    pub fn new(
        m: Number,
        sigma: Number,
        epsilon_k: Number,
        mu: Option<Number>,
        q: Option<Number>,
        kappa_ab: Option<Number>,
        epsilon_k_ab: Option<Number>,
        na: Option<Number>,
        nb: Option<Number>,
        nc: Option<Number>,
        viscosity: Option<[Number; 4]>,
        diffusion: Option<[Number; 5]>,
        thermal_conductivity: Option<[Number; 4]>,
        z: Option<Number>,
        permittivity_record: Option<PermittivityRecord>,
    ) -> (r: ElectrolytePcSaftRecord)
        ensures
            r.m == m,
            r.sigma == sigma,
            r.epsilon_k == epsilon_k,
            r.mu == mu,
            r.q == q,
            r.association_record == association_of(kappa_ab, epsilon_k_ab, na, nb, nc),
            r.viscosity == viscosity,
            r.diffusion == diffusion,
            r.thermal_conductivity == thermal_conductivity,
            r.z == z,
            r.permittivity_record == permittivity_record,
    {
        let association_record = if kappa_ab.is_none() && epsilon_k_ab.is_none() && na.is_none()
            && nb.is_none() && nc.is_none() {
            None
        } else {
            Some(
                AssociationRecord::new(
                    value_or_zero(kappa_ab),
                    value_or_zero(epsilon_k_ab),
                    value_or_zero(na),
                    value_or_zero(nb),
                    value_or_zero(nc),
                ),
            )
        };
        ElectrolytePcSaftRecord {
            m,
            sigma,
            epsilon_k,
            mu,
            q,
            association_record,
            viscosity,
            diffusion,
            thermal_conductivity,
            z,
            permittivity_record,
        }
    }
}

impl Default for ElectrolytePcSaftRecord {
    /// The record with all three numbers zero and nothing else.
    fn default() -> (r: Self)
        ensures
            r.m == ZERO,
            r.sigma == ZERO,
            r.epsilon_k == ZERO,
            r.mu is None,
            r.q is None,
            r.association_record is None,
            r.viscosity is None,
            r.diffusion is None,
            r.thermal_conductivity is None,
            r.z is None,
            r.permittivity_record is None,
    {
        ElectrolytePcSaftRecord {
            m: ZERO,
            sigma: ZERO,
            epsilon_k: ZERO,
            mu: None,
            q: None,
            association_record: None,
            viscosity: None,
            diffusion: None,
            thermal_conductivity: None,
            z: None,
            permittivity_record: None,
        }
    }
}

/// The parameters of a pair of components.
#[derive(Clone, Debug)]
pub struct ElectrolytePcSaftBinaryRecord {
    /// Binary dispersion interaction parameters, at most four
    pub k_ij: Vec<Number>,
    /// Binary association parameters
    pub association: Option<BinaryAssociationRecord>,
}

/// The association override that two optional entries describe: none where both
/// are absent, else a record with site indices zero.
pub open spec fn binary_association_of(
    kappa_ab: Option<Number>,
    epsilon_k_ab: Option<Number>,
    r: Option<BinaryAssociationRecord>,
) -> bool {
    if kappa_ab is None && epsilon_k_ab is None {
        r is None
    } else {
        &&& r matches Some(a)
        &&& a.kappa_ab == kappa_ab
        &&& a.epsilon_k_ab == epsilon_k_ab
        &&& a.site_indices@ == seq![0usize, 0usize]
    }
}

impl ElectrolytePcSaftBinaryRecord {
    /// A record from its entries. Without coefficients the list is empty.
    pub fn new(
        k_ij: Option<Vec<Number>>,
        kappa_ab: Option<Number>,
        epsilon_k_ab: Option<Number>,
    ) -> (r: Self)
        ensures
            r.k_ij@ == (match k_ij {
                Some(v) => v@,
                None => Seq::<Number>::empty(),
            }),
            binary_association_of(kappa_ab, epsilon_k_ab, r.association),
    {
        let k_ij: Vec<Number> = match k_ij {
            Some(v) => v,
            None => Vec::new(),
        };
        let association = if kappa_ab.is_none() && epsilon_k_ab.is_none() {
            None
        } else {
            Some(BinaryAssociationRecord::new(kappa_ab, epsilon_k_ab, None))
        };
        ElectrolytePcSaftBinaryRecord { k_ij, association }
    }

    /// The record of a pair that has one interaction coefficient and no
    /// association override: the coefficient, then three zeros.
    pub fn from_k_ij(k_ij: Number) -> (r: Self)
        ensures
            r.k_ij@ == seq![k_ij, ZERO, ZERO, ZERO],
            r.association is None,
    {
        let mut v: Vec<Number> = Vec::new();
        v.push(k_ij);
        v.push(ZERO);
        v.push(ZERO);
        v.push(ZERO);
        assert(v@ =~= seq![k_ij, ZERO, ZERO, ZERO]);
        ElectrolytePcSaftBinaryRecord { k_ij: v, association: None }
    }
}

impl Default for ElectrolytePcSaftBinaryRecord {
    /// The record without coefficients and without an association override.
    fn default() -> (r: Self)
        ensures
            r.k_ij@.len() == 0,
            r.association is None,
    {
        ElectrolytePcSaftBinaryRecord { k_ij: Vec::new(), association: None }
    }
}

/// The names by which a substance is known. Each may be absent.
#[derive(Clone, Debug)]
pub struct Identifier {
    /// CAS number
    pub cas: Option<String>,
    /// Commonly used english name
    pub name: Option<String>,
    /// IUPAC name
    pub iupac_name: Option<String>,
    /// SMILES key
    pub smiles: Option<String>,
    /// InchI key
    pub inchi: Option<String>,
    /// Chemical formula
    pub formula: Option<String>,
}

/// A component: its names, its molar weight and its parameters.
#[derive(Clone, Debug)]
pub struct PureRecord {
    pub identifier: Identifier,
    pub molarweight: Number,
    pub model_record: ElectrolytePcSaftRecord,
}

impl PureRecord {
    pub fn new(identifier: Identifier, molarweight: Number, model_record: ElectrolytePcSaftRecord) -> (r:
        Self)
        ensures
            r.identifier == identifier,
            r.molarweight == molarweight,
            r.model_record == model_record,
    {
        PureRecord { identifier, molarweight, model_record }
    }
}

} // verus!
