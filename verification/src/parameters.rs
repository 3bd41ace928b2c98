//! The parameter set and its construction from records.

use vstd::prelude::*;
use crate::arrays::CoefficientMatrix;
use crate::arrays::IndexArray;
use crate::arrays::NumberArray;
use crate::arrays::NumberMatrix;
use crate::arrays::rectangular;
use crate::arrays::table;
use crate::classify::magnitude_positions;
use crate::classify::nonzero_positions;
use crate::classify::positions;
use crate::classify::select;
use crate::classify::split_by_zero;
use crate::classify::with_magnitude;
use crate::classify::zero_positions;
use crate::entropy_scaling::all_present;
use crate::entropy_scaling::coefficient_rows;
use crate::entropy_scaling::coefficient_table;
use crate::errors::ParameterError;
use crate::interaction::association_overrides;
use crate::interaction::binary_association;
use crate::interaction::coefficient_count;
use crate::interaction::first_beyond_four;
use crate::interaction::interaction_coefficients;
use crate::interaction::interaction_table;
use crate::interaction::lists_overrides;
use crate::interaction::square;
use crate::interaction::within_four;
use crate::marker::is_marked;
use crate::marker::marked;
use crate::number::Number;
use crate::permittivity::consolidate;
use crate::permittivity::consolidates;
use crate::records::AssociationRecord;
use crate::records::BinaryAssociationRecord;
use crate::records::ElectrolytePcSaftBinaryRecord;
use crate::records::PermittivityRecord;
use crate::records::PureRecord;
use crate::records::or_zero;
use crate::records::value_or_zero;

verus! {

/// The molar weight of each component.
pub open spec fn molar_weights(pure: Seq<PureRecord>) -> Seq<Number> {
    Seq::new(pure.len(), |i: int| pure[i].molarweight)
}

/// The segment number of each component.
pub open spec fn segment_numbers(pure: Seq<PureRecord>) -> Seq<Number> {
    Seq::new(pure.len(), |i: int| pure[i].model_record.m)
}

/// The segment diameter of each component.
pub open spec fn diameters(pure: Seq<PureRecord>) -> Seq<Number> {
    Seq::new(pure.len(), |i: int| pure[i].model_record.sigma)
}

/// The energy parameter of each component.
pub open spec fn energies(pure: Seq<PureRecord>) -> Seq<Number> {
    Seq::new(pure.len(), |i: int| pure[i].model_record.epsilon_k)
}

/// The dipole moment of each component, zero where the record has none.
pub open spec fn dipole_moments(pure: Seq<PureRecord>) -> Seq<Number> {
    Seq::new(pure.len(), |i: int| or_zero(pure[i].model_record.mu))
}

/// The quadrupole moment of each component, zero where the record has none.
pub open spec fn quadrupole_moments(pure: Seq<PureRecord>) -> Seq<Number> {
    Seq::new(pure.len(), |i: int| or_zero(pure[i].model_record.q))
}

/// The charge of each component, zero where the record has none.
pub open spec fn charges(pure: Seq<PureRecord>) -> Seq<Number> {
    Seq::new(pure.len(), |i: int| or_zero(pure[i].model_record.z))
}

/// For each component, whether its name holds the marker of a diameter that
/// depends on temperature.
pub open spec fn marked_flags(pure: Seq<PureRecord>) -> Seq<bool> {
    Seq::new(pure.len(), |i: int| marked(pure[i].identifier.name))
}

/// The association records of one component: its record, or none.
pub open spec fn sites_of(r: PureRecord) -> Seq<AssociationRecord> {
    match r.model_record.association_record {
        Some(a) => seq![a],
        None => Seq::empty(),
    }
}

/// The viscosity coefficients of each component.
pub open spec fn viscosity_sets(pure: Seq<PureRecord>) -> Seq<Option<[Number; 4]>> {
    Seq::new(pure.len(), |i: int| pure[i].model_record.viscosity)
}

/// The diffusion coefficients of each component.
pub open spec fn diffusion_sets(pure: Seq<PureRecord>) -> Seq<Option<[Number; 5]>> {
    Seq::new(pure.len(), |i: int| pure[i].model_record.diffusion)
}

/// The thermal conductivity coefficients of each component.
pub open spec fn thermal_conductivity_sets(pure: Seq<PureRecord>) -> Seq<Option<[Number; 4]>> {
    Seq::new(pure.len(), |i: int| pure[i].model_record.thermal_conductivity)
}

/// The number of components with a charge that differs from zero.
pub open spec fn ion_count(pure: Seq<PureRecord>) -> nat {
    nonzero_positions(charges(pure)).len()
}

/// The number of components with charge zero.
pub open spec fn solvent_count(pure: Seq<PureRecord>) -> nat {
    zero_positions(charges(pure)).len()
}

/// The per-component numbers of a list of records, absent entries as zero.
pub struct ComponentScalars {
    pub molarweight: Vec<Number>,
    pub m: Vec<Number>,
    pub sigma: Vec<Number>,
    pub epsilon_k: Vec<Number>,
    pub mu: Vec<Number>,
    pub q: Vec<Number>,
    pub z: Vec<Number>,
}

impl ComponentScalars {
    /// Reads the per-component numbers off the records.
    pub fn from_records(pure: &Vec<PureRecord>) -> (r: Self)
        ensures
            r.molarweight@ == molar_weights(pure@),
            r.m@ == segment_numbers(pure@),
            r.sigma@ == diameters(pure@),
            r.epsilon_k@ == energies(pure@),
            r.mu@ == dipole_moments(pure@),
            r.q@ == quadrupole_moments(pure@),
            r.z@ == charges(pure@),
    {
        let n: usize = pure.len();
        let mut molarweight: Vec<Number> = Vec::new();
        let mut m: Vec<Number> = Vec::new();
        let mut sigma: Vec<Number> = Vec::new();
        let mut epsilon_k: Vec<Number> = Vec::new();
        let mut mu: Vec<Number> = Vec::new();
        let mut q: Vec<Number> = Vec::new();
        let mut z: Vec<Number> = Vec::new();
        let mut i: usize = 0;
        while i < n
            invariant
                n == pure@.len(),
                i <= n,
                molarweight@ == molar_weights(pure@).take(i as int),
                m@ == segment_numbers(pure@).take(i as int),
                sigma@ == diameters(pure@).take(i as int),
                epsilon_k@ == energies(pure@).take(i as int),
                mu@ == dipole_moments(pure@).take(i as int),
                q@ == quadrupole_moments(pure@).take(i as int),
                z@ == charges(pure@).take(i as int),
            decreases n - i,
        {
            let record = &pure[i];
            molarweight.push(record.molarweight);
            m.push(record.model_record.m);
            sigma.push(record.model_record.sigma);
            epsilon_k.push(record.model_record.epsilon_k);
            mu.push(value_or_zero(record.model_record.mu));
            q.push(value_or_zero(record.model_record.q));
            z.push(value_or_zero(record.model_record.z));
            i = i + 1;
        }
        ComponentScalars { molarweight, m, sigma, epsilon_k, mu, q, z }
    }
}

/// The quantities that are computed from the per-component numbers by real
/// arithmetic, and that a parameter set takes as they are handed in. Nothing in
/// this crate holds them against the formulas by which they are meant to be
/// computed.
pub struct CombinedQuantities {
    /// The reduced squared dipole moment of each component: the squared moment
    /// over the product of segment number, cubed diameter and energy parameter,
    /// in reduced units
    pub mu2: Vec<Number>,
    /// The reduced squared quadrupole moment of each component: the squared
    /// moment over the product of segment number, fifth power of the diameter
    /// and energy parameter, in reduced units
    pub q2: Vec<Number>,
    /// The combined segment diameter of each pair of components: the arithmetic
    /// mean of the two diameters
    pub sigma_ij: Vec<Vec<Number>>,
    /// The combined energy parameter of each pair of components: the geometric
    /// mean of the two energy parameters
    pub e_k_ij: Vec<Vec<Number>>,
}

impl CombinedQuantities {
    /// There is one entry per component, and one per pair of components.
    pub open spec fn fits(&self, n: nat) -> bool {
        &&& self.mu2@.len() == n
        &&& self.q2@.len() == n
        &&& self.sigma_ij@.len() == n
        &&& rectangular(table(self.sigma_ij@), n)
        &&& self.e_k_ij@.len() == n
        &&& rectangular(table(self.e_k_ij@), n)
    }

    /// Tests whether there is one entry per component, and one per pair of
    /// components.
    pub fn has_shape(&self, n: usize) -> (r: bool)
        ensures
            r == self.fits(n as nat),
    {
        if self.mu2.len() != n || self.q2.len() != n || self.sigma_ij.len() != n
            || self.e_k_ij.len() != n {
            return false;
        }
        let mut i: usize = 0;
        while i < n
            invariant
                i <= n,
                self.sigma_ij@.len() == n,
                self.e_k_ij@.len() == n,
                forall|a: int| 0 <= a < i ==> (#[trigger] table(self.sigma_ij@)[a]).len() == n,
                forall|a: int| 0 <= a < i ==> (#[trigger] table(self.e_k_ij@)[a]).len() == n,
            decreases n - i,
        {
            if self.sigma_ij[i].len() != n || self.e_k_ij[i].len() != n {
                assert(table(self.sigma_ij@)[i as int].len() != n || table(
                    self.e_k_ij@,
                )[i as int].len() != n);
                return false;
            }
            assert(table(self.sigma_ij@)[i as int].len() == n);
            assert(table(self.e_k_ij@)[i as int].len() == n);
            i = i + 1;
        }
        true
    }
}

/// What the association subsystem is handed: the association records of each
/// component and the association overrides of the binary records.
pub struct AssociationInputs {
    /// For each component its association record, or none
    pub records: Vec<Vec<AssociationRecord>>,
    /// The overrides, each with the pair of components that it belongs to
    pub binary: Vec<((usize, usize), BinaryAssociationRecord)>,
}

/// The consolidated parameters of a mixture.
pub struct ElectrolytePcSaftParameters {
    pub molarweight: NumberArray,
    pub m: NumberArray,
    pub sigma: NumberArray,
    pub epsilon_k: NumberArray,
    pub mu: NumberArray,
    pub q: NumberArray,
    pub mu2: NumberArray,
    pub q2: NumberArray,
    pub association: AssociationInputs,
    pub z: NumberArray,
    pub k_ij: CoefficientMatrix,
    pub sigma_ij: NumberMatrix,
    pub e_k_ij: NumberMatrix,
    pub ndipole: usize,
    pub nquadpole: usize,
    pub nionic: usize,
    pub nsolvent: usize,
    pub sigma_t_comp: IndexArray,
    pub dipole_comp: IndexArray,
    pub quadpole_comp: IndexArray,
    pub ionic_comp: IndexArray,
    pub solvent_comp: IndexArray,
    pub viscosity: Option<NumberMatrix>,
    pub diffusion: Option<NumberMatrix>,
    pub permittivity: Option<PermittivityRecord>,
    pub thermal_conductivity: Option<NumberMatrix>,
    pub pure_records: Vec<PureRecord>,
    pub binary_records: Option<Vec<Vec<ElectrolytePcSaftBinaryRecord>>>,
}

/// A table of entropy-scaling coefficients is there exactly if every component
/// supplies its set, and then holds coefficient `k` of component `i` in row `k`
/// and column `i`.
pub open spec fn scaling_table<const N: usize>(
    sets: Seq<Option<[Number; N]>>,
    t: Option<NumberMatrix>,
) -> bool {
    &&& t is Some <==> all_present(sets)
    &&& t matches Some(m) ==> m@ == coefficient_rows(sets) && m.columns() == sets.len()
}

/// The number of pairs of `n` components is one that the machine can count.
pub open spec fn countable(n: nat) -> bool {
    n * n <= isize::MAX
}

/// The records can be built into a parameter set.
pub open spec fn acceptable(
    pure: Seq<PureRecord>,
    binary: Option<Vec<Vec<ElectrolytePcSaftBinaryRecord>>>,
    combined: CombinedQuantities,
) -> bool {
    &&& countable(pure.len())
    &&& combined.fits(pure.len())
    &&& binary matches Some(b) ==> square(b@, pure.len()) && within_four(b@, pure.len())
    &&& crate::permittivity::accepts(pure, ion_count(pure), solvent_count(pure))
}

/// The records are refused with the error `e`. The number of components is
/// examined first, then the shapes, then the numbers of interaction coefficients,
/// then the permittivity records.
pub open spec fn refuses(
    pure: Seq<PureRecord>,
    binary: Option<Vec<Vec<ElectrolytePcSaftBinaryRecord>>>,
    combined: CombinedQuantities,
    e: ParameterError,
) -> bool {
    match e {
        ParameterError::TooManyComponents => !countable(pure.len()),
        ParameterError::CombinedQuantityShape => {
            &&& countable(pure.len())
            &&& !combined.fits(pure.len())
        },
        ParameterError::BinaryRecordShape => {
            &&& countable(pure.len())
            &&& combined.fits(pure.len())
            &&& binary matches Some(b)
            &&& !square(b@, pure.len())
        },
        ParameterError::InteractionCoefficients { i, j, count } => {
            &&& countable(pure.len())
            &&& combined.fits(pure.len())
            &&& binary matches Some(b)
            &&& square(b@, pure.len())
            &&& first_beyond_four(b@, pure.len(), i as int, j as int)
            &&& count == coefficient_count(b@, i as int, j as int)
        },
        _ => {
            &&& countable(pure.len())
            &&& combined.fits(pure.len())
            &&& binary matches Some(b) ==> square(b@, pure.len()) && within_four(b@, pure.len())
            &&& crate::permittivity::rejects(pure, ion_count(pure), solvent_count(pure), e)
        },
    }
}

/// Records that are refused with some error are not acceptable.
pub proof fn lemma_refused_is_not_acceptable(
    pure: Seq<PureRecord>,
    binary: Option<Vec<Vec<ElectrolytePcSaftBinaryRecord>>>,
    combined: CombinedQuantities,
    e: ParameterError,
)
    requires
        refuses(pure, binary, combined, e),
    ensures
        !acceptable(pure, binary, combined),
{
    match e {
        ParameterError::InteractionCoefficients { i, j, count } => {
            let b = binary->0;
            assert(coefficient_count(b@, i as int, j as int) > 4);
        },
        ParameterError::InconsistentPermittivity { component }
        | ParameterError::EmptyPermittivity { component }
        | ParameterError::UnsortedPermittivity { component } => {
            assert(crate::permittivity::fault(pure, component as int) is Some);
        },
        _ => {},
    }
}

impl ElectrolytePcSaftParameters {
    /// The set is what its own records describe: every array has one entry per
    /// component and every table one per pair, the index lists hold the
    /// components of their class in component order, the counts are the lengths
    /// of the lists, and the records are such that a set can be built from them.
    pub open spec fn wf(&self) -> bool {
        let pure = self.pure_records@;
        let n = pure.len();
        &&& countable(n)
        &&& self.molarweight@ == molar_weights(pure)
        &&& self.m@ == segment_numbers(pure)
        &&& self.sigma@ == diameters(pure)
        &&& self.epsilon_k@ == energies(pure)
        &&& self.mu@ == dipole_moments(pure)
        &&& self.q@ == quadrupole_moments(pure)
        &&& self.z@ == charges(pure)
        &&& self.mu2@.len() == n
        &&& self.q2@.len() == n
        &&& self.sigma_ij@.len() == n
        &&& self.sigma_ij.columns() == n
        &&& rectangular(self.sigma_ij@, n)
        &&& self.e_k_ij@.len() == n
        &&& self.e_k_ij.columns() == n
        &&& rectangular(self.e_k_ij@, n)
        &&& self.association.records@.len() == n
        &&& forall|i: int|
            0 <= i < n ==> (#[trigger] self.association.records@[i])@ == sites_of(pure[i])
        &&& self.association.binary@ == association_overrides(self.binary_records)
        &&& self.binary_records matches Some(b) ==> lists_overrides(b@, self.association.binary@)
        &&& self.binary_records matches Some(b) ==> square(b@, n) && within_four(b@, n)
        &&& self.k_ij@ == interaction_table(self.binary_records, charges(pure), n)
        &&& self.k_ij.columns() == n
        &&& self.dipole_comp@ == magnitude_positions(self.mu2@)
        &&& self.ndipole == self.dipole_comp@.len()
        &&& self.quadpole_comp@ == magnitude_positions(self.q2@)
        &&& self.nquadpole == self.quadpole_comp@.len()
        &&& self.ionic_comp@ == nonzero_positions(charges(pure))
        &&& self.nionic == self.ionic_comp@.len()
        &&& self.solvent_comp@ == zero_positions(charges(pure))
        &&& self.nsolvent == self.solvent_comp@.len()
        &&& self.sigma_t_comp@ == positions(marked_flags(pure), n)
        &&& scaling_table(viscosity_sets(pure), self.viscosity)
        &&& scaling_table(diffusion_sets(pure), self.diffusion)
        &&& scaling_table(thermal_conductivity_sets(pure), self.thermal_conductivity)
        &&& crate::permittivity::accepts(pure, ion_count(pure), solvent_count(pure))
        &&& consolidates(pure, self.permittivity)
    }
}

/// For each component its association record, or none.
pub fn association_sites(pure: &Vec<PureRecord>) -> (r: Vec<Vec<AssociationRecord>>)
    ensures
        r@.len() == pure@.len(),
        forall|i: int| 0 <= i < pure@.len() ==> (#[trigger] r@[i])@ == sites_of(pure@[i]),
{
    let n: usize = pure.len();
    let mut out: Vec<Vec<AssociationRecord>> = Vec::new();
    let mut i: usize = 0;
    while i < n
        invariant
            n == pure@.len(),
            i <= n,
            out@.len() == i,
            forall|a: int| 0 <= a < i ==> (#[trigger] out@[a])@ == sites_of(pure@[a]),
        decreases n - i,
    {
        let mut sites: Vec<AssociationRecord> = Vec::new();
        match pure[i].model_record.association_record {
            Some(a) => {
                sites.push(a);
                assert(sites@ =~= seq![a]);
            },
            None => {},
        }
        out.push(sites);
        i = i + 1;
    }
    out
}

/// The components whose name holds the marker of a diameter that depends on
/// temperature, in component order.
pub fn marked_components(pure: &Vec<PureRecord>) -> (r: Vec<usize>)
    ensures
        r@ == positions(marked_flags(pure@), pure@.len()),
{
    let n: usize = pure.len();
    let mut flags: Vec<bool> = Vec::new();
    let mut i: usize = 0;
    while i < n
        invariant
            n == pure@.len(),
            i <= n,
            flags@ == marked_flags(pure@).take(i as int),
        decreases n - i,
    {
        flags.push(is_marked(&pure[i].identifier.name));
        i = i + 1;
    }
    assert(flags@ =~= marked_flags(pure@));
    select(&flags)
}

/// The viscosity coefficients of each component.
fn viscosity_of(pure: &Vec<PureRecord>) -> (r: Vec<Option<[Number; 4]>>)
    ensures
        r@ == viscosity_sets(pure@),
{
    let n: usize = pure.len();
    let mut out: Vec<Option<[Number; 4]>> = Vec::new();
    let mut i: usize = 0;
    while i < n
        invariant
            n == pure@.len(),
            i <= n,
            out@ == viscosity_sets(pure@).take(i as int),
        decreases n - i,
    {
        out.push(pure[i].model_record.viscosity);
        i = i + 1;
    }
    out
}

/// The diffusion coefficients of each component.
fn diffusion_of(pure: &Vec<PureRecord>) -> (r: Vec<Option<[Number; 5]>>)
    ensures
        r@ == diffusion_sets(pure@),
{
    let n: usize = pure.len();
    let mut out: Vec<Option<[Number; 5]>> = Vec::new();
    let mut i: usize = 0;
    while i < n
        invariant
            n == pure@.len(),
            i <= n,
            out@ == diffusion_sets(pure@).take(i as int),
        decreases n - i,
    {
        out.push(pure[i].model_record.diffusion);
        i = i + 1;
    }
    out
}

/// The thermal conductivity coefficients of each component.
fn thermal_conductivity_of(pure: &Vec<PureRecord>) -> (r: Vec<Option<[Number; 4]>>)
    ensures
        r@ == thermal_conductivity_sets(pure@),
{
    let n: usize = pure.len();
    let mut out: Vec<Option<[Number; 4]>> = Vec::new();
    let mut i: usize = 0;
    while i < n
        invariant
            n == pure@.len(),
            i <= n,
            out@ == thermal_conductivity_sets(pure@).take(i as int),
        decreases n - i,
    {
        out.push(pure[i].model_record.thermal_conductivity);
        i = i + 1;
    }
    out
}

/// The table of one family of entropy-scaling coefficients as a matrix.
fn scaling_matrix<const N: usize>(sets: &Vec<Option<[Number; N]>>) -> (r: Option<NumberMatrix>)
    requires
        N <= 5,
        sets@.len() * sets@.len() <= isize::MAX,
    ensures
        scaling_table(sets@, r),
{
    match coefficient_table(sets) {
        Some(t) => {
            let n: usize = sets.len();
            proof {
                assert(table(t@) == coefficient_rows(sets@));
                assert(table(t@).len() == t@.len());
                assert(coefficient_rows(sets@).len() == N);
                assert(t@.len() == N);
                assert forall|k: int| 0 <= k < t@.len() implies (#[trigger] table(t@)[k]).len()
                    == n by {
                    assert(coefficient_rows(sets@)[k].len() == n);
                }
                lemma_few_rows(N as nat, n as nat);
            }
            Some(NumberMatrix::from_rows(&t, n))
        },
        None => None,
    }
}

impl ElectrolytePcSaftParameters {
    /// Builds the parameter set of a mixture from the records of its components,
    /// the binary records of their pairs, if there are any, and the combined
    /// quantities.
    ///
    /// The set is built exactly if the records are acceptable. It then holds the
    /// records and the combined quantities as they were handed in, and everything
    /// else as `wf` says. Otherwise the error is the first reason to refuse the
    /// records.
    pub fn from_records(
        pure_records: Vec<PureRecord>,
        binary_records: Option<Vec<Vec<ElectrolytePcSaftBinaryRecord>>>,
        combined: CombinedQuantities,
    ) -> (r: Result<Self, ParameterError>)
        ensures
            r is Ok <==> acceptable(pure_records@, binary_records, combined),
            match r {
                Ok(p) => {
                    &&& p.wf()
                    &&& p.pure_records == pure_records
                    &&& p.binary_records == binary_records
                    &&& p.mu2@ == combined.mu2@
                    &&& p.q2@ == combined.q2@
                    &&& p.sigma_ij@ == table(combined.sigma_ij@)
                    &&& p.e_k_ij@ == table(combined.e_k_ij@)
                },
                Err(e) => refuses(pure_records@, binary_records, combined, e),
            },
    {
        let n: usize = pure_records.len();
        if !is_countable(n) {
            return Err(ParameterError::TooManyComponents);
        }
        if !combined.has_shape(n) {
            return Err(ParameterError::CombinedQuantityShape);
        }
        let scalars = ComponentScalars::from_records(&pure_records);
        let dipole: Vec<usize> = with_magnitude(&combined.mu2);
        let quadpole: Vec<usize> = with_magnitude(&combined.q2);
        let sites = association_sites(&pure_records);
        let overrides = binary_association(&binary_records);
        let (ionic, solvent) = split_by_zero(&scalars.z);
        let marked = marked_components(&pure_records);
        let coefficients = match interaction_coefficients(&binary_records, &scalars.z) {
            Ok(t) => t,
            Err(e) => {
                proof {
                    lemma_refused_is_not_acceptable(pure_records@, binary_records, combined, e);
                }
                return Err(e);
            },
        };
        let permittivity = match consolidate(&pure_records, ionic.len(), solvent.len()) {
            Ok(model) => model,
            Err(e) => {
                proof {
                    lemma_refused_is_not_acceptable(pure_records@, binary_records, combined, e);
                }
                return Err(e);
            },
        };
        let viscosity = scaling_matrix(&viscosity_of(&pure_records));
        let diffusion = scaling_matrix(&diffusion_of(&pure_records));
        let thermal_conductivity = scaling_matrix(&thermal_conductivity_of(&pure_records));
        proof {
            lemma_few_rows(0, n as nat);
            let t = crate::arrays::list_table(coefficients@);
            assert forall|i: int| 0 <= i < t.len() implies (#[trigger] t[i]).len() == n by {
                assert(interaction_table(binary_records, scalars.z@, n as nat)[i].len() == n);
            }
            assert(t.len() == n);
            assert(t.len() == coefficients@.len());
        }
        let k_ij = CoefficientMatrix::from_rows(&coefficients, n);
        let sigma_ij = NumberMatrix::from_rows(&combined.sigma_ij, n);
        let e_k_ij = NumberMatrix::from_rows(&combined.e_k_ij, n);
        let ndipole: usize = dipole.len();
        let nquadpole: usize = quadpole.len();
        let nionic: usize = ionic.len();
        let nsolvent: usize = solvent.len();
        let p = ElectrolytePcSaftParameters {
            molarweight: NumberArray::from_vec(scalars.molarweight),
            m: NumberArray::from_vec(scalars.m),
            sigma: NumberArray::from_vec(scalars.sigma),
            epsilon_k: NumberArray::from_vec(scalars.epsilon_k),
            mu: NumberArray::from_vec(scalars.mu),
            q: NumberArray::from_vec(scalars.q),
            mu2: NumberArray::from_vec(combined.mu2),
            q2: NumberArray::from_vec(combined.q2),
            association: AssociationInputs { records: sites, binary: overrides },
            z: NumberArray::from_vec(scalars.z),
            k_ij,
            sigma_ij,
            e_k_ij,
            ndipole,
            nquadpole,
            nionic,
            nsolvent,
            sigma_t_comp: IndexArray::from_vec(marked),
            dipole_comp: IndexArray::from_vec(dipole),
            quadpole_comp: IndexArray::from_vec(quadpole),
            ionic_comp: IndexArray::from_vec(ionic),
            solvent_comp: IndexArray::from_vec(solvent),
            viscosity,
            diffusion,
            permittivity,
            thermal_conductivity,
            pure_records,
            binary_records,
        };
        Ok(p)
    }

    /// The records that the set was built from.
    pub fn records(&self) -> (r: (
        &Vec<PureRecord>,
        Option<&Vec<Vec<ElectrolytePcSaftBinaryRecord>>>,
    ))
        ensures
            *r.0 == self.pure_records,
            match r.1 {
                Some(b) => self.binary_records == Some(*b),
                None => self.binary_records is None,
            },
    {
        (&self.pure_records, self.binary_records.as_ref())
    }
}

/// Tests whether the number of pairs of `n` components is one that the machine
/// can count.
pub fn is_countable(n: usize) -> (r: bool)
    ensures
        r == countable(n as nat),
{
    if n == 0 {
        return true;
    }
    let limit: usize = isize::MAX as usize;
    let most: usize = limit / n;
    proof {
        let (n, limit, most) = (n as int, limit as int, most as int);
        assert(most * n <= limit && limit < (most + 1) * n) by (nonlinear_arith)
            requires
                n > 0,
                limit >= 0,
                most == limit / n,
        ;
        if n <= most {
            assert(n * n <= most * n) by (nonlinear_arith)
                requires
                    0 < n <= most,
            ;
        } else {
            assert((most + 1) * n <= n * n) by (nonlinear_arith)
                requires
                    0 <= most < n,
            ;
        }
    }
    n <= most
}

/// A table of at most five rows with `n` columns has no more entries than the
/// machine can count, where that holds of a table of `n` rows.
proof fn lemma_few_rows(rows: nat, n: nat)
    requires
        rows <= 5,
        n * n <= isize::MAX,
    ensures
        rows <= isize::MAX,
        n <= isize::MAX,
        rows * n <= isize::MAX,
{
    assert(isize::MAX >= 0x7fff_ffff);
    assert(n <= n * n) by (nonlinear_arith);
    if n >= 5 {
        assert(rows * n <= n * n) by (nonlinear_arith)
            requires
                rows <= 5,
                n >= 5,
        ;
    } else {
        assert(rows * n <= 25) by (nonlinear_arith)
            requires
                rows <= 5,
                n < 5,
        ;
    }
}

} // verus!
