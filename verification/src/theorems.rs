//! What holds of every well-formed parameter set.

use vstd::prelude::*;
use crate::classify::lemma_complement_partition;
use crate::classify::lemma_positions;
use crate::classify::lemma_positions_contains;
use crate::classify::magnitude_flags;
use crate::classify::nonzero_flags;
use crate::classify::positions;
use crate::classify::zero_flags;
use crate::entropy_scaling::all_present;
use crate::hard_sphere::HardSphereRule;
use crate::marker::marked;
use crate::number::Number;
use crate::number::ONE;
use crate::number::ZERO;
use crate::number::has_magnitude;
use crate::number::is_nonzero;
use crate::number::is_zero;
use crate::parameters::ElectrolytePcSaftParameters;
use crate::parameters::charges;
use crate::parameters::diffusion_sets;
use crate::parameters::marked_flags;
use crate::parameters::thermal_conductivity_sets;
use crate::parameters::viscosity_sets;
use crate::permittivity::has_record;

verus! {

/// An ion has with itself the interaction coefficients one, zero, zero, zero,
/// whatever the binary records give for that pair.
pub proof fn theorem_ion_self_interaction(p: ElectrolytePcSaftParameters, i: usize)
    requires
        p.wf(),
        p.ionic_comp@.contains(i),
    ensures
        i < p.pure_records@.len(),
        p.k_ij@[i as int][i as int] == seq![ONE, ZERO, ZERO, ZERO],
{
    assert(p.pure_records.len() == p.pure_records@.len());
    lemma_positions_contains(
        nonzero_flags(charges(p.pure_records@)),
        p.pure_records@.len(),
        i,
    );
}

/// Every array has one entry per component, and every table one per pair of
/// components.
pub proof fn theorem_shapes(p: ElectrolytePcSaftParameters)
    requires
        p.wf(),
    ensures
        p.molarweight@.len() == p.pure_records@.len(),
        p.m@.len() == p.pure_records@.len(),
        p.sigma@.len() == p.pure_records@.len(),
        p.epsilon_k@.len() == p.pure_records@.len(),
        p.mu@.len() == p.pure_records@.len(),
        p.q@.len() == p.pure_records@.len(),
        p.mu2@.len() == p.pure_records@.len(),
        p.q2@.len() == p.pure_records@.len(),
        p.z@.len() == p.pure_records@.len(),
        p.k_ij@.len() == p.pure_records@.len(),
        p.sigma_ij@.len() == p.pure_records@.len(),
        p.e_k_ij@.len() == p.pure_records@.len(),
        forall|i: int|
            0 <= i < p.pure_records@.len() ==> (#[trigger] p.k_ij@[i]).len()
                == p.pure_records@.len(),
        forall|i: int|
            0 <= i < p.pure_records@.len() ==> (#[trigger] p.sigma_ij@[i]).len()
                == p.pure_records@.len(),
        forall|i: int|
            0 <= i < p.pure_records@.len() ==> (#[trigger] p.e_k_ij@[i]).len()
                == p.pure_records@.len(),
{
}

/// Every pair has exactly four interaction coefficients.
pub proof fn theorem_four_coefficients(p: ElectrolytePcSaftParameters, i: int, j: int)
    requires
        p.wf(),
        0 <= i < p.pure_records@.len(),
        0 <= j < p.pure_records@.len(),
    ensures
        p.k_ij@[i][j].len() == 4,
{
}

/// The ions and the solvents part the components: no component is both, every
/// component is one of the two, and the two counts add up to the number of
/// components. An ion is a component whose charge differs from zero, a solvent
/// one whose charge is zero.
pub proof fn theorem_ions_and_solvents_partition(p: ElectrolytePcSaftParameters)
    requires
        p.wf(),
    ensures
        p.ionic_comp@.to_set().disjoint(p.solvent_comp@.to_set()),
        p.ionic_comp@.to_set().union(p.solvent_comp@.to_set()) =~= Set::new(
            |i: usize| i < p.pure_records@.len(),
        ),
        p.nionic + p.nsolvent == p.pure_records@.len(),
        forall|i: usize|
            i < p.pure_records@.len() ==> (p.ionic_comp@.contains(i) <==> is_nonzero(
                #[trigger] p.z@[i as int],
            )),
        forall|i: usize|
            i < p.pure_records@.len() ==> (p.solvent_comp@.contains(i) <==> is_zero(
                #[trigger] p.z@[i as int],
            )),
{
    let n = p.pure_records@.len();
    let z = charges(p.pure_records@);
    assert(p.pure_records.len() == n);
    lemma_complement_partition(nonzero_flags(z), zero_flags(z), n);
    assert forall|i: usize| i < n implies (p.ionic_comp@.contains(i) <==> is_nonzero(
        #[trigger] p.z@[i as int],
    )) by {
        lemma_positions_contains(nonzero_flags(z), n, i);
    }
    assert forall|i: usize| i < n implies (p.solvent_comp@.contains(i) <==> is_zero(
        #[trigger] p.z@[i as int],
    )) by {
        lemma_positions_contains(zero_flags(z), n, i);
    }
}

/// A list is in strictly increasing order.
pub open spec fn increasing(list: Seq<usize>) -> bool {
    forall|a: int, b: int| 0 <= a < b < list.len() ==> list[a] < list[b]
}

/// Every index list names its components in component order, each once.
pub proof fn theorem_index_lists_in_component_order(p: ElectrolytePcSaftParameters)
    requires
        p.wf(),
    ensures
        increasing(p.dipole_comp@),
        increasing(p.quadpole_comp@),
        increasing(p.ionic_comp@),
        increasing(p.solvent_comp@),
        increasing(p.sigma_t_comp@),
{
    let n = p.pure_records@.len();
    let z = charges(p.pure_records@);
    assert(p.pure_records.len() == n);
    lemma_positions(magnitude_flags(p.mu2@), n);
    lemma_positions(magnitude_flags(p.q2@), n);
    lemma_positions(nonzero_flags(z), n);
    lemma_positions(zero_flags(z), n);
    lemma_positions(marked_flags(p.pure_records@), n);
}

/// A component is listed as dipolar, or as quadrupolar, exactly if its reduced
/// squared moment is a number whose magnitude exceeds zero.
pub proof fn theorem_polar_components(p: ElectrolytePcSaftParameters, i: usize)
    requires
        p.wf(),
        i < p.pure_records@.len(),
    ensures
        p.dipole_comp@.contains(i) <==> has_magnitude(p.mu2@[i as int]),
        p.quadpole_comp@.contains(i) <==> has_magnitude(p.q2@[i as int]),
{
    let n = p.pure_records@.len();
    assert(p.pure_records.len() == n);
    lemma_positions_contains(magnitude_flags(p.mu2@), n, i);
    lemma_positions_contains(magnitude_flags(p.q2@), n, i);
}

/// The table of a family of entropy-scaling coefficients is there exactly if
/// every component supplies its set. A table that is there is whole: it has one
/// row per coefficient, and every row has one entry per component.
pub proof fn theorem_scaling_all_or_nothing(p: ElectrolytePcSaftParameters)
    requires
        p.wf(),
    ensures
        p.viscosity is Some <==> (forall|i: int|
            0 <= i < p.pure_records@.len() ==> (
            #[trigger] p.pure_records@[i]).model_record.viscosity is Some),
        p.diffusion is Some <==> (forall|i: int|
            0 <= i < p.pure_records@.len() ==> (
            #[trigger] p.pure_records@[i]).model_record.diffusion is Some),
        p.thermal_conductivity is Some <==> (forall|i: int|
            0 <= i < p.pure_records@.len() ==> (
            #[trigger] p.pure_records@[i]).model_record.thermal_conductivity is Some),
        p.viscosity matches Some(t) ==> t@.len() == 4 && forall|k: int|
            0 <= k < 4 ==> (#[trigger] t@[k]).len() == p.pure_records@.len(),
        p.diffusion matches Some(t) ==> t@.len() == 5 && forall|k: int|
            0 <= k < 5 ==> (#[trigger] t@[k]).len() == p.pure_records@.len(),
        p.thermal_conductivity matches Some(t) ==> t@.len() == 4 && forall|k: int|
            0 <= k < 4 ==> (#[trigger] t@[k]).len() == p.pure_records@.len(),
{
    let pure = p.pure_records@;
    let v = viscosity_sets(pure);
    let d = diffusion_sets(pure);
    let t = thermal_conductivity_sets(pure);
    if all_present(v) {
        assert forall|i: int| 0 <= i < pure.len() implies (
        #[trigger] pure[i]).model_record.viscosity is Some by {
            assert(v[i] is Some);
        }
    } else {
        let i = choose|i: int| 0 <= i < v.len() && !(#[trigger] v[i] is Some);
        assert(!(pure[i].model_record.viscosity is Some));
    }
    if all_present(d) {
        assert forall|i: int| 0 <= i < pure.len() implies (
        #[trigger] pure[i]).model_record.diffusion is Some by {
            assert(d[i] is Some);
        }
    } else {
        let i = choose|i: int| 0 <= i < d.len() && !(#[trigger] d[i] is Some);
        assert(!(pure[i].model_record.diffusion is Some));
    }
    if all_present(t) {
        assert forall|i: int| 0 <= i < pure.len() implies (
        #[trigger] pure[i]).model_record.thermal_conductivity is Some by {
            assert(t[i] is Some);
        }
    } else {
        let i = choose|i: int| 0 <= i < t.len() && !(#[trigger] t[i] is Some);
        assert(!(pure[i].model_record.thermal_conductivity is Some));
    }
}

/// A component is listed as temperature-dependent exactly if its name holds the
/// marker.
pub proof fn theorem_listed_is_marked(p: ElectrolytePcSaftParameters, i: usize)
    requires
        p.wf(),
        i < p.pure_records@.len(),
    ensures
        p.sigma_t_comp@.contains(i) <==> marked(p.pure_records@[i as int].identifier.name),
{
    assert(p.pure_records.len() == p.pure_records@.len());
    lemma_positions_contains(marked_flags(p.pure_records@), p.pure_records@.len(), i);
}

/// The segment diameter of a component whose name does not hold the marker is
/// its own diameter at every temperature: whatever the correlation gives, what
/// `sigma_t` returns for that component is the diameter of its record.
pub proof fn theorem_unmarked_diameter_is_static(
    p: ElectrolytePcSaftParameters,
    corrected: Seq<Number>,
    i: usize,
)
    requires
        p.wf(),
        i < p.pure_records@.len(),
        !marked(p.pure_records@[i as int].identifier.name),
    ensures
        p.diameters_at(corrected)[i as int] == p.pure_records@[i as int].model_record.sigma,
{
    theorem_listed_is_marked(p, i);
}

/// A component is a rigid ion exactly if its charge differs from zero. The rule
/// of a rigid ion reads neither the temperature nor the energy parameter.
pub proof fn theorem_ions_are_rigid(p: ElectrolytePcSaftParameters, i: usize)
    requires
        p.wf(),
        i < p.pure_records@.len(),
    ensures
        p.hard_sphere_rules()[i as int] == HardSphereRule::RigidIon <==> is_nonzero(
            p.z@[i as int],
        ),
{
    theorem_ions_and_solvents_partition(p);
}

/// A mixture of one component whose record has no moment, no charge, no
/// association record and no permittivity record, and which has no binary
/// records, has no dipolar, quadrupolar or ionic component and one solvent, no
/// association and no permittivity model. The reduced moments of such a
/// component have no magnitude, as the reduction of a moment of zero gives.
pub proof fn theorem_single_plain_component(p: ElectrolytePcSaftParameters)
    requires
        p.wf(),
        p.pure_records@.len() == 1,
        p.binary_records is None,
        p.pure_records@[0].model_record.mu is None,
        p.pure_records@[0].model_record.q is None,
        p.pure_records@[0].model_record.z is None,
        p.pure_records@[0].model_record.association_record is None,
        p.pure_records@[0].model_record.permittivity_record is None,
        !has_magnitude(p.mu2@[0]),
        !has_magnitude(p.q2@[0]),
    ensures
        p.ndipole == 0,
        p.nquadpole == 0,
        p.nionic == 0,
        p.nsolvent == 1,
        p.association.records@[0]@.len() == 0,
        p.association.binary@.len() == 0,
        p.permittivity is None,
{
    let pure = p.pure_records@;
    let z = charges(pure);
    lemma_one_position(magnitude_flags(p.mu2@));
    lemma_one_position(magnitude_flags(p.q2@));
    lemma_one_position(nonzero_flags(z));
    lemma_one_position(zero_flags(z));
    lemma_one_position(has_record(pure));
}

/// The positions of a list of one flag: the position zero if the flag holds, and
/// none if it does not.
proof fn lemma_one_position(flags: Seq<bool>)
    requires
        flags.len() == 1,
    ensures
        positions(flags, 1) == if flags[0] {
            seq![0usize]
        } else {
            Seq::<usize>::empty()
        },
{
    assert(positions(flags, 0) == Seq::<usize>::empty());
    assert(positions(flags, 1) =~= if flags[0] {
        seq![0usize]
    } else {
        Seq::<usize>::empty()
    }) by {
        reveal_with_fuel(positions, 2);
    }
}

} // verus!
