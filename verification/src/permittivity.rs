//! The consolidated permittivity model of a mixture.
//!
//! Each component may carry a permittivity record of one of two kinds. The
//! records of a mixture must all be of one kind, each must hold an entry, and
//! tabulated points must come in the order of their temperatures. With ions
//! present, a mixture needs at least as many records as it has solvents, and at
//! least one.

use vstd::prelude::*;
use crate::classify::lemma_positions_prefix;
use crate::classify::positions;
use crate::errors::ParameterError;
use crate::number::Number;
use crate::number::below;
use crate::number::is_below;
use crate::records::PermittivityRecord;
use crate::records::PureRecord;

verus! {

/// The two kinds of permittivity model.
#[derive(Clone, Copy, Debug, PartialEq, Eq, Structural)]
pub enum PermittivityKind {
    PerturbationTheory,
    ExperimentalData,
}

/// The kind of a record.
pub open spec fn kind_of(r: PermittivityRecord) -> PermittivityKind {
    match r {
        PermittivityRecord::PerturbationTheory { .. } => PermittivityKind::PerturbationTheory,
        PermittivityRecord::ExperimentalData { .. } => PermittivityKind::ExperimentalData,
    }
}

/// Each list of the record holds an entry.
pub open spec fn has_entry(r: PermittivityRecord) -> bool {
    match r {
        PermittivityRecord::PerturbationTheory {
            dipole_scaling,
            polarizability_scaling,
            correlation_integral_parameter,
        } => dipole_scaling@.len() > 0 && polarizability_scaling@.len() > 0
            && correlation_integral_parameter@.len() > 0,
        PermittivityRecord::ExperimentalData { data } => data@.len() > 0,
    }
}

/// No point has a temperature below that of the point before it.
pub open spec fn in_order(points: Seq<(Number, Number)>) -> bool {
    forall|k: int| 0 < k < points.len() ==> !is_below((#[trigger] points[k]).0, points[k - 1].0)
}

/// The permittivity record of component `c`.
pub open spec fn record_of(pure: Seq<PureRecord>, c: int) -> Option<PermittivityRecord> {
    pure[c].model_record.permittivity_record
}

/// For each component, whether it has a permittivity record.
pub open spec fn has_record(pure: Seq<PureRecord>) -> Seq<bool> {
    Seq::new(pure.len(), |c: int| record_of(pure, c) is Some)
}

/// The components that have a permittivity record, in component order.
pub open spec fn with_record(pure: Seq<PureRecord>) -> Seq<usize> {
    positions(has_record(pure), pure.len())
}

/// The kind of the record of the first component that has one.
pub open spec fn leading_kind(pure: Seq<PureRecord>) -> PermittivityKind {
    kind_of(record_of(pure, with_record(pure)[0] as int)->0)
}

/// The first list of points of a record of tabulated data.
pub open spec fn leading_points(r: PermittivityRecord) -> Seq<(Number, Number)> {
    r->data@[0]@
}

/// What is wrong with the permittivity record of component `c`, if anything: it
/// is of another kind than the first record, or else it holds no entry, or else
/// its points are out of order.
pub open spec fn fault(pure: Seq<PureRecord>, c: int) -> Option<ParameterError> {
    match record_of(pure, c) {
        None => None,
        Some(r) => if kind_of(r) != leading_kind(pure) {
            Some(ParameterError::InconsistentPermittivity { component: c as usize })
        } else if !has_entry(r) {
            Some(ParameterError::EmptyPermittivity { component: c as usize })
        } else if r is ExperimentalData && !in_order(leading_points(r)) {
            Some(ParameterError::UnsortedPermittivity { component: c as usize })
        } else {
            None
        },
    }
}

/// No component has a faulty permittivity record.
pub open spec fn faultless(pure: Seq<PureRecord>) -> bool {
    forall|c: int| 0 <= c < pure.len() ==> (#[trigger] fault(pure, c)) is None
}

/// There are ions and fewer permittivity records than solvents.
pub open spec fn lacking(pure: Seq<PureRecord>, nionic: nat, nsolvent: nat) -> bool {
    nionic != 0 && with_record(pure).len() < nsolvent
}

/// The mixture is rejected with the error `e`. The number of records is held
/// against the number of solvents first; then the records are examined in
/// component order; at last a mixture with ions and without any record is
/// rejected.
pub open spec fn rejects(pure: Seq<PureRecord>, nionic: nat, nsolvent: nat, e: ParameterError) -> bool {
    match e {
        ParameterError::MissingPermittivity { records, solvents } => {
            &&& lacking(pure, nionic, nsolvent)
            &&& records == with_record(pure).len()
            &&& solvents == nsolvent
        },
        ParameterError::InconsistentPermittivity { component }
        | ParameterError::EmptyPermittivity { component }
        | ParameterError::UnsortedPermittivity { component } => {
            &&& !lacking(pure, nionic, nsolvent)
            &&& component < pure.len()
            &&& fault(pure, component as int) == Some(e)
            &&& forall|c: int| 0 <= c < component ==> (#[trigger] fault(pure, c)) is None
        },
        ParameterError::UnspecifiedPermittivity => {
            &&& !lacking(pure, nionic, nsolvent)
            &&& faultless(pure)
            &&& nionic > 0
            &&& with_record(pure).len() == 0
        },
        _ => false,
    }
}

/// The mixture is accepted: none of the reasons to reject it holds.
pub open spec fn accepts(pure: Seq<PureRecord>, nionic: nat, nsolvent: nat) -> bool {
    &&& !lacking(pure, nionic, nsolvent)
    &&& faultless(pure)
    &&& !(nionic > 0 && with_record(pure).len() == 0)
}

/// The leading dipole scaling of the record of component `c`.
pub open spec fn dipole_scaling_of(pure: Seq<PureRecord>, c: int) -> Number {
    record_of(pure, c)->0->dipole_scaling@[0]
}

/// The leading polarizability scaling of the record of component `c`.
pub open spec fn polarizability_scaling_of(pure: Seq<PureRecord>, c: int) -> Number {
    record_of(pure, c)->0->polarizability_scaling@[0]
}

/// The leading correlation integral parameter of the record of component `c`.
pub open spec fn correlation_integral_parameter_of(pure: Seq<PureRecord>, c: int) -> Number {
    record_of(pure, c)->0->correlation_integral_parameter@[0]
}

/// The record `r` is the consolidated model of the mixture: nothing where no
/// component has a record; else a record of the kind of the first record, which
/// holds for each component that has a record, in component order, the leading
/// entry of that component's record.
pub open spec fn consolidates(pure: Seq<PureRecord>, r: Option<PermittivityRecord>) -> bool {
    let w = with_record(pure);
    if w.len() == 0 {
        r is None
    } else {
        match leading_kind(pure) {
            PermittivityKind::PerturbationTheory => {
                &&& r matches Some(
                    PermittivityRecord::PerturbationTheory {
                        dipole_scaling,
                        polarizability_scaling,
                        correlation_integral_parameter,
                    },
                )
                &&& dipole_scaling@ == Seq::new(
                    w.len(),
                    |k: int| dipole_scaling_of(pure, w[k] as int),
                )
                &&& polarizability_scaling@ == Seq::new(
                    w.len(),
                    |k: int| polarizability_scaling_of(pure, w[k] as int),
                )
                &&& correlation_integral_parameter@ == Seq::new(
                    w.len(),
                    |k: int| correlation_integral_parameter_of(pure, w[k] as int),
                )
            },
            PermittivityKind::ExperimentalData => {
                &&& r matches Some(PermittivityRecord::ExperimentalData { data })
                &&& data@.len() == w.len()
                &&& forall|k: int|
                    0 <= k < w.len() ==> (#[trigger] data@[k])@ == leading_points(
                        record_of(pure, w[k] as int)->0,
                    )
            },
        }
    }
}

/// The kind of a record.
pub fn kind(r: &PermittivityRecord) -> (k: PermittivityKind)
    ensures
        k == kind_of(*r),
{
    match r {
        PermittivityRecord::PerturbationTheory { .. } => PermittivityKind::PerturbationTheory,
        PermittivityRecord::ExperimentalData { .. } => PermittivityKind::ExperimentalData,
    }
}

/// Tests whether no point has a temperature below that of the point before it.
pub fn points_in_order(points: &Vec<(Number, Number)>) -> (r: bool)
    ensures
        r == in_order(points@),
{
    let mut k: usize = 1;
    while k < points.len()
        invariant
            1 <= k,
            forall|a: int|
                0 < a < k && a < points@.len() ==> !is_below(
                    (#[trigger] points@[a]).0,
                    points@[a - 1].0,
                ),
        decreases points@.len() - k,
    {
        if below(points[k].0, points[k - 1].0) {
            return false;
        }
        k = k + 1;
    }
    true
}

/// A copy of a list of points.
fn copy_points(points: &Vec<(Number, Number)>) -> (r: Vec<(Number, Number)>)
    ensures
        r@ == points@,
{
    let mut out: Vec<(Number, Number)> = Vec::new();
    let mut k: usize = 0;
    while k < points.len()
        invariant
            k <= points@.len(),
            out@ == points@.take(k as int),
        decreases points@.len() - k,
    {
        out.push(points[k]);
        k = k + 1;
    }
    assert(points@.take(points@.len() as int) =~= points@);
    out
}

/// The number of components that have a permittivity record.
pub fn count_records(pure: &Vec<PureRecord>) -> (r: usize)
    ensures
        r == with_record(pure@).len(),
{
    let n: usize = pure.len();
    let mut count: usize = 0;
    let mut c: usize = 0;
    while c < n
        invariant
            n == pure@.len(),
            c <= n,
            count <= c,
            count == positions(has_record(pure@), c as nat).len(),
        decreases n - c,
    {
        if pure[c].model_record.permittivity_record.is_some() {
            count = count + 1;
        }
        c = c + 1;
    }
    count
}

/// Consolidates the permittivity records of a mixture with `nionic` ions and
/// `nsolvent` solvents into one model, or says why the mixture is rejected.
pub fn consolidate(pure: &Vec<PureRecord>, nionic: usize, nsolvent: usize) -> (r: Result<
    Option<PermittivityRecord>,
    ParameterError,
>)
    ensures
        r is Ok <==> accepts(pure@, nionic as nat, nsolvent as nat),
        match r {
            Ok(model) => consolidates(pure@, model),
            Err(e) => rejects(pure@, nionic as nat, nsolvent as nat, e),
        },
{
    let n: usize = pure.len();
    let records: usize = count_records(pure);
    if nionic != 0 && records < nsolvent {
        return Err(ParameterError::MissingPermittivity { records, solvents: nsolvent });
    }
    let ghost flags = has_record(pure@);
    let mut found: Option<PermittivityKind> = None;
    let mut dipole: Vec<Number> = Vec::new();
    let mut polarizability: Vec<Number> = Vec::new();
    let mut correlation: Vec<Number> = Vec::new();
    let mut tables: Vec<Vec<(Number, Number)>> = Vec::new();
    let mut c: usize = 0;
    while c < n
        invariant
            n == pure@.len(),
            c <= n,
            flags == has_record(pure@),
            !lacking(pure@, nionic as nat, nsolvent as nat),
            forall|a: int| 0 <= a < c ==> (#[trigger] fault(pure@, a)) is None,
            found is None <==> positions(flags, c as nat).len() == 0,
            found matches Some(k) ==> k == leading_kind(pure@),
            found is None ==> dipole@.len() == 0 && polarizability@.len() == 0
                && correlation@.len() == 0 && tables@.len() == 0,
            found == Some(PermittivityKind::PerturbationTheory) ==> {
                &&& dipole@ == Seq::new(
                    positions(flags, c as nat).len(),
                    |k: int| dipole_scaling_of(pure@, positions(flags, c as nat)[k] as int),
                )
                &&& polarizability@ == Seq::new(
                    positions(flags, c as nat).len(),
                    |k: int| polarizability_scaling_of(pure@, positions(flags, c as nat)[k] as int),
                )
                &&& correlation@ == Seq::new(
                    positions(flags, c as nat).len(),
                    |k: int|
                        correlation_integral_parameter_of(
                            pure@,
                            positions(flags, c as nat)[k] as int,
                        ),
                )
            },
            found == Some(PermittivityKind::ExperimentalData) ==> {
                &&& tables@.len() == positions(flags, c as nat).len()
                &&& forall|k: int|
                    0 <= k < tables@.len() ==> (#[trigger] tables@[k])@ == leading_points(
                        record_of(pure@, positions(flags, c as nat)[k] as int)->0,
                    )
            },
        decreases n - c,
    {
        let ghost before = positions(flags, c as nat);
        let ghost after = positions(flags, (c + 1) as nat);
        match &pure[c].model_record.permittivity_record {
            None => {
                assert(after == before);
            },
            Some(record) => {
                assert(after == before.push(c));
                proof {
                    lemma_positions_prefix(flags, (c + 1) as nat, n as nat);
                }
                let this: PermittivityKind = kind(record);
                match found {
                    Some(k) => {
                        let same: bool = match (k, this) {
                            (
                                PermittivityKind::PerturbationTheory,
                                PermittivityKind::PerturbationTheory,
                            ) => true,
                            (
                                PermittivityKind::ExperimentalData,
                                PermittivityKind::ExperimentalData,
                            ) => true,
                            _ => false,
                        };
                        if !same {
                            assert(record_of(pure@, c as int) == Some(*record));
                            assert(fault(pure@, c as int) is Some);
                            return Err(
                                ParameterError::InconsistentPermittivity { component: c },
                            );
                        }
                    },
                    None => {
                        assert(after[0] == c);
                        assert(with_record(pure@)[0] == c);
                        found = Some(this);
                    },
                }
                assert(record_of(pure@, c as int) == Some(*record));
                assert(this == leading_kind(pure@));
                match record {
                    PermittivityRecord::PerturbationTheory {
                        dipole_scaling,
                        polarizability_scaling,
                        correlation_integral_parameter,
                    } => {
                        if dipole_scaling.len() == 0 || polarizability_scaling.len() == 0
                            || correlation_integral_parameter.len() == 0 {
                            assert(!has_entry(*record));
                            assert(fault(pure@, c as int) is Some);
                            return Err(ParameterError::EmptyPermittivity { component: c });
                        }
                        dipole.push(dipole_scaling[0]);
                        polarizability.push(polarizability_scaling[0]);
                        correlation.push(correlation_integral_parameter[0]);
                        assert(dipole@ =~= Seq::new(
                            after.len(),
                            |k: int| dipole_scaling_of(pure@, after[k] as int),
                        ));
                        assert(polarizability@ =~= Seq::new(
                            after.len(),
                            |k: int| polarizability_scaling_of(pure@, after[k] as int),
                        ));
                        assert(correlation@ =~= Seq::new(
                            after.len(),
                            |k: int| correlation_integral_parameter_of(pure@, after[k] as int),
                        ));
                    },
                    PermittivityRecord::ExperimentalData { data } => {
                        if data.len() == 0 {
                            assert(!has_entry(*record));
                            assert(fault(pure@, c as int) is Some);
                            return Err(ParameterError::EmptyPermittivity { component: c });
                        }
                        if !points_in_order(&data[0]) {
                            assert(fault(pure@, c as int) is Some);
                            return Err(ParameterError::UnsortedPermittivity { component: c });
                        }
                        let points = copy_points(&data[0]);
                        tables.push(points);
                    },
                }
            },
        }
        c = c + 1;
    }
    if nionic > 0 && found.is_none() {
        return Err(ParameterError::UnspecifiedPermittivity);
    }
    match found {
        Some(PermittivityKind::PerturbationTheory) => Ok(
            Some(
                PermittivityRecord::PerturbationTheory {
                    dipole_scaling: dipole,
                    polarizability_scaling: polarizability,
                    correlation_integral_parameter: correlation,
                },
            ),
        ),
        Some(PermittivityKind::ExperimentalData) => Ok(
            Some(PermittivityRecord::ExperimentalData { data: tables }),
        ),
        None => Ok(None),
    }
}

} // verus!
