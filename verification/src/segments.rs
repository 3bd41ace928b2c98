//! A component's record from the records of its segments.
//!
//! The entries of the aggregated record are sums over the segments, weighted by
//! the number of times that each segment occurs. The sums are real arithmetic
//! and are handed in. What is decided here is which entries the aggregated
//! record has at all: a moment or an association record if some segment has
//! one, a set of entropy-scaling coefficients only if every segment has one.

use vstd::prelude::*;
use crate::number::Number;
use crate::records::AssociationRecord;
use crate::records::ElectrolytePcSaftRecord;

verus! {

/// The sums over the segments of a component.
pub struct SegmentTotals {
    /// The segment number
    pub m: Number,
    /// The segment diameter
    pub sigma: Number,
    /// The energy parameter
    pub epsilon_k: Number,
    /// The sum of the dipole moments of the segments that have one
    pub mu: Number,
    /// The sum of the quadrupole moments of the segments that have one
    pub q: Number,
    /// The sums of the entries of the association records
    pub association: AssociationRecord,
    /// The viscosity coefficients
    pub viscosity: [Number; 4],
    /// The diffusion coefficients
    pub diffusion: [Number; 5],
    /// The thermal conductivity coefficients
    pub thermal_conductivity: [Number; 4],
    /// The sum of the charges
    pub z: Number,
}

/// An entry of a record that a segment may have or lack.
#[derive(Clone, Copy, Debug, PartialEq, Eq, Structural)]
pub enum Entry {
    Dipole,
    Quadrupole,
    Association,
    Viscosity,
    Diffusion,
    ThermalConductivity,
}

/// The record has the entry.
pub open spec fn has(r: ElectrolytePcSaftRecord, entry: Entry) -> bool {
    match entry {
        Entry::Dipole => r.mu is Some,
        Entry::Quadrupole => r.q is Some,
        Entry::Association => r.association_record is Some,
        Entry::Viscosity => r.viscosity is Some,
        Entry::Diffusion => r.diffusion is Some,
        Entry::ThermalConductivity => r.thermal_conductivity is Some,
    }
}

/// Some segment has the entry.
pub open spec fn some_has(segments: Seq<(ElectrolytePcSaftRecord, Number)>, entry: Entry) -> bool {
    exists|i: int| 0 <= i < segments.len() && has((#[trigger] segments[i]).0, entry)
}

/// Every segment has the entry.
pub open spec fn every_has(segments: Seq<(ElectrolytePcSaftRecord, Number)>, entry: Entry) -> bool {
    forall|i: int| 0 <= i < segments.len() ==> has((#[trigger] segments[i]).0, entry)
}

/// Which entries the aggregated record of a list of segments has.
#[derive(Clone, Copy, Debug, PartialEq, Eq, Structural)]
pub struct SegmentEntries {
    pub mu: bool,
    pub q: bool,
    pub association: bool,
    pub viscosity: bool,
    pub diffusion: bool,
    pub thermal_conductivity: bool,
}

/// The entries that the aggregated record of `segments` has.
pub open spec fn entries(segments: Seq<(ElectrolytePcSaftRecord, Number)>) -> SegmentEntries {
    SegmentEntries {
        mu: some_has(segments, Entry::Dipole),
        q: some_has(segments, Entry::Quadrupole),
        association: some_has(segments, Entry::Association),
        viscosity: every_has(segments, Entry::Viscosity),
        diffusion: every_has(segments, Entry::Diffusion),
        thermal_conductivity: every_has(segments, Entry::ThermalConductivity),
    }
}

/// The aggregated record: the sums, each where the record has that entry. The
/// charge is always there, a permittivity record never.
pub open spec fn aggregate(entries: SegmentEntries, totals: SegmentTotals) -> ElectrolytePcSaftRecord {
    ElectrolytePcSaftRecord {
        m: totals.m,
        sigma: totals.sigma,
        epsilon_k: totals.epsilon_k,
        mu: if entries.mu {
            Some(totals.mu)
        } else {
            None
        },
        q: if entries.q {
            Some(totals.q)
        } else {
            None
        },
        association_record: if entries.association {
            Some(totals.association)
        } else {
            None
        },
        viscosity: if entries.viscosity {
            Some(totals.viscosity)
        } else {
            None
        },
        diffusion: if entries.diffusion {
            Some(totals.diffusion)
        } else {
            None
        },
        thermal_conductivity: if entries.thermal_conductivity {
            Some(totals.thermal_conductivity)
        } else {
            None
        },
        z: Some(totals.z),
        permittivity_record: None,
    }
}

/// With one more segment, some segment has the entry if some segment had it
/// before or the new one has it, and every segment has it if every segment had it
/// before and the new one has it.
pub proof fn lemma_one_more_segment(
    segments: Seq<(ElectrolytePcSaftRecord, Number)>,
    s: (ElectrolytePcSaftRecord, Number),
    entry: Entry,
)
    ensures
        some_has(segments.push(s), entry) <==> some_has(segments, entry) || has(s.0, entry),
        every_has(segments.push(s), entry) <==> every_has(segments, entry) && has(s.0, entry),
{
    let more = segments.push(s);
    assert(more[segments.len() as int] == s);
    assert forall|a: int| 0 <= a < segments.len() implies more[a] == segments[a] by {}
    if some_has(segments, entry) {
        let a = choose|a: int| 0 <= a < segments.len() && has((#[trigger] segments[a]).0, entry);
        assert(has(more[a].0, entry));
    }
    if some_has(more, entry) {
        let a = choose|a: int| 0 <= a < more.len() && has((#[trigger] more[a]).0, entry);
        if a < segments.len() {
            assert(has(segments[a].0, entry));
        }
    }
    if every_has(more, entry) {
        assert forall|a: int| 0 <= a < segments.len() implies has(
            (#[trigger] segments[a]).0,
            entry,
        ) by {
            assert(has(more[a].0, entry));
        }
    }
}

/// Finds which entries the aggregated record of the segments has.
pub fn segment_entries(segments: &Vec<(ElectrolytePcSaftRecord, Number)>) -> (r: SegmentEntries)
    ensures
        r == entries(segments@),
{
    let n: usize = segments.len();
    let mut mu: bool = false;
    let mut q: bool = false;
    let mut association: bool = false;
    let mut viscosity: bool = true;
    let mut diffusion: bool = true;
    let mut thermal_conductivity: bool = true;
    let mut i: usize = 0;
    while i < n
        invariant
            n == segments@.len(),
            i <= n,
            mu == some_has(segments@.take(i as int), Entry::Dipole),
            q == some_has(segments@.take(i as int), Entry::Quadrupole),
            association == some_has(segments@.take(i as int), Entry::Association),
            viscosity == every_has(segments@.take(i as int), Entry::Viscosity),
            diffusion == every_has(segments@.take(i as int), Entry::Diffusion),
            thermal_conductivity == every_has(segments@.take(i as int), Entry::ThermalConductivity),
        decreases n - i,
    {
        let s = &segments[i].0;
        proof {
            let before = segments@.take(i as int);
            assert(segments@.take(i + 1) =~= before.push(segments@[i as int]));
            lemma_one_more_segment(before, segments@[i as int], Entry::Dipole);
            lemma_one_more_segment(before, segments@[i as int], Entry::Quadrupole);
            lemma_one_more_segment(before, segments@[i as int], Entry::Association);
            lemma_one_more_segment(before, segments@[i as int], Entry::Viscosity);
            lemma_one_more_segment(before, segments@[i as int], Entry::Diffusion);
            lemma_one_more_segment(before, segments@[i as int], Entry::ThermalConductivity);
        }
        if s.mu.is_some() {
            mu = true;
        }
        if s.q.is_some() {
            q = true;
        }
        if s.association_record.is_some() {
            association = true;
        }
        if s.viscosity.is_none() {
            viscosity = false;
        }
        if s.diffusion.is_none() {
            diffusion = false;
        }
        if s.thermal_conductivity.is_none() {
            thermal_conductivity = false;
        }
        i = i + 1;
    }
    assert(segments@.take(n as int) =~= segments@);
    SegmentEntries { mu, q, association, viscosity, diffusion, thermal_conductivity }
}

impl ElectrolytePcSaftRecord {
    /// The record of a component from the records of its segments, each with the
    /// number of times that it occurs, and from the sums over the segments.
    ///
    /// The record has the segment number, the diameter, the energy parameter and
    /// the charge of the sums. It has the dipole moment, the quadrupole moment
    /// and the association record of the sums if some segment has one, and each
    /// set of entropy-scaling coefficients if every segment has one. It has no
    /// permittivity record.
    pub fn from_segments(
        segments: &Vec<(ElectrolytePcSaftRecord, Number)>,
        totals: SegmentTotals,
    ) -> (r: ElectrolytePcSaftRecord)
        ensures
            r == aggregate(entries(segments@), totals),
    {
        let present = segment_entries(segments);
        ElectrolytePcSaftRecord {
            m: totals.m,
            sigma: totals.sigma,
            epsilon_k: totals.epsilon_k,
            mu: if present.mu {
                Some(totals.mu)
            } else {
                None
            },
            q: if present.q {
                Some(totals.q)
            } else {
                None
            },
            association_record: if present.association {
                Some(totals.association)
            } else {
                None
            },
            viscosity: if present.viscosity {
                Some(totals.viscosity)
            } else {
                None
            },
            diffusion: if present.diffusion {
                Some(totals.diffusion)
            } else {
                None
            },
            thermal_conductivity: if present.thermal_conductivity {
                Some(totals.thermal_conductivity)
            } else {
                None
            },
            z: Some(totals.z),
            permittivity_record: None,
        }
    }
}

/// Where a record stands for a group of segments and has an entry exactly if
/// some, or every, segment of the group has it, the record together with the
/// rest has the entry as the group together with the rest has it.
pub proof fn lemma_grouping(
    first: Seq<(ElectrolytePcSaftRecord, Number)>,
    rest: Seq<(ElectrolytePcSaftRecord, Number)>,
    group: (ElectrolytePcSaftRecord, Number),
    entry: Entry,
)
    ensures
        (has(group.0, entry) <==> some_has(first, entry)) ==> (some_has(seq![group] + rest, entry) <==> some_has(
            first + rest,
            entry,
        )),
        (has(group.0, entry) <==> every_has(first, entry)) ==> (every_has(seq![group] + rest, entry)
            <==> every_has(first + rest, entry)),
    decreases rest.len(),
{
    if rest.len() == 0 {
        assert(seq![group] + rest =~= Seq::empty().push(group));
        assert(first + rest =~= first);
        lemma_one_more_segment(Seq::empty(), group, entry);
    } else {
        let last = rest.last();
        let fewer = rest.drop_last();
        lemma_grouping(first, fewer, group, entry);
        assert(seq![group] + rest =~= (seq![group] + fewer).push(last));
        assert(first + rest =~= (first + fewer).push(last));
        lemma_one_more_segment(seq![group] + fewer, last, entry);
        lemma_one_more_segment(first + fewer, last, entry);
    }
}

/// Which entries an aggregated record has does not depend on how the segments
/// are grouped: aggregating some segments first, and then the result with the
/// rest, gives a record with the same entries as aggregating all at once,
/// whatever the sums and the weight of the intermediate record are.
pub proof fn theorem_entries_do_not_depend_on_grouping(
    first: Seq<(ElectrolytePcSaftRecord, Number)>,
    rest: Seq<(ElectrolytePcSaftRecord, Number)>,
    totals: SegmentTotals,
    weight: Number,
)
    ensures
        entries(seq![(aggregate(entries(first), totals), weight)] + rest) == entries(first + rest),
{
    let group = (aggregate(entries(first), totals), weight);
    lemma_grouping(first, rest, group, Entry::Dipole);
    lemma_grouping(first, rest, group, Entry::Quadrupole);
    lemma_grouping(first, rest, group, Entry::Association);
    lemma_grouping(first, rest, group, Entry::Viscosity);
    lemma_grouping(first, rest, group, Entry::Diffusion);
    lemma_grouping(first, rest, group, Entry::ThermalConductivity);
}

} // verus!
