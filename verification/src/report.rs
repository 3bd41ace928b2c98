//! The parameter table as Markdown.
//!
//! The table has one row per component: its name, its molar weight, its segment
//! number, diameter and energy parameter, its dipole moment, quadrupole moment
//! and charge, and the five entries of its association record. An entry that the
//! record lacks is shown as zero, and a component without a name is labelled by
//! its position. Numbers are not rendered here: the caller renders the numbers
//! that `table_numbers` picks and hands the texts to `to_markdown`.

use vstd::prelude::*;
use vstd::string::*;
use crate::number::Number;
use crate::number::ZERO;
use crate::parameters::ElectrolytePcSaftParameters;
use crate::records::AssociationRecord;
use crate::records::PureRecord;
use crate::records::or_zero;
use crate::records::value_or_zero;
use crate::text::append_decimal;
use crate::text::decimal;

verus! {

/// The association record of a component, all zero where it has none.
pub open spec fn association_or_zero(r: PureRecord) -> AssociationRecord {
    match r.model_record.association_record {
        Some(a) => a,
        None => AssociationRecord {
            kappa_ab: ZERO,
            epsilon_k_ab: ZERO,
            na: ZERO,
            nb: ZERO,
            nc: ZERO,
        },
    }
}

/// The twelve numbers of the row of a component, in the order of the columns.
pub open spec fn row_numbers(r: PureRecord) -> Seq<Number> {
    seq![
        r.molarweight,
        r.model_record.m,
        r.model_record.sigma,
        r.model_record.epsilon_k,
        or_zero(r.model_record.mu),
        or_zero(r.model_record.q),
        or_zero(r.model_record.z),
        association_or_zero(r).kappa_ab,
        association_or_zero(r).epsilon_k_ab,
        association_or_zero(r).na,
        association_or_zero(r).nb,
        association_or_zero(r).nc,
    ]
}

/// The head of the table: the line of column titles and the line that
/// separates it from the rows.
pub open spec fn header() -> Seq<char> {
    "|component|molarweight|$m$|$\\sigma$|$\\varepsilon$|$\\mu$|$Q$|$z$|$\\kappa_{AB}$|$\\varepsilon_{AB}$|$N_A$|$N_B$|\n|-|-|-|-|-|-|-|-|-|-|-|-|"@
}

/// The label of the component at position `i`: its name, or the word
/// `Component` and its position, counted from one.
pub open spec fn label(r: PureRecord, i: nat) -> Seq<char> {
    match r.identifier.name {
        Some(s) => s@,
        None => "Component "@ + decimal(i + 1),
    }
}

/// The first `k` cells of a row, each followed by a bar.
pub open spec fn cells_text(cells: Seq<String>, k: nat) -> Seq<char>
    decreases k,
{
    if k == 0 {
        Seq::empty()
    } else {
        cells_text(cells, (k - 1) as nat) + cells[k - 1]@ + "|"@
    }
}

/// One row: a line break, a bar, the label, a bar, and the cells.
pub open spec fn row_text(r: PureRecord, i: nat, cells: Seq<String>) -> Seq<char> {
    "\n|"@ + label(r, i) + "|"@ + cells_text(cells, cells.len())
}

/// The first `k` rows.
pub open spec fn rows_text(pure: Seq<PureRecord>, cells: Seq<[String; 12]>, k: nat) -> Seq<char>
    decreases k,
{
    if k == 0 {
        Seq::empty()
    } else {
        rows_text(pure, cells, (k - 1) as nat) + row_text(pure[k - 1], (k - 1) as nat, cells[k - 1]@)
    }
}

/// The whole table.
pub open spec fn markdown(pure: Seq<PureRecord>, cells: Seq<[String; 12]>) -> Seq<char> {
    header() + rows_text(pure, cells, pure.len())
}

/// The twelve numbers of the row of a component, in the order of the columns.
pub fn numbers_of(r: &PureRecord) -> (row: [Number; 12])
    ensures
        row@ == row_numbers(*r),
{
    let a: AssociationRecord = match r.model_record.association_record {
        Some(a) => a,
        None => AssociationRecord::new(ZERO, ZERO, ZERO, ZERO, ZERO),
    };
    let row: [Number; 12] = [
        r.molarweight,
        r.model_record.m,
        r.model_record.sigma,
        r.model_record.epsilon_k,
        value_or_zero(r.model_record.mu),
        value_or_zero(r.model_record.q),
        value_or_zero(r.model_record.z),
        a.kappa_ab,
        a.epsilon_k_ab,
        a.na,
        a.nb,
        a.nc,
    ];
    assert(row@ =~= row_numbers(*r));
    row
}

impl ElectrolytePcSaftParameters {
    /// The numbers of the table: for each component the twelve numbers of its
    /// row.
    pub fn table_numbers(&self) -> (r: Vec<[Number; 12]>)
        ensures
            r@.len() == self.pure_records@.len(),
            forall|i: int|
                0 <= i < self.pure_records@.len() ==> (#[trigger] r@[i])@ == row_numbers(
                    self.pure_records@[i],
                ),
    {
        let n: usize = self.pure_records.len();
        let mut out: Vec<[Number; 12]> = Vec::new();
        let mut i: usize = 0;
        while i < n
            invariant
                n == self.pure_records@.len(),
                i <= n,
                out@.len() == i,
                forall|a: int|
                    0 <= a < i ==> (#[trigger] out@[a])@ == row_numbers(self.pure_records@[a]),
            decreases n - i,
        {
            out.push(numbers_of(&self.pure_records[i]));
            i = i + 1;
        }
        out
    }

    /// The parameter table as Markdown, where `cells` holds for each component
    /// the texts of the twelve numbers of its row.
    pub fn to_markdown(&self, cells: &Vec<[String; 12]>) -> (r: String)
        requires
            cells@.len() == self.pure_records@.len(),
        ensures
            r@ == markdown(self.pure_records@, cells@),
    {
        let n: usize = self.pure_records.len();
        let mut out: String = String::from_str(
            "|component|molarweight|$m$|$\\sigma$|$\\varepsilon$|$\\mu$|$Q$|$z$|$\\kappa_{AB}$|$\\varepsilon_{AB}$|$N_A$|$N_B$|\n|-|-|-|-|-|-|-|-|-|-|-|-|",
        );
        let mut i: usize = 0;
        while i < n
            invariant
                n == self.pure_records@.len(),
                cells@.len() == n,
                i <= n,
                out@ == header() + rows_text(self.pure_records@, cells@, i as nat),
            decreases n - i,
        {
            let ghost start = out@;
            let record = &self.pure_records[i];
            out.append("\n|");
            match &record.identifier.name {
                Some(name) => {
                    out.append(name.as_str());
                },
                None => {
                    out.append("Component ");
                    append_decimal(&mut out, i + 1);
                    assert(out@ =~= start + "\n|"@ + ("Component "@ + decimal((i + 1) as nat)));
                },
            }
            out.append("|");
            let row = &cells[i];
            let ghost lead = out@;
            assert(lead == start + "\n|"@ + label(*record, i as nat) + "|"@);
            let mut k: usize = 0;
            while k < 12
                invariant
                    k <= 12,
                    row@.len() == 12,
                    out@ == lead + cells_text(row@, k as nat),
                decreases 12 - k,
            {
                out.append(row[k].as_str());
                out.append("|");
                k = k + 1;
                assert(out@ =~= lead + cells_text(row@, k as nat));
            }
            assert(out@ =~= start + row_text(*record, i as nat, row@));
            i = i + 1;
            assert(out@ =~= header() + rows_text(self.pure_records@, cells@, i as nat));
        }
        out
    }
}

} // verus!
