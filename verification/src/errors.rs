//! The ways in which a configuration is rejected.

use vstd::prelude::*;
use vstd::string::*;
use crate::text::append_decimal;
use crate::text::decimal;

verus! {

/// Why no parameter set was built. Each variant names the component or the pair
/// that the configuration fails at, where there is one.
#[derive(Clone, Copy, Debug, PartialEq, Eq, Structural)]
pub enum ParameterError {
    /// There are so many components that the number of their pairs exceeds what
    /// the machine can count.
    TooManyComponents,
    /// A combined quantity has not one entry per component, or per pair of
    /// components.
    CombinedQuantityShape,
    /// The binary records do not form a square table with one row and one column
    /// per component.
    BinaryRecordShape,
    /// The pair of the components `i` and `j` has `count` interaction
    /// coefficients, which is more than four.
    InteractionCoefficients { i: usize, j: usize, count: usize },
    /// There are ions, and only `records` components have a permittivity record
    /// while there are `solvents` solvents.
    MissingPermittivity { records: usize, solvents: usize },
    /// The permittivity record of `component` is of another kind than the records
    /// of the components before it.
    InconsistentPermittivity { component: usize },
    /// The permittivity record of `component` holds no entry.
    EmptyPermittivity { component: usize },
    /// The tabulated permittivity points of `component` are not in the order of
    /// their temperatures.
    UnsortedPermittivity { component: usize },
    /// There are ions and no component has a permittivity record.
    UnspecifiedPermittivity,
}

impl ParameterError {
    /// What `message` says.
    pub open spec fn text(self) -> Seq<char> {
        match self {
            ParameterError::TooManyComponents =>
                "The number of pairs of components exceeds what the machine can count."@,
            ParameterError::CombinedQuantityShape =>
                "The combined quantities do not have one entry per component and per pair of components."@,
            ParameterError::BinaryRecordShape =>
                "The binary records do not form a square table with one row per component."@,
            ParameterError::InteractionCoefficients { i, j, count } =>
                "Binary interaction for component "@ + decimal(i as nat) + " with "@ + decimal(
                    j as nat,
                ) + " is parametrized with "@ + decimal(count as nat)
                    + " k_ij coefficients, which is more than 4."@,
            ParameterError::MissingPermittivity { records, solvents } =>
                "Provide permittivity records for each solvent: there are "@ + decimal(
                    records as nat,
                ) + " records for "@ + decimal(solvents as nat) + " solvents."@,
            ParameterError::InconsistentPermittivity { component } =>
                "Inconsistent models for permittivity: the record of component "@ + decimal(
                    component as nat,
                ) + " is of another kind than the records before it."@,
            ParameterError::EmptyPermittivity { component } =>
                "Permittivity record of component "@ + decimal(component as nat)
                    + " holds no entry."@,
            ParameterError::UnsortedPermittivity { component } =>
                "Permittivity points for component "@ + decimal(component as nat)
                    + " are unsorted."@,
            ParameterError::UnspecifiedPermittivity =>
                "Permittivity of one or more solvents must be specified."@,
        }
    }

    /// The error in words, with the component or the pair that it names.
    pub fn message(&self) -> (r: String)
        ensures
            r@ == self.text(),
    {
        match *self {
            ParameterError::TooManyComponents => String::from_str(
                "The number of pairs of components exceeds what the machine can count.",
            ),
            ParameterError::CombinedQuantityShape => String::from_str(
                "The combined quantities do not have one entry per component and per pair of components.",
            ),
            ParameterError::BinaryRecordShape => String::from_str(
                "The binary records do not form a square table with one row per component.",
            ),
            ParameterError::InteractionCoefficients { i, j, count } => {
                let mut out = String::from_str("Binary interaction for component ");
                append_decimal(&mut out, i);
                out.append(" with ");
                append_decimal(&mut out, j);
                out.append(" is parametrized with ");
                append_decimal(&mut out, count);
                out.append(" k_ij coefficients, which is more than 4.");
                out
            },
            ParameterError::MissingPermittivity { records, solvents } => {
                let mut out = String::from_str(
                    "Provide permittivity records for each solvent: there are ",
                );
                append_decimal(&mut out, records);
                out.append(" records for ");
                append_decimal(&mut out, solvents);
                out.append(" solvents.");
                out
            },
            ParameterError::InconsistentPermittivity { component } => {
                let mut out = String::from_str(
                    "Inconsistent models for permittivity: the record of component ",
                );
                append_decimal(&mut out, component);
                out.append(" is of another kind than the records before it.");
                out
            },
            ParameterError::EmptyPermittivity { component } => {
                let mut out = String::from_str("Permittivity record of component ");
                append_decimal(&mut out, component);
                out.append(" holds no entry.");
                out
            },
            ParameterError::UnsortedPermittivity { component } => {
                let mut out = String::from_str("Permittivity points for component ");
                append_decimal(&mut out, component);
                out.append(" are unsorted.");
                out
            },
            ParameterError::UnspecifiedPermittivity => String::from_str(
                "Permittivity of one or more solvents must be specified.",
            ),
        }
    }
}

} // verus!
