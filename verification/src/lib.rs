//! Parameter assembly for an electrolyte PC-SAFT equation of state.
//!
//! The crate takes per-component molecular records and optional binary records and
//! assembles the consolidated parameter set that property evaluation reads:
//! per-component arrays, pairwise tables, classification index lists,
//! entropy-scaling tables and the consolidated permittivity model. Every rule that
//! decides where a value goes, which components fall into a class and when a
//! configuration is rejected is verified here.
//!
//! Real quantities are never computed with in this crate. Each one is carried as
//! the bit pattern of an IEEE 754 binary64 number (see [`number`]) and is only
//! copied, compared and classified. Products, roots and exponentials are the
//! caller's part: the caller hands their results in as patterns.
//!
//! - [`number`]: patterns and their comparison
//! - [`records`]: the records of components and of pairs
//! - [`segments`]: the record of a component from the records of its segments
//! - [`parameters`]: the parameter set and its construction
//! - [`classify`], [`marker`], [`interaction`], [`entropy_scaling`],
//!   [`permittivity`]: the parts of the construction
//! - [`hard_sphere`]: which rule gives each component its diameter
//! - [`report`]: the parameter table as Markdown
//! - [`theorems`]: what holds of every well-formed parameter set
//! - [`arrays`]: the `ndarray` arrays that the parameter set is made of
//! - [`errors`], [`text`]: errors and their messages

pub mod number;
pub mod text;
pub mod arrays;
pub mod records;
pub mod classify;
pub mod marker;
pub mod errors;
pub mod interaction;
pub mod entropy_scaling;
pub mod permittivity;
pub mod parameters;
pub mod hard_sphere;
pub mod theorems;
pub mod segments;
pub mod report;
