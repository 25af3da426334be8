//! Fixed-length sequence construction without a duplication requirement.
//!
//! A caller supplies a count `n` and a generator that yields one element per
//! index; the library drives the generator once per index, in ascending
//! order, and assembles the results into an owned sequence of length `n`.
//! The element type never needs to support duplication: each element is
//! produced in place and moved into its slot exactly once.
//!
//! The pieces are:
//! - [`builder::Builder`], the guard that owns the storage under
//!   construction together with the cursor counting its live prefix;
//! - [`generator::Generator`], the contract a caller-supplied generator
//!   meets, and [`generator::produces`], the run predicate that records one
//!   invocation per index in ascending order;
//! - [`construct::build`], [`construct::try_build`] and
//!   [`construct::build_cloned`], the construction entry points;
//! - [`nested`], a construction whose generator runs a whole nested
//!   construction per invocation;
//! - [`laws`], proved statements relating runs to the generators that drive
//!   them.

pub mod builder;
pub mod construct;
pub mod generator;
pub mod laws;
pub mod nested;
