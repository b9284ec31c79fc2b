//! Schema crates for the kyyn knowledge-base templates: the records a KB
//! stores, and the validator boundary that checks a proposed tree before it
//! is accepted.
use vstd::prelude::*;

pub mod component;
pub mod model;
pub mod ordering;
pub mod outside;
pub mod queries;
pub mod roles;
pub mod text;
pub mod validate;
pub mod wire;

verus! {
} // verus!
