//! Schema-authored analytical queries over the templates' kinds.
use vstd::prelude::*;

verus! {

/// The queries a template ships: none yet.
pub fn queries() -> (declared: Vec<kyyn_core::query::QueryDecl>)
    ensures
        declared@.len() == 0,
{
    Vec::new()
}

} // verus!
