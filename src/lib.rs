//! A typed query-construction core: domain value types and their decoding,
//! expression trees that render to SQL, and a per-query builder context that
//! gives every distinct join or aggregate subquery exactly one alias.
use vstd::prelude::*;

pub mod builder;
pub mod expr;
pub mod sql;
pub mod typ;

verus! {

} // verus!
