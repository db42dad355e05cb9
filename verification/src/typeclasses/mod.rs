//! The capability layer: one trait per algebraic capability, a marker for the
//! witnesses that implement them, and the associations from a container type to
//! its witness.
//!
//! Every capability method comes with a pair of specification functions on the
//! witness. `*_requires` says on which containers the operation may be run with
//! a function whose precondition is the predicate `pre`; `*_ensures` relates the
//! containers to the result, given the function's input/output relation `post`.
//! Stating both over predicates keeps the contracts meaningful for mapping
//! functions that are not deterministic.

use vstd::prelude::*;

pub mod functor;
pub mod applicative;
pub mod monad;
pub mod monaderror;
pub mod semigroup;
pub mod monoid;
pub mod product;
pub mod synct;
pub mod traverse;

verus! {

/// Marker for capability witnesses: stateless values that only select an
/// implementation.
pub trait Effect {

}

/// Marker for container types holding items of type `X`.
pub trait F<X> {

}

} // verus!
