//! The algebraic laws of the capabilities, stated over the specification
//! functions of the witnesses and proved for each kind of container.
//!
//! An executable function `func` gives an operation the relation of its
//! contract, `|x, y| func.ensures((x,), y)`. Where `func` ensures
//! `y == f(x)` for a specification function `f`, that relation implies the
//! relation of the graph of `f`, `|x, y| y == f(x)`, and the
//! `*_ensures_weaken` lemma of the capability carries the result of the
//! operation over to it. The laws for deterministic functions are stated over
//! graph relations.

pub mod option;
pub mod result;
pub mod vec;
pub mod numeric;
pub mod deferred;
