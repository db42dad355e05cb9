use vstd::prelude::*;
use crate::typeclasses::{Effect, F};
use crate::typeclasses::monad::Foldable;

verus! {

/// The error capability: raising a failure and recovering from one.
/// `handle_error` is the only operation that turns a failure back into a
/// success.
pub trait MonadError<'a>: Foldable<'a> {
    type E;

    spec fn raise_error_ensures(err: Self::E, out: Self::FX) -> bool;

    spec fn handle_error_requires(f: Self::FX, pre: spec_fn(Self::E) -> bool) -> bool;

    spec fn handle_error_ensures(
        f: Self::FX,
        post: spec_fn(Self::E, Self::FX) -> bool,
        out: Self::FX,
    ) -> bool;

    fn raise_error(err: Self::E) -> (out: Self::FX)
        ensures
            Self::raise_error_ensures(err, out),
    ;

    /// A result for a relation is a result for every weaker relation.
    proof fn handle_error_ensures_weaken(
        f: Self::FX,
        p: spec_fn(Self::E, Self::FX) -> bool,
        q: spec_fn(Self::E, Self::FX) -> bool,
        out: Self::FX,
    )
        requires
            Self::handle_error_ensures(f, p, out),
            forall|e: Self::E, fx: Self::FX| #[trigger] p(e, fx) ==> q(e, fx),
        ensures
            Self::handle_error_ensures(f, q, out),
    ;

    fn handle_error<Func: 'a + Send + Sync + Fn(Self::E) -> Self::FX>(
        f: Self::FX,
        recovery: Func,
    ) -> (out: Self::FX)
        requires
            Self::handle_error_requires(f, |e: Self::E| recovery.requires((e,))),
        ensures
            Self::handle_error_ensures(
                f,
                |e: Self::E, fx: Self::FX| recovery.ensures((e,), fx),
                out,
            ),
    ;
}

/// The capability of turning a container into a plain success-or-failure
/// value. Only a container that holds its outcome already has it: a deferred
/// computation has to be driven by the runtime first, which is not done here.
pub trait Attempt<'a>: MonadError<'a> {
    spec fn attempt_ensures(f: Self::FX, out: Result<Self::X, Self::E>) -> bool;

    fn attempt(f: Self::FX) -> (out: Result<Self::X, Self::E>)
        ensures
            Self::attempt_ensures(f, out),
    ;
}

/// Association from a container type to its error witness.
pub trait MonadErrorEffect<'a, X>: Sized + F<X> {
    type E;

    type Fct: MonadError<'a, X = X, E = Self::E, FX = Self> + Effect;
}

/// The failed container for `err`, in the container type that the caller
/// expects.
pub fn raise_error<'a, I, X>(err: I::E) -> (out: I) where I: MonadErrorEffect<'a, X>
    ensures
        I::Fct::raise_error_ensures(err, out),
{
    I::Fct::raise_error(err)
}

/// Attaches `recovery` to `f`: it runs only if `f` has failed, and a success
/// passes through untouched.
pub fn handle_error<'a, I, X>(
    f: I,
    recovery: impl 'a + Send + Sync + Fn(I::E) -> I,
) -> (out: I) where I: MonadErrorEffect<'a, X>
    requires
        I::Fct::handle_error_requires(f, |e: I::E| recovery.requires((e,))),
    ensures
        I::Fct::handle_error_ensures(f, |e: I::E, fx: I| recovery.ensures((e,), fx), out),
{
    I::Fct::handle_error(f, recovery)
}

/// Association from a container type that holds its outcome to the witness
/// that turns it into a plain value.
pub trait AttemptEffect<'a, X>: Sized + F<X> {
    type E;

    type Fct: Attempt<'a, X = X, E = Self::E, FX = Self> + Effect;
}

/// Turns `f` into a plain success-or-failure value.
pub fn attempt<'a, I, X>(f: I) -> (out: Result<X, I::E>) where I: AttemptEffect<'a, X>
    ensures
        I::Fct::attempt_ensures(f, out),
{
    I::Fct::attempt(f)
}

} // verus!
