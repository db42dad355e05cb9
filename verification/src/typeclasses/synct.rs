use vstd::prelude::*;
use crate::typeclasses::F;
use crate::typeclasses::monaderror::MonadError;

verus! {

/// The deferring capability. `suspend` wraps a computation that builds a
/// container so that building it is put off until the result is run; `delay`
/// does the same for a computation of a plain value.
pub trait SyncT<'a>: MonadError<'a> {
    /// Whether `out` stands for one of the containers in `post`.
    spec fn suspend_ensures(post: spec_fn(Self::FX) -> bool, out: Self::FX) -> bool;

    /// A result for a set of containers is a result for every larger set.
    proof fn suspend_ensures_weaken(
        p: spec_fn(Self::FX) -> bool,
        q: spec_fn(Self::FX) -> bool,
        out: Self::FX,
    )
        requires
            Self::suspend_ensures(p, out),
            forall|fx: Self::FX| #[trigger] p(fx) ==> q(fx),
        ensures
            Self::suspend_ensures(q, out),
    ;

    fn suspend<Func: 'a + Fn() -> Self::FX + Send + Sync>(thunk: Func) -> (out: Self::FX)
        requires
            thunk.requires(()),
        ensures
            Self::suspend_ensures(|fx: Self::FX| thunk.ensures((), fx), out),
    ;

    fn delay<Func: 'a + Fn() -> Self::X + Send + Sync>(thunk: Func) -> (out: Self::FX)
        requires
            thunk.requires(()),
        ensures
            Self::suspend_ensures(
                |fx: Self::FX|
                    exists|x: Self::X| thunk.ensures((), x) && Self::pure_ensures(x, fx),
                out,
            ),
    {
        let wrapped = move || -> (fx: Self::FX)
            ensures
                exists|x: Self::X| call_ensures(&thunk, (), x) && Self::pure_ensures(x, fx),
            { Self::pure(thunk()) };
        let ghost wrapped_post = |fx: Self::FX| wrapped.ensures((), fx);
        let out = Self::suspend(wrapped);
        proof {
            Self::suspend_ensures_weaken(
                wrapped_post,
                |fx: Self::FX|
                    exists|x: Self::X| thunk.ensures((), x) && Self::pure_ensures(x, fx),
                out,
            );
        }
        out
    }
}

/// Defers `thunk`, which builds a container, with the witness given.
pub fn suspend<'a, T, FX, X>(_witness: T, thunk: impl Fn() -> FX + 'a + Send + Sync) -> (out:
    FX) where FX: F<X>, X: 'a + Send + Sync, T: SyncT<'a, X = X, FX = FX, Y = X, FY = FX>
    requires
        thunk.requires(()),
    ensures
        T::suspend_ensures(|fx: FX| thunk.ensures((), fx), out),
{
    T::suspend(thunk)
}

/// Defers `thunk`, which computes a plain value, with the witness given.
pub fn delay<'a, T, FX, X>(_witness: T, thunk: impl Fn() -> X + 'a + Send + Sync) -> (out:
    FX) where FX: F<X>, X: 'a + Send + Sync, T: SyncT<'a, X = X, FX = FX, Y = X, FY = FX>
    requires
        thunk.requires(()),
    ensures
        T::suspend_ensures(
            |fx: FX| exists|x: X| thunk.ensures((), x) && T::pure_ensures(x, fx),
            out,
        ),
{
    T::delay(thunk)
}

} // verus!
