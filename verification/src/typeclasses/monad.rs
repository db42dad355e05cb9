use vstd::prelude::*;
use crate::typeclasses::{Effect, F};
use crate::typeclasses::applicative::Applicative;

verus! {

/// The sequencing capability. `flat_map` feeds the items of a container to a
/// function that returns a container, and merges what comes back into one
/// container of the same kind. An absent or failed container is passed on
/// without the function being called.
pub trait Monad<'a>: Effect + Applicative<'a> {
    spec fn flat_map_requires(f: Self::FX, pre: spec_fn(Self::X) -> bool) -> bool;

    spec fn flat_map_ensures(
        f: Self::FX,
        post: spec_fn(Self::X, Self::FY) -> bool,
        out: Self::FY,
    ) -> bool;

    /// A result for a relation is a result for every weaker relation.
    proof fn flat_map_ensures_weaken(
        f: Self::FX,
        p: spec_fn(Self::X, Self::FY) -> bool,
        q: spec_fn(Self::X, Self::FY) -> bool,
        out: Self::FY,
    )
        requires
            Self::flat_map_ensures(f, p, out),
            forall|x: Self::X, fy: Self::FY| #[trigger] p(x, fy) ==> q(x, fy),
        ensures
            Self::flat_map_ensures(f, q, out),
    ;

    fn flat_map<Func: 'a + Fn(Self::X) -> Self::FY + Send + Sync>(f: Self::FX, func: Func) -> (out:
        Self::FY)
        requires
            Self::flat_map_requires(f, |x: Self::X| func.requires((x,))),
        ensures
            Self::flat_map_ensures(f, |x: Self::X, fy: Self::FY| func.ensures((x,), fy), out),
    ;
}

/// Association from a container type to its sequencing witness.
pub trait MonadEffect<'a, X, Y> {
    type FX: F<X>;

    type FY: F<Y>;

    type Fct: Monad<'a, X = X, Y = Y, FX = Self::FX, FY = Self::FY> + Effect;
}

/// Sequences `f` with `func`, through the witness of `f`'s type.
pub fn flat_map<'a, FX, FY, X, Y>(f: FX, func: impl 'a + Fn(X) -> FY + Send + Sync) -> (out:
    FY) where FX: F<X> + MonadEffect<'a, X, Y, FX = FX, FY = FY>, FY: F<Y>
    requires
        FX::Fct::flat_map_requires(f, |x: X| func.requires((x,))),
    ensures
        FX::Fct::flat_map_ensures(f, |x: X, fy: FY| func.ensures((x,), fy), out),
{
    FX::Fct::flat_map(f, func)
}

/// The folding capability. `fold` reduces a container to a value by running an
/// accumulating function over its items, from a seed.
///
/// The result type `Y2` may differ from the accumulator type `Y`: a deferred
/// container folds to a deferred accumulator.
pub trait Foldable<'a>: Effect + Monad<'a> {
    type Y2;

    spec fn fold_requires(
        f: Self::FX,
        init: Self::Y,
        pre: spec_fn(Self::Y, Self::X) -> bool,
        post: spec_fn(Self::Y, Self::X, Self::Y) -> bool,
    ) -> bool;

    spec fn fold_ensures(
        f: Self::FX,
        init: Self::Y,
        post: spec_fn(Self::Y, Self::X, Self::Y) -> bool,
        out: Self::Y2,
    ) -> bool;

    /// A result for a relation is a result for every weaker relation.
    proof fn fold_ensures_weaken(
        f: Self::FX,
        init: Self::Y,
        p: spec_fn(Self::Y, Self::X, Self::Y) -> bool,
        q: spec_fn(Self::Y, Self::X, Self::Y) -> bool,
        out: Self::Y2,
    )
        requires
            Self::fold_ensures(f, init, p, out),
            forall|y: Self::Y, x: Self::X, r: Self::Y| #[trigger] p(y, x, r) ==> q(y, x, r),
        ensures
            Self::fold_ensures(f, init, q, out),
    ;

    fn fold<Func: 'a + Fn(Self::Y, Self::X) -> Self::Y + Send + Sync>(
        f: Self::FX,
        init: Self::Y,
        func: Func,
    ) -> (out: Self::Y2)
        requires
            Self::fold_requires(
                f,
                init,
                |y: Self::Y, x: Self::X| func.requires((y, x)),
                |y: Self::Y, x: Self::X, r: Self::Y| func.ensures((y, x), r),
            ),
        ensures
            Self::fold_ensures(
                f,
                init,
                |y: Self::Y, x: Self::X, r: Self::Y| func.ensures((y, x), r),
                out,
            ),
    ;
}

/// Association from a container type to its folding witness.
pub trait FoldableEffect<'a, X, Y, Y2> {
    type FX: F<X>;

    type Fct: Foldable<'a, X = X, Y = Y, Y2 = Y2, FX = Self::FX> + Effect;
}

/// Folds `f` from `init` with `func`, through the witness of `f`'s type.
pub fn fold<'a, FX, X, Y, Y2>(f: FX, init: Y, func: impl 'a + Fn(Y, X) -> Y + Send + Sync) -> (out:
    Y2) where FX: F<X> + FoldableEffect<'a, X, Y, Y2, FX = FX>
    requires
        FX::Fct::fold_requires(
            f,
            init,
            |y: Y, x: X| func.requires((y, x)),
            |y: Y, x: X, r: Y| func.ensures((y, x), r),
        ),
    ensures
        FX::Fct::fold_ensures(f, init, |y: Y, x: X, r: Y| func.ensures((y, x), r), out),
{
    FX::Fct::fold(f, init, func)
}

} // verus!
