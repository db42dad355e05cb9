use vstd::prelude::*;
use crate::typeclasses::{Effect, F};

verus! {

/// The mapping capability. `fmap` applies `func` to the items of a container
/// and keeps the container's shape.
pub trait Functor<'a>: Effect {
    type X;

    type Y;

    type FX: F<Self::X>;

    type FY: F<Self::Y>;

    /// Whether `f` may be mapped with a function that accepts the inputs in `pre`.
    spec fn fmap_requires(f: Self::FX, pre: spec_fn(Self::X) -> bool) -> bool;

    /// Whether `out` is a result of mapping `f` with a function whose
    /// input/output pairs lie in `post`.
    spec fn fmap_ensures(
        f: Self::FX,
        post: spec_fn(Self::X, Self::Y) -> bool,
        out: Self::FY,
    ) -> bool;

    /// A result for a relation is a result for every weaker relation.
    proof fn fmap_ensures_weaken(
        f: Self::FX,
        p: spec_fn(Self::X, Self::Y) -> bool,
        q: spec_fn(Self::X, Self::Y) -> bool,
        out: Self::FY,
    )
        requires
            Self::fmap_ensures(f, p, out),
            forall|x: Self::X, y: Self::Y| #[trigger] p(x, y) ==> q(x, y),
        ensures
            Self::fmap_ensures(f, q, out),
    ;

    fn fmap<Func: 'a + Fn(Self::X) -> Self::Y + Send + Sync>(f: Self::FX, func: Func) -> (out:
        Self::FY)
        requires
            Self::fmap_requires(f, |x: Self::X| func.requires((x,))),
        ensures
            Self::fmap_ensures(f, |x: Self::X, y: Self::Y| func.ensures((x,), y), out),
    ;
}

/// Association from a container type to its mapping witness.
pub trait FunctorEffect<'a, X, Y> {
    type FX: F<X>;

    type FY: F<Y>;

    type Fct: Functor<'a, X = X, Y = Y, FX = Self::FX, FY = Self::FY> + Effect;
}

/// Maps the items of `f` with `func`, through the witness of `f`'s type.
pub fn fmap<'a, FX, FY, X, Y>(f: FX, func: impl 'a + Fn(X) -> Y + Send + Sync) -> (out: FY) where
    FX: F<X> + FunctorEffect<'a, X, Y, FX = FX, FY = FY>,
    FY: F<Y>,

    requires
        FX::Fct::fmap_requires(f, |x: X| func.requires((x,))),
    ensures
        FX::Fct::fmap_ensures(f, |x: X, y: Y| func.ensures((x,), y), out),
{
    FX::Fct::fmap(f, func)
}

/// The two-container mapping capability. `fmap2` combines the items of two
/// containers with a binary function; the first container is the outer one.
pub trait Functor2<'a>: Functor<'a> {
    type Z;

    type FZ: F<Self::Z>;

    spec fn fmap2_requires(
        fa: Self::FX,
        fb: Self::FY,
        pre: spec_fn(Self::X, Self::Y) -> bool,
    ) -> bool;

    spec fn fmap2_ensures(
        fa: Self::FX,
        fb: Self::FY,
        post: spec_fn(Self::X, Self::Y, Self::Z) -> bool,
        out: Self::FZ,
    ) -> bool;

    /// A function without a precondition may be used on any two containers.
    proof fn fmap2_requires_total(
        fa: Self::FX,
        fb: Self::FY,
        pre: spec_fn(Self::X, Self::Y) -> bool,
    )
        requires
            forall|x: Self::X, y: Self::Y| #[trigger] pre(x, y),
        ensures
            Self::fmap2_requires(fa, fb, pre),
    ;

    /// A result for a relation is a result for every weaker relation.
    proof fn fmap2_ensures_weaken(
        fa: Self::FX,
        fb: Self::FY,
        p: spec_fn(Self::X, Self::Y, Self::Z) -> bool,
        q: spec_fn(Self::X, Self::Y, Self::Z) -> bool,
        out: Self::FZ,
    )
        requires
            Self::fmap2_ensures(fa, fb, p, out),
            forall|x: Self::X, y: Self::Y, z: Self::Z| #[trigger] p(x, y, z) ==> q(x, y, z),
        ensures
            Self::fmap2_ensures(fa, fb, q, out),
    ;

    fn fmap2<Func: 'a + Fn(Self::X, Self::Y) -> Self::Z + Send + Sync>(
        fa: Self::FX,
        fb: Self::FY,
        func: Func,
    ) -> (out: Self::FZ)
        requires
            Self::fmap2_requires(fa, fb, |x: Self::X, y: Self::Y| func.requires((x, y))),
        ensures
            Self::fmap2_ensures(
                fa,
                fb,
                |x: Self::X, y: Self::Y, z: Self::Z| func.ensures((x, y), z),
                out,
            ),
    ;
}

/// Association from a container type to its two-container mapping witness.
pub trait Functor2Effect<'a, X, Y, Z> {
    type FX: F<X>;

    type FY: F<Y>;

    type FZ: F<Z>;

    type Fct: Functor2<
        'a,
        X = X,
        Y = Y,
        Z = Z,
        FX = Self::FX,
        FY = Self::FY,
        FZ = Self::FZ,
    > + Effect;
}

/// Combines the items of `fa` and `fb` with `func`, through the witness of
/// `fa`'s type.
pub fn fmap2<'a, FX, FY, FZ, X, Y, Z>(
    fa: FX,
    fb: FY,
    func: impl 'a + Fn(X, Y) -> Z + Send + Sync,
) -> (out: FZ) where
    FX: F<X> + Functor2Effect<'a, X, Y, Z, FX = FX, FY = FY, FZ = FZ>,
    FY: F<Y>,
    FZ: F<Z>,

    requires
        FX::Fct::fmap2_requires(fa, fb, |x: X, y: Y| func.requires((x, y))),
    ensures
        FX::Fct::fmap2_ensures(fa, fb, |x: X, y: Y, z: Z| func.ensures((x, y), z), out),
{
    FX::Fct::fmap2(fa, fb, func)
}

} // verus!
