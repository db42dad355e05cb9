use vstd::prelude::*;
use crate::typeclasses::{Effect, F};
use crate::typeclasses::functor::Functor2;

verus! {

/// The producing capability. `pure` wraps a value in the smallest successful
/// container; it is eager and never fails.
pub trait Applicative<'a>: Functor2<'a> {
    /// Whether `out` is the container that holds exactly `x`.
    spec fn pure_ensures(x: Self::X, out: Self::FX) -> bool;

    fn pure(x: Self::X) -> (out: Self::FX)
        ensures
            Self::pure_ensures(x, out),
    ;
}

/// Association from a container type to its producing witness.
pub trait ApplicativeEffect<'a>: Sized + F<Self::X> {
    type X;

    type Fct: Applicative<'a, X = Self::X, FX = Self> + Effect;
}

/// Wraps `x` in the container type that the caller expects.
pub fn pure<'a, I: ApplicativeEffect<'a>>(x: I::X) -> (out: I)
    ensures
        I::Fct::pure_ensures(x, out),
{
    I::Fct::pure(x)
}

/// The capability of applying a contained function to a contained value.
pub trait ApplicativeApply<'a, M>: Effect + Applicative<'a> where
    M: 'a + Fn(Self::X) -> Self::Y + Send + Sync,
 {
    type FMapper: F<M>;

    spec fn apply_requires(func: Self::FMapper, x: Self::FX) -> bool;

    spec fn apply_ensures(func: Self::FMapper, x: Self::FX, out: Self::FY) -> bool;

    fn apply(func: Self::FMapper, x: Self::FX) -> (out: Self::FY)
        requires
            Self::apply_requires(func, x),
        ensures
            Self::apply_ensures(func, x, out),
    ;
}

/// Association from a container type to its function-applying witness.
pub trait ApplicativeApplyEffect<'a, M, X, Y> where M: 'a + Fn(X) -> Y + Send + Sync {
    type FM: F<M>;

    type FX: F<X>;

    type FY: F<Y>;

    type Fct: ApplicativeApply<
        'a,
        M,
        X = X,
        Y = Y,
        FMapper = Self::FM,
        FX = Self::FX,
        FY = Self::FY,
    >;
}

/// Applies the function held by `func` to the value held by `x`, through the
/// witness of `x`'s type.
pub fn apply<'a, FM, FX, FY, M, X, Y>(func: FM, x: FX) -> (out: FY) where
    M: 'a + Fn(X) -> Y + Send + Sync,
    FM: F<M>,
    FX: F<X> + ApplicativeApplyEffect<'a, M, X, Y, FM = FM, FX = FX, FY = FY>,
    FY: F<Y>,

    requires
        FX::Fct::apply_requires(func, x),
    ensures
        FX::Fct::apply_ensures(func, x, out),
{
    FX::Fct::apply(func, x)
}

} // verus!
