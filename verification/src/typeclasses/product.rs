use vstd::prelude::*;
use crate::typeclasses::{Effect, F};
use crate::typeclasses::functor::{Functor, Functor2};
use crate::typeclasses::monad::Monad;

verus! {

/// The pairing capability: `product` is `fmap2` with the function that builds a
/// pair.
pub trait Productable<'a>: Monad<
    'a,
    Z = (<Self as Functor<'a>>::X, <Self as Functor<'a>>::Y),
> where Self::FZ: F<<Self as Functor2<'a>>::Z> {
    fn product(fa: Self::FX, fb: Self::FY) -> (out: Self::FZ)
        ensures
            Self::fmap2_ensures(
                fa,
                fb,
                |x: Self::X, y: Self::Y, z: (Self::X, Self::Y)| z == (x, y),
                out,
            ),
    {
        let pair = |a: Self::X, b: Self::Y| -> (r: (Self::X, Self::Y))
            ensures
                r == (a, b),
            { (a, b) };
        proof {
            Self::fmap2_requires_total(fa, fb, |x: Self::X, y: Self::Y| pair.requires((x, y)));
        }
        let out = Self::fmap2(fa, fb, pair);
        proof {
            Self::fmap2_ensures_weaken(
                fa,
                fb,
                |x: Self::X, y: Self::Y, z: (Self::X, Self::Y)| pair.ensures((x, y), z),
                |x: Self::X, y: Self::Y, z: (Self::X, Self::Y)| z == (x, y),
                out,
            );
        }
        out
    }
}

/// Association from a container type to its pairing witness.
pub trait ProductableEffect<'a, X, Y> {
    type FX: F<X>;

    type FY: F<Y>;

    type FZ: F<(X, Y)>;

    type Fct: Productable<
        'a,
        X = X,
        Y = Y,
        Z = (X, Y),
        FX = Self::FX,
        FY = Self::FY,
        FZ = Self::FZ,
    > + Effect;
}

/// Pairs the items of `fa` with those of `fb`, through the witness of `fa`'s
/// type.
pub fn product<'a, FX, FY, FZ, X, Y>(fa: FX, fb: FY) -> (out: FZ) where
    FX: F<X> + ProductableEffect<'a, X, Y, FX = FX, FY = FY, FZ = FZ>,
    FY: F<Y>,
    FZ: F<(X, Y)>,

    ensures
        FX::Fct::fmap2_ensures(fa, fb, |x: X, y: Y, z: (X, Y)| z == (x, y), out),
{
    FX::Fct::product(fa, fb)
}

} // verus!
