use vstd::prelude::*;
use crate::typeclasses::{Effect, F};
use crate::typeclasses::applicative::ApplicativeEffect;
use crate::typeclasses::functor::Functor2Effect;

verus! {

/// The traversing capability. Given a traversable container `TIn` of `X` and a
/// function from `X` to an effect `EffIn` of `Y`, `traverse` returns one effect
/// `EffRet` that holds the traversable `TRet` of all the `Y`, in input order.
///
/// ```text
///   TIn<X>  --traverse(func: X -> EffIn<Y>)-->  EffRet<TRet<Y>>
/// ```
pub trait Traverse<'a, TIn, EffIn, TRet, EffRet, X, Y>: Effect where
    TIn: F<X>,
    EffIn: F<Y>,
    TRet: F<Y>,
    EffRet: F<TRet>,
 {
    spec fn traverse_requires(
        f: TIn,
        pre: spec_fn(X) -> bool,
        post: spec_fn(X, EffIn) -> bool,
    ) -> bool;

    spec fn traverse_ensures(f: TIn, post: spec_fn(X, EffIn) -> bool, out: EffRet) -> bool;

    /// A result for a relation is a result for every weaker relation.
    proof fn traverse_ensures_weaken(
        f: TIn,
        p: spec_fn(X, EffIn) -> bool,
        q: spec_fn(X, EffIn) -> bool,
        out: EffRet,
    )
        requires
            Self::traverse_ensures(f, p, out),
            forall|x: X, e: EffIn| #[trigger] p(x, e) ==> q(x, e),
        ensures
            Self::traverse_ensures(f, q, out),
    ;

    fn traverse<Func: 'a + Fn(X) -> EffIn + Send + Sync>(f: TIn, func: Func) -> (out: EffRet)
        requires
            Self::traverse_requires(
                f,
                |x: X| func.requires((x,)),
                |x: X, e: EffIn| func.ensures((x,), e),
            ),
        ensures
            Self::traverse_ensures(f, |x: X, e: EffIn| func.ensures((x,), e), out),
    ;
}

/// Association from an effect type that holds a `Y` to the same effect
/// holding a sequence of `Y`, which is what traversing a sequence gathers.
/// The gathered effect must be able to wrap a sequence and to merge one more
/// effect into itself.
///
/// Traversing stops calling its function once the gathered effect is seen to
/// have failed. An effect that shows a failure at once (an absent optional
/// value, a failed result) says so here; a deferred effect shows nothing
/// before it is driven.
pub trait Traversed<'a, Y>: Sized + F<Y> {
    type Gathered: F<Vec<Y>> + ApplicativeEffect<'a, X = Vec<Y>> + Functor2Effect<
        'a,
        Vec<Y>,
        Y,
        Vec<Y>,
        FX = Self::Gathered,
        FY = Self,
        FZ = Self::Gathered,
    >;

    /// Whether the gathered effect `acc` is seen to have failed.
    spec fn seen_failed(acc: Self::Gathered) -> bool;

    fn has_failed(acc: &Self::Gathered) -> (b: bool)
        ensures
            b == Self::seen_failed(*acc),
    ;
}

/// Association from a traversable container type and an effect type to the
/// traversing witness and the type of the result.
pub trait TraverseEffect<'a, EffIn, X, Y>: Sized + F<X> where EffIn: F<Y> {
    type TRet: F<Y>;

    type EffRet: F<Self::TRet>;

    type Fct: Traverse<'a, Self, EffIn, Self::TRet, Self::EffRet, X, Y>;
}

/// Runs `func` over the items of `f` and gathers the effects into one, through
/// the witness of `f`'s type.
pub fn traverse<'a, TIn, EffIn, X, Y>(
    f: TIn,
    func: impl 'a + Fn(X) -> EffIn + Send + Sync,
) -> (out: TIn::EffRet) where EffIn: F<Y>, TIn: TraverseEffect<'a, EffIn, X, Y>
    requires
        TIn::Fct::traverse_requires(
            f,
            |x: X| func.requires((x,)),
            |x: X, e: EffIn| func.ensures((x,), e),
        ),
    ensures
        TIn::Fct::traverse_ensures(f, |x: X, e: EffIn| func.ensures((x,), e), out),
{
    TIn::Fct::traverse(f, func)
}

} // verus!
