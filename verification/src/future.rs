//! The deferred computation as a container: one item that exists only once the
//! computation has been driven by the runtime.

use vstd::prelude::*;
use std::future::Future;
use std::marker::PhantomData;
use futures::future::BoxFuture;
use futures::future::FutureExt;
use vstd::future::FutureAdditionalSpecFns;
use crate::typeclasses::{Effect, F};
use crate::typeclasses::applicative::{Applicative, ApplicativeApply, ApplicativeEffect};
use crate::typeclasses::functor::{Functor, Functor2, Functor2Effect, FunctorEffect};
use crate::typeclasses::monad::{Foldable, FoldableEffect, Monad, MonadEffect};
use crate::typeclasses::monoid::{empty, Monoid, MonoidEffect};
use crate::typeclasses::product::{Productable, ProductableEffect};
use crate::typeclasses::semigroup::{combine, Semigroup, SemigroupEffect, SemigroupInner};
use crate::typeclasses::traverse::Traversed;
use crate::vec::fold_reaches;

verus! {

/// A boxed, type-erased future of the runtime, `futures::future::BoxFuture`.
/// The verifier cannot take that type (a trait object with two traits), so it
/// is held here and the verifier does not look inside.
#[verifier::external_body]
#[verifier::reject_recursive_types(X)]
pub struct Deferred<'a, X> {
    pub boxed: BoxFuture<'a, X>,
}

/// A deferred computation of an `X`, together with what is known of its
/// outcome: the set of values that driving it to completion may yield.
///
/// The set is a ghost value. The functions of this module that build a
/// computation with the runtime's own functions say what the set holds, and
/// nothing else can make a `ConcreteFuture`. The set bounds the outcomes from
/// above: a computation need not be able to yield every value in it, and a
/// computation that never completes yields none.
///
/// Nothing here drives a computation. The caller does, with the runtime, on
/// the future that `into_inner` hands out; what it gets is a value that the
/// computation may yield.
#[verifier::reject_recursive_types(X)]
pub struct ConcreteFuture<'a, X> {
    inner: Deferred<'a, X>,
    outcomes: Ghost<spec_fn(X) -> bool>,
}

impl<'a, X> ConcreteFuture<'a, X> {
    /// Whether driving this computation to completion may yield `x`.
    pub closed spec fn yields(self, x: X) -> bool {
        (self.outcomes@)(x)
    }

    /// Whether every value that this computation may yield satisfies `p`.
    pub open spec fn always(self, p: spec_fn(X) -> bool) -> bool {
        forall|x: X| #[trigger] self.yields(x) ==> p(x)
    }

    /// Wraps a future of the runtime, boxing it with `FutureExt::boxed`, which
    /// pins the future in a box and changes nothing of what it does. So the
    /// computation yields only the output of `f`: the value that `f` gives
    /// when it completes, which the contract writes `f@`. What `f` does while
    /// it is driven is its own.
    #[verifier::external_body]
    pub fn new<Fut: 'a + Future<Output = X> + Send>(f: Fut) -> (out: Self)
        ensures
            forall|v: X| #[trigger] out.yields(v) ==> v == f@,
    {
        ConcreteFuture { inner: Deferred { boxed: f.boxed() }, outcomes: Ghost(arbitrary()) }
    }

    /// The future that this computation owns.
    pub closed spec fn deferred(self) -> Deferred<'a, X> {
        self.inner
    }

    /// Hands out the future that this computation owns, to be driven by the
    /// runtime.
    pub fn into_inner(self) -> (out: Deferred<'a, X>)
        ensures
            out == self.deferred(),
    {
        self.inner
    }
}

/// Wraps a future of the runtime. The computation yields only the output of
/// `f`: the value that `f` gives when it completes.
pub fn fut<'a, T>(f: impl 'a + Send + Sync + Future<Output = T>) -> (out: ConcreteFuture<'a, T>)
    ensures
        forall|v: T| #[trigger] out.yields(v) ==> v == f@,
{
    ConcreteFuture::new(f)
}

/// `futures::future::lazy`: a computation that calls `thunk` when it is first
/// driven, and not before, and yields what `thunk` returned.
#[verifier::external_body]
pub(crate) fn lazy_future<'a, X, G>(thunk: G) -> (out: ConcreteFuture<'a, X>) where
    X: 'a + Send,
    G: 'a + FnOnce() -> X + Send,

    requires
        thunk.requires(()),
    ensures
        forall|x: X| #[trigger] out.yields(x) ==> thunk.ensures((), x),
{
    ConcreteFuture {
        inner: Deferred { boxed: futures::future::lazy(move |_| thunk()).boxed() },
        outcomes: Ghost(arbitrary()),
    }
}

/// `futures::future::ready`: a computation that is complete from the start and
/// yields exactly `x`.
#[verifier::external_body]
pub(crate) fn ready_future<'a, X: 'a + Send>(x: X) -> (out: ConcreteFuture<'a, X>)
    ensures
        forall|v: X| out.yields(v) <==> v == x,
{
    ConcreteFuture {
        inner: Deferred { boxed: futures::future::ready(x).boxed() },
        outcomes: Ghost(arbitrary()),
    }
}

/// `FutureExt::map`: a computation that, when driven, drives `f` to completion
/// and then calls `g` on what `f` yielded. It yields only what `g` can return
/// for a value that `f` can yield. `g` is not called before the result is
/// driven.
#[verifier::external_body]
pub(crate) fn map_future<'a, X, Y, G>(f: ConcreteFuture<'a, X>, g: G) -> (out: ConcreteFuture<
    'a,
    Y,
>) where X: 'a + Send, Y: 'a + Send, G: 'a + FnOnce(X) -> Y + Send
    requires
        forall|x: X| #[trigger] f.yields(x) ==> g.requires((x,)),
    ensures
        forall|y: Y| #[trigger]
            out.yields(y) ==> exists|x: X| f.yields(x) && #[trigger] g.ensures((x,), y),
{
    ConcreteFuture {
        inner: Deferred { boxed: f.inner.boxed.map(g).boxed() },
        outcomes: Ghost(arbitrary()),
    }
}

/// `FutureExt::map` followed by `FutureExt::flatten`, which together are what
/// `FutureExt::then` is made of: a computation that, when driven, drives `f`
/// to completion, calls `g` on what `f` yielded and then drives the
/// computation that `g` returned. It yields only what a computation that `g`
/// can return, for a value that `f` can yield, can itself yield. `g` is not
/// called before the result is driven.
#[verifier::external_body]
pub(crate) fn chain_future<'a, X, Y, G>(f: ConcreteFuture<'a, X>, g: G) -> (out: ConcreteFuture<
    'a,
    Y,
>) where X: 'a + Send, Y: 'a + Send, G: 'a + FnOnce(X) -> ConcreteFuture<'a, Y> + Send
    requires
        forall|x: X| #[trigger] f.yields(x) ==> g.requires((x,)),
    ensures
        forall|y: Y| #[trigger]
            out.yields(y) ==> exists|x: X, mid: ConcreteFuture<'a, Y>|
                f.yields(x) && #[trigger] g.ensures((x,), mid) && mid.yields(y),
{
    ConcreteFuture {
        inner: Deferred { boxed: f.inner.boxed.map(move |x| g(x).inner.boxed).flatten().boxed() },
        outcomes: Ghost(arbitrary()),
    }
}

impl<'a, X> F<X> for ConcreteFuture<'a, X> {

}

impl<'a, X, Y> FunctorEffect<'a, X, Y> for ConcreteFuture<'a, X> where
    X: 'a + Send + Sync,
    Y: 'a + Send + Sync,
 {
    type FX = ConcreteFuture<'a, X>;

    type FY = ConcreteFuture<'a, Y>;

    type Fct = FutureEffect<'a, X, Y, ()>;
}

impl<'a, X, Y, Z> Functor2Effect<'a, X, Y, Z> for ConcreteFuture<'a, X> where
    X: 'a + Send + Sync,
    Y: 'a + Send + Sync,
    Z: 'a + Send + Sync,
 {
    type FX = ConcreteFuture<'a, X>;

    type FY = ConcreteFuture<'a, Y>;

    type FZ = ConcreteFuture<'a, Z>;

    type Fct = FutureEffect<'a, X, Y, Z>;
}

impl<'a, X, X2, XR> SemigroupEffect<
    ConcreteFuture<'a, X>,
    ConcreteFuture<'a, X2>,
    ConcreteFuture<'a, XR>,
> for ConcreteFuture<'a, X> where
    X: 'a + SemigroupEffect<X, X2, XR> + Send + Sync,
    X2: 'a + Send + Sync,
    XR: 'a + Send + Sync,
 {
    type Fct = FutureEffect<'a, X, X2, XR>;
}

impl<'a, X> MonoidEffect<ConcreteFuture<'a, X>> for ConcreteFuture<'a, X> where
    X: 'a + Send + Sync + MonoidEffect<X>,
 {
    type Fct = FutureEffect<'a, X, (), ()>;
}

impl<'a, X> ApplicativeEffect<'a> for ConcreteFuture<'a, X> where X: 'a + Send + Sync {
    type X = X;

    type Fct = FutureEffect<'a, X, (), ()>;
}

impl<'a, X, Y> MonadEffect<'a, X, Y> for ConcreteFuture<'a, X> where
    X: 'a + Send + Sync,
    Y: 'a + Send + Sync,
 {
    type FX = ConcreteFuture<'a, X>;

    type FY = ConcreteFuture<'a, Y>;

    type Fct = FutureEffect<'a, X, Y, ()>;
}

impl<'a, X, Y> FoldableEffect<'a, X, Y, ConcreteFuture<'a, Y>> for ConcreteFuture<'a, X> where
    X: 'a + Send + Sync,
    Y: 'a + Send + Sync,
 {
    type FX = ConcreteFuture<'a, X>;

    type Fct = FutureEffect<'a, X, Y, ()>;
}

impl<'a, X, Y> ProductableEffect<'a, X, Y> for ConcreteFuture<'a, X> where
    X: 'a + Send + Sync,
    Y: 'a + Send + Sync,
 {
    type FX = ConcreteFuture<'a, X>;

    type FY = ConcreteFuture<'a, Y>;

    type FZ = ConcreteFuture<'a, (X, Y)>;

    type Fct = FutureEffect<'a, X, Y, (X, Y)>;
}

impl<'a, Y> Traversed<'a, Y> for ConcreteFuture<'a, Y> where Y: 'a + Send + Sync {
    type Gathered = ConcreteFuture<'a, Vec<Y>>;

    open spec fn seen_failed(acc: ConcreteFuture<'a, Vec<Y>>) -> bool {
        false
    }

    fn has_failed(_acc: &ConcreteFuture<'a, Vec<Y>>) -> (b: bool) {
        false
    }
}

/// The witness for deferred computations. It holds nothing; its parameters
/// name the payload types of the operation it is used for.
#[derive(Debug)]
pub struct FutureEffect<'a, X = (), Y = (), Z = ()> {
    _p: PhantomData<&'a ()>,
    _a: PhantomData<X>,
    _b: PhantomData<Y>,
    _c: PhantomData<Z>,
}

impl<'a, X, Y, Z> FutureEffect<'a, X, Y, Z> {
    /// The witness; the argument only fixes the last type parameter.
    pub fn new(_z: Z) -> Self {
        FutureEffect { _p: PhantomData, _a: PhantomData, _b: PhantomData, _c: PhantomData }
    }

    /// A computation that drives `a`, then `b`, and merges what they yielded
    /// with `func`.
    pub(crate) fn combine_futures<X1, X2, R, Func>(
        a: ConcreteFuture<'a, X1>,
        b: ConcreteFuture<'a, X2>,
        func: Func,
    ) -> (out: ConcreteFuture<'a, R>) where
        X1: 'a + Send + Sync,
        X2: 'a + Send + Sync,
        R: 'a + Send + Sync,
        Func: 'a + FnOnce(X1, X2) -> R + Send + Sync,

        requires
            forall|i: X1, j: X2| #[trigger]
                a.yields(i) && #[trigger] b.yields(j) ==> func.requires((i, j)),
        ensures
            out.always(
                |r: R|
                    exists|i: X1, j: X2|
                        a.yields(i) && b.yields(j) && #[trigger] func.ensures((i, j), r),
            ),
    {
        let ghost second = b;
        let ghost post = |i: X1, j: X2, r: R| func.ensures((i, j), r);
        let ghost pre = |i: X1, j: X2| func.requires((i, j));
        let step = move |i: X1| -> (mid: ConcreteFuture<'a, R>)
            requires
                forall|j: X2| #[trigger] second.yields(j) ==> pre(i, j),
            ensures
                mid.always(|r: R| exists|j: X2| second.yields(j) && #[trigger] post(i, j, r)),
            {
                let with_first = move |j: X2| -> (r: R)
                    requires
                        pre(i, j),
                    ensures
                        post(i, j, r),
                    { func(i, j) };
                map_future(b, with_first)
            };
        let out = chain_future(a, step);
        proof {
            assert forall|r: R| #[trigger] out.yields(r) implies exists|i: X1, j: X2|
                a.yields(i) && b.yields(j) && #[trigger] func.ensures((i, j), r) by {
                let (i, mid) = choose|i: X1, mid: ConcreteFuture<'a, R>|
                    a.yields(i) && #[trigger] step.ensures((i,), mid) && mid.yields(r);
                let j = choose|j: X2| second.yields(j) && #[trigger] post(i, j, r);
                assert(func.ensures((i, j), r));
            }
        }
        out
    }
}

impl<'a, X, Y, Z> Clone for FutureEffect<'a, X, Y, Z> {
    fn clone(&self) -> Self {
        FutureEffect { _p: PhantomData, _a: PhantomData, _b: PhantomData, _c: PhantomData }
    }
}

impl<'a, X, Y, Z> Effect for FutureEffect<'a, X, Y, Z> {

}

impl<'a, X, Y, Z> Functor<'a> for FutureEffect<'a, X, Y, Z> where
    X: 'a + Send + Sync,
    Y: 'a + Send + Sync,
 {
    type X = X;

    type Y = Y;

    type FX = ConcreteFuture<'a, X>;

    type FY = ConcreteFuture<'a, Y>;

    open spec fn fmap_requires(f: ConcreteFuture<'a, X>, pre: spec_fn(X) -> bool) -> bool {
        f.always(pre)
    }

    open spec fn fmap_ensures(
        f: ConcreteFuture<'a, X>,
        post: spec_fn(X, Y) -> bool,
        out: ConcreteFuture<'a, Y>,
    ) -> bool {
        out.always(|y: Y| exists|x: X| f.yields(x) && #[trigger] post(x, y))
    }

    proof fn fmap_ensures_weaken(
        f: ConcreteFuture<'a, X>,
        p: spec_fn(X, Y) -> bool,
        q: spec_fn(X, Y) -> bool,
        out: ConcreteFuture<'a, Y>,
    ) {
        assert forall|y: Y| #[trigger] out.yields(y) implies exists|x: X|
            f.yields(x) && #[trigger] q(x, y) by {
            let x = choose|x: X| f.yields(x) && #[trigger] p(x, y);
            assert(q(x, y));
        }
    }

    fn fmap<Func: 'a + Fn(X) -> Y + Send + Sync>(f: ConcreteFuture<'a, X>, func: Func) -> (out:
        ConcreteFuture<'a, Y>) {
        let ghost post = |x: X, y: Y| func.ensures((x,), y);
        let out = map_future(f, func);
        proof {
            assert forall|y: Y| #[trigger] out.yields(y) implies exists|x: X|
                f.yields(x) && #[trigger] post(x, y) by {
                let x = choose|x: X| f.yields(x) && #[trigger] func.ensures((x,), y);
                assert(post(x, y));
            }
        }
        out
    }
}

impl<'a, X, Y, Z> Functor2<'a> for FutureEffect<'a, X, Y, Z> where
    X: 'a + Send + Sync,
    Y: 'a + Send + Sync,
    Z: 'a + Send + Sync,
 {
    type Z = Z;

    type FZ = ConcreteFuture<'a, Z>;

    open spec fn fmap2_requires(
        fa: ConcreteFuture<'a, X>,
        fb: ConcreteFuture<'a, Y>,
        pre: spec_fn(X, Y) -> bool,
    ) -> bool {
        forall|x: X, y: Y| #[trigger] fa.yields(x) && #[trigger] fb.yields(y) ==> pre(x, y)
    }

    open spec fn fmap2_ensures(
        fa: ConcreteFuture<'a, X>,
        fb: ConcreteFuture<'a, Y>,
        post: spec_fn(X, Y, Z) -> bool,
        out: ConcreteFuture<'a, Z>,
    ) -> bool {
        out.always(
            |z: Z| exists|x: X, y: Y| fa.yields(x) && fb.yields(y) && #[trigger] post(x, y, z),
        )
    }

    proof fn fmap2_requires_total(
        fa: ConcreteFuture<'a, X>,
        fb: ConcreteFuture<'a, Y>,
        pre: spec_fn(X, Y) -> bool,
    ) {
    }

    proof fn fmap2_ensures_weaken(
        fa: ConcreteFuture<'a, X>,
        fb: ConcreteFuture<'a, Y>,
        p: spec_fn(X, Y, Z) -> bool,
        q: spec_fn(X, Y, Z) -> bool,
        out: ConcreteFuture<'a, Z>,
    ) {
        assert forall|z: Z| #[trigger] out.yields(z) implies exists|x: X, y: Y|
            fa.yields(x) && fb.yields(y) && #[trigger] q(x, y, z) by {
            let (x, y) = choose|x: X, y: Y| fa.yields(x) && fb.yields(y) && #[trigger] p(x, y, z);
            assert(q(x, y, z));
        }
    }

    fn fmap2<Func: 'a + Fn(X, Y) -> Z + Send + Sync>(
        fa: ConcreteFuture<'a, X>,
        fb: ConcreteFuture<'a, Y>,
        func: Func,
    ) -> (out: ConcreteFuture<'a, Z>) {
        let ghost post = |x: X, y: Y, z: Z| func.ensures((x, y), z);
        let out = Self::combine_futures(fa, fb, func);
        proof {
            assert forall|z: Z| #[trigger] out.yields(z) implies exists|x: X, y: Y|
                fa.yields(x) && fb.yields(y) && #[trigger] post(x, y, z) by {
                let (x, y) = choose|x: X, y: Y|
                    fa.yields(x) && fb.yields(y) && #[trigger] func.ensures((x, y), z);
                assert(post(x, y, z));
            }
        }
        out
    }
}

impl<'a, X1, X2, R> Semigroup<
    ConcreteFuture<'a, X1>,
    ConcreteFuture<'a, X2>,
    ConcreteFuture<'a, R>,
> for FutureEffect<'a, X1, X2, R> where
    X1: SemigroupEffect<X1, X2, R> + 'a + Send + Sync,
    X2: 'a + Send + Sync,
    R: 'a + Send + Sync,
 {
    open spec fn combine_requires(a: ConcreteFuture<'a, X1>, b: ConcreteFuture<'a, X2>) -> bool {
        forall|i: X1, j: X2| #[trigger]
            a.yields(i) && #[trigger] b.yields(j) ==> X1::Fct::combine_requires(i, j)
    }

    open spec fn combine_ensures(
        a: ConcreteFuture<'a, X1>,
        b: ConcreteFuture<'a, X2>,
        out: ConcreteFuture<'a, R>,
    ) -> bool {
        out.always(
            |r: R|
                exists|i: X1, j: X2|
                    a.yields(i) && b.yields(j) && #[trigger] X1::Fct::combine_ensures(i, j, r),
        )
    }

    fn combine(a: ConcreteFuture<'a, X1>, b: ConcreteFuture<'a, X2>) -> (out: ConcreteFuture<
        'a,
        R,
    >) {
        let out = Self::combine_futures(a, b, combine::<X1, X2, R>);
        proof {
            assert forall|r: R| #[trigger] out.yields(r) implies exists|i: X1, j: X2|
                a.yields(i) && b.yields(j) && #[trigger] X1::Fct::combine_ensures(i, j, r) by {
                let (i, j) = choose|i: X1, j: X2|
                    a.yields(i) && b.yields(j) && #[trigger] call_ensures(
                        combine::<X1, X2, R>,
                        (i, j),
                        r,
                    );
                assert(X1::Fct::combine_ensures(i, j, r));
            }
        }
        out
    }
}

impl<'a, X> SemigroupInner<'a, ConcreteFuture<'a, X>, X> for FutureEffect<'a, X, X, X> where
    X: 'a + Send + Sync,
 {
    open spec fn combine_inner_requires(
        a: ConcreteFuture<'a, X>,
        b: ConcreteFuture<'a, X>,
        pre: spec_fn(X, X) -> bool,
    ) -> bool {
        forall|i: X, j: X| #[trigger] a.yields(i) && #[trigger] b.yields(j) ==> pre(i, j)
    }

    open spec fn combine_inner_ensures(
        a: ConcreteFuture<'a, X>,
        b: ConcreteFuture<'a, X>,
        post: spec_fn(X, X, X) -> bool,
        out: ConcreteFuture<'a, X>,
    ) -> bool {
        out.always(
            |r: X| exists|i: X, j: X| a.yields(i) && b.yields(j) && #[trigger] post(i, j, r),
        )
    }

    fn combine_inner<TO>(a: ConcreteFuture<'a, X>, b: ConcreteFuture<'a, X>) -> (out:
        ConcreteFuture<'a, X>) where TO: 'a + Semigroup<X, X, X> {
        let ghost post = |x: X, y: X, r: X| TO::combine_ensures(x, y, r);
        let out = Self::combine_futures(a, b, TO::combine);
        proof {
            assert forall|r: X| #[trigger] out.yields(r) implies exists|i: X, j: X|
                a.yields(i) && b.yields(j) && #[trigger] post(i, j, r) by {
                let (i, j) = choose|i: X, j: X|
                    a.yields(i) && b.yields(j) && #[trigger] call_ensures(TO::combine, (i, j), r);
                assert(post(i, j, r));
            }
        }
        out
    }
}

/// The capability of combining two deferred computations of one type with a
/// combining witness for the payload that the caller picks.
pub trait SemigroupFutureInner<'a, T, X> where X: 'a + Send + Sync {
    spec fn combine_future_inner_requires(a: T, b: T, pre: spec_fn(X, X) -> bool) -> bool;

    spec fn combine_future_inner_ensures(
        a: T,
        b: T,
        post: spec_fn(X, X, X) -> bool,
        out: T,
    ) -> bool;

    fn combine_future_inner<TO>(a: T, b: T) -> (out: T) where
        TO: 'a + Semigroup<X, X, X> + Send + Sync,

        requires
            Self::combine_future_inner_requires(a, b, |x: X, y: X| TO::combine_requires(x, y)),
        ensures
            Self::combine_future_inner_ensures(
                a,
                b,
                |x: X, y: X, r: X| TO::combine_ensures(x, y, r),
                out,
            ),
    ;
}

/// Combines the deferred computations `a` and `b`, merging what they yield
/// with the witness `TO`.
pub fn combine_future_inner<'a, T, X, TO>(a: T, b: T) -> (out: T) where
    X: 'a + Send + Sync,
    T: 'a + SemigroupEffect<T, T, T> + Send,
    <T as SemigroupEffect<T, T, T>>::Fct: SemigroupFutureInner<'a, T, X>,
    TO: 'a + Semigroup<X, X, X> + Send + Sync,

    requires
        <T::Fct as SemigroupFutureInner<'a, T, X>>::combine_future_inner_requires(
            a,
            b,
            |x: X, y: X| TO::combine_requires(x, y),
        ),
    ensures
        <T::Fct as SemigroupFutureInner<'a, T, X>>::combine_future_inner_ensures(
            a,
            b,
            |x: X, y: X, r: X| TO::combine_ensures(x, y, r),
            out,
        ),
{
    <T::Fct as SemigroupFutureInner<'a, T, X>>::combine_future_inner::<TO>(a, b)
}

impl<'a, X> SemigroupFutureInner<'a, ConcreteFuture<'a, X>, X> for FutureEffect<
    'a,
    X,
    X,
    X,
> where X: 'a + Send + Sync {
    open spec fn combine_future_inner_requires(
        a: ConcreteFuture<'a, X>,
        b: ConcreteFuture<'a, X>,
        pre: spec_fn(X, X) -> bool,
    ) -> bool {
        <Self as SemigroupInner<'a, ConcreteFuture<'a, X>, X>>::combine_inner_requires(a, b, pre)
    }

    open spec fn combine_future_inner_ensures(
        a: ConcreteFuture<'a, X>,
        b: ConcreteFuture<'a, X>,
        post: spec_fn(X, X, X) -> bool,
        out: ConcreteFuture<'a, X>,
    ) -> bool {
        <Self as SemigroupInner<'a, ConcreteFuture<'a, X>, X>>::combine_inner_ensures(
            a,
            b,
            post,
            out,
        )
    }

    fn combine_future_inner<TO>(a: ConcreteFuture<'a, X>, b: ConcreteFuture<'a, X>) -> (out:
        ConcreteFuture<'a, X>) where TO: 'a + Semigroup<X, X, X> + Send + Sync {
        <Self as SemigroupInner<'a, ConcreteFuture<'a, X>, X>>::combine_inner::<TO>(a, b)
    }
}

impl<'a, X, Y, Z> Monoid for FutureEffect<'a, X, Y, Z> where
    X: 'a + MonoidEffect<X> + Sync + Send,
 {
    type Output = ConcreteFuture<'a, X>;

    open spec fn empty_ensures(out: ConcreteFuture<'a, X>) -> bool {
        out.always(|x: X| X::Fct::empty_ensures(x))
    }

    fn empty() -> (out: ConcreteFuture<'a, X>) {
        ready_future(empty::<X>())
    }
}

impl<'a, X, Y, Z> Applicative<'a> for FutureEffect<'a, X, Y, Z> where
    X: 'a + Send + Sync,
    Y: 'a + Send + Sync,
    Z: 'a + Send + Sync,
 {
    open spec fn pure_ensures(x: X, out: ConcreteFuture<'a, X>) -> bool {
        forall|v: X| out.yields(v) <==> v == x
    }

    fn pure(x: X) -> (out: ConcreteFuture<'a, X>) {
        ready_future(x)
    }
}

impl<'a, X, Y, Z, M> ApplicativeApply<'a, M> for FutureEffect<'a, X, Y, Z> where
    X: 'a + Send + Sync,
    Y: 'a + Send + Sync,
    Z: 'a + Send + Sync,
    M: 'a + Fn(X) -> Y + Send + Sync,
 {
    type FMapper = ConcreteFuture<'a, M>;

    open spec fn apply_requires(func: ConcreteFuture<'a, M>, x: ConcreteFuture<'a, X>) -> bool {
        forall|g: M, v: X| #[trigger]
            func.yields(g) && #[trigger] x.yields(v) ==> call_requires(g, (v,))
    }

    open spec fn apply_ensures(
        func: ConcreteFuture<'a, M>,
        x: ConcreteFuture<'a, X>,
        out: ConcreteFuture<'a, Y>,
    ) -> bool {
        out.always(
            |y: Y|
                exists|g: M, v: X|
                    func.yields(g) && x.yields(v) && #[trigger] call_ensures(g, (v,), y),
        )
    }

    fn apply(func: ConcreteFuture<'a, M>, x: ConcreteFuture<'a, X>) -> (out: ConcreteFuture<
        'a,
        Y,
    >) {
        let call = |g: M, v: X| -> (y: Y)
            requires
                call_requires(g, (v,)),
            ensures
                call_ensures(g, (v,), y),
            { g(v) };
        let out = FutureEffect::<'a, M, X, Y>::combine_futures(func, x, call);
        proof {
            assert forall|y: Y| #[trigger] out.yields(y) implies exists|g: M, v: X|
                func.yields(g) && x.yields(v) && #[trigger] call_ensures(g, (v,), y) by {
                let (g, v) = choose|g: M, v: X|
                    func.yields(g) && x.yields(v) && #[trigger] call.ensures((g, v), y);
                assert(call_ensures(g, (v,), y));
            }
        }
        out
    }
}

impl<'a, X, Y, Z> Monad<'a> for FutureEffect<'a, X, Y, Z> where
    X: 'a + Send + Sync,
    Y: 'a + Send + Sync,
    Z: 'a + Send + Sync,
 {
    open spec fn flat_map_requires(f: ConcreteFuture<'a, X>, pre: spec_fn(X) -> bool) -> bool {
        f.always(pre)
    }

    open spec fn flat_map_ensures(
        f: ConcreteFuture<'a, X>,
        post: spec_fn(X, ConcreteFuture<'a, Y>) -> bool,
        out: ConcreteFuture<'a, Y>,
    ) -> bool {
        out.always(
            |y: Y|
                exists|x: X, mid: ConcreteFuture<'a, Y>|
                    f.yields(x) && #[trigger] post(x, mid) && mid.yields(y),
        )
    }

    proof fn flat_map_ensures_weaken(
        f: ConcreteFuture<'a, X>,
        p: spec_fn(X, ConcreteFuture<'a, Y>) -> bool,
        q: spec_fn(X, ConcreteFuture<'a, Y>) -> bool,
        out: ConcreteFuture<'a, Y>,
    ) {
        assert forall|y: Y| #[trigger] out.yields(y) implies exists|
            x: X,
            mid: ConcreteFuture<'a, Y>,
        |
            f.yields(x) && #[trigger] q(x, mid) && mid.yields(y) by {
            let (x, mid) = choose|x: X, mid: ConcreteFuture<'a, Y>|
                f.yields(x) && #[trigger] p(x, mid) && mid.yields(y);
            assert(q(x, mid));
        }
    }

    fn flat_map<Func: 'a + Fn(X) -> ConcreteFuture<'a, Y> + Send + Sync>(
        f: ConcreteFuture<'a, X>,
        func: Func,
    ) -> (out: ConcreteFuture<'a, Y>) {
        let ghost post = |x: X, mid: ConcreteFuture<'a, Y>| func.ensures((x,), mid);
        let out = chain_future(f, func);
        proof {
            assert forall|y: Y| #[trigger] out.yields(y) implies exists|
                x: X,
                mid: ConcreteFuture<'a, Y>,
            |
                f.yields(x) && #[trigger] post(x, mid) && mid.yields(y) by {
                let (x, mid) = choose|x: X, mid: ConcreteFuture<'a, Y>|
                    f.yields(x) && #[trigger] func.ensures((x,), mid) && mid.yields(y);
                assert(post(x, mid));
            }
        }
        out
    }
}

impl<'a, X, Y, Z> Foldable<'a> for FutureEffect<'a, X, Y, Z> where
    X: 'a + Send + Sync,
    Y: 'a + Send + Sync,
    Z: 'a + Send + Sync,
 {
    type Y2 = ConcreteFuture<'a, Y>;

    open spec fn fold_requires(
        f: ConcreteFuture<'a, X>,
        init: Y,
        pre: spec_fn(Y, X) -> bool,
        post: spec_fn(Y, X, Y) -> bool,
    ) -> bool {
        f.always(|x: X| pre(init, x))
    }

    open spec fn fold_ensures(
        f: ConcreteFuture<'a, X>,
        init: Y,
        post: spec_fn(Y, X, Y) -> bool,
        out: ConcreteFuture<'a, Y>,
    ) -> bool {
        out.always(|r: Y| exists|x: X| f.yields(x) && #[trigger] post(init, x, r))
    }

    proof fn fold_ensures_weaken(
        f: ConcreteFuture<'a, X>,
        init: Y,
        p: spec_fn(Y, X, Y) -> bool,
        q: spec_fn(Y, X, Y) -> bool,
        out: ConcreteFuture<'a, Y>,
    ) {
        assert forall|r: Y| #[trigger] out.yields(r) implies exists|x: X|
            f.yields(x) && #[trigger] q(init, x, r) by {
            let x = choose|x: X| f.yields(x) && #[trigger] p(init, x, r);
            assert(q(init, x, r));
        }
    }

    fn fold<Func: 'a + Fn(Y, X) -> Y + Send + Sync>(
        f: ConcreteFuture<'a, X>,
        init: Y,
        func: Func,
    ) -> (out: ConcreteFuture<'a, Y>) {
        let ghost seed = init;
        let ghost pre = |y: Y, x: X| func.requires((y, x));
        let ghost post = |y: Y, x: X, r: Y| func.ensures((y, x), r);
        let from_seed = move |x: X| -> (r: Y)
            requires
                pre(seed, x),
            ensures
                post(seed, x, r),
            { func(init, x) };
        let out = map_future(f, from_seed);
        proof {
            assert forall|r: Y| #[trigger] out.yields(r) implies exists|x: X|
                f.yields(x) && #[trigger] post(init, x, r) by {
                let x = choose|x: X| f.yields(x) && #[trigger] from_seed.ensures((x,), r);
                assert(post(init, x, r));
            }
        }
        out
    }
}

impl<'a, X, Y> Productable<'a> for FutureEffect<'a, X, Y, (X, Y)> where
    X: 'a + Send + Sync,
    Y: 'a + Send + Sync,
 {

}

/// Whether `xs` holds, place by place, a value that the computation at that
/// place in `fs` may yield; `xs` may be shorter than `fs`.
pub open spec fn yielded_by<'a, X>(fs: Seq<ConcreteFuture<'a, X>>, xs: Seq<X>) -> bool {
    &&& xs.len() <= fs.len()
    &&& forall|k: int| 0 <= k < xs.len() ==> (#[trigger] fs[k]).yields(xs[k])
}

/// The input/output relation of a step function, as a predicate.
pub open spec fn step_relation<X, Y, Func: Fn(Y, X) -> Y>(func: Func) -> spec_fn(Y, X, Y) -> bool {
    |y: Y, x: X, r: Y| func.ensures((y, x), r)
}

/// Folds a sequence of deferred computations into one deferred computation of
/// the accumulated value: when driven, it drives the computations one at a
/// time, in order, and feeds what each yielded to `func`, from `init`.
pub fn vfold<'a, X, Y, Func>(f: Vec<ConcreteFuture<'a, X>>, init: Y, func: Func) -> (out:
    ConcreteFuture<'a, Y>) where
    X: 'a + Send + Sync,
    Y: 'a + Send + Sync,
    Func: 'a + Fn(Y, X) -> Y + Send + Sync + Copy,

    requires
        forall|xs: Seq<X>, acc: Y|
            xs.len() > 0 && yielded_by(f@, xs) && #[trigger] fold_reaches(
                xs.drop_last(),
                init,
                step_relation(func),
                acc,
            ) ==> func.requires((acc, xs.last())),
    ensures
        out.always(
            |r: Y|
                exists|xs: Seq<X>|
                    xs.len() == f@.len() && yielded_by(f@, xs) && #[trigger] fold_reaches(
                        xs,
                        init,
                        step_relation(func),
                        r,
                    ),
        ),
{
    let ghost fs = f@;
    let ghost post = step_relation(func);
    let mut accum: ConcreteFuture<'a, Y> = ready_future(init);
    proof {
        assert forall|r: Y| #[trigger] accum.yields(r) implies exists|xs: Seq<X>|
            xs.len() == 0 && yielded_by(fs, xs) && #[trigger] fold_reaches(xs, init, post, r) by {
            assert(yielded_by(fs, Seq::<X>::empty()));
            assert(fold_reaches(Seq::<X>::empty(), init, post, r));
        }
    }
    for next in it: f.into_iter()
        invariant
            it.seq() == fs,
            post == step_relation(func),
            forall|xs: Seq<X>, acc: Y|
                xs.len() > 0 && yielded_by(fs, xs) && #[trigger] fold_reaches(
                    xs.drop_last(),
                    init,
                    post,
                    acc,
                ) ==> func.requires((acc, xs.last())),
            accum.always(
                |r: Y|
                    exists|xs: Seq<X>|
                        xs.len() == it.index() && yielded_by(fs, xs) && #[trigger] fold_reaches(
                            xs,
                            init,
                            post,
                            r,
                        ),
            ),
    {
        let ghost n = it.index() as int;
        let ghost before = accum;
        proof {
            assert forall|y: Y, x: X| #[trigger]
                before.yields(y) && #[trigger] next.yields(x) implies func.requires((y, x)) by {
                let xs = choose|xs: Seq<X>|
                    xs.len() == n && yielded_by(fs, xs) && #[trigger] fold_reaches(
                        xs,
                        init,
                        post,
                        y,
                    );
                let more = xs.push(x);
                assert(more.drop_last() =~= xs);
                assert(yielded_by(fs, more));
                assert(fold_reaches(more.drop_last(), init, post, y));
                assert(more.last() == x);
            }
        }
        accum = FutureEffect::<'a, Y, X, Y>::combine_futures(accum, next, func);
        proof {
            assert forall|r: Y| #[trigger] accum.yields(r) implies exists|xs: Seq<X>|
                xs.len() == n + 1 && yielded_by(fs, xs) && #[trigger] fold_reaches(
                    xs,
                    init,
                    post,
                    r,
                ) by {
                let (y, x) = choose|y: Y, x: X|
                    before.yields(y) && next.yields(x) && #[trigger] func.ensures((y, x), r);
                let xs = choose|xs: Seq<X>|
                    xs.len() == n && yielded_by(fs, xs) && #[trigger] fold_reaches(
                        xs,
                        init,
                        post,
                        y,
                    );
                let more = xs.push(x);
                assert(more.drop_last() =~= xs);
                assert(post(y, more.last(), r));
                assert(fold_reaches(more, init, post, r));
                assert(yielded_by(fs, more));
            }
        }
    }
    accum
}

} // verus!
