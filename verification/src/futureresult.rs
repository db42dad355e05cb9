//! The deferred computation that may fail: once driven it holds one item, or a
//! failure that carries an error. A failure passes through every operation but
//! `handle_error`, and the functions handed to those operations are not called
//! on it.

use vstd::prelude::*;
use std::future::Future;
use std::marker::PhantomData;
use vstd::future::FutureAdditionalSpecFns;
use crate::future::{chain_future, map_future, ready_future};
use crate::future::{ConcreteFuture, FutureEffect};
use crate::result::{combine_results_ensures, ResultEffect};
use crate::typeclasses::{Effect, F};
use crate::typeclasses::applicative::{
    Applicative,
    ApplicativeApply,
    ApplicativeApplyEffect,
    ApplicativeEffect,
};
use crate::typeclasses::functor::{Functor, Functor2, Functor2Effect, FunctorEffect};
use crate::typeclasses::monad::{Foldable, FoldableEffect, Monad, MonadEffect};
use crate::typeclasses::monaderror::{MonadError, MonadErrorEffect};
use crate::typeclasses::monoid::{Monoid, MonoidEffect};
use crate::typeclasses::product::{Productable, ProductableEffect};
use crate::typeclasses::semigroup::{combine, Semigroup, SemigroupEffect, SemigroupInner};
use crate::typeclasses::traverse::Traversed;

verus! {

/// A deferred computation of an `X` that may fail with an `E`.
#[verifier::reject_recursive_types(X)]
#[verifier::reject_recursive_types(E)]
pub struct ConcreteFutureResult<'a, X, E> {
    pub inner: ConcreteFuture<'a, Result<X, E>>,
}

impl<'a, X, E> ConcreteFutureResult<'a, X, E> {
    /// Wraps a future of the runtime. The computation yields only the output
    /// of `f`: the success or failure that `f` gives when it completes.
    pub fn new<Fut: 'a + Future<Output = Result<X, E>> + Send>(f: Fut) -> (out: Self)
        ensures
            forall|r: Result<X, E>| #[trigger] out.yields(r) ==> r == f@,
    {
        ConcreteFutureResult { inner: ConcreteFuture::new(f) }
    }

    /// Whether driving this computation to completion may yield `r`.
    pub open spec fn yields(self, r: Result<X, E>) -> bool {
        self.inner.yields(r)
    }

    /// Whether every outcome that this computation may yield satisfies `p`.
    pub open spec fn always(self, p: spec_fn(Result<X, E>) -> bool) -> bool {
        forall|r: Result<X, E>| #[trigger] self.yields(r) ==> p(r)
    }
}

/// Wraps a future of the runtime. The computation yields only the output of
/// `f`: the success or failure that `f` gives when it completes.
pub fn fut_res<'a, T, E>(f: impl 'a + Send + Future<Output = Result<T, E>>) -> (out:
    ConcreteFutureResult<'a, T, E>)
    ensures
        forall|r: Result<T, E>| #[trigger] out.yields(r) ==> r == f@,
{
    ConcreteFutureResult::new(f)
}

impl<'a, E, X> F<X> for ConcreteFutureResult<'a, X, E> {

}

impl<'a, E, X, X2, XR> SemigroupEffect<
    ConcreteFutureResult<'a, X, E>,
    ConcreteFutureResult<'a, X2, E>,
    ConcreteFutureResult<'a, XR, E>,
> for ConcreteFutureResult<'a, X, E> where
    X: 'a + SemigroupEffect<X, X2, XR> + Send + Sync,
    X2: 'a + Send + Sync,
    XR: 'a + Send + Sync,
    E: 'a + Send + Sync,
 {
    type Fct = FutureResultEffect<'a, E, X, X2, XR>;
}

impl<'a, X, E> MonoidEffect<ConcreteFutureResult<'a, X, E>> for ConcreteFutureResult<
    'a,
    X,
    E,
> where X: 'a + Send + Sync + MonoidEffect<X>, E: 'a + Send + Sync {
    type Fct = FutureResultEffect<'a, E, X, (), ()>;
}

impl<'a, X, E> ApplicativeEffect<'a> for ConcreteFutureResult<'a, X, E> where
    X: 'a + Send + Sync,
    E: 'a + Send + Sync,
 {
    type X = X;

    type Fct = FutureResultEffect<'a, E, X, (), ()>;
}

impl<'a, M, E, X, Y> ApplicativeApplyEffect<'a, M, X, Y> for ConcreteFutureResult<'a, X, E> where
    X: 'a + Send + Sync,
    Y: 'a + Send + Sync,
    E: 'a + Send + Sync,
    M: 'a + Fn(X) -> Y + Send + Sync,
 {
    type FM = ConcreteFutureResult<'a, M, E>;

    type FX = ConcreteFutureResult<'a, X, E>;

    type FY = ConcreteFutureResult<'a, Y, E>;

    type Fct = FutureResultEffect<'a, E, X, Y, ()>;
}

impl<'a, E, X, Y> FunctorEffect<'a, X, Y> for ConcreteFutureResult<'a, X, E> where
    X: 'a + Send + Sync,
    Y: 'a + Send + Sync,
    E: 'a + Send + Sync,
 {
    type FX = ConcreteFutureResult<'a, X, E>;

    type FY = ConcreteFutureResult<'a, Y, E>;

    type Fct = FutureResultEffect<'a, E, X, Y, ()>;
}

impl<'a, E, X, Y, Z> Functor2Effect<'a, X, Y, Z> for ConcreteFutureResult<'a, X, E> where
    X: 'a + Send + Sync,
    Y: 'a + Send + Sync,
    Z: 'a + Send + Sync,
    E: 'a + Send + Sync,
 {
    type FX = ConcreteFutureResult<'a, X, E>;

    type FY = ConcreteFutureResult<'a, Y, E>;

    type FZ = ConcreteFutureResult<'a, Z, E>;

    type Fct = FutureResultEffect<'a, E, X, Y, Z>;
}

impl<'a, E, X, Y> MonadEffect<'a, X, Y> for ConcreteFutureResult<'a, X, E> where
    X: 'a + Send + Sync,
    Y: 'a + Send + Sync,
    E: 'a + Send + Sync,
 {
    type FX = ConcreteFutureResult<'a, X, E>;

    type FY = ConcreteFutureResult<'a, Y, E>;

    type Fct = FutureResultEffect<'a, E, X, Y, ()>;
}

impl<'a, E, X> MonadErrorEffect<'a, X> for ConcreteFutureResult<'a, X, E> where
    X: 'a + Send + Sync,
    E: 'a + Send + Sync,
 {
    type E = E;

    type Fct = FutureResultEffect<'a, E, X, (), ()>;
}

impl<'a, E, X, Y> FoldableEffect<
    'a,
    X,
    Y,
    ConcreteFutureResult<'a, Y, E>,
> for ConcreteFutureResult<'a, X, E> where
    X: 'a + Send + Sync,
    Y: 'a + Send + Sync,
    E: 'a + Send + Sync,
 {
    type FX = ConcreteFutureResult<'a, X, E>;

    type Fct = FutureResultEffect<'a, E, X, Y, ()>;
}

impl<'a, E, X, Y> ProductableEffect<'a, X, Y> for ConcreteFutureResult<'a, X, E> where
    X: 'a + Send + Sync,
    Y: 'a + Send + Sync,
    E: 'a + Send + Sync,
 {
    type FX = ConcreteFutureResult<'a, X, E>;

    type FY = ConcreteFutureResult<'a, Y, E>;

    type FZ = ConcreteFutureResult<'a, (X, Y), E>;

    type Fct = FutureResultEffect<'a, E, X, Y, (X, Y)>;
}

impl<'a, Y, E> Traversed<'a, Y> for ConcreteFutureResult<'a, Y, E> where
    Y: 'a + Send + Sync,
    E: 'a + Send + Sync,
 {
    type Gathered = ConcreteFutureResult<'a, Vec<Y>, E>;

    open spec fn seen_failed(acc: ConcreteFutureResult<'a, Vec<Y>, E>) -> bool {
        false
    }

    fn has_failed(_acc: &ConcreteFutureResult<'a, Vec<Y>, E>) -> (b: bool) {
        false
    }
}

/// The outcome of mapping: a success is mapped by `post`, a failure is kept.
pub open spec fn mapped<X, Y, E>(
    from: Result<X, E>,
    post: spec_fn(X, Y) -> bool,
    to: Result<Y, E>,
) -> bool {
    match from {
        Ok(x) => to is Ok && post(x, to->Ok_0),
        Err(e) => to == Err::<Y, E>(e),
    }
}

/// The outcome of sequencing: for a success, an outcome of a computation that
/// `post` relates to it; a failure is kept.
pub open spec fn sequenced<'a, X, Y, E>(
    from: Result<X, E>,
    post: spec_fn(X, ConcreteFutureResult<'a, Y, E>) -> bool,
    to: Result<Y, E>,
) -> bool {
    match from {
        Ok(x) => exists|mid: ConcreteFutureResult<'a, Y, E>| #[trigger]
            post(x, mid) && mid.yields(to),
        Err(e) => to == Err::<Y, E>(e),
    }
}

/// The outcome of recovering: a success is kept; for a failure, an outcome of
/// a computation that `post` relates to its error.
pub open spec fn recovered<'a, X, E>(
    from: Result<X, E>,
    post: spec_fn(E, ConcreteFutureResult<'a, X, E>) -> bool,
    to: Result<X, E>,
) -> bool {
    match from {
        Ok(x) => to == Ok::<X, E>(x),
        Err(e) => exists|mid: ConcreteFutureResult<'a, X, E>| #[trigger]
            post(e, mid) && mid.yields(to),
    }
}

/// The witness for deferred computations that may fail with an `E`. It holds
/// nothing; its other parameters name the payload types of the operation it is
/// used for.
#[derive(Debug)]
pub struct FutureResultEffect<'a, E = (), X = (), Y = (), Z = ()> {
    _p: PhantomData<&'a ()>,
    _a: PhantomData<X>,
    _b: PhantomData<Y>,
    _c: PhantomData<Z>,
    _e: PhantomData<E>,
}

impl<'a, E, X, Y, Z> FutureResultEffect<'a, E, X, Y, Z> {
    /// The witness; the argument only fixes the last type parameter.
    pub fn new(_z: Z) -> Self {
        FutureResultEffect {
            _p: PhantomData,
            _a: PhantomData,
            _b: PhantomData,
            _c: PhantomData,
            _e: PhantomData,
        }
    }

    /// A computation that drives `a`, then `b`, and merges their outcomes: the
    /// first failure if there is one, and else what `func` makes of the two
    /// payloads. `b` is driven also where `a` failed.
    pub(crate) fn combine_futures<X1, X2, R, Func>(
        a: ConcreteFutureResult<'a, X1, E>,
        b: ConcreteFutureResult<'a, X2, E>,
        func: Func,
    ) -> (out: ConcreteFutureResult<'a, R, E>) where
        X1: 'a + Send + Sync,
        X2: 'a + Send + Sync,
        R: 'a + Send + Sync,
        Func: 'a + FnOnce(X1, X2) -> R + Send + Sync,
        E: 'a + Sync + Send,

        requires
            forall|i: X1, j: X2| #[trigger]
                a.yields(Ok(i)) && #[trigger] b.yields(Ok(j)) ==> func.requires((i, j)),
        ensures
            out.always(
                |r: Result<R, E>|
                    exists|ra: Result<X1, E>, rb: Result<X2, E>|
                        #[trigger] a.yields(ra) && #[trigger] b.yields(rb) && combine_results_ensures(
                            ra,
                            rb,
                            |i: X1, j: X2, v: R| func.ensures((i, j), v),
                            r,
                        ),
            ),
    {
        let ghost pre = |i: X1, j: X2| func.requires((i, j));
        let ghost post = |i: X1, j: X2, v: R| func.ensures((i, j), v);
        let merge = move |ra: Result<X1, E>, rb: Result<X2, E>| -> (r: Result<R, E>)
            requires
                ra is Ok && rb is Ok ==> pre(ra->Ok_0, rb->Ok_0),
            ensures
                combine_results_ensures(ra, rb, post, r),
            { ResultEffect::<E, (), (), ()>::combine_results(ra, rb, func) };
        proof {
            assert forall|ra: Result<X1, E>, rb: Result<X2, E>| #[trigger]
                a.inner.yields(ra) && #[trigger] b.inner.yields(rb) implies merge.requires(
                (ra, rb),
            ) by {
                if ra is Ok && rb is Ok {
                    assert(a.yields(Ok(ra->Ok_0)));
                    assert(b.yields(Ok(rb->Ok_0)));
                }
            }
        }
        let inner = FutureEffect::<'a, (), (), ()>::combine_futures(a.inner, b.inner, merge);
        let out = ConcreteFutureResult { inner };
        proof {
            assert forall|r: Result<R, E>| #[trigger] out.yields(r) implies exists|
                ra: Result<X1, E>,
                rb: Result<X2, E>,
            |
                #[trigger] a.yields(ra) && #[trigger] b.yields(rb) && combine_results_ensures(
                    ra,
                    rb,
                    post,
                    r,
                ) by {
                let (ra, rb) = choose|ra: Result<X1, E>, rb: Result<X2, E>|
                    a.inner.yields(ra) && b.inner.yields(rb) && #[trigger] merge.ensures(
                        (ra, rb),
                        r,
                    );
                assert(a.yields(ra));
                assert(b.yields(rb));
                assert(combine_results_ensures(ra, rb, post, r));
            }
        }
        out
    }

    /// What sequencing does with one outcome: on a success it calls `func` and
    /// hands on the computation that `func` returned; on a failure it hands on
    /// a computation that has failed with the same error, and `func` is not
    /// called.
    pub fn flat_map_step<Func>(r: Result<X, E>, func: Func) -> (mid: ConcreteFutureResult<
        'a,
        Y,
        E,
    >) where
        X: 'a + Send + Sync,
        Y: 'a + Send + Sync,
        E: 'a + Send + Sync,
        Func: FnOnce(X) -> ConcreteFutureResult<'a, Y, E>,

        requires
            r is Ok ==> func.requires((r->Ok_0,)),
        ensures
            match r {
                Ok(x) => func.ensures((x,), mid),
                Err(e) => forall|v: Result<Y, E>| mid.yields(v) <==> v == Err::<Y, E>(e),
            },
    {
        match r {
            Ok(x) => func(x),
            Err(e) => ConcreteFutureResult { inner: ready_future(Err(e)) },
        }
    }

    /// What recovering does with one outcome: a success is handed on as it is,
    /// and `recovery` is not called; on a failure it calls `recovery` on the
    /// error and hands on the computation that `recovery` returned.
    pub fn handle_error_step<Func>(r: Result<X, E>, recovery: Func) -> (mid: ConcreteFutureResult<
        'a,
        X,
        E,
    >) where
        X: 'a + Send + Sync,
        E: 'a + Send + Sync,
        Func: FnOnce(E) -> ConcreteFutureResult<'a, X, E>,

        requires
            r is Err ==> recovery.requires((r->Err_0,)),
        ensures
            match r {
                Ok(x) => forall|v: Result<X, E>| mid.yields(v) <==> v == Ok::<X, E>(x),
                Err(e) => recovery.ensures((e,), mid),
            },
    {
        match r {
            Ok(x) => ConcreteFutureResult { inner: ready_future(Ok(x)) },
            Err(e) => recovery(e),
        }
    }
}

impl<'a, E, X, Y, Z> Clone for FutureResultEffect<'a, E, X, Y, Z> {
    fn clone(&self) -> Self {
        FutureResultEffect {
            _p: PhantomData,
            _a: PhantomData,
            _b: PhantomData,
            _c: PhantomData,
            _e: PhantomData,
        }
    }
}

impl<'a, E, X, Y, Z> Effect for FutureResultEffect<'a, E, X, Y, Z> {

}

impl<'a, X, Y, Z, E> Monoid for FutureResultEffect<'a, E, X, Y, Z> where
    X: 'a + MonoidEffect<X> + Sync + Send,
    E: 'a + Sync + Send,
 {
    type Output = ConcreteFutureResult<'a, X, E>;

    open spec fn empty_ensures(out: ConcreteFutureResult<'a, X, E>) -> bool {
        out.always(|r: Result<X, E>| r is Ok && X::Fct::empty_ensures(r->Ok_0))
    }

    fn empty() -> (out: ConcreteFutureResult<'a, X, E>) {
        ConcreteFutureResult { inner: ready_future(Ok(X::Fct::empty())) }
    }
}

impl<'a, X1, X2, R, E> Semigroup<
    ConcreteFutureResult<'a, X1, E>,
    ConcreteFutureResult<'a, X2, E>,
    ConcreteFutureResult<'a, R, E>,
> for FutureResultEffect<'a, E, X1, X2, R> where
    X1: SemigroupEffect<X1, X2, R> + 'a + Send + Sync,
    X2: 'a + Send + Sync,
    R: 'a + Send + Sync,
    E: 'a + Send + Sync,
 {
    open spec fn combine_requires(
        a: ConcreteFutureResult<'a, X1, E>,
        b: ConcreteFutureResult<'a, X2, E>,
    ) -> bool {
        forall|i: X1, j: X2| #[trigger]
            a.yields(Ok(i)) && #[trigger] b.yields(Ok(j)) ==> X1::Fct::combine_requires(i, j)
    }

    open spec fn combine_ensures(
        a: ConcreteFutureResult<'a, X1, E>,
        b: ConcreteFutureResult<'a, X2, E>,
        out: ConcreteFutureResult<'a, R, E>,
    ) -> bool {
        out.always(
            |r: Result<R, E>|
                exists|ra: Result<X1, E>, rb: Result<X2, E>|
                    #[trigger] a.yields(ra) && #[trigger] b.yields(rb) && combine_results_ensures(
                        ra,
                        rb,
                        |i: X1, j: X2, v: R| X1::Fct::combine_ensures(i, j, v),
                        r,
                    ),
        )
    }

    fn combine(a: ConcreteFutureResult<'a, X1, E>, b: ConcreteFutureResult<'a, X2, E>) -> (out:
        ConcreteFutureResult<'a, R, E>) {
        let out = Self::combine_futures(a, b, combine::<X1, X2, R>);
        proof {
            assert forall|r: Result<R, E>| #[trigger] out.yields(r) implies exists|
                ra: Result<X1, E>,
                rb: Result<X2, E>,
            |
                #[trigger] a.yields(ra) && #[trigger] b.yields(rb) && combine_results_ensures(
                    ra,
                    rb,
                    |i: X1, j: X2, v: R| X1::Fct::combine_ensures(i, j, v),
                    r,
                ) by {
                let (ra, rb) = choose|ra: Result<X1, E>, rb: Result<X2, E>|
                    #[trigger] a.yields(ra) && #[trigger] b.yields(rb) && combine_results_ensures(
                        ra,
                        rb,
                        |i: X1, j: X2, v: R| call_ensures(combine::<X1, X2, R>, (i, j), v),
                        r,
                    );
                assert(combine_results_ensures(
                    ra,
                    rb,
                    |i: X1, j: X2, v: R| X1::Fct::combine_ensures(i, j, v),
                    r,
                ));
            }
        }
        out
    }
}

impl<'a, E, X> SemigroupInner<'a, ConcreteFutureResult<'a, X, E>, X> for FutureResultEffect<
    'a,
    E,
    X,
    X,
    X,
> where X: 'a + Send + Sync, E: 'a + Send + Sync {
    open spec fn combine_inner_requires(
        a: ConcreteFutureResult<'a, X, E>,
        b: ConcreteFutureResult<'a, X, E>,
        pre: spec_fn(X, X) -> bool,
    ) -> bool {
        forall|i: X, j: X| #[trigger] a.yields(Ok(i)) && #[trigger] b.yields(Ok(j)) ==> pre(i, j)
    }

    open spec fn combine_inner_ensures(
        a: ConcreteFutureResult<'a, X, E>,
        b: ConcreteFutureResult<'a, X, E>,
        post: spec_fn(X, X, X) -> bool,
        out: ConcreteFutureResult<'a, X, E>,
    ) -> bool {
        out.always(
            |r: Result<X, E>|
                exists|ra: Result<X, E>, rb: Result<X, E>|
                    #[trigger] a.yields(ra) && #[trigger] b.yields(rb) && combine_results_ensures(
                        ra,
                        rb,
                        post,
                        r,
                    ),
        )
    }

    fn combine_inner<TO>(
        a: ConcreteFutureResult<'a, X, E>,
        b: ConcreteFutureResult<'a, X, E>,
    ) -> (out: ConcreteFutureResult<'a, X, E>) where TO: 'a + Semigroup<X, X, X> {
        let ghost post = |x: X, y: X, r: X| TO::combine_ensures(x, y, r);
        let out = Self::combine_futures(a, b, TO::combine);
        proof {
            assert forall|r: Result<X, E>| #[trigger] out.yields(r) implies exists|
                ra: Result<X, E>,
                rb: Result<X, E>,
            |
                #[trigger] a.yields(ra) && #[trigger] b.yields(rb) && combine_results_ensures(
                    ra,
                    rb,
                    post,
                    r,
                ) by {
                let (ra, rb) = choose|ra: Result<X, E>, rb: Result<X, E>|
                    #[trigger] a.yields(ra) && #[trigger] b.yields(rb) && combine_results_ensures(
                        ra,
                        rb,
                        |i: X, j: X, v: X| call_ensures(TO::combine, (i, j), v),
                        r,
                    );
                assert(combine_results_ensures(ra, rb, post, r));
            }
        }
        out
    }
}

impl<'a, E, X, Y, Z> Functor<'a> for FutureResultEffect<'a, E, X, Y, Z> where
    X: 'a + Send + Sync,
    Y: 'a + Send + Sync,
    E: 'a + Send + Sync,
 {
    type X = X;

    type Y = Y;

    type FX = ConcreteFutureResult<'a, X, E>;

    type FY = ConcreteFutureResult<'a, Y, E>;

    open spec fn fmap_requires(f: ConcreteFutureResult<'a, X, E>, pre: spec_fn(X) -> bool) -> bool {
        forall|x: X| #[trigger] f.yields(Ok(x)) ==> pre(x)
    }

    open spec fn fmap_ensures(
        f: ConcreteFutureResult<'a, X, E>,
        post: spec_fn(X, Y) -> bool,
        out: ConcreteFutureResult<'a, Y, E>,
    ) -> bool {
        out.always(
            |r: Result<Y, E>|
                exists|from: Result<X, E>| #[trigger] f.yields(from) && mapped(from, post, r),
        )
    }

    proof fn fmap_ensures_weaken(
        f: ConcreteFutureResult<'a, X, E>,
        p: spec_fn(X, Y) -> bool,
        q: spec_fn(X, Y) -> bool,
        out: ConcreteFutureResult<'a, Y, E>,
    ) {
        assert forall|r: Result<Y, E>| #[trigger] out.yields(r) implies exists|
            from: Result<X, E>,
        | #[trigger] f.yields(from) && mapped(from, q, r) by {
            let from = choose|from: Result<X, E>| #[trigger] f.yields(from) && mapped(from, p, r);
            assert(mapped(from, q, r));
        }
    }

    fn fmap<Func: 'a + Fn(X) -> Y + Send + Sync>(
        f: ConcreteFutureResult<'a, X, E>,
        func: Func,
    ) -> (out: ConcreteFutureResult<'a, Y, E>) {
        let ghost pre = |x: X| func.requires((x,));
        let ghost post = |x: X, y: Y| func.ensures((x,), y);
        let on_outcome = move |from: Result<X, E>| -> (to: Result<Y, E>)
            requires
                from is Ok ==> pre(from->Ok_0),
            ensures
                mapped(from, post, to),
            {
                match from {
                    Ok(x) => Ok(func(x)),
                    Err(e) => Err(e),
                }
            };
        proof {
            assert forall|from: Result<X, E>| #[trigger]
                f.inner.yields(from) implies on_outcome.requires((from,)) by {
                match from {
                    Ok(x) => {
                        assert(f.yields(Ok(x)));
                    },
                    Err(e) => {
                        assert(f.yields(Err(e)));
                    },
                }
            }
        }
        let inner = map_future(f.inner, on_outcome);
        let out = ConcreteFutureResult { inner };
        proof {
            assert forall|r: Result<Y, E>| #[trigger] out.yields(r) implies exists|
                from: Result<X, E>,
            |
                #[trigger] f.yields(from) && mapped(from, post, r) by {
                let from = choose|from: Result<X, E>|
                    f.inner.yields(from) && #[trigger] on_outcome.ensures((from,), r);
                assert(f.yields(from));
                assert(mapped(from, post, r));
            }
        }
        out
    }
}

impl<'a, X, Y, Z, E> Applicative<'a> for FutureResultEffect<'a, E, X, Y, Z> where
    X: 'a + Send + Sync,
    Y: 'a + Send + Sync,
    Z: 'a + Send + Sync,
    E: 'a + Send + Sync,
 {
    open spec fn pure_ensures(x: X, out: ConcreteFutureResult<'a, X, E>) -> bool {
        forall|r: Result<X, E>| out.yields(r) <==> r == Ok::<X, E>(x)
    }

    fn pure(x: X) -> (out: ConcreteFutureResult<'a, X, E>) {
        ConcreteFutureResult { inner: ready_future(Ok(x)) }
    }
}

impl<'a, E, X, Y, Z, M> ApplicativeApply<'a, M> for FutureResultEffect<'a, E, X, Y, Z> where
    X: 'a + Send + Sync,
    Y: 'a + Send + Sync,
    Z: 'a + Send + Sync,
    E: 'a + Send + Sync,
    M: 'a + Fn(X) -> Y + Send + Sync,
 {
    type FMapper = ConcreteFutureResult<'a, M, E>;

    open spec fn apply_requires(
        func: ConcreteFutureResult<'a, M, E>,
        x: ConcreteFutureResult<'a, X, E>,
    ) -> bool {
        forall|g: M, v: X| #[trigger]
            func.yields(Ok(g)) && #[trigger] x.yields(Ok(v)) ==> call_requires(g, (v,))
    }

    open spec fn apply_ensures(
        func: ConcreteFutureResult<'a, M, E>,
        x: ConcreteFutureResult<'a, X, E>,
        out: ConcreteFutureResult<'a, Y, E>,
    ) -> bool {
        out.always(
            |r: Result<Y, E>|
                exists|rx: Result<X, E>, rg: Result<M, E>|
                    #[trigger] x.yields(rx) && #[trigger] func.yields(rg) && combine_results_ensures(
                        rx,
                        rg,
                        |v: X, g: M, y: Y| call_ensures(g, (v,), y),
                        r,
                    ),
        )
    }

    fn apply(func: ConcreteFutureResult<'a, M, E>, x: ConcreteFutureResult<'a, X, E>) -> (out:
        ConcreteFutureResult<'a, Y, E>) {
        let call = |v: X, g: M| -> (y: Y)
            requires
                call_requires(g, (v,)),
            ensures
                call_ensures(g, (v,), y),
            { g(v) };
        let out = FutureResultEffect::<'a, E, (), (), ()>::combine_futures(x, func, call);
        proof {
            assert forall|r: Result<Y, E>| #[trigger] out.yields(r) implies exists|
                rx: Result<X, E>,
                rg: Result<M, E>,
            |
                #[trigger] x.yields(rx) && #[trigger] func.yields(rg) && combine_results_ensures(
                    rx,
                    rg,
                    |v: X, g: M, y: Y| call_ensures(g, (v,), y),
                    r,
                ) by {
                let (rx, rg) = choose|rx: Result<X, E>, rg: Result<M, E>|
                    #[trigger] x.yields(rx) && #[trigger] func.yields(rg) && combine_results_ensures(
                        rx,
                        rg,
                        |v: X, g: M, y: Y| call.ensures((v, g), y),
                        r,
                    );
                assert(combine_results_ensures(
                    rx,
                    rg,
                    |v: X, g: M, y: Y| call_ensures(g, (v,), y),
                    r,
                ));
            }
        }
        out
    }
}

impl<'a, E, X, Y, Z> Functor2<'a> for FutureResultEffect<'a, E, X, Y, Z> where
    X: 'a + Send + Sync,
    Y: 'a + Send + Sync,
    Z: 'a + Send + Sync,
    E: 'a + Send + Sync,
 {
    type Z = Z;

    type FZ = ConcreteFutureResult<'a, Z, E>;

    open spec fn fmap2_requires(
        fa: ConcreteFutureResult<'a, X, E>,
        fb: ConcreteFutureResult<'a, Y, E>,
        pre: spec_fn(X, Y) -> bool,
    ) -> bool {
        forall|x: X, y: Y| #[trigger] fa.yields(Ok(x)) && #[trigger] fb.yields(Ok(y)) ==> pre(x, y)
    }

    open spec fn fmap2_ensures(
        fa: ConcreteFutureResult<'a, X, E>,
        fb: ConcreteFutureResult<'a, Y, E>,
        post: spec_fn(X, Y, Z) -> bool,
        out: ConcreteFutureResult<'a, Z, E>,
    ) -> bool {
        out.always(
            |r: Result<Z, E>|
                exists|ra: Result<X, E>, rb: Result<Y, E>|
                    #[trigger] fa.yields(ra) && #[trigger] fb.yields(rb) && combine_results_ensures(
                        ra,
                        rb,
                        post,
                        r,
                    ),
        )
    }

    proof fn fmap2_requires_total(
        fa: ConcreteFutureResult<'a, X, E>,
        fb: ConcreteFutureResult<'a, Y, E>,
        pre: spec_fn(X, Y) -> bool,
    ) {
    }

    proof fn fmap2_ensures_weaken(
        fa: ConcreteFutureResult<'a, X, E>,
        fb: ConcreteFutureResult<'a, Y, E>,
        p: spec_fn(X, Y, Z) -> bool,
        q: spec_fn(X, Y, Z) -> bool,
        out: ConcreteFutureResult<'a, Z, E>,
    ) {
        assert forall|r: Result<Z, E>| #[trigger] out.yields(r) implies exists|
            ra: Result<X, E>,
            rb: Result<Y, E>,
        |
            #[trigger] fa.yields(ra) && #[trigger] fb.yields(rb) && combine_results_ensures(ra, rb, q, r) by {
            let (ra, rb) = choose|ra: Result<X, E>, rb: Result<Y, E>|
                #[trigger] fa.yields(ra) && #[trigger] fb.yields(rb) && combine_results_ensures(ra, rb, p, r);
            assert(combine_results_ensures(ra, rb, q, r));
        }
    }

    fn fmap2<Func: 'a + Fn(X, Y) -> Z + Send + Sync>(
        fa: ConcreteFutureResult<'a, X, E>,
        fb: ConcreteFutureResult<'a, Y, E>,
        func: Func,
    ) -> (out: ConcreteFutureResult<'a, Z, E>) {
        let ghost post = |x: X, y: Y, z: Z| func.ensures((x, y), z);
        let out = Self::combine_futures(fa, fb, func);
        proof {
            assert forall|r: Result<Z, E>| #[trigger] out.yields(r) implies exists|
                ra: Result<X, E>,
                rb: Result<Y, E>,
            |
                #[trigger] fa.yields(ra) && #[trigger] fb.yields(rb) && combine_results_ensures(
                    ra,
                    rb,
                    post,
                    r,
                ) by {
                let (ra, rb) = choose|ra: Result<X, E>, rb: Result<Y, E>|
                    #[trigger] fa.yields(ra) && #[trigger] fb.yields(rb) && combine_results_ensures(
                        ra,
                        rb,
                        |i: X, j: Y, v: Z| func.ensures((i, j), v),
                        r,
                    );
                assert(combine_results_ensures(ra, rb, post, r));
            }
        }
        out
    }
}

impl<'a, E, X, Y, Z> Monad<'a> for FutureResultEffect<'a, E, X, Y, Z> where
    X: 'a + Send + Sync,
    Y: 'a + Send + Sync,
    Z: 'a + Send + Sync,
    E: 'a + Send + Sync,
 {
    open spec fn flat_map_requires(
        f: ConcreteFutureResult<'a, X, E>,
        pre: spec_fn(X) -> bool,
    ) -> bool {
        forall|x: X| #[trigger] f.yields(Ok(x)) ==> pre(x)
    }

    open spec fn flat_map_ensures(
        f: ConcreteFutureResult<'a, X, E>,
        post: spec_fn(X, ConcreteFutureResult<'a, Y, E>) -> bool,
        out: ConcreteFutureResult<'a, Y, E>,
    ) -> bool {
        out.always(
            |r: Result<Y, E>|
                exists|from: Result<X, E>| #[trigger] f.yields(from) && sequenced(from, post, r),
        )
    }

    proof fn flat_map_ensures_weaken(
        f: ConcreteFutureResult<'a, X, E>,
        p: spec_fn(X, ConcreteFutureResult<'a, Y, E>) -> bool,
        q: spec_fn(X, ConcreteFutureResult<'a, Y, E>) -> bool,
        out: ConcreteFutureResult<'a, Y, E>,
    ) {
        assert forall|r: Result<Y, E>| #[trigger] out.yields(r) implies exists|
            from: Result<X, E>,
        | #[trigger] f.yields(from) && sequenced(from, q, r) by {
            let from = choose|from: Result<X, E>| #[trigger]
                f.yields(from) && sequenced(from, p, r);
            if from is Ok {
                let mid = choose|mid: ConcreteFutureResult<'a, Y, E>| #[trigger]
                    p(from->Ok_0, mid) && mid.yields(r);
                assert(q(from->Ok_0, mid));
            }
            assert(sequenced(from, q, r));
        }
    }

    fn flat_map<Func: 'a + Fn(X) -> ConcreteFutureResult<'a, Y, E> + Send + Sync>(
        f: ConcreteFutureResult<'a, X, E>,
        func: Func,
    ) -> (out: ConcreteFutureResult<'a, Y, E>) {
        let ghost pre = |x: X| func.requires((x,));
        let ghost post = |x: X, mid: ConcreteFutureResult<'a, Y, E>| func.ensures((x,), mid);
        let on_outcome = move |from: Result<X, E>| -> (next: ConcreteFuture<'a, Result<Y, E>>)
            requires
                from is Ok ==> pre(from->Ok_0),
            ensures
                forall|r: Result<Y, E>| #[trigger] next.yields(r) ==> sequenced(from, post, r),
            {
                let mid = Self::flat_map_step(from, func);
                proof {
                    assert forall|r: Result<Y, E>| #[trigger]
                        mid.inner.yields(r) implies sequenced(from, post, r) by {
                        assert(mid.yields(r));
                        if from is Ok {
                            assert(post(from->Ok_0, mid));
                        }
                    }
                }
                mid.inner
            };
        proof {
            assert forall|from: Result<X, E>| #[trigger]
                f.inner.yields(from) implies on_outcome.requires((from,)) by {
                match from {
                    Ok(x) => {
                        assert(f.yields(Ok(x)));
                    },
                    Err(e) => {
                        assert(f.yields(Err(e)));
                    },
                }
            }
        }
        let inner = chain_future(f.inner, on_outcome);
        let out = ConcreteFutureResult { inner };
        proof {
            assert forall|r: Result<Y, E>| #[trigger] out.yields(r) implies exists|
                from: Result<X, E>,
            |
                #[trigger] f.yields(from) && sequenced(from, post, r) by {
                let (from, next) = choose|
                    from: Result<X, E>,
                    next: ConcreteFuture<'a, Result<Y, E>>,
                |
                    f.inner.yields(from) && #[trigger] on_outcome.ensures((from,), next)
                        && next.yields(r);
                assert(f.yields(from));
                assert(sequenced(from, post, r));
            }
        }
        out
    }
}

impl<'a, E, X, Y, Z> Foldable<'a> for FutureResultEffect<'a, E, X, Y, Z> where
    X: 'a + Send + Sync,
    Y: 'a + Send + Sync,
    Z: 'a + Send + Sync,
    E: 'a + Send + Sync,
 {
    type Y2 = ConcreteFutureResult<'a, Y, E>;

    open spec fn fold_requires(
        f: ConcreteFutureResult<'a, X, E>,
        init: Y,
        pre: spec_fn(Y, X) -> bool,
        post: spec_fn(Y, X, Y) -> bool,
    ) -> bool {
        forall|x: X| #[trigger] f.yields(Ok(x)) ==> pre(init, x)
    }

    open spec fn fold_ensures(
        f: ConcreteFutureResult<'a, X, E>,
        init: Y,
        post: spec_fn(Y, X, Y) -> bool,
        out: ConcreteFutureResult<'a, Y, E>,
    ) -> bool {
        out.always(
            |r: Result<Y, E>|
                exists|from: Result<X, E>|
                    #[trigger] f.yields(from) && mapped(from, |x: X, y: Y| post(init, x, y), r),
        )
    }

    proof fn fold_ensures_weaken(
        f: ConcreteFutureResult<'a, X, E>,
        init: Y,
        p: spec_fn(Y, X, Y) -> bool,
        q: spec_fn(Y, X, Y) -> bool,
        out: ConcreteFutureResult<'a, Y, E>,
    ) {
        assert forall|r: Result<Y, E>| #[trigger] out.yields(r) implies exists|
            from: Result<X, E>,
        | #[trigger] f.yields(from) && mapped(from, |x: X, y: Y| q(init, x, y), r) by {
            let from = choose|from: Result<X, E>| #[trigger]
                f.yields(from) && mapped(from, |x: X, y: Y| p(init, x, y), r);
            if from is Ok {
                assert(p(init, from->Ok_0, r->Ok_0));
            }
            assert(mapped(from, |x: X, y: Y| q(init, x, y), r));
        }
    }

    fn fold<Func: 'a + Fn(Y, X) -> Y + Send + Sync>(
        f: ConcreteFutureResult<'a, X, E>,
        init: Y,
        func: Func,
    ) -> (out: ConcreteFutureResult<'a, Y, E>) {
        let ghost seed = init;
        let ghost pre = |y: Y, x: X| func.requires((y, x));
        let ghost post = |y: Y, x: X, r: Y| func.ensures((y, x), r);
        let on_outcome = move |from: Result<X, E>| -> (to: Result<Y, E>)
            requires
                from is Ok ==> pre(seed, from->Ok_0),
            ensures
                mapped(from, |x: X, y: Y| post(seed, x, y), to),
            {
                match from {
                    Ok(x) => Ok(func(init, x)),
                    Err(e) => Err(e),
                }
            };
        proof {
            assert forall|from: Result<X, E>| #[trigger]
                f.inner.yields(from) implies on_outcome.requires((from,)) by {
                match from {
                    Ok(x) => {
                        assert(f.yields(Ok(x)));
                    },
                    Err(e) => {
                        assert(f.yields(Err(e)));
                    },
                }
            }
        }
        let inner = map_future(f.inner, on_outcome);
        let out = ConcreteFutureResult { inner };
        proof {
            assert forall|r: Result<Y, E>| #[trigger] out.yields(r) implies exists|
                from: Result<X, E>,
            |
                #[trigger] f.yields(from) && mapped(from, |x: X, y: Y| post(init, x, y), r) by {
                let from = choose|from: Result<X, E>|
                    f.inner.yields(from) && #[trigger] on_outcome.ensures((from,), r);
                assert(f.yields(from));
                assert(mapped(from, |x: X, y: Y| post(init, x, y), r));
            }
        }
        out
    }
}

impl<'a, E, X, Y, Z> MonadError<'a> for FutureResultEffect<'a, E, X, Y, Z> where
    X: 'a + Send + Sync,
    Y: 'a + Send + Sync,
    Z: 'a + Send + Sync,
    E: 'a + Send + Sync,
 {
    type E = E;

    open spec fn raise_error_ensures(err: E, out: ConcreteFutureResult<'a, X, E>) -> bool {
        forall|r: Result<X, E>| out.yields(r) <==> r == Err::<X, E>(err)
    }

    open spec fn handle_error_requires(
        f: ConcreteFutureResult<'a, X, E>,
        pre: spec_fn(E) -> bool,
    ) -> bool {
        forall|e: E| #[trigger] f.yields(Err(e)) ==> pre(e)
    }

    open spec fn handle_error_ensures(
        f: ConcreteFutureResult<'a, X, E>,
        post: spec_fn(E, ConcreteFutureResult<'a, X, E>) -> bool,
        out: ConcreteFutureResult<'a, X, E>,
    ) -> bool {
        out.always(
            |r: Result<X, E>|
                exists|from: Result<X, E>| #[trigger] f.yields(from) && recovered(from, post, r),
        )
    }

    fn raise_error(err: E) -> (out: ConcreteFutureResult<'a, X, E>) {
        ConcreteFutureResult { inner: ready_future(Err(err)) }
    }

    proof fn handle_error_ensures_weaken(
        f: ConcreteFutureResult<'a, X, E>,
        p: spec_fn(E, ConcreteFutureResult<'a, X, E>) -> bool,
        q: spec_fn(E, ConcreteFutureResult<'a, X, E>) -> bool,
        out: ConcreteFutureResult<'a, X, E>,
    ) {
        assert forall|r: Result<X, E>| #[trigger] out.yields(r) implies exists|
            from: Result<X, E>,
        | #[trigger] f.yields(from) && recovered(from, q, r) by {
            let from = choose|from: Result<X, E>| #[trigger]
                f.yields(from) && recovered(from, p, r);
            if from is Err {
                let mid = choose|mid: ConcreteFutureResult<'a, X, E>| #[trigger]
                    p(from->Err_0, mid) && mid.yields(r);
                assert(q(from->Err_0, mid));
            }
            assert(recovered(from, q, r));
        }
    }

    fn handle_error<Func: 'a + Send + Sync + Fn(E) -> ConcreteFutureResult<'a, X, E>>(
        f: ConcreteFutureResult<'a, X, E>,
        recovery: Func,
    ) -> (out: ConcreteFutureResult<'a, X, E>) {
        let ghost pre = |e: E| recovery.requires((e,));
        let ghost post = |e: E, mid: ConcreteFutureResult<'a, X, E>| recovery.ensures((e,), mid);
        let on_outcome = move |from: Result<X, E>| -> (next: ConcreteFuture<'a, Result<X, E>>)
            requires
                from is Err ==> pre(from->Err_0),
            ensures
                forall|r: Result<X, E>| #[trigger] next.yields(r) ==> recovered(from, post, r),
            {
                let mid = Self::handle_error_step(from, recovery);
                proof {
                    assert forall|r: Result<X, E>| #[trigger]
                        mid.inner.yields(r) implies recovered(from, post, r) by {
                        assert(mid.yields(r));
                        if from is Err {
                            assert(post(from->Err_0, mid));
                        }
                    }
                }
                mid.inner
            };
        proof {
            assert forall|from: Result<X, E>| #[trigger]
                f.inner.yields(from) implies on_outcome.requires((from,)) by {
                match from {
                    Ok(x) => {
                        assert(f.yields(Ok(x)));
                    },
                    Err(e) => {
                        assert(f.yields(Err(e)));
                    },
                }
            }
        }
        let inner = chain_future(f.inner, on_outcome);
        let out = ConcreteFutureResult { inner };
        proof {
            assert forall|r: Result<X, E>| #[trigger] out.yields(r) implies exists|
                from: Result<X, E>,
            |
                #[trigger] f.yields(from) && recovered(from, post, r) by {
                let (from, next) = choose|
                    from: Result<X, E>,
                    next: ConcreteFuture<'a, Result<X, E>>,
                |
                    f.inner.yields(from) && #[trigger] on_outcome.ensures((from,), next)
                        && next.yields(r);
                assert(f.yields(from));
                assert(recovered(from, post, r));
            }
        }
        out
    }
}

impl<'a, E, X, Y> Productable<'a> for FutureResultEffect<'a, E, X, Y, (X, Y)> where
    E: 'a + Send + Sync,
    X: 'a + Send + Sync,
    Y: 'a + Send + Sync,
 {

}

} // verus!
