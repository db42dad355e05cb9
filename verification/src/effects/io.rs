//! The IO value: a computation that does nothing until it is run, may fail,
//! and can recover from a failure. It owns one deferred computation; every
//! combinator makes a new IO value and runs nothing.
//!
//! ```text
//!   pure(x)                       =>  IO(Ok(x)), built at once
//!   fmap(IO(Ok(x)), g)            =>  IO(Ok(g(x)))
//!   fmap(IO(Err(e)), g)           =>  IO(Err(e))
//!   fmap2(IO(Ok(x)), IO(Ok(y)), g)=>  IO(Ok(g(x, y))), the first driven first
//!   flat_map(IO(Ok(x)), g)        =>  g(x)
//!   flat_map(IO(Err(e)), g)       =>  IO(Err(e)), g is not called
//!   raise_error(e)                =>  IO(Err(e))
//!   handle_error(IO(Ok(x)), r)    =>  IO(Ok(x)), r is not called
//!   handle_error(IO(Err(e)), r)   =>  r(e)
//!   suspend(t)                    =>  IO that calls t when it is run
//!   delay(t)                      =>  IO(Ok(t())), t called when it is run
//! ```
//!
//! Running an IO is not done here. The caller drives the future that the IO
//! owns with the runtime, which blocks the calling thread until it is done,
//! and gets the outcome; `unwrap_outcome` then gives the payload of a
//! success.

use vstd::prelude::*;
use std::marker::PhantomData;
use crate::future::{chain_future, lazy_future};
use crate::future::ConcreteFuture;
use crate::futureresult::{ConcreteFutureResult, FutureResultEffect};
use crate::typeclasses::{Effect, F};
use crate::typeclasses::applicative::{
    Applicative,
    ApplicativeApply,
    ApplicativeApplyEffect,
    ApplicativeEffect,
};
use crate::typeclasses::functor::{Functor, Functor2, Functor2Effect, FunctorEffect};
use crate::typeclasses::monad::{Foldable, FoldableEffect, Monad, MonadEffect};
use crate::typeclasses::monaderror::{MonadError, MonadErrorEffect};
use crate::typeclasses::monoid::{Monoid, MonoidEffect};
use crate::typeclasses::product::{Productable, ProductableEffect};
use crate::typeclasses::semigroup::{Semigroup, SemigroupEffect, SemigroupInner};
use crate::typeclasses::synct::SyncT;
use crate::typeclasses::traverse::Traversed;

verus! {

/// A computation of an `X` that may fail with an `E` and runs only when asked.
#[verifier::reject_recursive_types(X)]
#[verifier::reject_recursive_types(E)]
pub struct IO<'a, X, E> {
    pub fut: ConcreteFutureResult<'a, X, E>,
}

impl<'a, X, E> IO<'a, X, E> where X: 'a + Send + Sync, E: 'a + Send + Sync {
    /// Whether running this computation may end in `r`.
    pub open spec fn yields(self, r: Result<X, E>) -> bool {
        self.fut.yields(r)
    }

    /// Whether every outcome that running this computation may end in
    /// satisfies `p`.
    pub open spec fn always(self, p: spec_fn(Result<X, E>) -> bool) -> bool {
        forall|r: Result<X, E>| #[trigger] self.yields(r) ==> p(r)
    }

    /// An IO that calls `func` when it is run, and not before, and succeeds
    /// with what `func` returned.
    pub fn apply(func: impl 'a + FnOnce() -> X + Send + Sync) -> (out: IO<'a, X, E>)
        requires
            func.requires(()),
        ensures
            out.always(|r: Result<X, E>| r is Ok && func.ensures((), r->Ok_0)),
    {
        let ghost post = |x: X| func.ensures((), x);
        let wrapped = move || -> (r: Result<X, E>)
            ensures
                r is Ok && post(r->Ok_0),
            { Ok(func()) };
        let inner = lazy_future(wrapped);
        let out = IO { fut: ConcreteFutureResult { inner } };
        proof {
            assert forall|r: Result<X, E>| #[trigger] out.yields(r) implies r is Ok
                && func.ensures((), r->Ok_0) by {
                assert(inner.yields(r));
                assert(wrapped.ensures((), r));
            }
        }
        out
    }

    /// An IO that calls `func` when it is run, and not before, and then runs
    /// the IO that `func` built. It ends only as an IO that `func` can build
    /// ends.
    pub fn lazy(func: impl 'a + FnOnce() -> IO<'a, X, E> + Send + Sync) -> (out: IO<'a, X, E>)
        requires
            func.requires(()),
        ensures
            out.always(
                |r: Result<X, E>|
                    exists|made: IO<'a, X, E>| #[trigger] func.ensures((), made) && made.yields(r),
            ),
    {
        let ghost post = |made: IO<'a, X, E>| func.ensures((), made);
        let start = lazy_future(|| ());
        let run = move |_unit: ()| -> (next: ConcreteFuture<'a, Result<X, E>>)
            ensures
                forall|r: Result<X, E>| #[trigger]
                    next.yields(r) ==> exists|made: IO<'a, X, E>| #[trigger]
                        post(made) && made.yields(r),
            {
                let made = func();
                proof {
                    assert forall|r: Result<X, E>| #[trigger]
                        made.fut.inner.yields(r) implies exists|m: IO<'a, X, E>| #[trigger]
                        post(m) && m.yields(r) by {
                        assert(post(made) && made.yields(r));
                    }
                }
                made.fut.inner
            };
        let inner = chain_future(start, run);
        let out = IO { fut: ConcreteFutureResult { inner } };
        proof {
            assert forall|r: Result<X, E>| #[trigger] out.yields(r) implies exists|
                made: IO<'a, X, E>,
            | #[trigger] func.ensures((), made) && made.yields(r) by {
                let (u, next) = choose|u: (), next: ConcreteFuture<'a, Result<X, E>>|
                    start.yields(u) && #[trigger] run.ensures((u,), next) && next.yields(r);
                let made = choose|made: IO<'a, X, E>| #[trigger] post(made) && made.yields(r);
                assert(func.ensures((), made) && made.yields(r));
            }
        }
        out
    }

    /// The IO that owns `fut`.
    pub fn new(fut: ConcreteFutureResult<'a, X, E>) -> (out: IO<'a, X, E>)
        ensures
            out.fut == fut,
    {
        IO { fut }
    }
}

/// The payload of the outcome of a computation that has been run to its end,
/// for callers without an error channel: the outcome must be a success.
pub fn unwrap_outcome<X, E>(r: Result<X, E>) -> (out: X)
    requires
        r is Ok,
    ensures
        r == Ok::<X, E>(out),
{
    match r {
        Ok(x) => x,
        Err(_) => unreached(),
    }
}

impl<'a, X, E> F<X> for IO<'a, X, E> where X: 'a + Send + Sync, E: 'a + Send + Sync {

}

impl<'a, E, X, X2, XR> SemigroupEffect<IO<'a, X, E>, IO<'a, X2, E>, IO<'a, XR, E>> for IO<
    'a,
    X,
    E,
> where
    X: 'a + SemigroupEffect<X, X2, XR> + Send + Sync,
    X2: 'a + Send + Sync,
    XR: 'a + Send + Sync,
    E: 'a + Send + Sync,
 {
    type Fct = IoEffect<'a, E, X, X2, XR>;
}

impl<'a, X, E> MonoidEffect<IO<'a, X, E>> for IO<'a, X, E> where
    X: 'a + Send + Sync + MonoidEffect<X>,
    E: 'a + Send + Sync,
 {
    type Fct = IoEffect<'a, E, X, (), ()>;
}

impl<'a, X, E> ApplicativeEffect<'a> for IO<'a, X, E> where
    X: 'a + Send + Sync,
    E: 'a + Send + Sync,
 {
    type X = X;

    type Fct = IoEffect<'a, E, X, (), ()>;
}

impl<'a, M, E, X, Y> ApplicativeApplyEffect<'a, M, X, Y> for IO<'a, X, E> where
    X: 'a + Send + Sync,
    Y: 'a + Send + Sync,
    E: 'a + Send + Sync,
    M: 'a + Fn(X) -> Y + Send + Sync,
 {
    type FM = IO<'a, M, E>;

    type FX = IO<'a, X, E>;

    type FY = IO<'a, Y, E>;

    type Fct = IoEffect<'a, E, X, Y, ()>;
}

impl<'a, E, X, Y> FunctorEffect<'a, X, Y> for IO<'a, X, E> where
    X: 'a + Send + Sync,
    Y: 'a + Send + Sync,
    E: 'a + Send + Sync,
 {
    type FX = IO<'a, X, E>;

    type FY = IO<'a, Y, E>;

    type Fct = IoEffect<'a, E, X, Y, ()>;
}

impl<'a, E, X, Y, Z> Functor2Effect<'a, X, Y, Z> for IO<'a, X, E> where
    X: 'a + Send + Sync,
    Y: 'a + Send + Sync,
    Z: 'a + Send + Sync,
    E: 'a + Send + Sync,
 {
    type FX = IO<'a, X, E>;

    type FY = IO<'a, Y, E>;

    type FZ = IO<'a, Z, E>;

    type Fct = IoEffect<'a, E, X, Y, Z>;
}

impl<'a, E, X, Y> MonadEffect<'a, X, Y> for IO<'a, X, E> where
    X: 'a + Send + Sync,
    Y: 'a + Send + Sync,
    E: 'a + Send + Sync,
 {
    type FX = IO<'a, X, E>;

    type FY = IO<'a, Y, E>;

    type Fct = IoEffect<'a, E, X, Y, ()>;
}

impl<'a, E, X> MonadErrorEffect<'a, X> for IO<'a, X, E> where
    X: 'a + Send + Sync,
    E: 'a + Send + Sync,
 {
    type E = E;

    type Fct = IoEffect<'a, E, X, (), ()>;
}

impl<'a, E, X, Y> FoldableEffect<'a, X, Y, IO<'a, Y, E>> for IO<'a, X, E> where
    X: 'a + Send + Sync,
    Y: 'a + Send + Sync,
    E: 'a + Send + Sync,
 {
    type FX = IO<'a, X, E>;

    type Fct = IoEffect<'a, E, X, Y, ()>;
}

impl<'a, E, X, Y> ProductableEffect<'a, X, Y> for IO<'a, X, E> where
    X: 'a + Send + Sync,
    Y: 'a + Send + Sync,
    E: 'a + Send + Sync,
 {
    type FX = IO<'a, X, E>;

    type FY = IO<'a, Y, E>;

    type FZ = IO<'a, (X, Y), E>;

    type Fct = IoEffect<'a, E, X, Y, (X, Y)>;
}

impl<'a, Y, E> Traversed<'a, Y> for IO<'a, Y, E> where Y: 'a + Send + Sync, E: 'a + Send + Sync {
    type Gathered = IO<'a, Vec<Y>, E>;

    open spec fn seen_failed(acc: IO<'a, Vec<Y>, E>) -> bool {
        false
    }

    fn has_failed(_acc: &IO<'a, Vec<Y>, E>) -> (b: bool) {
        false
    }
}

/// The outcome of sequencing: for a success, an outcome of an IO that `post`
/// relates to it; a failure is kept.
pub open spec fn sequenced<'a, X, Y, E>(
    from: Result<X, E>,
    post: spec_fn(X, IO<'a, Y, E>) -> bool,
    to: Result<Y, E>,
) -> bool where X: 'a + Send + Sync, Y: 'a + Send + Sync, E: 'a + Send + Sync {
    match from {
        Ok(x) => exists|mid: IO<'a, Y, E>| #[trigger] post(x, mid) && mid.yields(to),
        Err(e) => to == Err::<Y, E>(e),
    }
}

/// The outcome of recovering: a success is kept; for a failure, an outcome of
/// an IO that `post` relates to its error.
pub open spec fn recovered<'a, X, E>(
    from: Result<X, E>,
    post: spec_fn(E, IO<'a, X, E>) -> bool,
    to: Result<X, E>,
) -> bool where X: 'a + Send + Sync, E: 'a + Send + Sync {
    match from {
        Ok(x) => to == Ok::<X, E>(x),
        Err(e) => exists|mid: IO<'a, X, E>| #[trigger] post(e, mid) && mid.yields(to),
    }
}

/// The witness for IO values that may fail with an `E`. It holds nothing; its
/// other parameters name the payload types of the operation it is used for.
#[derive(Debug)]
pub struct IoEffect<'a, E, X = (), Y = (), Z = ()> {
    _p: PhantomData<&'a ()>,
    _a: PhantomData<X>,
    _b: PhantomData<Y>,
    _c: PhantomData<Z>,
    _e: PhantomData<E>,
}

impl<'a, E, X, Y, Z> IoEffect<'a, E, X, Y, Z> where X: 'a + Send + Sync, E: 'a + Send + Sync {
    /// The witness; the argument only fixes the last type parameter.
    pub fn apply(_z: Z) -> IoEffect<'a, E, X, Y, Z> {
        IoEffect {
            _p: PhantomData,
            _a: PhantomData,
            _b: PhantomData,
            _c: PhantomData,
            _e: PhantomData,
        }
    }

    /// What sequencing does with one outcome: on a success it calls `func` and
    /// hands on the IO that `func` returned; on a failure it hands on an IO
    /// that has failed with the same error, and `func` is not called.
    pub fn flat_map_step<Func>(r: Result<X, E>, func: Func) -> (mid: IO<'a, Y, E>) where
        Y: 'a + Send + Sync,
        Func: FnOnce(X) -> IO<'a, Y, E>,

        requires
            r is Ok ==> func.requires((r->Ok_0,)),
        ensures
            match r {
                Ok(x) => func.ensures((x,), mid),
                Err(e) => forall|v: Result<Y, E>| mid.yields(v) <==> v == Err::<Y, E>(e),
            },
    {
        match r {
            Ok(x) => func(x),
            Err(e) => IO {
                fut: <FutureResultEffect<'a, E, Y, (), ()> as MonadError<'a>>::raise_error(e),
            },
        }
    }

    /// What recovering does with one outcome: a success is handed on as it is,
    /// and `recovery` is not called; on a failure it calls `recovery` on the
    /// error and hands on the IO that `recovery` returned.
    pub fn handle_error_step<Func>(r: Result<X, E>, recovery: Func) -> (mid: IO<'a, X, E>) where
        Func: FnOnce(E) -> IO<'a, X, E>,

        requires
            r is Err ==> recovery.requires((r->Err_0,)),
        ensures
            match r {
                Ok(x) => forall|v: Result<X, E>| mid.yields(v) <==> v == Ok::<X, E>(x),
                Err(e) => recovery.ensures((e,), mid),
            },
    {
        match r {
            Ok(x) => IO {
                fut: <FutureResultEffect<'a, E, X, (), ()> as Applicative<'a>>::pure(x),
            },
            Err(e) => recovery(e),
        }
    }
}

impl<'a, E, X, Y, Z> Clone for IoEffect<'a, E, X, Y, Z> {
    fn clone(&self) -> Self {
        IoEffect {
            _p: PhantomData,
            _a: PhantomData,
            _b: PhantomData,
            _c: PhantomData,
            _e: PhantomData,
        }
    }
}

impl<'a, E, X, Y, Z> Effect for IoEffect<'a, E, X, Y, Z> {

}

impl<'a, E, X, Y, Z> Monoid for IoEffect<'a, E, X, Y, Z> where
    X: 'a + MonoidEffect<X> + Sync + Send,
    E: 'a + Sync + Send,
 {
    type Output = IO<'a, X, E>;

    open spec fn empty_ensures(out: IO<'a, X, E>) -> bool {
        FutureResultEffect::<'a, E, X, Y, Z>::empty_ensures(out.fut)
    }

    fn empty() -> (out: IO<'a, X, E>) {
        IO::new(FutureResultEffect::<'a, E, X, Y, Z>::empty())
    }
}

impl<'a, X1, X2, R, E> Semigroup<IO<'a, X1, E>, IO<'a, X2, E>, IO<'a, R, E>> for IoEffect<
    'a,
    E,
    X1,
    X2,
    R,
> where
    X1: SemigroupEffect<X1, X2, R> + 'a + Send + Sync,
    X2: 'a + Send + Sync,
    R: 'a + Send + Sync,
    E: 'a + Send + Sync,
 {
    open spec fn combine_requires(a: IO<'a, X1, E>, b: IO<'a, X2, E>) -> bool {
        FutureResultEffect::<'a, E, X1, X2, R>::combine_requires(a.fut, b.fut)
    }

    open spec fn combine_ensures(a: IO<'a, X1, E>, b: IO<'a, X2, E>, out: IO<'a, R, E>) -> bool {
        FutureResultEffect::<'a, E, X1, X2, R>::combine_ensures(a.fut, b.fut, out.fut)
    }

    fn combine(a: IO<'a, X1, E>, b: IO<'a, X2, E>) -> (out: IO<'a, R, E>) {
        IO::new(FutureResultEffect::<'a, E, X1, X2, R>::combine(a.fut, b.fut))
    }
}

impl<'a, E, X> SemigroupInner<'a, IO<'a, X, E>, X> for IoEffect<'a, E, X, X, X> where
    X: 'a + Send + Sync,
    E: 'a + Send + Sync,
 {
    open spec fn combine_inner_requires(
        a: IO<'a, X, E>,
        b: IO<'a, X, E>,
        pre: spec_fn(X, X) -> bool,
    ) -> bool {
        FutureResultEffect::<'a, E, X, X, X>::combine_inner_requires(a.fut, b.fut, pre)
    }

    open spec fn combine_inner_ensures(
        a: IO<'a, X, E>,
        b: IO<'a, X, E>,
        post: spec_fn(X, X, X) -> bool,
        out: IO<'a, X, E>,
    ) -> bool {
        FutureResultEffect::<'a, E, X, X, X>::combine_inner_ensures(a.fut, b.fut, post, out.fut)
    }

    fn combine_inner<TO>(a: IO<'a, X, E>, b: IO<'a, X, E>) -> (out: IO<'a, X, E>) where
        TO: 'a + Semigroup<X, X, X>,
     {
        IO::new(FutureResultEffect::<'a, E, X, X, X>::combine_inner::<TO>(a.fut, b.fut))
    }
}

impl<'a, E, X, Y, Z> Functor<'a> for IoEffect<'a, E, X, Y, Z> where
    X: 'a + Send + Sync,
    Y: 'a + Send + Sync,
    E: 'a + Send + Sync,
 {
    type X = X;

    type Y = Y;

    type FX = IO<'a, X, E>;

    type FY = IO<'a, Y, E>;

    open spec fn fmap_requires(f: IO<'a, X, E>, pre: spec_fn(X) -> bool) -> bool {
        FutureResultEffect::<'a, E, X, Y, Z>::fmap_requires(f.fut, pre)
    }

    open spec fn fmap_ensures(
        f: IO<'a, X, E>,
        post: spec_fn(X, Y) -> bool,
        out: IO<'a, Y, E>,
    ) -> bool {
        FutureResultEffect::<'a, E, X, Y, Z>::fmap_ensures(f.fut, post, out.fut)
    }

    proof fn fmap_ensures_weaken(
        f: IO<'a, X, E>,
        p: spec_fn(X, Y) -> bool,
        q: spec_fn(X, Y) -> bool,
        out: IO<'a, Y, E>,
    ) {
        FutureResultEffect::<'a, E, X, Y, Z>::fmap_ensures_weaken(f.fut, p, q, out.fut);
    }

    fn fmap<Func: 'a + Fn(X) -> Y + Send + Sync>(f: IO<'a, X, E>, func: Func) -> (out: IO<
        'a,
        Y,
        E,
    >) {
        IO::new(FutureResultEffect::<'a, E, X, Y, Z>::fmap(f.fut, func))
    }
}

impl<'a, E, X, Y, Z> Applicative<'a> for IoEffect<'a, E, X, Y, Z> where
    X: 'a + Send + Sync,
    Y: 'a + Send + Sync,
    Z: 'a + Send + Sync,
    E: 'a + Send + Sync,
 {
    open spec fn pure_ensures(x: X, out: IO<'a, X, E>) -> bool {
        FutureResultEffect::<'a, E, X, Y, Z>::pure_ensures(x, out.fut)
    }

    fn pure(x: X) -> (out: IO<'a, X, E>) {
        IO::new(FutureResultEffect::<'a, E, X, Y, Z>::pure(x))
    }
}

impl<'a, E, X, Y, Z, M> ApplicativeApply<'a, M> for IoEffect<'a, E, X, Y, Z> where
    X: 'a + Send + Sync,
    Y: 'a + Send + Sync,
    Z: 'a + Send + Sync,
    E: 'a + Send + Sync,
    M: 'a + Fn(X) -> Y + Send + Sync,
 {
    type FMapper = IO<'a, M, E>;

    open spec fn apply_requires(func: IO<'a, M, E>, x: IO<'a, X, E>) -> bool {
        <FutureResultEffect<'a, E, X, Y, Z> as ApplicativeApply<'a, M>>::apply_requires(
            func.fut,
            x.fut,
        )
    }

    open spec fn apply_ensures(func: IO<'a, M, E>, x: IO<'a, X, E>, out: IO<'a, Y, E>) -> bool {
        <FutureResultEffect<'a, E, X, Y, Z> as ApplicativeApply<'a, M>>::apply_ensures(
            func.fut,
            x.fut,
            out.fut,
        )
    }

    fn apply(func: IO<'a, M, E>, x: IO<'a, X, E>) -> (out: IO<'a, Y, E>) {
        IO::new(
            <FutureResultEffect<'a, E, X, Y, Z> as ApplicativeApply<'a, M>>::apply(
                func.fut,
                x.fut,
            ),
        )
    }
}

impl<'a, E, X, Y, Z> Functor2<'a> for IoEffect<'a, E, X, Y, Z> where
    X: 'a + Send + Sync,
    Y: 'a + Send + Sync,
    Z: 'a + Send + Sync,
    E: 'a + Send + Sync,
 {
    type Z = Z;

    type FZ = IO<'a, Z, E>;

    open spec fn fmap2_requires(
        fa: IO<'a, X, E>,
        fb: IO<'a, Y, E>,
        pre: spec_fn(X, Y) -> bool,
    ) -> bool {
        FutureResultEffect::<'a, E, X, Y, Z>::fmap2_requires(fa.fut, fb.fut, pre)
    }

    open spec fn fmap2_ensures(
        fa: IO<'a, X, E>,
        fb: IO<'a, Y, E>,
        post: spec_fn(X, Y, Z) -> bool,
        out: IO<'a, Z, E>,
    ) -> bool {
        FutureResultEffect::<'a, E, X, Y, Z>::fmap2_ensures(fa.fut, fb.fut, post, out.fut)
    }

    proof fn fmap2_requires_total(fa: IO<'a, X, E>, fb: IO<'a, Y, E>, pre: spec_fn(X, Y) -> bool) {
        FutureResultEffect::<'a, E, X, Y, Z>::fmap2_requires_total(fa.fut, fb.fut, pre);
    }

    proof fn fmap2_ensures_weaken(
        fa: IO<'a, X, E>,
        fb: IO<'a, Y, E>,
        p: spec_fn(X, Y, Z) -> bool,
        q: spec_fn(X, Y, Z) -> bool,
        out: IO<'a, Z, E>,
    ) {
        FutureResultEffect::<'a, E, X, Y, Z>::fmap2_ensures_weaken(fa.fut, fb.fut, p, q, out.fut);
    }

    fn fmap2<Func: 'a + Fn(X, Y) -> Z + Send + Sync>(
        fa: IO<'a, X, E>,
        fb: IO<'a, Y, E>,
        func: Func,
    ) -> (out: IO<'a, Z, E>) {
        IO::new(FutureResultEffect::<'a, E, X, Y, Z>::fmap2(fa.fut, fb.fut, func))
    }
}

impl<'a, E, X, Y, Z> Monad<'a> for IoEffect<'a, E, X, Y, Z> where
    X: 'a + Send + Sync,
    Y: 'a + Send + Sync,
    Z: 'a + Send + Sync,
    E: 'a + Send + Sync,
 {
    open spec fn flat_map_requires(f: IO<'a, X, E>, pre: spec_fn(X) -> bool) -> bool {
        forall|x: X| #[trigger] f.yields(Ok(x)) ==> pre(x)
    }

    open spec fn flat_map_ensures(
        f: IO<'a, X, E>,
        post: spec_fn(X, IO<'a, Y, E>) -> bool,
        out: IO<'a, Y, E>,
    ) -> bool {
        out.always(
            |r: Result<Y, E>|
                exists|from: Result<X, E>| #[trigger] f.yields(from) && sequenced(from, post, r),
        )
    }

    proof fn flat_map_ensures_weaken(
        f: IO<'a, X, E>,
        p: spec_fn(X, IO<'a, Y, E>) -> bool,
        q: spec_fn(X, IO<'a, Y, E>) -> bool,
        out: IO<'a, Y, E>,
    ) {
        assert forall|r: Result<Y, E>| #[trigger] out.yields(r) implies exists|
            from: Result<X, E>,
        | #[trigger] f.yields(from) && sequenced(from, q, r) by {
            let from = choose|from: Result<X, E>| #[trigger]
                f.yields(from) && sequenced(from, p, r);
            if from is Ok {
                let mid = choose|mid: IO<'a, Y, E>| #[trigger] p(from->Ok_0, mid) && mid.yields(r);
                assert(q(from->Ok_0, mid));
            }
            assert(sequenced(from, q, r));
        }
    }

    fn flat_map<Func: 'a + Fn(X) -> IO<'a, Y, E> + Send + Sync>(
        f: IO<'a, X, E>,
        func: Func,
    ) -> (out: IO<'a, Y, E>) {
        let ghost pre = |x: X| func.requires((x,));
        let ghost post = |x: X, mid: IO<'a, Y, E>| func.ensures((x,), mid);
        let on_outcome = move |from: Result<X, E>| -> (next: ConcreteFuture<'a, Result<Y, E>>)
            requires
                from is Ok ==> pre(from->Ok_0),
            ensures
                forall|r: Result<Y, E>| #[trigger] next.yields(r) ==> sequenced(from, post, r),
            {
                let mid = Self::flat_map_step(from, func);
                proof {
                    assert forall|r: Result<Y, E>| #[trigger]
                        mid.fut.inner.yields(r) implies sequenced(from, post, r) by {
                        assert(mid.yields(r));
                        if from is Ok {
                            assert(post(from->Ok_0, mid));
                        }
                    }
                }
                mid.fut.inner
            };
        proof {
            assert forall|from: Result<X, E>| #[trigger]
                f.fut.inner.yields(from) implies on_outcome.requires((from,)) by {
                match from {
                    Ok(x) => {
                        assert(f.yields(Ok(x)));
                    },
                    Err(e) => {
                        assert(f.yields(Err(e)));
                    },
                }
            }
        }
        let inner = chain_future(f.fut.inner, on_outcome);
        let out = IO { fut: ConcreteFutureResult { inner } };
        proof {
            assert forall|r: Result<Y, E>| #[trigger] out.yields(r) implies exists|
                from: Result<X, E>,
            |
                #[trigger] f.yields(from) && sequenced(from, post, r) by {
                let (from, next) = choose|
                    from: Result<X, E>,
                    next: ConcreteFuture<'a, Result<Y, E>>,
                |
                    f.fut.inner.yields(from) && #[trigger] on_outcome.ensures((from,), next)
                        && next.yields(r);
                assert(f.yields(from));
                assert(sequenced(from, post, r));
            }
        }
        out
    }
}

impl<'a, E, X, Y, Z> Foldable<'a> for IoEffect<'a, E, X, Y, Z> where
    X: 'a + Send + Sync,
    Y: 'a + Send + Sync,
    Z: 'a + Send + Sync,
    E: 'a + Send + Sync,
 {
    type Y2 = IO<'a, Y, E>;

    open spec fn fold_requires(
        f: IO<'a, X, E>,
        init: Y,
        pre: spec_fn(Y, X) -> bool,
        post: spec_fn(Y, X, Y) -> bool,
    ) -> bool {
        FutureResultEffect::<'a, E, X, Y, Z>::fold_requires(f.fut, init, pre, post)
    }

    open spec fn fold_ensures(
        f: IO<'a, X, E>,
        init: Y,
        post: spec_fn(Y, X, Y) -> bool,
        out: IO<'a, Y, E>,
    ) -> bool {
        FutureResultEffect::<'a, E, X, Y, Z>::fold_ensures(f.fut, init, post, out.fut)
    }

    proof fn fold_ensures_weaken(
        f: IO<'a, X, E>,
        init: Y,
        p: spec_fn(Y, X, Y) -> bool,
        q: spec_fn(Y, X, Y) -> bool,
        out: IO<'a, Y, E>,
    ) {
        FutureResultEffect::<'a, E, X, Y, Z>::fold_ensures_weaken(f.fut, init, p, q, out.fut);
    }

    fn fold<Func: 'a + Fn(Y, X) -> Y + Send + Sync>(f: IO<'a, X, E>, init: Y, func: Func) -> (out:
        IO<'a, Y, E>) {
        IO::new(FutureResultEffect::<'a, E, X, Y, Z>::fold(f.fut, init, func))
    }
}

impl<'a, E, X, Y, Z> MonadError<'a> for IoEffect<'a, E, X, Y, Z> where
    X: 'a + Send + Sync,
    Y: 'a + Send + Sync,
    Z: 'a + Send + Sync,
    E: 'a + Send + Sync,
 {
    type E = E;

    open spec fn raise_error_ensures(err: E, out: IO<'a, X, E>) -> bool {
        FutureResultEffect::<'a, E, X, Y, Z>::raise_error_ensures(err, out.fut)
    }

    open spec fn handle_error_requires(f: IO<'a, X, E>, pre: spec_fn(E) -> bool) -> bool {
        forall|e: E| #[trigger] f.yields(Err(e)) ==> pre(e)
    }

    open spec fn handle_error_ensures(
        f: IO<'a, X, E>,
        post: spec_fn(E, IO<'a, X, E>) -> bool,
        out: IO<'a, X, E>,
    ) -> bool {
        out.always(
            |r: Result<X, E>|
                exists|from: Result<X, E>| #[trigger] f.yields(from) && recovered(from, post, r),
        )
    }

    fn raise_error(err: E) -> (out: IO<'a, X, E>) {
        IO::new(FutureResultEffect::<'a, E, X, Y, Z>::raise_error(err))
    }

    proof fn handle_error_ensures_weaken(
        f: IO<'a, X, E>,
        p: spec_fn(E, IO<'a, X, E>) -> bool,
        q: spec_fn(E, IO<'a, X, E>) -> bool,
        out: IO<'a, X, E>,
    ) {
        assert forall|r: Result<X, E>| #[trigger] out.yields(r) implies exists|
            from: Result<X, E>,
        | #[trigger] f.yields(from) && recovered(from, q, r) by {
            let from = choose|from: Result<X, E>| #[trigger]
                f.yields(from) && recovered(from, p, r);
            if from is Err {
                let mid = choose|mid: IO<'a, X, E>| #[trigger]
                    p(from->Err_0, mid) && mid.yields(r);
                assert(q(from->Err_0, mid));
            }
            assert(recovered(from, q, r));
        }
    }

    fn handle_error<Func: 'a + Send + Sync + Fn(E) -> IO<'a, X, E>>(
        f: IO<'a, X, E>,
        recovery: Func,
    ) -> (out: IO<'a, X, E>) {
        let ghost pre = |e: E| recovery.requires((e,));
        let ghost post = |e: E, mid: IO<'a, X, E>| recovery.ensures((e,), mid);
        let on_outcome = move |from: Result<X, E>| -> (next: ConcreteFuture<'a, Result<X, E>>)
            requires
                from is Err ==> pre(from->Err_0),
            ensures
                forall|r: Result<X, E>| #[trigger] next.yields(r) ==> recovered(from, post, r),
            {
                let mid = Self::handle_error_step(from, recovery);
                proof {
                    assert forall|r: Result<X, E>| #[trigger]
                        mid.fut.inner.yields(r) implies recovered(from, post, r) by {
                        assert(mid.yields(r));
                        if from is Err {
                            assert(post(from->Err_0, mid));
                        }
                    }
                }
                mid.fut.inner
            };
        proof {
            assert forall|from: Result<X, E>| #[trigger]
                f.fut.inner.yields(from) implies on_outcome.requires((from,)) by {
                match from {
                    Ok(x) => {
                        assert(f.yields(Ok(x)));
                    },
                    Err(e) => {
                        assert(f.yields(Err(e)));
                    },
                }
            }
        }
        let inner = chain_future(f.fut.inner, on_outcome);
        let out = IO { fut: ConcreteFutureResult { inner } };
        proof {
            assert forall|r: Result<X, E>| #[trigger] out.yields(r) implies exists|
                from: Result<X, E>,
            |
                #[trigger] f.yields(from) && recovered(from, post, r) by {
                let (from, next) = choose|
                    from: Result<X, E>,
                    next: ConcreteFuture<'a, Result<X, E>>,
                |
                    f.fut.inner.yields(from) && #[trigger] on_outcome.ensures((from,), next)
                        && next.yields(r);
                assert(f.yields(from));
                assert(recovered(from, post, r));
            }
        }
        out
    }
}

impl<'a, E, X, Y> Productable<'a> for IoEffect<'a, E, X, Y, (X, Y)> where
    E: 'a + Send + Sync,
    X: 'a + Send + Sync,
    Y: 'a + Send + Sync,
 {

}

impl<'a, E, X, Y, Z> SyncT<'a> for IoEffect<'a, E, X, Y, Z> where
    X: 'a + Send + Sync,
    Y: 'a + Send + Sync,
    Z: 'a + Send + Sync,
    E: 'a + Send + Sync,
 {
    open spec fn suspend_ensures(post: spec_fn(IO<'a, X, E>) -> bool, out: IO<'a, X, E>) -> bool {
        out.always(|r: Result<X, E>| exists|made: IO<'a, X, E>| #[trigger] post(made) && made.yields(r))
    }

    proof fn suspend_ensures_weaken(
        p: spec_fn(IO<'a, X, E>) -> bool,
        q: spec_fn(IO<'a, X, E>) -> bool,
        out: IO<'a, X, E>,
    ) {
        assert forall|r: Result<X, E>| #[trigger] out.yields(r) implies exists|
            made: IO<'a, X, E>,
        | #[trigger] q(made) && made.yields(r) by {
            let made = choose|made: IO<'a, X, E>| #[trigger] p(made) && made.yields(r);
            assert(q(made));
        }
    }

    fn suspend<Func: 'a + Fn() -> IO<'a, X, E> + Send + Sync>(thunk: Func) -> (out: IO<'a, X, E>) {
        let ghost post = |made: IO<'a, X, E>| thunk.ensures((), made);
        let start: IO<'a, (), E> = IO::apply(|| ());
        let run = move |_unit: ()| -> (made: IO<'a, X, E>)
            ensures
                call_ensures(&thunk, (), made),
            { thunk() };
        let ghost run_post = |u: (), made: IO<'a, X, E>| run.ensures((u,), made);
        let out = <IoEffect<'a, E, (), X, ()> as Monad<'a>>::flat_map(start, run);
        proof {
            assert forall|r: Result<X, E>| #[trigger] out.yields(r) implies exists|
                made: IO<'a, X, E>,
            | #[trigger] post(made) && made.yields(r) by {
                let from = choose|from: Result<(), E>| #[trigger]
                    start.yields(from) && sequenced(from, run_post, r);
                assert(from is Ok);
                let made = choose|made: IO<'a, X, E>| #[trigger]
                    run_post(from->Ok_0, made) && made.yields(r);
                assert(post(made));
            }
        }
        out
    }
}

} // verus!
