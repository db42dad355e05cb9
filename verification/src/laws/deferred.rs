//! Laws of the deferred computations. A deferred computation is known by the
//! outcomes that driving it may yield, so a law says that every outcome of one
//! side is an outcome that the other side allows.

use vstd::prelude::*;
use crate::effects::io::{IoEffect, IO};
use crate::future::{ConcreteFuture, FutureEffect};
use crate::futureresult::{mapped, recovered, sequenced, ConcreteFutureResult, FutureResultEffect};
use crate::typeclasses::applicative::Applicative;
use crate::typeclasses::functor::Functor;
use crate::typeclasses::monad::Monad;
use crate::typeclasses::monaderror::MonadError;

verus! {

/// The relation of doing `p` and then `q`.
pub open spec fn and_then<X, Y, Z>(
    p: spec_fn(X, Y) -> bool,
    q: spec_fn(Y, Z) -> bool,
) -> spec_fn(X, Z) -> bool {
    |x: X, z: Z| exists|y: Y| #[trigger] p(x, y) && q(y, z)
}

/// Functor identity for the plain deferred computation: what the mapped
/// computation yields, the given one yields.
pub proof fn lemma_future_fmap_identity<'a, X>(c: ConcreteFuture<'a, X>, out: ConcreteFuture<'a, X>)
    where X: 'a + Send + Sync
    requires
        <FutureEffect<'a, X, X, ()> as Functor<'a>>::fmap_ensures(c, |x: X, y: X| y == x, out),
    ensures
        out.always(|v: X| c.yields(v)),
{
    let same = |x: X, y: X| y == x;
    assert forall|v: X| #[trigger] out.yields(v) implies c.yields(v) by {
        let x = choose|x: X| c.yields(x) && #[trigger] same(x, v);
        assert(same(x, v));
    }
}

/// Functor composition for the plain deferred computation: mapping with `p`
/// and then with `q` yields only what mapping once with `p` and then `q`
/// allows.
pub proof fn lemma_future_fmap_composition<'a, X, Y, Z>(
    c: ConcreteFuture<'a, X>,
    p: spec_fn(X, Y) -> bool,
    q: spec_fn(Y, Z) -> bool,
    mid: ConcreteFuture<'a, Y>,
    out: ConcreteFuture<'a, Z>,
) where X: 'a + Send + Sync, Y: 'a + Send + Sync, Z: 'a + Send + Sync
    requires
        <FutureEffect<'a, X, Y, ()> as Functor<'a>>::fmap_ensures(c, p, mid),
        <FutureEffect<'a, Y, Z, ()> as Functor<'a>>::fmap_ensures(mid, q, out),
    ensures
        <FutureEffect<'a, X, Z, ()> as Functor<'a>>::fmap_ensures(c, and_then(p, q), out),
{
    let pq = and_then(p, q);
    assert forall|z: Z| #[trigger] out.yields(z) implies exists|x: X|
        c.yields(x) && #[trigger] pq(x, z) by {
        let y = choose|y: Y| mid.yields(y) && #[trigger] q(y, z);
        let x = choose|x: X| c.yields(x) && #[trigger] p(x, y);
        assert(p(x, y) && q(y, z));
        assert(pq(x, z));
    }
}

/// Monad left identity for the plain deferred computation: sequencing
/// `pure(x)` yields only what a computation given for `x` yields.
pub proof fn lemma_future_flat_map_left_identity<'a, X, Y>(
    x: X,
    post: spec_fn(X, ConcreteFuture<'a, Y>) -> bool,
    c: ConcreteFuture<'a, X>,
    out: ConcreteFuture<'a, Y>,
) where X: 'a + Send + Sync, Y: 'a + Send + Sync
    requires
        <FutureEffect<'a, X, Y, ()> as Applicative<'a>>::pure_ensures(x, c),
        <FutureEffect<'a, X, Y, ()> as Monad<'a>>::flat_map_ensures(c, post, out),
    ensures
        out.always(|v: Y| exists|mid: ConcreteFuture<'a, Y>| #[trigger] post(x, mid) && mid.yields(v)),
{
    assert forall|v: Y| #[trigger] out.yields(v) implies exists|mid: ConcreteFuture<'a, Y>| #[trigger]
        post(x, mid) && mid.yields(v) by {
        let (a, mid) = choose|a: X, mid: ConcreteFuture<'a, Y>|
            c.yields(a) && #[trigger] post(a, mid) && mid.yields(v);
        assert(a == x);
        assert(post(x, mid) && mid.yields(v));
    }
}

/// Monad right identity for the plain deferred computation: sequencing with
/// `pure` yields only what the given one yields.
pub proof fn lemma_future_flat_map_right_identity<'a, X>(
    c: ConcreteFuture<'a, X>,
    out: ConcreteFuture<'a, X>,
) where X: 'a + Send + Sync
    requires
        <FutureEffect<'a, X, X, ()> as Monad<'a>>::flat_map_ensures(
            c,
            |a: X, fa: ConcreteFuture<'a, X>|
                <FutureEffect<'a, X, X, ()> as Applicative<'a>>::pure_ensures(a, fa),
            out,
        ),
    ensures
        out.always(|v: X| c.yields(v)),
{
    let wrap = |a: X, fa: ConcreteFuture<'a, X>|
        <FutureEffect<'a, X, X, ()> as Applicative<'a>>::pure_ensures(a, fa);
    assert forall|v: X| #[trigger] out.yields(v) implies c.yields(v) by {
        let (a, mid) = choose|a: X, mid: ConcreteFuture<'a, X>|
            c.yields(a) && #[trigger] wrap(a, mid) && mid.yields(v);
        assert(v == a);
    }
}

/// What both ways of sequencing a plain deferred computation with `p` and
/// then `q` can yield: an outcome of a computation that `q` gives for an
/// outcome of a computation that `p` gives for an outcome of the given one.
pub open spec fn future_chain<'a, X, Y, Z>(
    c: ConcreteFuture<'a, X>,
    p: spec_fn(X, ConcreteFuture<'a, Y>) -> bool,
    q: spec_fn(Y, ConcreteFuture<'a, Z>) -> bool,
    z: Z,
) -> bool {
    exists|x: X, fy: ConcreteFuture<'a, Y>, y: Y, fz: ConcreteFuture<'a, Z>|
        c.yields(x) && #[trigger] p(x, fy) && fy.yields(y) && #[trigger] q(y, fz) && fz.yields(z)
}

/// Monad associativity for the plain deferred computation, first nesting:
/// sequencing with `p` and the result with `q`.
pub proof fn lemma_future_flat_map_nested<'a, X, Y, Z>(
    c: ConcreteFuture<'a, X>,
    p: spec_fn(X, ConcreteFuture<'a, Y>) -> bool,
    q: spec_fn(Y, ConcreteFuture<'a, Z>) -> bool,
    mid: ConcreteFuture<'a, Y>,
    out: ConcreteFuture<'a, Z>,
) where X: 'a + Send + Sync, Y: 'a + Send + Sync, Z: 'a + Send + Sync
    requires
        <FutureEffect<'a, X, Y, ()> as Monad<'a>>::flat_map_ensures(c, p, mid),
        <FutureEffect<'a, Y, Z, ()> as Monad<'a>>::flat_map_ensures(mid, q, out),
    ensures
        out.always(|z: Z| future_chain(c, p, q, z)),
{
    assert forall|z: Z| #[trigger] out.yields(z) implies future_chain(c, p, q, z) by {
        let (y, fz) = choose|y: Y, fz: ConcreteFuture<'a, Z>|
            mid.yields(y) && #[trigger] q(y, fz) && fz.yields(z);
        let (x, fy) = choose|x: X, fy: ConcreteFuture<'a, Y>|
            c.yields(x) && #[trigger] p(x, fy) && fy.yields(y);
        assert(c.yields(x) && p(x, fy) && fy.yields(y) && q(y, fz) && fz.yields(z));
    }
}

/// Monad associativity for the plain deferred computation, second nesting:
/// sequencing once with the function that sequences what `p` gives with `q`.
/// It can yield only what the first nesting can.
pub proof fn lemma_future_flat_map_chained<'a, X, Y, Z>(
    c: ConcreteFuture<'a, X>,
    p: spec_fn(X, ConcreteFuture<'a, Y>) -> bool,
    q: spec_fn(Y, ConcreteFuture<'a, Z>) -> bool,
    out: ConcreteFuture<'a, Z>,
) where X: 'a + Send + Sync, Y: 'a + Send + Sync, Z: 'a + Send + Sync
    requires
        <FutureEffect<'a, X, Z, ()> as Monad<'a>>::flat_map_ensures(
            c,
            |x: X, hz: ConcreteFuture<'a, Z>|
                exists|fy: ConcreteFuture<'a, Y>| #[trigger]
                    p(x, fy) && <FutureEffect<'a, Y, Z, ()> as Monad<'a>>::flat_map_ensures(
                        fy,
                        q,
                        hz,
                    ),
            out,
        ),
    ensures
        out.always(|z: Z| future_chain(c, p, q, z)),
{
    let h = |x: X, hz: ConcreteFuture<'a, Z>|
        exists|fy: ConcreteFuture<'a, Y>| #[trigger]
            p(x, fy) && <FutureEffect<'a, Y, Z, ()> as Monad<'a>>::flat_map_ensures(fy, q, hz);
    assert forall|z: Z| #[trigger] out.yields(z) implies future_chain(c, p, q, z) by {
        let (x, hz) = choose|x: X, hz: ConcreteFuture<'a, Z>|
            c.yields(x) && #[trigger] h(x, hz) && hz.yields(z);
        let fy = choose|fy: ConcreteFuture<'a, Y>| #[trigger]
            p(x, fy) && <FutureEffect<'a, Y, Z, ()> as Monad<'a>>::flat_map_ensures(fy, q, hz);
        let (y, fz) = choose|y: Y, fz: ConcreteFuture<'a, Z>|
            fy.yields(y) && #[trigger] q(y, fz) && fz.yields(z);
        assert(c.yields(x) && p(x, fy) && fy.yields(y) && q(y, fz) && fz.yields(z));
    }
}

/// Functor identity for the deferred computation that may fail.
pub proof fn lemma_fmap_identity<'a, X, E>(
    c: ConcreteFutureResult<'a, X, E>,
    out: ConcreteFutureResult<'a, X, E>,
) where X: 'a + Send + Sync, E: 'a + Send + Sync
    requires
        <FutureResultEffect<'a, E, X, X, ()> as Functor<'a>>::fmap_ensures(
            c,
            |x: X, y: X| y == x,
            out,
        ),
    ensures
        out.always(|r: Result<X, E>| c.yields(r)),
{
    assert forall|r: Result<X, E>| #[trigger] out.yields(r) implies c.yields(r) by {
        let from = choose|from: Result<X, E>| #[trigger]
            c.yields(from) && mapped(from, |x: X, y: X| y == x, r);
        assert(from == r);
    }
}

/// Functor composition for the deferred computation that may fail: mapping
/// with `p` and then with `q` yields only what mapping once with `p` and then
/// `q` allows.
pub proof fn lemma_fmap_composition<'a, X, Y, Z, E>(
    c: ConcreteFutureResult<'a, X, E>,
    p: spec_fn(X, Y) -> bool,
    q: spec_fn(Y, Z) -> bool,
    mid: ConcreteFutureResult<'a, Y, E>,
    out: ConcreteFutureResult<'a, Z, E>,
) where X: 'a + Send + Sync, Y: 'a + Send + Sync, Z: 'a + Send + Sync, E: 'a + Send + Sync
    requires
        <FutureResultEffect<'a, E, X, Y, ()> as Functor<'a>>::fmap_ensures(c, p, mid),
        <FutureResultEffect<'a, E, Y, Z, ()> as Functor<'a>>::fmap_ensures(mid, q, out),
    ensures
        <FutureResultEffect<'a, E, X, Z, ()> as Functor<'a>>::fmap_ensures(
            c,
            and_then(p, q),
            out,
        ),
{
    let pq = and_then(p, q);
    assert forall|r: Result<Z, E>| #[trigger] out.yields(r) implies exists|from: Result<X, E>| #[trigger]
        c.yields(from) && mapped(from, pq, r) by {
        let via = choose|via: Result<Y, E>| #[trigger] mid.yields(via) && mapped(via, q, r);
        let from = choose|from: Result<X, E>| #[trigger] c.yields(from) && mapped(from, p, via);
        if from is Ok {
            assert(p(from->Ok_0, via->Ok_0) && q(via->Ok_0, r->Ok_0));
            assert(pq(from->Ok_0, r->Ok_0));
        }
        assert(c.yields(from) && mapped(from, pq, r));
    }
}

/// Monad left identity for the deferred computation that may fail.
pub proof fn lemma_flat_map_left_identity<'a, X, Y, E>(
    x: X,
    post: spec_fn(X, ConcreteFutureResult<'a, Y, E>) -> bool,
    c: ConcreteFutureResult<'a, X, E>,
    out: ConcreteFutureResult<'a, Y, E>,
) where X: 'a + Send + Sync, Y: 'a + Send + Sync, E: 'a + Send + Sync
    requires
        <FutureResultEffect<'a, E, X, Y, ()> as Applicative<'a>>::pure_ensures(x, c),
        <FutureResultEffect<'a, E, X, Y, ()> as Monad<'a>>::flat_map_ensures(c, post, out),
    ensures
        out.always(|r: Result<Y, E>| sequenced(Ok(x), post, r)),
{
    assert forall|r: Result<Y, E>| #[trigger] out.yields(r) implies sequenced(
        Ok(x),
        post,
        r,
    ) by {
        let from = choose|from: Result<X, E>| #[trigger]
            c.yields(from) && sequenced(from, post, r);
        assert(from == Ok::<X, E>(x));
    }
}

/// Monad right identity for the deferred computation that may fail.
pub proof fn lemma_flat_map_right_identity<'a, X, E>(
    c: ConcreteFutureResult<'a, X, E>,
    out: ConcreteFutureResult<'a, X, E>,
) where X: 'a + Send + Sync, E: 'a + Send + Sync
    requires
        <FutureResultEffect<'a, E, X, X, ()> as Monad<'a>>::flat_map_ensures(
            c,
            |a: X, fa: ConcreteFutureResult<'a, X, E>|
                <FutureResultEffect<'a, E, X, X, ()> as Applicative<'a>>::pure_ensures(a, fa),
            out,
        ),
    ensures
        out.always(|r: Result<X, E>| c.yields(r)),
{
    let wrap = |a: X, fa: ConcreteFutureResult<'a, X, E>|
        <FutureResultEffect<'a, E, X, X, ()> as Applicative<'a>>::pure_ensures(a, fa);
    assert forall|r: Result<X, E>| #[trigger] out.yields(r) implies c.yields(r) by {
        let from = choose|from: Result<X, E>| #[trigger]
            c.yields(from) && sequenced(from, wrap, r);
        match from {
            Ok(a) => {
                let mid = choose|mid: ConcreteFutureResult<'a, X, E>| #[trigger]
                    wrap(a, mid) && mid.yields(r);
                assert(r == Ok::<X, E>(a));
            },
            Err(e) => {},
        }
    }
}

/// What both ways of sequencing a deferred computation that may fail with `p`
/// and then `q` can yield from the outcome `from` of the given one.
pub open spec fn chain<'a, X, Y, Z, E>(
    from: Result<X, E>,
    p: spec_fn(X, ConcreteFutureResult<'a, Y, E>) -> bool,
    q: spec_fn(Y, ConcreteFutureResult<'a, Z, E>) -> bool,
    to: Result<Z, E>,
) -> bool {
    match from {
        Ok(x) => exists|fy: ConcreteFutureResult<'a, Y, E>, via: Result<Y, E>| #[trigger]
            p(x, fy) && #[trigger] fy.yields(via) && sequenced(via, q, to),
        Err(e) => to == Err::<Z, E>(e),
    }
}

/// Monad associativity for the deferred computation that may fail, first
/// nesting: sequencing with `p` and the result with `q`.
pub proof fn lemma_flat_map_nested<'a, X, Y, Z, E>(
    c: ConcreteFutureResult<'a, X, E>,
    p: spec_fn(X, ConcreteFutureResult<'a, Y, E>) -> bool,
    q: spec_fn(Y, ConcreteFutureResult<'a, Z, E>) -> bool,
    mid: ConcreteFutureResult<'a, Y, E>,
    out: ConcreteFutureResult<'a, Z, E>,
) where X: 'a + Send + Sync, Y: 'a + Send + Sync, Z: 'a + Send + Sync, E: 'a + Send + Sync
    requires
        <FutureResultEffect<'a, E, X, Y, ()> as Monad<'a>>::flat_map_ensures(c, p, mid),
        <FutureResultEffect<'a, E, Y, Z, ()> as Monad<'a>>::flat_map_ensures(mid, q, out),
    ensures
        out.always(
            |r: Result<Z, E>|
                exists|from: Result<X, E>| #[trigger] c.yields(from) && chain(from, p, q, r),
        ),
{
    assert forall|r: Result<Z, E>| #[trigger] out.yields(r) implies exists|from: Result<X, E>| #[trigger]
        c.yields(from) && chain(from, p, q, r) by {
        let via = choose|via: Result<Y, E>| #[trigger] mid.yields(via) && sequenced(via, q, r);
        let from = choose|from: Result<X, E>| #[trigger]
            c.yields(from) && sequenced(from, p, via);
        match from {
            Ok(x) => {
                let fy = choose|fy: ConcreteFutureResult<'a, Y, E>| #[trigger]
                    p(x, fy) && fy.yields(via);
                assert(p(x, fy) && fy.yields(via) && sequenced(via, q, r));
            },
            Err(e) => {},
        }
        assert(c.yields(from) && chain(from, p, q, r));
    }
}

/// Monad associativity for the deferred computation that may fail, second
/// nesting: sequencing once with the function that sequences what `p` gives
/// with `q`. It can yield only what the first nesting can.
pub proof fn lemma_flat_map_chained<'a, X, Y, Z, E>(
    c: ConcreteFutureResult<'a, X, E>,
    p: spec_fn(X, ConcreteFutureResult<'a, Y, E>) -> bool,
    q: spec_fn(Y, ConcreteFutureResult<'a, Z, E>) -> bool,
    out: ConcreteFutureResult<'a, Z, E>,
) where X: 'a + Send + Sync, Y: 'a + Send + Sync, Z: 'a + Send + Sync, E: 'a + Send + Sync
    requires
        <FutureResultEffect<'a, E, X, Z, ()> as Monad<'a>>::flat_map_ensures(
            c,
            |x: X, hz: ConcreteFutureResult<'a, Z, E>|
                exists|fy: ConcreteFutureResult<'a, Y, E>| #[trigger]
                    p(x, fy) && <FutureResultEffect<'a, E, Y, Z, ()> as Monad<
                        'a,
                    >>::flat_map_ensures(fy, q, hz),
            out,
        ),
    ensures
        out.always(
            |r: Result<Z, E>|
                exists|from: Result<X, E>| #[trigger] c.yields(from) && chain(from, p, q, r),
        ),
{
    let h = |x: X, hz: ConcreteFutureResult<'a, Z, E>|
        exists|fy: ConcreteFutureResult<'a, Y, E>| #[trigger]
            p(x, fy) && <FutureResultEffect<'a, E, Y, Z, ()> as Monad<'a>>::flat_map_ensures(
                fy,
                q,
                hz,
            );
    assert forall|r: Result<Z, E>| #[trigger] out.yields(r) implies exists|from: Result<X, E>| #[trigger]
        c.yields(from) && chain(from, p, q, r) by {
        let from = choose|from: Result<X, E>| #[trigger] c.yields(from) && sequenced(from, h, r);
        match from {
            Ok(x) => {
                let hz = choose|hz: ConcreteFutureResult<'a, Z, E>| #[trigger]
                    h(x, hz) && hz.yields(r);
                let fy = choose|fy: ConcreteFutureResult<'a, Y, E>| #[trigger]
                    p(x, fy) && <FutureResultEffect<'a, E, Y, Z, ()> as Monad<
                        'a,
                    >>::flat_map_ensures(fy, q, hz);
                let via = choose|via: Result<Y, E>| #[trigger]
                    fy.yields(via) && sequenced(via, q, r);
                assert(p(x, fy) && fy.yields(via) && sequenced(via, q, r));
            },
            Err(e) => {},
        }
        assert(c.yields(from) && chain(from, p, q, r));
    }
}

/// A deferred computation that can only fail needs nothing of the function it
/// is sequenced with, not even that it can be called: the function is never
/// called, and the result yields only failures of the given one.
pub proof fn lemma_flat_map_failed<'a, X, Y, E>(
    f: ConcreteFutureResult<'a, X, E>,
    post: spec_fn(X, ConcreteFutureResult<'a, Y, E>) -> bool,
    out: ConcreteFutureResult<'a, Y, E>,
) where X: 'a + Send + Sync, Y: 'a + Send + Sync, E: 'a + Send + Sync
    requires
        f.always(|r: Result<X, E>| r is Err),
        <FutureResultEffect<'a, E, X, Y, ()> as Monad<'a>>::flat_map_ensures(f, post, out),
    ensures
        <FutureResultEffect<'a, E, X, Y, ()> as Monad<'a>>::flat_map_requires(f, |x: X| false),
        out.always(|r: Result<Y, E>| r is Err && f.yields(Err(r->Err_0))),
{
    assert forall|r: Result<Y, E>| #[trigger] out.yields(r) implies r is Err && f.yields(
        Err(r->Err_0),
    ) by {
        let from = choose|from: Result<X, E>| #[trigger]
            f.yields(from) && sequenced(from, post, r);
        assert(from is Err);
        assert(from == Err::<X, E>(r->Err_0));
    }
}

/// A deferred computation that can only succeed needs nothing of the recovery
/// function: it is never called, and the result yields only what the given one
/// yields.
pub proof fn lemma_handle_error_succeeded<'a, X, E>(
    f: ConcreteFutureResult<'a, X, E>,
    post: spec_fn(E, ConcreteFutureResult<'a, X, E>) -> bool,
    out: ConcreteFutureResult<'a, X, E>,
) where X: 'a + Send + Sync, E: 'a + Send + Sync
    requires
        f.always(|r: Result<X, E>| r is Ok),
        <FutureResultEffect<'a, E, X, (), ()> as MonadError<'a>>::handle_error_ensures(
            f,
            post,
            out,
        ),
    ensures
        <FutureResultEffect<'a, E, X, (), ()> as MonadError<'a>>::handle_error_requires(
            f,
            |e: E| false,
        ),
        out.always(|r: Result<X, E>| f.yields(r)),
{
    assert forall|r: Result<X, E>| #[trigger] out.yields(r) implies f.yields(r) by {
        let from = choose|from: Result<X, E>| #[trigger]
            f.yields(from) && recovered(from, post, r);
        assert(from is Ok);
        assert(from == r);
    }
}

/// An IO that can only fail needs nothing of the function it is sequenced
/// with, not even that it can be called: the function is never called, and
/// the result ends only in failures of the given one.
pub proof fn lemma_io_flat_map_failed<'a, X, Y, E>(
    f: IO<'a, X, E>,
    post: spec_fn(X, IO<'a, Y, E>) -> bool,
    out: IO<'a, Y, E>,
) where X: 'a + Send + Sync, Y: 'a + Send + Sync, E: 'a + Send + Sync
    requires
        f.always(|r: Result<X, E>| r is Err),
        <IoEffect<'a, E, X, Y, ()> as Monad<'a>>::flat_map_ensures(f, post, out),
    ensures
        <IoEffect<'a, E, X, Y, ()> as Monad<'a>>::flat_map_requires(f, |x: X| false),
        out.always(|r: Result<Y, E>| r is Err && f.yields(Err(r->Err_0))),
{
    assert forall|r: Result<Y, E>| #[trigger] out.yields(r) implies r is Err && f.yields(
        Err(r->Err_0),
    ) by {
        let from = choose|from: Result<X, E>| #[trigger]
            f.yields(from) && crate::effects::io::sequenced(from, post, r);
        assert(from is Err);
        assert(from == Err::<X, E>(r->Err_0));
    }
}

/// An IO that can only succeed needs nothing of the recovery function: it is
/// never called, and the result ends only as the given one does.
pub proof fn lemma_io_handle_error_succeeded<'a, X, E>(
    f: IO<'a, X, E>,
    post: spec_fn(E, IO<'a, X, E>) -> bool,
    out: IO<'a, X, E>,
) where X: 'a + Send + Sync, E: 'a + Send + Sync
    requires
        f.always(|r: Result<X, E>| r is Ok),
        <IoEffect<'a, E, X, (), ()> as MonadError<'a>>::handle_error_ensures(f, post, out),
    ensures
        <IoEffect<'a, E, X, (), ()> as MonadError<'a>>::handle_error_requires(f, |e: E| false),
        out.always(|r: Result<X, E>| f.yields(r)),
{
    assert forall|r: Result<X, E>| #[trigger] out.yields(r) implies f.yields(r) by {
        let from = choose|from: Result<X, E>| #[trigger]
            f.yields(from) && crate::effects::io::recovered(from, post, r);
        assert(from is Ok);
        assert(from == r);
    }
}

/// Functor identity for the IO value.
pub proof fn lemma_io_fmap_identity<'a, X, E>(c: IO<'a, X, E>, out: IO<'a, X, E>) where
    X: 'a + Send + Sync,
    E: 'a + Send + Sync,

    requires
        <IoEffect<'a, E, X, X, ()> as Functor<'a>>::fmap_ensures(c, |x: X, y: X| y == x, out),
    ensures
        out.always(|r: Result<X, E>| c.yields(r)),
{
    lemma_fmap_identity(c.fut, out.fut);
    assert forall|r: Result<X, E>| #[trigger] out.yields(r) implies c.yields(r) by {
        assert(out.fut.yields(r));
    }
}

/// Functor composition for the IO value: mapping with `p` and then with `q`
/// ends only as mapping once with `p` and then `q` allows.
pub proof fn lemma_io_fmap_composition<'a, X, Y, Z, E>(
    c: IO<'a, X, E>,
    p: spec_fn(X, Y) -> bool,
    q: spec_fn(Y, Z) -> bool,
    mid: IO<'a, Y, E>,
    out: IO<'a, Z, E>,
) where X: 'a + Send + Sync, Y: 'a + Send + Sync, Z: 'a + Send + Sync, E: 'a + Send + Sync
    requires
        <IoEffect<'a, E, X, Y, ()> as Functor<'a>>::fmap_ensures(c, p, mid),
        <IoEffect<'a, E, Y, Z, ()> as Functor<'a>>::fmap_ensures(mid, q, out),
    ensures
        <IoEffect<'a, E, X, Z, ()> as Functor<'a>>::fmap_ensures(c, and_then(p, q), out),
{
    lemma_fmap_composition(c.fut, p, q, mid.fut, out.fut);
}

/// What both ways of sequencing an IO value with `p` and then `q` can end in
/// from the outcome `from` of the given one.
pub open spec fn io_chain<'a, X, Y, Z, E>(
    from: Result<X, E>,
    p: spec_fn(X, IO<'a, Y, E>) -> bool,
    q: spec_fn(Y, IO<'a, Z, E>) -> bool,
    to: Result<Z, E>,
) -> bool where X: 'a + Send + Sync, Y: 'a + Send + Sync, Z: 'a + Send + Sync, E: 'a + Send + Sync {
    match from {
        Ok(x) => exists|fy: IO<'a, Y, E>, via: Result<Y, E>| #[trigger]
            p(x, fy) && #[trigger] fy.yields(via) && crate::effects::io::sequenced(via, q, to),
        Err(e) => to == Err::<Z, E>(e),
    }
}

/// Monad associativity for the IO value, first nesting: sequencing with `p`
/// and the result with `q`.
pub proof fn lemma_io_flat_map_nested<'a, X, Y, Z, E>(
    c: IO<'a, X, E>,
    p: spec_fn(X, IO<'a, Y, E>) -> bool,
    q: spec_fn(Y, IO<'a, Z, E>) -> bool,
    mid: IO<'a, Y, E>,
    out: IO<'a, Z, E>,
) where X: 'a + Send + Sync, Y: 'a + Send + Sync, Z: 'a + Send + Sync, E: 'a + Send + Sync
    requires
        <IoEffect<'a, E, X, Y, ()> as Monad<'a>>::flat_map_ensures(c, p, mid),
        <IoEffect<'a, E, Y, Z, ()> as Monad<'a>>::flat_map_ensures(mid, q, out),
    ensures
        out.always(
            |r: Result<Z, E>|
                exists|from: Result<X, E>| #[trigger] c.yields(from) && io_chain(from, p, q, r),
        ),
{
    assert forall|r: Result<Z, E>| #[trigger] out.yields(r) implies exists|from: Result<X, E>| #[trigger]
        c.yields(from) && io_chain(from, p, q, r) by {
        let via = choose|via: Result<Y, E>| #[trigger]
            mid.yields(via) && crate::effects::io::sequenced(via, q, r);
        let from = choose|from: Result<X, E>| #[trigger]
            c.yields(from) && crate::effects::io::sequenced(from, p, via);
        match from {
            Ok(x) => {
                let fy = choose|fy: IO<'a, Y, E>| #[trigger] p(x, fy) && fy.yields(via);
                assert(p(x, fy) && fy.yields(via) && crate::effects::io::sequenced(via, q, r));
            },
            Err(e) => {},
        }
        assert(c.yields(from) && io_chain(from, p, q, r));
    }
}

/// Monad associativity for the IO value, second nesting: sequencing once with
/// the function that sequences what `p` gives with `q`. It can end only as
/// the first nesting can.
pub proof fn lemma_io_flat_map_chained<'a, X, Y, Z, E>(
    c: IO<'a, X, E>,
    p: spec_fn(X, IO<'a, Y, E>) -> bool,
    q: spec_fn(Y, IO<'a, Z, E>) -> bool,
    out: IO<'a, Z, E>,
) where X: 'a + Send + Sync, Y: 'a + Send + Sync, Z: 'a + Send + Sync, E: 'a + Send + Sync
    requires
        <IoEffect<'a, E, X, Z, ()> as Monad<'a>>::flat_map_ensures(
            c,
            |x: X, hz: IO<'a, Z, E>|
                exists|fy: IO<'a, Y, E>| #[trigger]
                    p(x, fy) && <IoEffect<'a, E, Y, Z, ()> as Monad<'a>>::flat_map_ensures(
                        fy,
                        q,
                        hz,
                    ),
            out,
        ),
    ensures
        out.always(
            |r: Result<Z, E>|
                exists|from: Result<X, E>| #[trigger] c.yields(from) && io_chain(from, p, q, r),
        ),
{
    let h = |x: X, hz: IO<'a, Z, E>|
        exists|fy: IO<'a, Y, E>| #[trigger]
            p(x, fy) && <IoEffect<'a, E, Y, Z, ()> as Monad<'a>>::flat_map_ensures(fy, q, hz);
    assert forall|r: Result<Z, E>| #[trigger] out.yields(r) implies exists|from: Result<X, E>| #[trigger]
        c.yields(from) && io_chain(from, p, q, r) by {
        let from = choose|from: Result<X, E>| #[trigger]
            c.yields(from) && crate::effects::io::sequenced(from, h, r);
        match from {
            Ok(x) => {
                let hz = choose|hz: IO<'a, Z, E>| #[trigger] h(x, hz) && hz.yields(r);
                let fy = choose|fy: IO<'a, Y, E>| #[trigger]
                    p(x, fy) && <IoEffect<'a, E, Y, Z, ()> as Monad<'a>>::flat_map_ensures(
                        fy,
                        q,
                        hz,
                    );
                let via = choose|via: Result<Y, E>| #[trigger]
                    fy.yields(via) && crate::effects::io::sequenced(via, q, r);
                assert(p(x, fy) && fy.yields(via) && crate::effects::io::sequenced(via, q, r));
            },
            Err(e) => {},
        }
        assert(c.yields(from) && io_chain(from, p, q, r));
    }
}

/// Monad left identity for the IO value: sequencing `pure(x)` ends only as an
/// IO given for `x` ends.
pub proof fn lemma_io_flat_map_left_identity<'a, X, Y, E>(
    x: X,
    post: spec_fn(X, IO<'a, Y, E>) -> bool,
    c: IO<'a, X, E>,
    out: IO<'a, Y, E>,
) where X: 'a + Send + Sync, Y: 'a + Send + Sync, E: 'a + Send + Sync
    requires
        <IoEffect<'a, E, X, Y, ()> as Applicative<'a>>::pure_ensures(x, c),
        <IoEffect<'a, E, X, Y, ()> as Monad<'a>>::flat_map_ensures(c, post, out),
    ensures
        out.always(|r: Result<Y, E>| crate::effects::io::sequenced(Ok(x), post, r)),
{
    assert forall|r: Result<Y, E>| #[trigger] out.yields(r) implies crate::effects::io::sequenced(
        Ok(x),
        post,
        r,
    ) by {
        let from = choose|from: Result<X, E>| #[trigger]
            c.yields(from) && crate::effects::io::sequenced(from, post, r);
        assert(from == Ok::<X, E>(x));
    }
}

/// Monad right identity for the IO value: sequencing with `pure` ends only as
/// the given one ends.
pub proof fn lemma_io_flat_map_right_identity<'a, X, E>(c: IO<'a, X, E>, out: IO<'a, X, E>) where
    X: 'a + Send + Sync,
    E: 'a + Send + Sync,

    requires
        <IoEffect<'a, E, X, X, ()> as Monad<'a>>::flat_map_ensures(
            c,
            |a: X, fa: IO<'a, X, E>| <IoEffect<'a, E, X, X, ()> as Applicative<'a>>::pure_ensures(
                a,
                fa,
            ),
            out,
        ),
    ensures
        out.always(|r: Result<X, E>| c.yields(r)),
{
    let wrap = |a: X, fa: IO<'a, X, E>|
        <IoEffect<'a, E, X, X, ()> as Applicative<'a>>::pure_ensures(a, fa);
    assert forall|r: Result<X, E>| #[trigger] out.yields(r) implies c.yields(r) by {
        let from = choose|from: Result<X, E>| #[trigger]
            c.yields(from) && crate::effects::io::sequenced(from, wrap, r);
        match from {
            Ok(a) => {
                let mid = choose|mid: IO<'a, X, E>| #[trigger] wrap(a, mid) && mid.yields(r);
                assert(r == Ok::<X, E>(a));
            },
            Err(e) => {},
        }
    }
}

} // verus!
