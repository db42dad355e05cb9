//! The fallible result as a container: one item, or a failure that carries an
//! error. The first failure met wins, the left operand before the right.
//!
//! ```text
//!   combine(Ok(x), Ok(y))       =>  Ok(combine(x, y))
//!   combine(Ok(x), Err(e))      =>  Err(e)
//!   combine(Err(e), _)          =>  Err(e)
//!   empty()                     =>  Err(E::default())
//!   pure(x)                     =>  Ok(x)
//!   apply(Ok(g), Ok(x))         =>  Ok(g(x))
//!   apply(_, Err(e))            =>  Err(e)
//!   apply(Err(e), Ok(x))        =>  Err(e)
//!   fmap(Ok(x), g)              =>  Ok(g(x))
//!   fmap(Err(e), g)             =>  Err(e)
//!   fmap2(Ok(x), Ok(y), g)      =>  Ok(g(x, y))
//!   fmap2(Ok(x), Err(e), g)     =>  Err(e)
//!   fmap2(Err(e), _, g)         =>  Err(e)
//!   flat_map(Ok(x), g)          =>  g(x)
//!   flat_map(Err(e), g)         =>  Err(e)
//!   fold(Ok(x), init, g)        =>  g(init, x)
//!   fold(Err(e), init, g)       =>  init
//!   raise_error(e)              =>  Err(e)
//!   handle_error(Ok(x), r)      =>  Ok(x)
//!   handle_error(Err(e), r)     =>  r(e)
//!   attempt(r)                  =>  r
//!   product(Ok(x), Ok(y))       =>  Ok((x, y))
//! ```

use vstd::prelude::*;
use std::marker::PhantomData;
use crate::typeclasses::{Effect, F};
use crate::typeclasses::applicative::{
    Applicative,
    ApplicativeApply,
    ApplicativeApplyEffect,
    ApplicativeEffect,
};
use crate::typeclasses::functor::{Functor, Functor2, Functor2Effect, FunctorEffect};
use crate::typeclasses::monad::{Foldable, FoldableEffect, Monad, MonadEffect};
use crate::typeclasses::monaderror::{Attempt, AttemptEffect, MonadError, MonadErrorEffect};
use crate::typeclasses::monoid::{Monoid, MonoidEffect};
use crate::typeclasses::product::{Productable, ProductableEffect};
use crate::typeclasses::semigroup::{combine, Semigroup, SemigroupEffect, SemigroupInner};
use crate::typeclasses::traverse::Traversed;

verus! {

impl<X, E> F<X> for Result<X, E> {

}

impl<X, X2, XR, E> SemigroupEffect<Result<X, E>, Result<X2, E>, Result<XR, E>> for Result<
    X,
    E,
> where X: SemigroupEffect<X, X2, XR> {
    type Fct = ResultEffect<E, X, X2, XR>;
}

impl<X, E: Default> MonoidEffect<Result<X, E>> for Result<X, E> {
    type Fct = ResultEffect<E, X, (), ()>;
}

impl<'a, X, E> ApplicativeEffect<'a> for Result<X, E> {
    type X = X;

    type Fct = ResultEffect<E, X, (), ()>;
}

impl<'a, M, X, Y, E> ApplicativeApplyEffect<'a, M, X, Y> for Result<X, E> where
    M: 'a + Fn(X) -> Y + Send + Sync,
 {
    type FM = Result<M, E>;

    type FX = Result<X, E>;

    type FY = Result<Y, E>;

    type Fct = ResultEffect<E, X, Y, ()>;
}

impl<'a, X, Y, E> FunctorEffect<'a, X, Y> for Result<X, E> {
    type FX = Result<X, E>;

    type FY = Result<Y, E>;

    type Fct = ResultEffect<E, X, Y, ()>;
}

impl<'a, X, Y, Z, E> Functor2Effect<'a, X, Y, Z> for Result<X, E> {
    type FX = Result<X, E>;

    type FY = Result<Y, E>;

    type FZ = Result<Z, E>;

    type Fct = ResultEffect<E, X, Y, Z>;
}

impl<'a, X, Y, E> MonadEffect<'a, X, Y> for Result<X, E> {
    type FX = Result<X, E>;

    type FY = Result<Y, E>;

    type Fct = ResultEffect<E, X, Y, ()>;
}

impl<'a, X, Y, E> FoldableEffect<'a, X, Y, Y> for Result<X, E> {
    type FX = Result<X, E>;

    type Fct = ResultEffect<E, X, Y, ()>;
}

impl<'a, X, E> MonadErrorEffect<'a, X> for Result<X, E> {
    type E = E;

    type Fct = ResultEffect<E, X, (), ()>;
}

impl<'a, X, E> AttemptEffect<'a, X> for Result<X, E> {
    type E = E;

    type Fct = ResultEffect<E, X, (), ()>;
}

impl<'a, X, Y, E> ProductableEffect<'a, X, Y> for Result<X, E> {
    type FX = Result<X, E>;

    type FY = Result<Y, E>;

    type FZ = Result<(X, Y), E>;

    type Fct = ResultEffect<E, X, Y, (X, Y)>;
}

impl<'a, Y, E> Traversed<'a, Y> for Result<Y, E> {
    type Gathered = Result<Vec<Y>, E>;

    open spec fn seen_failed(acc: Result<Vec<Y>, E>) -> bool {
        acc is Err
    }

    fn has_failed(acc: &Result<Vec<Y>, E>) -> (b: bool) {
        acc.is_err()
    }
}

/// The witness for fallible results with error type `E`. It holds nothing; its
/// other parameters name the payload types of the operation it is used for.
pub struct ResultEffect<E, X = (), Y = (), Z = ()> {
    _a: PhantomData<X>,
    _b: PhantomData<Y>,
    _c: PhantomData<Z>,
    _p: PhantomData<E>,
}

/// The result of merging two fallible values: the first failure if there is
/// one, the left before the right, and else a success in the relation `post` to
/// the two payloads.
pub open spec fn combine_results_ensures<X1, X2, XR, E>(
    a: Result<X1, E>,
    b: Result<X2, E>,
    post: spec_fn(X1, X2, XR) -> bool,
    out: Result<XR, E>,
) -> bool {
    match (a, b) {
        (Ok(x), Ok(y)) => out is Ok && post(x, y, out->Ok_0),
        (Ok(_), Err(e)) => out == Err::<XR, E>(e),
        (Err(e), _) => out == Err::<XR, E>(e),
    }
}

impl<E, X, Y, Z> ResultEffect<E, X, Y, Z> {
    /// The witness.
    pub fn apply() -> Self {
        ResultEffect { _a: PhantomData, _b: PhantomData, _c: PhantomData, _p: PhantomData }
    }

    /// Merges two fallible values with `func` if both have succeeded.
    pub fn combine_results<X1, X2, XR, Func>(a: Result<X1, E>, b: Result<X2, E>, func: Func) -> (out:
        Result<XR, E>) where Func: FnOnce(X1, X2) -> XR
        requires
            a is Ok && b is Ok ==> func.requires((a->Ok_0, b->Ok_0)),
        ensures
            combine_results_ensures(a, b, |x: X1, y: X2, r: XR| func.ensures((x, y), r), out),
    {
        match a {
            Ok(i) => match b {
                Ok(j) => Ok(func(i, j)),
                Err(e) => Err(e),
            },
            Err(e) => Err(e),
        }
    }
}

impl<E, X, Y, Z> Effect for ResultEffect<E, X, Y, Z> {

}

impl<X, X2, XR, E> Semigroup<Result<X, E>, Result<X2, E>, Result<XR, E>> for ResultEffect<
    E,
    X,
    X2,
    XR,
> where X: SemigroupEffect<X, X2, XR> {
    open spec fn combine_requires(a: Result<X, E>, b: Result<X2, E>) -> bool {
        a is Ok && b is Ok ==> X::Fct::combine_requires(a->Ok_0, b->Ok_0)
    }

    open spec fn combine_ensures(a: Result<X, E>, b: Result<X2, E>, out: Result<XR, E>) -> bool {
        combine_results_ensures(a, b, |x: X, y: X2, r: XR| X::Fct::combine_ensures(x, y, r), out)
    }

    fn combine(a: Result<X, E>, b: Result<X2, E>) -> (out: Result<XR, E>) {
        Self::combine_results(a, b, combine::<X, X2, XR>)
    }
}

impl<'a, X, E> SemigroupInner<'a, Result<X, E>, X> for ResultEffect<E, X, X, X> where
    X: 'a,
    E: 'a,
 {
    open spec fn combine_inner_requires(
        a: Result<X, E>,
        b: Result<X, E>,
        pre: spec_fn(X, X) -> bool,
    ) -> bool {
        a is Ok && b is Ok ==> pre(a->Ok_0, b->Ok_0)
    }

    open spec fn combine_inner_ensures(
        a: Result<X, E>,
        b: Result<X, E>,
        post: spec_fn(X, X, X) -> bool,
        out: Result<X, E>,
    ) -> bool {
        combine_results_ensures(a, b, post, out)
    }

    fn combine_inner<TO>(a: Result<X, E>, b: Result<X, E>) -> (out: Result<X, E>) where
        TO: 'a + Semigroup<X, X, X>,
     {
        Self::combine_results(a, b, TO::combine)
    }
}

impl<X, Y, Z, E: Default> Monoid for ResultEffect<E, X, Y, Z> {
    type Output = Result<X, E>;

    open spec fn empty_ensures(out: Result<X, E>) -> bool {
        out is Err && call_ensures(E::default, (), out->Err_0)
    }

    fn empty() -> (out: Result<X, E>) {
        Err(E::default())
    }
}

impl<'a, X, Y, Z, E> Functor<'a> for ResultEffect<E, X, Y, Z> {
    type X = X;

    type Y = Y;

    type FX = Result<X, E>;

    type FY = Result<Y, E>;

    open spec fn fmap_requires(f: Result<X, E>, pre: spec_fn(X) -> bool) -> bool {
        f is Ok ==> pre(f->Ok_0)
    }

    open spec fn fmap_ensures(
        f: Result<X, E>,
        post: spec_fn(X, Y) -> bool,
        out: Result<Y, E>,
    ) -> bool {
        match f {
            Ok(x) => out is Ok && post(x, out->Ok_0),
            Err(e) => out == Err::<Y, E>(e),
        }
    }

    proof fn fmap_ensures_weaken(
        f: Result<X, E>,
        p: spec_fn(X, Y) -> bool,
        q: spec_fn(X, Y) -> bool,
        out: Result<Y, E>,
    ) {
    }

    fn fmap<Func: 'a + Fn(X) -> Y + Send + Sync>(f: Result<X, E>, func: Func) -> (out: Result<
        Y,
        E,
    >) {
        match f {
            Ok(x) => Ok(func(x)),
            Err(e) => Err(e),
        }
    }
}

impl<'a, X, Y, Z, E> Applicative<'a> for ResultEffect<E, X, Y, Z> {
    open spec fn pure_ensures(x: X, out: Result<X, E>) -> bool {
        out == Ok::<X, E>(x)
    }

    fn pure(x: X) -> (out: Result<X, E>) {
        Ok(x)
    }
}

impl<'a, X, Y, Z, E, M> ApplicativeApply<'a, M> for ResultEffect<E, X, Y, Z> where
    M: 'a + Fn(X) -> Y + Send + Sync,
 {
    type FMapper = Result<M, E>;

    open spec fn apply_requires(func: Result<M, E>, x: Result<X, E>) -> bool {
        func is Ok && x is Ok ==> call_requires(func->Ok_0, (x->Ok_0,))
    }

    open spec fn apply_ensures(func: Result<M, E>, x: Result<X, E>, out: Result<Y, E>) -> bool {
        match (x, func) {
            (Ok(v), Ok(g)) => out is Ok && call_ensures(g, (v,), out->Ok_0),
            (Ok(_), Err(e)) => out == Err::<Y, E>(e),
            (Err(e), _) => out == Err::<Y, E>(e),
        }
    }

    fn apply(func: Result<M, E>, x: Result<X, E>) -> (out: Result<Y, E>) {
        match x {
            Ok(v) => match func {
                Ok(g) => Ok(g(v)),
                Err(e) => Err(e),
            },
            Err(e) => Err(e),
        }
    }
}

impl<'a, X, Y, Z, E> Functor2<'a> for ResultEffect<E, X, Y, Z> {
    type Z = Z;

    type FZ = Result<Z, E>;

    open spec fn fmap2_requires(
        fa: Result<X, E>,
        fb: Result<Y, E>,
        pre: spec_fn(X, Y) -> bool,
    ) -> bool {
        fa is Ok && fb is Ok ==> pre(fa->Ok_0, fb->Ok_0)
    }

    open spec fn fmap2_ensures(
        fa: Result<X, E>,
        fb: Result<Y, E>,
        post: spec_fn(X, Y, Z) -> bool,
        out: Result<Z, E>,
    ) -> bool {
        combine_results_ensures(fa, fb, post, out)
    }

    proof fn fmap2_requires_total(fa: Result<X, E>, fb: Result<Y, E>, pre: spec_fn(X, Y) -> bool) {
    }

    proof fn fmap2_ensures_weaken(
        fa: Result<X, E>,
        fb: Result<Y, E>,
        p: spec_fn(X, Y, Z) -> bool,
        q: spec_fn(X, Y, Z) -> bool,
        out: Result<Z, E>,
    ) {
    }

    fn fmap2<Func: 'a + Fn(X, Y) -> Z + Send + Sync>(
        fa: Result<X, E>,
        fb: Result<Y, E>,
        func: Func,
    ) -> (out: Result<Z, E>) {
        match fa {
            Ok(x) => match fb {
                Ok(y) => Ok(func(x, y)),
                Err(e) => Err(e),
            },
            Err(e) => Err(e),
        }
    }
}

impl<'a, X, Y, Z, E> Monad<'a> for ResultEffect<E, X, Y, Z> {
    open spec fn flat_map_requires(f: Result<X, E>, pre: spec_fn(X) -> bool) -> bool {
        f is Ok ==> pre(f->Ok_0)
    }

    open spec fn flat_map_ensures(
        f: Result<X, E>,
        post: spec_fn(X, Result<Y, E>) -> bool,
        out: Result<Y, E>,
    ) -> bool {
        match f {
            Ok(x) => post(x, out),
            Err(e) => out == Err::<Y, E>(e),
        }
    }

    proof fn flat_map_ensures_weaken(
        f: Result<X, E>,
        p: spec_fn(X, Result<Y, E>) -> bool,
        q: spec_fn(X, Result<Y, E>) -> bool,
        out: Result<Y, E>,
    ) {
    }

    fn flat_map<Func: 'a + Fn(X) -> Result<Y, E> + Send + Sync>(
        f: Result<X, E>,
        func: Func,
    ) -> (out: Result<Y, E>) {
        match f {
            Ok(x) => func(x),
            Err(e) => Err(e),
        }
    }
}

impl<'a, X, Y, Z, E> Foldable<'a> for ResultEffect<E, X, Y, Z> {
    type Y2 = Y;

    open spec fn fold_requires(
        f: Result<X, E>,
        init: Y,
        pre: spec_fn(Y, X) -> bool,
        post: spec_fn(Y, X, Y) -> bool,
    ) -> bool {
        f is Ok ==> pre(init, f->Ok_0)
    }

    open spec fn fold_ensures(
        f: Result<X, E>,
        init: Y,
        post: spec_fn(Y, X, Y) -> bool,
        out: Y,
    ) -> bool {
        match f {
            Ok(x) => post(init, x, out),
            Err(_) => out == init,
        }
    }

    proof fn fold_ensures_weaken(
        f: Result<X, E>,
        init: Y,
        p: spec_fn(Y, X, Y) -> bool,
        q: spec_fn(Y, X, Y) -> bool,
        out: Y,
    ) {
    }

    fn fold<Func: 'a + Fn(Y, X) -> Y + Send + Sync>(f: Result<X, E>, init: Y, func: Func) -> (out:
        Y) {
        match f {
            Ok(i) => func(init, i),
            Err(_e) => init,
        }
    }
}

impl<'a, X, Y, Z, E> MonadError<'a> for ResultEffect<E, X, Y, Z> {
    type E = E;

    open spec fn raise_error_ensures(err: E, out: Result<X, E>) -> bool {
        out == Err::<X, E>(err)
    }

    open spec fn handle_error_requires(f: Result<X, E>, pre: spec_fn(E) -> bool) -> bool {
        f is Err ==> pre(f->Err_0)
    }

    open spec fn handle_error_ensures(
        f: Result<X, E>,
        post: spec_fn(E, Result<X, E>) -> bool,
        out: Result<X, E>,
    ) -> bool {
        match f {
            Ok(x) => out == Ok::<X, E>(x),
            Err(e) => post(e, out),
        }
    }

    fn raise_error(err: E) -> (out: Result<X, E>) {
        Err(err)
    }

    proof fn handle_error_ensures_weaken(
        f: Result<X, E>,
        p: spec_fn(E, Result<X, E>) -> bool,
        q: spec_fn(E, Result<X, E>) -> bool,
        out: Result<X, E>,
    ) {
    }

    fn handle_error<Func: 'a + Send + Sync + Fn(E) -> Result<X, E>>(
        f: Result<X, E>,
        recovery: Func,
    ) -> (out: Result<X, E>) {
        match f {
            Ok(x) => Ok(x),
            Err(e) => recovery(e),
        }
    }
}

impl<'a, X, Y, Z, E> Attempt<'a> for ResultEffect<E, X, Y, Z> {
    open spec fn attempt_ensures(f: Result<X, E>, out: Result<X, E>) -> bool {
        out == f
    }

    fn attempt(f: Result<X, E>) -> (out: Result<X, E>) {
        f
    }
}

impl<'a, X, Y, E> Productable<'a> for ResultEffect<E, X, Y, (X, Y)> {

}

} // verus!
