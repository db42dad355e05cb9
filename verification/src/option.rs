//! The optional value as a container: zero or one item.
//!
//! ```text
//!   combine(Some(x), Some(y))  =>  Some(combine(x, y))
//!   combine(Some(x), None)     =>  Some(combine(x, empty()))
//!   combine(None, Some(y))     =>  Some(combine(y, empty()))
//!   combine(None, None)        =>  None
//!   empty()                    =>  None
//!   pure(x)                    =>  Some(x)
//!   apply(Some(g), Some(x))    =>  Some(g(x)), else None
//!   fmap(Some(x), g)           =>  Some(g(x))
//!   fmap(None, g)              =>  None
//!   fmap2(Some(x), Some(y), g) =>  Some(g(x, y)), else None
//!   flat_map(Some(x), g)       =>  g(x)
//!   flat_map(None, g)          =>  None
//!   fold(Some(x), init, g)     =>  g(init, x)
//!   fold(None, init, g)        =>  init
//!   raise_error(())            =>  None
//!   handle_error(Some(x), r)   =>  Some(x)
//!   handle_error(None, r)      =>  r(())
//!   attempt(Some(x))           =>  Ok(x)
//!   attempt(None)              =>  Err(())
//!   product(Some(x), Some(y))  =>  Some((x, y)), else None
//! ```

use vstd::prelude::*;
use std::marker::PhantomData;
use crate::typeclasses::{Effect, F};
use crate::typeclasses::applicative::{
    Applicative,
    ApplicativeApply,
    ApplicativeApplyEffect,
    ApplicativeEffect,
};
use crate::typeclasses::functor::{Functor, Functor2, Functor2Effect, FunctorEffect};
use crate::typeclasses::monad::{Foldable, FoldableEffect, Monad, MonadEffect};
use crate::typeclasses::monaderror::{Attempt, AttemptEffect, MonadError, MonadErrorEffect};
use crate::typeclasses::monoid::{empty, Monoid, MonoidEffect};
use crate::typeclasses::product::{Productable, ProductableEffect};
use crate::typeclasses::semigroup::{combine, Semigroup, SemigroupEffect, SemigroupInner};
use crate::typeclasses::traverse::Traversed;

verus! {

impl<X> F<X> for Option<X> {

}

impl<X, X2, XR> SemigroupEffect<Option<X>, Option<X2>, Option<XR>> for Option<X> where
    X: SemigroupEffect<X, X2, XR> + SemigroupEffect<X, XR, XR>,
    X2: SemigroupEffect<X2, XR, XR>,
    XR: MonoidEffect<XR>,
 {
    type Fct = OptionEffect<X, X2, XR>;
}

impl<X> MonoidEffect<Option<X>> for Option<X> {
    type Fct = OptionEffect<X, (), ()>;
}

impl<'a, X> ApplicativeEffect<'a> for Option<X> {
    type X = X;

    type Fct = OptionEffect<X, (), ()>;
}

impl<'a, M, X, Y> ApplicativeApplyEffect<'a, M, X, Y> for Option<X> where
    M: 'a + Fn(X) -> Y + Send + Sync,
 {
    type FM = Option<M>;

    type FX = Option<X>;

    type FY = Option<Y>;

    type Fct = OptionEffect<X, Y, ()>;
}

impl<'a, X, Y> FunctorEffect<'a, X, Y> for Option<X> {
    type FX = Option<X>;

    type FY = Option<Y>;

    type Fct = OptionEffect<X, Y, ()>;
}

impl<'a, X, Y, Z> Functor2Effect<'a, X, Y, Z> for Option<X> {
    type FX = Option<X>;

    type FY = Option<Y>;

    type FZ = Option<Z>;

    type Fct = OptionEffect<X, Y, Z>;
}

impl<'a, X, Y> MonadEffect<'a, X, Y> for Option<X> {
    type FX = Option<X>;

    type FY = Option<Y>;

    type Fct = OptionEffect<X, Y, ()>;
}

impl<'a, X, Y> FoldableEffect<'a, X, Y, Y> for Option<X> {
    type FX = Option<X>;

    type Fct = OptionEffect<X, Y, ()>;
}

impl<'a, X> MonadErrorEffect<'a, X> for Option<X> {
    type E = ();

    type Fct = OptionEffect<X, (), ()>;
}

impl<'a, X> AttemptEffect<'a, X> for Option<X> {
    type E = ();

    type Fct = OptionEffect<X, (), ()>;
}

impl<'a, X, Y> ProductableEffect<'a, X, Y> for Option<X> {
    type FX = Option<X>;

    type FY = Option<Y>;

    type FZ = Option<(X, Y)>;

    type Fct = OptionEffect<X, Y, (X, Y)>;
}

impl<'a, Y> Traversed<'a, Y> for Option<Y> {
    type Gathered = Option<Vec<Y>>;

    open spec fn seen_failed(acc: Option<Vec<Y>>) -> bool {
        acc is None
    }

    fn has_failed(acc: &Option<Vec<Y>>) -> (b: bool) {
        acc.is_none()
    }
}

/// The witness for optional values. It holds nothing; its parameters name the
/// payload types of the operation it is used for.
pub struct OptionEffect<X = (), Y = (), Z = ()> {
    _a: PhantomData<X>,
    _b: PhantomData<Y>,
    _c: PhantomData<Z>,
}

/// The result of merging two optional values where absence is failure:
/// present only if both are, and then in the relation `post` to them.
pub open spec fn combine_options_ensures<X1, X2, XR>(
    a: Option<X1>,
    b: Option<X2>,
    post: spec_fn(X1, X2, XR) -> bool,
    out: Option<XR>,
) -> bool {
    match (a, b) {
        (Some(x), Some(y)) => out is Some && post(x, y, out->0),
        _ => out is None,
    }
}

impl<X, Y, Z> OptionEffect<X, Y, Z> {
    /// The witness; the argument only fixes the last type parameter.
    pub fn new(_z: Z) -> Self {
        OptionEffect { _a: PhantomData, _b: PhantomData, _c: PhantomData }
    }

    /// Merges two optional values with `func` if both are present.
    pub fn combine_options<X1, X2, XR, Func>(a: Option<X1>, b: Option<X2>, func: Func) -> (out:
        Option<XR>) where Func: FnOnce(X1, X2) -> XR
        requires
            a is Some && b is Some ==> func.requires((a->0, b->0)),
        ensures
            combine_options_ensures(a, b, |x: X1, y: X2, r: XR| func.ensures((x, y), r), out),
    {
        match a {
            Some(i) => match b {
                Some(j) => Some(func(i, j)),
                None => None,
            },
            None => None,
        }
    }
}

impl<X, Y, Z> Effect for OptionEffect<X, Y, Z> {

}

impl<X, X2, XR> Semigroup<Option<X>, Option<X2>, Option<XR>> for OptionEffect<X, X2, XR> where
    X: SemigroupEffect<X, X2, XR> + SemigroupEffect<X, XR, XR>,
    X2: SemigroupEffect<X2, XR, XR>,
    XR: MonoidEffect<XR>,
 {
    open spec fn combine_requires(a: Option<X>, b: Option<X2>) -> bool {
        match (a, b) {
            (None, None) => true,
            (Some(x), None) => forall|e: XR| #[trigger]
                <XR as MonoidEffect<XR>>::Fct::empty_ensures(e) ==> <<X as SemigroupEffect<
                    X,
                    XR,
                    XR,
                >>::Fct as Semigroup<X, XR, XR>>::combine_requires(x, e),
            (None, Some(y)) => forall|e: XR| #[trigger]
                <XR as MonoidEffect<XR>>::Fct::empty_ensures(e) ==> <<X2 as SemigroupEffect<
                    X2,
                    XR,
                    XR,
                >>::Fct as Semigroup<X2, XR, XR>>::combine_requires(y, e),
            (Some(x), Some(y)) => <<X as SemigroupEffect<X, X2, XR>>::Fct as Semigroup<
                X,
                X2,
                XR,
            >>::combine_requires(x, y),
        }
    }

    open spec fn combine_ensures(a: Option<X>, b: Option<X2>, out: Option<XR>) -> bool {
        match (a, b) {
            (None, None) => out is None,
            (Some(x), None) => out is Some && exists|e: XR| #[trigger]
                <XR as MonoidEffect<XR>>::Fct::empty_ensures(e) && <<X as SemigroupEffect<
                    X,
                    XR,
                    XR,
                >>::Fct as Semigroup<X, XR, XR>>::combine_ensures(x, e, out->0),
            (None, Some(y)) => out is Some && exists|e: XR| #[trigger]
                <XR as MonoidEffect<XR>>::Fct::empty_ensures(e) && <<X2 as SemigroupEffect<
                    X2,
                    XR,
                    XR,
                >>::Fct as Semigroup<X2, XR, XR>>::combine_ensures(y, e, out->0),
            (Some(x), Some(y)) => out is Some && <<X as SemigroupEffect<
                X,
                X2,
                XR,
            >>::Fct as Semigroup<X, X2, XR>>::combine_ensures(x, y, out->0),
        }
    }

    fn combine(a: Option<X>, b: Option<X2>) -> (out: Option<XR>) {
        match a {
            None => match b {
                None => None,
                Some(y) => Some(combine::<X2, XR, XR>(y, empty::<XR>())),
            },
            Some(x) => match b {
                None => Some(combine::<X, XR, XR>(x, empty::<XR>())),
                Some(y) => Some(combine::<X, X2, XR>(x, y)),
            },
        }
    }
}

impl<'a, X> SemigroupInner<'a, Option<X>, X> for OptionEffect<X, X, X> where X: 'a {
    open spec fn combine_inner_requires(
        a: Option<X>,
        b: Option<X>,
        pre: spec_fn(X, X) -> bool,
    ) -> bool {
        a is Some && b is Some ==> pre(a->0, b->0)
    }

    open spec fn combine_inner_ensures(
        a: Option<X>,
        b: Option<X>,
        post: spec_fn(X, X, X) -> bool,
        out: Option<X>,
    ) -> bool {
        match (a, b) {
            (None, None) => out is None,
            (Some(x), None) => out == Some(x),
            (None, Some(y)) => out == Some(y),
            (Some(x), Some(y)) => out is Some && post(x, y, out->0),
        }
    }

    fn combine_inner<TO>(a: Option<X>, b: Option<X>) -> (out: Option<X>) where
        TO: 'a + Semigroup<X, X, X>,
     {
        match a {
            None => b,
            Some(x) => match b {
                None => Some(x),
                Some(y) => Some(TO::combine(x, y)),
            },
        }
    }
}

impl<X, Y, Z> Monoid for OptionEffect<X, Y, Z> {
    type Output = Option<X>;

    open spec fn empty_ensures(out: Option<X>) -> bool {
        out is None
    }

    fn empty() -> (out: Option<X>) {
        None
    }
}

impl<'a, X, Y, Z> Functor<'a> for OptionEffect<X, Y, Z> {
    type X = X;

    type Y = Y;

    type FX = Option<X>;

    type FY = Option<Y>;

    open spec fn fmap_requires(f: Option<X>, pre: spec_fn(X) -> bool) -> bool {
        f is Some ==> pre(f->0)
    }

    open spec fn fmap_ensures(f: Option<X>, post: spec_fn(X, Y) -> bool, out: Option<Y>) -> bool {
        match f {
            Some(x) => out is Some && post(x, out->0),
            None => out is None,
        }
    }

    proof fn fmap_ensures_weaken(
        f: Option<X>,
        p: spec_fn(X, Y) -> bool,
        q: spec_fn(X, Y) -> bool,
        out: Option<Y>,
    ) {
    }

    fn fmap<Func: 'a + Fn(X) -> Y + Send + Sync>(f: Option<X>, func: Func) -> (out: Option<Y>) {
        match f {
            Some(x) => Some(func(x)),
            None => None,
        }
    }
}

impl<'a, X, Y, Z> Applicative<'a> for OptionEffect<X, Y, Z> {
    open spec fn pure_ensures(x: X, out: Option<X>) -> bool {
        out == Some(x)
    }

    fn pure(x: X) -> (out: Option<X>) {
        Some(x)
    }
}

impl<'a, X, Y, Z, M> ApplicativeApply<'a, M> for OptionEffect<X, Y, Z> where
    M: 'a + Fn(X) -> Y + Send + Sync,
 {
    type FMapper = Option<M>;

    open spec fn apply_requires(func: Option<M>, x: Option<X>) -> bool {
        func is Some && x is Some ==> call_requires(func->0, (x->0,))
    }

    open spec fn apply_ensures(func: Option<M>, x: Option<X>, out: Option<Y>) -> bool {
        match (func, x) {
            (Some(g), Some(v)) => out is Some && call_ensures(g, (v,), out->0),
            _ => out is None,
        }
    }

    fn apply(func: Option<M>, x: Option<X>) -> (out: Option<Y>) {
        match func {
            Some(g) => match x {
                Some(v) => Some(g(v)),
                None => None,
            },
            None => None,
        }
    }
}

impl<'a, X, Y, Z> Functor2<'a> for OptionEffect<X, Y, Z> {
    type Z = Z;

    type FZ = Option<Z>;

    open spec fn fmap2_requires(fa: Option<X>, fb: Option<Y>, pre: spec_fn(X, Y) -> bool) -> bool {
        fa is Some && fb is Some ==> pre(fa->0, fb->0)
    }

    open spec fn fmap2_ensures(
        fa: Option<X>,
        fb: Option<Y>,
        post: spec_fn(X, Y, Z) -> bool,
        out: Option<Z>,
    ) -> bool {
        combine_options_ensures(fa, fb, post, out)
    }

    proof fn fmap2_requires_total(fa: Option<X>, fb: Option<Y>, pre: spec_fn(X, Y) -> bool) {
    }

    proof fn fmap2_ensures_weaken(
        fa: Option<X>,
        fb: Option<Y>,
        p: spec_fn(X, Y, Z) -> bool,
        q: spec_fn(X, Y, Z) -> bool,
        out: Option<Z>,
    ) {
    }

    fn fmap2<Func: 'a + Fn(X, Y) -> Z + Send + Sync>(
        fa: Option<X>,
        fb: Option<Y>,
        func: Func,
    ) -> (out: Option<Z>) {
        match fa {
            Some(x) => match fb {
                Some(y) => Some(func(x, y)),
                None => None,
            },
            None => None,
        }
    }
}

impl<'a, X, Y, Z> Monad<'a> for OptionEffect<X, Y, Z> {
    open spec fn flat_map_requires(f: Option<X>, pre: spec_fn(X) -> bool) -> bool {
        f is Some ==> pre(f->0)
    }

    open spec fn flat_map_ensures(
        f: Option<X>,
        post: spec_fn(X, Option<Y>) -> bool,
        out: Option<Y>,
    ) -> bool {
        match f {
            Some(x) => post(x, out),
            None => out is None,
        }
    }

    proof fn flat_map_ensures_weaken(
        f: Option<X>,
        p: spec_fn(X, Option<Y>) -> bool,
        q: spec_fn(X, Option<Y>) -> bool,
        out: Option<Y>,
    ) {
    }

    fn flat_map<Func: 'a + Fn(X) -> Option<Y> + Send + Sync>(f: Option<X>, func: Func) -> (out:
        Option<Y>) {
        match f {
            Some(x) => func(x),
            None => None,
        }
    }
}

impl<'a, X, Y, Z> Foldable<'a> for OptionEffect<X, Y, Z> {
    type Y2 = Y;

    open spec fn fold_requires(
        f: Option<X>,
        init: Y,
        pre: spec_fn(Y, X) -> bool,
        post: spec_fn(Y, X, Y) -> bool,
    ) -> bool {
        f is Some ==> pre(init, f->0)
    }

    open spec fn fold_ensures(
        f: Option<X>,
        init: Y,
        post: spec_fn(Y, X, Y) -> bool,
        out: Y,
    ) -> bool {
        match f {
            Some(x) => post(init, x, out),
            None => out == init,
        }
    }

    proof fn fold_ensures_weaken(
        f: Option<X>,
        init: Y,
        p: spec_fn(Y, X, Y) -> bool,
        q: spec_fn(Y, X, Y) -> bool,
        out: Y,
    ) {
    }

    fn fold<Func: 'a + Fn(Y, X) -> Y + Send + Sync>(f: Option<X>, init: Y, func: Func) -> (out: Y) {
        match f {
            Some(i) => func(init, i),
            None => init,
        }
    }
}

impl<'a, X, Y, Z> MonadError<'a> for OptionEffect<X, Y, Z> {
    type E = ();

    open spec fn raise_error_ensures(err: (), out: Option<X>) -> bool {
        out is None
    }

    open spec fn handle_error_requires(f: Option<X>, pre: spec_fn(()) -> bool) -> bool {
        f is None ==> pre(())
    }

    open spec fn handle_error_ensures(
        f: Option<X>,
        post: spec_fn((), Option<X>) -> bool,
        out: Option<X>,
    ) -> bool {
        match f {
            Some(x) => out == Some(x),
            None => post((), out),
        }
    }

    fn raise_error(_err: ()) -> (out: Option<X>) {
        None
    }

    proof fn handle_error_ensures_weaken(
        f: Option<X>,
        p: spec_fn((), Option<X>) -> bool,
        q: spec_fn((), Option<X>) -> bool,
        out: Option<X>,
    ) {
    }

    fn handle_error<Func: 'a + Send + Sync + Fn(()) -> Option<X>>(
        f: Option<X>,
        recovery: Func,
    ) -> (out: Option<X>) {
        match f {
            Some(x) => Some(x),
            None => recovery(()),
        }
    }
}

impl<'a, X, Y, Z> Attempt<'a> for OptionEffect<X, Y, Z> {
    open spec fn attempt_ensures(f: Option<X>, out: Result<X, ()>) -> bool {
        match f {
            Some(x) => out == Ok::<X, ()>(x),
            None => out == Err::<X, ()>(()),
        }
    }

    fn attempt(f: Option<X>) -> (out: Result<X, ()>) {
        match f {
            Some(x) => Ok(x),
            None => Err(()),
        }
    }
}

impl<'a, X, Y> Productable<'a> for OptionEffect<X, Y, (X, Y)> {

}

} // verus!
