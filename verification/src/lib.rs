//! A small effect algebra: producing, mapping, sequencing, folding, combining,
//! pairing and traversing, spelled once and resolved per container type.
//!
//! The containers are the optional value, the fallible result, the sequence,
//! and the deferred computation with the IO wrapper built on it.

use vstd::prelude::*;
use crate::typeclasses::{Effect, F};
use crate::typeclasses::applicative::Applicative;
use crate::typeclasses::functor::{Functor, Functor2};
use crate::typeclasses::monad::{Foldable, Monad};
use crate::typeclasses::monaderror::{Attempt, MonadError};
use crate::typeclasses::product::Productable;
use crate::typeclasses::synct::SyncT;

pub mod typeclasses;
pub mod option;
pub mod result;
pub mod vec;
pub mod future;
pub mod futureresult;
pub mod effects;
pub mod laws;
pub mod prelude;

verus! {

/// The container that never holds anything.
pub struct Empty;

impl<T> F<T> for Empty {

}

/// The witness for [`Empty`]: every operation gives back the empty container
/// and calls none of the functions it is handed.
pub struct NilEffect;

impl Effect for NilEffect {

}

impl<'a> Functor<'a> for NilEffect {
    type X = ();

    type Y = ();

    type FX = Empty;

    type FY = Empty;

    open spec fn fmap_requires(f: Empty, pre: spec_fn(()) -> bool) -> bool {
        true
    }

    open spec fn fmap_ensures(f: Empty, post: spec_fn((), ()) -> bool, out: Empty) -> bool {
        out == Empty
    }

    proof fn fmap_ensures_weaken(
        f: Empty,
        p: spec_fn((), ()) -> bool,
        q: spec_fn((), ()) -> bool,
        out: Empty,
    ) {
    }

    fn fmap<Func: 'a + Fn(()) -> () + Send + Sync>(_f: Empty, _func: Func) -> (out: Empty) {
        Empty
    }
}

impl<'a> Applicative<'a> for NilEffect {
    open spec fn pure_ensures(x: (), out: Empty) -> bool {
        out == Empty
    }

    fn pure(_x: ()) -> (out: Empty) {
        Empty
    }
}

impl<'a> Functor2<'a> for NilEffect {
    type Z = ((), ());

    type FZ = Empty;

    open spec fn fmap2_requires(fa: Empty, fb: Empty, pre: spec_fn((), ()) -> bool) -> bool {
        true
    }

    open spec fn fmap2_ensures(
        fa: Empty,
        fb: Empty,
        post: spec_fn((), (), ((), ())) -> bool,
        out: Empty,
    ) -> bool {
        out == Empty
    }

    proof fn fmap2_requires_total(fa: Empty, fb: Empty, pre: spec_fn((), ()) -> bool) {
    }

    proof fn fmap2_ensures_weaken(
        fa: Empty,
        fb: Empty,
        p: spec_fn((), (), ((), ())) -> bool,
        q: spec_fn((), (), ((), ())) -> bool,
        out: Empty,
    ) {
    }

    fn fmap2<Func: 'a + Fn((), ()) -> ((), ()) + Send + Sync>(
        _fa: Empty,
        _fb: Empty,
        _func: Func,
    ) -> (out: Empty) {
        Empty
    }
}

impl<'a> Monad<'a> for NilEffect {
    open spec fn flat_map_requires(f: Empty, pre: spec_fn(()) -> bool) -> bool {
        true
    }

    open spec fn flat_map_ensures(f: Empty, post: spec_fn((), Empty) -> bool, out: Empty) -> bool {
        out == Empty
    }

    proof fn flat_map_ensures_weaken(
        f: Empty,
        p: spec_fn((), Empty) -> bool,
        q: spec_fn((), Empty) -> bool,
        out: Empty,
    ) {
    }

    fn flat_map<Func: 'a + Fn(()) -> Empty + Send + Sync>(_f: Empty, _func: Func) -> (out: Empty) {
        Empty
    }
}

impl<'a> Foldable<'a> for NilEffect {
    type Y2 = ();

    open spec fn fold_requires(
        f: Empty,
        init: (),
        pre: spec_fn((), ()) -> bool,
        post: spec_fn((), (), ()) -> bool,
    ) -> bool {
        true
    }

    open spec fn fold_ensures(
        f: Empty,
        init: (),
        post: spec_fn((), (), ()) -> bool,
        out: (),
    ) -> bool {
        out == init
    }

    proof fn fold_ensures_weaken(
        f: Empty,
        init: (),
        p: spec_fn((), (), ()) -> bool,
        q: spec_fn((), (), ()) -> bool,
        out: (),
    ) {
    }

    fn fold<Func: 'a + Fn((), ()) -> () + Send + Sync>(_f: Empty, init: (), _func: Func) -> (out:
        ()) {
        init
    }
}

impl<'a> MonadError<'a> for NilEffect {
    type E = ();

    open spec fn raise_error_ensures(err: (), out: Empty) -> bool {
        out == Empty
    }

    open spec fn handle_error_requires(f: Empty, pre: spec_fn(()) -> bool) -> bool {
        true
    }

    open spec fn handle_error_ensures(
        f: Empty,
        post: spec_fn((), Empty) -> bool,
        out: Empty,
    ) -> bool {
        out == Empty
    }

    fn raise_error(_err: ()) -> (out: Empty) {
        Empty
    }

    proof fn handle_error_ensures_weaken(
        f: Empty,
        p: spec_fn((), Empty) -> bool,
        q: spec_fn((), Empty) -> bool,
        out: Empty,
    ) {
    }

    fn handle_error<Func: 'a + Send + Sync + Fn(()) -> Empty>(_f: Empty, _recovery: Func) -> (out:
        Empty) {
        Empty
    }
}

impl<'a> Attempt<'a> for NilEffect {
    open spec fn attempt_ensures(f: Empty, out: Result<(), ()>) -> bool {
        out == Ok::<(), ()>(())
    }

    fn attempt(_f: Empty) -> (out: Result<(), ()>) {
        Ok(())
    }
}

impl<'a> Productable<'a> for NilEffect {

}

impl<'a> SyncT<'a> for NilEffect {
    open spec fn suspend_ensures(post: spec_fn(Empty) -> bool, out: Empty) -> bool {
        out == Empty
    }

    proof fn suspend_ensures_weaken(
        p: spec_fn(Empty) -> bool,
        q: spec_fn(Empty) -> bool,
        out: Empty,
    ) {
    }

    fn suspend<Func: 'a + Fn() -> Empty + Send + Sync>(_thunk: Func) -> (out: Empty) {
        Empty
    }
}

} // verus!
