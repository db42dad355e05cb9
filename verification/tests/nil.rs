use std::sync::atomic::{AtomicUsize, Ordering};
use rust_effects::typeclasses::applicative::Applicative;
use rust_effects::typeclasses::functor::{Functor, Functor2};
use rust_effects::typeclasses::monad::{Foldable, Monad};
use rust_effects::typeclasses::monaderror::{Attempt, MonadError};
use rust_effects::typeclasses::product::Productable;
use rust_effects::typeclasses::synct::{delay, suspend, SyncT};
use rust_effects::{Empty, NilEffect};

#[test]
fn nil_effect_never_calls_its_functions() {
    let calls = AtomicUsize::new(0);
    let _e: Empty = NilEffect::fmap(Empty, |_| {
        calls.fetch_add(1, Ordering::SeqCst);
    });
    let _e: Empty = NilEffect::pure(());
    let _e: Empty = NilEffect::fmap2(Empty, Empty, |_, _| {
        calls.fetch_add(1, Ordering::SeqCst);
        ((), ())
    });
    let _e: Empty = NilEffect::flat_map(Empty, |_| {
        calls.fetch_add(1, Ordering::SeqCst);
        Empty
    });
    NilEffect::fold(Empty, (), |_, _| {
        calls.fetch_add(1, Ordering::SeqCst);
    });
    let _e: Empty = NilEffect::raise_error(());
    let _e: Empty = NilEffect::handle_error(Empty, |_| {
        calls.fetch_add(1, Ordering::SeqCst);
        Empty
    });
    assert_eq!(Ok(()), NilEffect::attempt(Empty));
    let _e: Empty = NilEffect::product(Empty, Empty);
    let _e: Empty = NilEffect::suspend(|| {
        calls.fetch_add(1, Ordering::SeqCst);
        Empty
    });
    let _e: Empty = NilEffect::delay(|| {
        calls.fetch_add(1, Ordering::SeqCst);
    });
    let _e: Empty = suspend(NilEffect, || Empty);
    let _e: Empty = delay(NilEffect, || ());
    assert_eq!(0, calls.load(Ordering::SeqCst));
}
