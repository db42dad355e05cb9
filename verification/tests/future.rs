use futures::executor::block_on;
use futures::future::{lazy, ready};
use rust_effects::future::{
    combine_future_inner, fut, vfold, ConcreteFuture, FutureEffect, SemigroupFutureInner,
};
use rust_effects::typeclasses::applicative::{pure, ApplicativeApply};
use rust_effects::typeclasses::functor::{fmap, fmap2};
use rust_effects::typeclasses::monad::{flat_map, fold};
use rust_effects::typeclasses::monoid::empty;
use rust_effects::typeclasses::product::product;
use rust_effects::typeclasses::semigroup::{
    combine, combine_inner, IntMulSemigroup, SemigroupInner,
};
use rust_effects::typeclasses::traverse::traverse;
use std::sync::atomic::{AtomicUsize, Ordering};
use std::sync::{Arc, Mutex};

fn run<X>(f: ConcreteFuture<X>) -> X {
    block_on(f.into_inner().boxed)
}

#[test]
fn future_test_semigroup() {
    block_on(async {
        let f1: ConcreteFuture<u32> = pure(1);
        let f2: ConcreteFuture<u32> = pure(2);
        let fr = combine(f1, f2);
        assert_eq!(fr.into_inner().boxed.await, 3);

        let f1: ConcreteFuture<u32> = pure(3);
        let f2: ConcreteFuture<u32> = pure(5);
        let fr = FutureEffect::combine_inner::<IntMulSemigroup>(f1, f2);
        assert_eq!(fr.into_inner().boxed.await, 15);
    });
}

#[test]
fn future_test_monoid() {
    block_on(async {
        let f: ConcreteFuture<u32> = empty();
        assert_eq!(f.into_inner().boxed.await, 0);
    });
}

#[test]
fn future_test_applicative() {
    block_on(async {
        let f: ConcreteFuture<u32> = pure(3u32);
        assert_eq!(f.into_inner().boxed.await, 3);
        let f: ConcreteFuture<Result<&str, ()>> = pure(Ok("test"));
        assert_eq!(f.into_inner().boxed.await, Ok("test"));
    });
}

#[test]
fn future_test_functor() {
    block_on(async {
        let f: ConcreteFuture<u32> = pure(3u32);
        let f = fmap(f, |i| format!("{} strings", i));
        assert_eq!(f.into_inner().boxed.await, "3 strings".to_string());
    });
}

#[test]
fn future_test_monad() {
    block_on(async {
        let f: ConcreteFuture<u32> = pure(3u32);
        let f2 = flat_map(f, |i| ConcreteFuture::new(lazy(move |_| format!("{} strings", i))));
        assert_eq!(f2.into_inner().boxed.await, "3 strings".to_string());
    });

    block_on(async {
        let f: ConcreteFuture<u32> = pure(3u32);
        let fr = fold(f, 10u32, |y, x| y + x);
        assert_eq!(fr.into_inner().boxed.await, 13);
    });

    block_on(async {
        let fs = vec![
            pure(3),
            ConcreteFuture::new(ready(10u32)),
            ConcreteFuture::new(lazy(|_| 4u32)),
        ];
        let fr = vfold(fs, 0u32, |y, x| y + x);
        assert_eq!(fr.into_inner().boxed.await, 17);
    });
}

#[test]
fn future_test_product() {
    block_on(async {
        let f1: ConcreteFuture<u32> = pure(3u32);
        let f2: ConcreteFuture<&str> = pure("strings");
        let f = product(f1, f2);
        assert_eq!(f.into_inner().boxed.await, (3, "strings"));
    });
}

#[test]
fn future_test_traverse() {
    block_on(async {
        let fs: Vec<u32> = vec![3, 10, 4];
        let fr = traverse(fs, |x| ConcreteFuture::new(ready(x + 5)));
        assert_eq!(fr.into_inner().boxed.await, vec![8, 15, 9]);
    });
}

#[test]
fn future_wrappers_build_the_same_thing() {
    assert_eq!(7, run(fut(ready(7u32))));
    assert_eq!(7, run(ConcreteFuture::new(ready(7u32))));
    let _w: FutureEffect<u32, u32, ()> = FutureEffect::new(());
}

#[test]
fn future_combinators_run_nothing_until_driven() {
    let calls = Arc::new(AtomicUsize::new(0));
    let c1 = calls.clone();
    let c2 = calls.clone();
    let c3 = calls.clone();
    let f: ConcreteFuture<u32> = pure(3);
    let f = fmap(f, move |x| {
        c1.fetch_add(1, Ordering::SeqCst);
        x + 1
    });
    let f = flat_map(f, move |x| {
        c2.fetch_add(1, Ordering::SeqCst);
        pure::<ConcreteFuture<u32>>(x * 2)
    });
    let f = fold(f, 100u32, move |acc, x| {
        c3.fetch_add(1, Ordering::SeqCst);
        acc + x
    });
    assert_eq!(0, calls.load(Ordering::SeqCst));
    assert_eq!(108, run(f));
    assert_eq!(3, calls.load(Ordering::SeqCst));
}

#[test]
fn future_fmap2_drives_first_before_second() {
    let log: Arc<Mutex<Vec<&'static str>>> = Arc::new(Mutex::new(Vec::new()));
    let la = log.clone();
    let lb = log.clone();
    let a: ConcreteFuture<u32> = ConcreteFuture::new(lazy(move |_| {
        la.lock().unwrap().push("a");
        2
    }));
    let b: ConcreteFuture<u32> = ConcreteFuture::new(lazy(move |_| {
        lb.lock().unwrap().push("b");
        5
    }));
    let c = fmap2(a, b, |x, y| x * 10 + y);
    assert!(log.lock().unwrap().is_empty());
    assert_eq!(25, run(c));
    assert_eq!(vec!["a", "b"], *log.lock().unwrap());
}

#[test]
fn future_combine_inner_free_function() {
    let f1: ConcreteFuture<u32> = pure(3);
    let f2: ConcreteFuture<u32> = pure(5);
    let fr = combine_inner::<_, _, IntMulSemigroup>(f1, f2);
    assert_eq!(15, run(fr));
}

#[test]
fn future_apply_calls_yielded_function() {
    let g: ConcreteFuture<fn(u32) -> u32> = pure((|x| x + 1) as fn(u32) -> u32);
    let x: ConcreteFuture<u32> = pure(41);
    let out = <FutureEffect<u32, u32, ()> as ApplicativeApply<fn(u32) -> u32>>::apply(g, x);
    assert_eq!(42, run(out));
}

#[test]
fn future_vfold_goes_in_order() {
    let fs: Vec<ConcreteFuture<u32>> = vec![pure(1), pure(2), pure(3)];
    let fr = vfold(fs, String::new(), |acc, x| format!("{}{}", acc, x));
    assert_eq!("123", run(fr));
    let none: Vec<ConcreteFuture<u32>> = vec![];
    assert_eq!(9, run(vfold(none, 9u32, |acc, x| acc + x)));
}

#[test]
fn future_traverse_of_nothing() {
    let none: Vec<u32> = vec![];
    let fr = traverse(none, |x: u32| ConcreteFuture::new(ready(x)));
    assert_eq!(Vec::<u32>::new(), run(fr));
}

#[test]
fn future_laws_on_values() {
    let same: ConcreteFuture<u32> = fmap(pure::<ConcreteFuture<u32>>(5), |x| x);
    assert_eq!(5, run(same));
    let f = |x: u32| x + 1;
    let g = |x: u32| x * 2;
    let twice = fmap(fmap(pure::<ConcreteFuture<u32>>(5), f), g);
    let once = fmap(pure::<ConcreteFuture<u32>>(5), move |x| g(f(x)));
    assert_eq!(run(twice), run(once));
    let k = |x: u32| pure::<ConcreteFuture<u32>>(x + 7);
    let left = flat_map(pure::<ConcreteFuture<u32>>(1), k);
    assert_eq!(run(k(1)), run(left));
}

#[test]
fn future_combine_future_inner() {
    let f1: ConcreteFuture<u32> = pure(3);
    let f2: ConcreteFuture<u32> = pure(5);
    let fr = FutureEffect::combine_future_inner::<IntMulSemigroup>(f1, f2);
    assert_eq!(15, run(fr));

    let f1: ConcreteFuture<u32> = pure(3);
    let f2: ConcreteFuture<u32> = pure(5);
    let fr = combine_future_inner::<_, _, IntMulSemigroup>(f1, f2);
    assert_eq!(15, run(fr));
}
