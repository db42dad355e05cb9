use futures::executor::block_on;
use futures::future::{lazy, ready};
use rust_effects::futureresult::{fut_res, ConcreteFutureResult, FutureResultEffect};
use rust_effects::typeclasses::applicative::{apply, pure};
use rust_effects::typeclasses::functor::{fmap, fmap2};
use rust_effects::typeclasses::monad::{flat_map, fold};
use rust_effects::typeclasses::monaderror::{handle_error, raise_error};
use rust_effects::typeclasses::monoid::empty;
use rust_effects::typeclasses::product::product;
use rust_effects::typeclasses::semigroup::{
    combine, combine_inner, IntMulSemigroup, SemigroupInner,
};
use rust_effects::typeclasses::traverse::traverse;
use std::sync::atomic::{AtomicUsize, Ordering};
use std::sync::{Arc, Mutex};

fn run<X, E>(f: ConcreteFutureResult<X, E>) -> Result<X, E> {
    block_on(f.inner.into_inner().boxed)
}

#[test]
fn futureresult_test_semigroup() {
    block_on(async {
        let f1: ConcreteFutureResult<u32, ()> = pure(1);
        let f2: ConcreteFutureResult<u32, ()> = pure(2);
        let fr = combine(f1, f2);
        assert_eq!(fr.inner.into_inner().boxed.await, Ok(3));

        let f1: ConcreteFutureResult<u32, ()> = pure(3);
        let f2: ConcreteFutureResult<u32, ()> = pure(5);
        let fr = FutureResultEffect::combine_inner::<IntMulSemigroup>(f1, f2);
        assert_eq!(fr.inner.into_inner().boxed.await, Ok(15));
    });
}

#[test]
fn futureresult_test_monoid() {
    block_on(async {
        let f: ConcreteFutureResult<u32, ()> = empty();
        assert_eq!(f.inner.into_inner().boxed.await, Ok(0));
    });
}

#[test]
fn futureresult_test_applicative() {
    block_on(async {
        let f: ConcreteFutureResult<u32, ()> = pure(3u32);
        assert_eq!(f.inner.into_inner().boxed.await, Ok(3));
        let f: ConcreteFutureResult<Result<&str, ()>, ()> = pure(Ok("test"));
        assert_eq!(f.inner.into_inner().boxed.await, Ok(Ok("test")));
    });
}

#[test]
fn futureresult_test_apply() {
    block_on(async {
        let f: ConcreteFutureResult<_, ()> = pure(3u32);
        let func: ConcreteFutureResult<_, ()> = pure(move |x: u32| format!("{} strings", x));
        let f = apply(func, f);
        assert_eq!(f.inner.into_inner().boxed.await, Ok("3 strings".to_string()));

        let f1: ConcreteFutureResult<_, ()> = pure(3u32);
        let f2: ConcreteFutureResult<_, ()> = pure(6);
        let func: ConcreteFutureResult<_, ()> = pure(|x: u32| move |y: u32| x + y);
        let f = apply(func, f1);
        let f: ConcreteFutureResult<_, ()> = apply(f, f2);
        assert_eq!(f.inner.into_inner().boxed.await, Ok(9));

        let f1: ConcreteFutureResult<i32, ()> = empty();
        let f2: ConcreteFutureResult<_, ()> = pure(6);
        let func: ConcreteFutureResult<_, ()> = pure(|x: i32| move |y: i32| x + y);
        let f = apply(func, f1);
        let f: ConcreteFutureResult<_, ()> = apply(f, f2);
        assert_eq!(f.inner.into_inner().boxed.await, Ok(6));

        let f1: ConcreteFutureResult<i32, ()> = raise_error(());
        let f2: ConcreteFutureResult<_, ()> = pure(6);
        let func: ConcreteFutureResult<_, ()> = pure(|x: i32| move |y: i32| x + y);
        let f = apply(func, f1);
        let f: ConcreteFutureResult<_, ()> = apply(f, f2);
        assert_eq!(f.inner.into_inner().boxed.await, Err(()));
    });
}

#[test]
fn futureresult_test_functor() {
    block_on(async {
        let f: ConcreteFutureResult<u32, ()> = pure(3u32);
        let f = fmap(f, |i| format!("{} strings", i));
        assert_eq!(f.inner.into_inner().boxed.await, Ok("3 strings".to_string()));
    });

    block_on(async {
        let f: ConcreteFutureResult<u32, ()> = empty();
        let f = fmap(f, |i| format!("{} strings", i));
        assert_eq!(f.inner.into_inner().boxed.await, Ok("0 strings".to_string()));
    });
}

#[test]
fn futureresult_test_monad() {
    block_on(async {
        let f: ConcreteFutureResult<u32, ()> = pure(3u32);
        let f2 = flat_map(f, |i| {
            ConcreteFutureResult::new(lazy(move |_| Ok(format!("{} strings", i))))
        });
        assert_eq!(f2.inner.into_inner().boxed.await, Ok("3 strings".to_string()));
    });

    block_on(async {
        let f: ConcreteFutureResult<u32, ()> = pure(3u32);
        let fr = fold(f, 10u32, |y, x| y + x);
        assert_eq!(fr.inner.into_inner().boxed.await, Ok(13));
    });

    block_on(async {
        let f: ConcreteFutureResult<u32, &'static str> = pure(3u32);
        let f: ConcreteFutureResult<u32, &'static str> =
            flat_map(f, |_| ConcreteFutureResult::new(lazy(move |_| Err("Good error"))));
        let f = flat_map(f, |_| {
            ConcreteFutureResult::new(lazy(move |_| Ok(format!("Shouldn't run this"))))
        });
        assert_eq!(f.inner.into_inner().boxed.await, Err("Good error"));
    });
}

#[test]
fn test_monad_error() {
    block_on(async {
        let f: ConcreteFutureResult<u32, u32> = pure(3u32);
        let f: ConcreteFutureResult<String, u32> = flat_map(f, |i| match i % 2 {
            0 => pure("Good".to_string()),
            _ => raise_error(i),
        });
        assert_eq!(f.inner.into_inner().boxed.await, Err(3));
    });

    block_on(async {
        let f: ConcreteFutureResult<u32, u32> = pure(3u32);
        let f: ConcreteFutureResult<String, u32> = flat_map(f, |i| match i % 2 {
            0 => pure("Good".to_string()),
            _ => raise_error(i),
        });
        let f: ConcreteFutureResult<String, u32> = handle_error(f, |e| pure(format!("{}", e)));

        assert_eq!(f.inner.into_inner().boxed.await, Ok("3".to_string()));
    });

    let f: ConcreteFutureResult<u32, u32> = pure(3u32);
    let f: ConcreteFutureResult<String, u32> = flat_map(f, |i| match i % 2 {
        0 => pure("Good".to_string()),
        _ => raise_error(i),
    });
    let r = run(f);

    assert_eq!(r, Err(3));
}

#[test]
fn futureresult_test_product() {
    block_on(async {
        let f1: ConcreteFutureResult<u32, ()> = pure(3u32);
        let f2: ConcreteFutureResult<&str, ()> = pure("strings");
        let f = product(f1, f2);
        assert_eq!(f.inner.into_inner().boxed.await, Ok((3, "strings")));
    });
}

#[test]
fn futureresult_traverse() {
    let fs: Vec<u32> = vec![3, 10, 4];
    let fr = traverse(fs, |x| ConcreteFutureResult::<u32, ()>::new(ready(Ok(x + 5))));
    assert_eq!(run(fr), Ok(vec![8, 15, 9]));

    let fs: Vec<u32> = vec![3, 10, 4];
    let fr = traverse(fs, |x| {
        ConcreteFutureResult::<u32, u32>::new(match x % 2 {
            0 => ready(Ok(x + 5)),
            _ => ready(Err(x)),
        })
    });
    assert_eq!(run(fr), Err(3));
}

#[test]
fn futureresult_flat_map_on_failure_never_calls_function() {
    let calls = Arc::new(AtomicUsize::new(0));
    let c = calls.clone();
    let failed: ConcreteFutureResult<u32, &'static str> = raise_error("down");
    let out: ConcreteFutureResult<u32, &'static str> = flat_map(failed, move |x| {
        c.fetch_add(1, Ordering::SeqCst);
        pure(x + 1)
    });
    assert_eq!(Err("down"), run(out));
    assert_eq!(0, calls.load(Ordering::SeqCst));

    let c = calls.clone();
    let failed: ConcreteFutureResult<u32, &'static str> = raise_error("down");
    let out: ConcreteFutureResult<u32, &'static str> = fmap(failed, move |x| {
        c.fetch_add(1, Ordering::SeqCst);
        x + 1
    });
    assert_eq!(Err("down"), run(out));
    assert_eq!(0, calls.load(Ordering::SeqCst));
}

#[test]
fn futureresult_steps_decide_on_the_outcome() {
    let mid = FutureResultEffect::<&str, u32, u32, ()>::flat_map_step(Ok(2), |x| pure(x + 1));
    assert_eq!(Ok(3), run(mid));
    let mid = FutureResultEffect::<&str, u32, u32, ()>::flat_map_step(Err("e"), |x| pure(x + 1));
    assert_eq!(Err("e"), run(mid));
    let mid = FutureResultEffect::<&str, u32, (), ()>::handle_error_step(Ok(2), |_| pure(0));
    assert_eq!(Ok(2), run(mid));
    let mid = FutureResultEffect::<&str, u32, (), ()>::handle_error_step(Err("e"), |_| pure(0));
    assert_eq!(Ok(0), run(mid));
    let mid = FutureResultEffect::<&str, u32, (), ()>::handle_error_step(Err("e"), |_| {
        raise_error("again")
    });
    assert_eq!(Err("again"), run(mid));
}

#[test]
fn futureresult_handle_error_leaves_success_alone() {
    let calls = Arc::new(AtomicUsize::new(0));
    let c = calls.clone();
    let ok: ConcreteFutureResult<u32, u32> = pure(1);
    let out: ConcreteFutureResult<u32, u32> = handle_error(ok, move |e| {
        c.fetch_add(1, Ordering::SeqCst);
        pure(e)
    });
    assert_eq!(Ok(1), run(out));
    assert_eq!(0, calls.load(Ordering::SeqCst));
}

#[test]
fn futureresult_first_failure_wins_and_both_are_driven() {
    let log: Arc<Mutex<Vec<&'static str>>> = Arc::new(Mutex::new(Vec::new()));
    let la = log.clone();
    let lb = log.clone();
    let a: ConcreteFutureResult<u32, &'static str> = fut_res(lazy(move |_| {
        la.lock().unwrap().push("a");
        Err("left")
    }));
    let b: ConcreteFutureResult<u32, &'static str> = fut_res(lazy(move |_| {
        lb.lock().unwrap().push("b");
        Err("right")
    }));
    let out: ConcreteFutureResult<u32, &'static str> = fmap2(a, b, |x, y| x + y);
    assert!(log.lock().unwrap().is_empty());
    assert_eq!(Err("left"), run(out));
    assert_eq!(vec!["a", "b"], *log.lock().unwrap());

    let a: ConcreteFutureResult<u32, &'static str> = pure(1);
    let b: ConcreteFutureResult<u32, &'static str> = raise_error("right");
    assert_eq!(Err("right"), run(combine(a, b)));
}

#[test]
fn futureresult_fold_passes_failure_on() {
    let failed: ConcreteFutureResult<u32, u8> = raise_error(4);
    let out = fold(failed, 10u32, |acc, x| acc + x);
    assert_eq!(Err(4), run(out));
}

#[test]
fn futureresult_combine_inner_free_function() {
    let f1: ConcreteFutureResult<u32, ()> = pure(3);
    let f2: ConcreteFutureResult<u32, ()> = pure(5);
    let fr = combine_inner::<_, _, IntMulSemigroup>(f1, f2);
    assert_eq!(Ok(15), run(fr));
    let _w: FutureResultEffect<(), u32, u32, ()> = FutureResultEffect::new(());
}

#[test]
fn futureresult_traverse_builds_every_effect_and_first_failure_wins() {
    let built: Arc<Mutex<Vec<u32>>> = Arc::new(Mutex::new(Vec::new()));
    let b = built.clone();
    let fr = traverse(vec![2u32, 5, 6, 7], move |x| {
        b.lock().unwrap().push(x);
        ConcreteFutureResult::<u32, u32>::new(match x % 2 {
            0 => ready(Ok(x)),
            _ => ready(Err(x)),
        })
    });
    assert_eq!(vec![2, 5, 6, 7], *built.lock().unwrap());
    assert_eq!(Err(5), run(fr));
}
