use futures::executor::block_on;
use rust_effects::effects::io::{unwrap_outcome, IoEffect, IO};
use rust_effects::futureresult::ConcreteFutureResult;
use rust_effects::typeclasses::applicative::{apply, pure};
use rust_effects::typeclasses::functor::{fmap, fmap2};
use rust_effects::typeclasses::monad::{flat_map, fold};
use rust_effects::typeclasses::monaderror::{handle_error, raise_error};
use rust_effects::typeclasses::monoid::empty;
use rust_effects::typeclasses::product::product;
use rust_effects::typeclasses::semigroup::{combine, combine_inner, IntMulSemigroup};
use rust_effects::typeclasses::synct::{delay, suspend};
use rust_effects::typeclasses::traverse::traverse;
use std::sync::atomic::{AtomicUsize, Ordering};
use std::sync::{Arc, Mutex};

fn attempt<X, E>(io: IO<X, E>) -> Result<X, E> {
    block_on(io.fut.inner.into_inner().boxed)
}

fn run_sync<X, E>(io: IO<X, E>) -> X {
    unwrap_outcome(attempt(io))
}

#[test]
fn test_io() {
    let t: IO<i32, ()> = IO::apply(move || {
        println!("Hello");
        println!("World");
        4
    });
    assert_eq!(4, run_sync(t));
}

#[test]
fn io_test_apply() {
    let t: IO<i32, ()> = pure(2);
    let func: IO<_, ()> = pure(move |x: i32| x + 4);
    let io: IO<_, ()> = apply(func, t);
    assert_eq!(Ok(6), attempt(io));

    let t1: IO<i32, ()> = pure(2);
    let t2: IO<i32, ()> = pure(4);
    let func: IO<_, ()> = pure(|y: i32| move |x: i32| x + y);
    let io: IO<_, ()> = apply(func, t1);
    let io: IO<_, ()> = apply(io, t2);
    assert_eq!(Ok(6), attempt(io));

    let t1: IO<i32, ()> = raise_error(());
    let t2: IO<i32, ()> = pure(4);
    let func: IO<_, ()> = pure(|y: i32| move |x: i32| x + y);
    let io: IO<_, ()> = apply(func, t1);
    let io: IO<_, ()> = apply(io, t2);
    assert_eq!(Err(()), attempt(io));
}

#[test]
fn test_sync() {
    let func = || {
        println!("Hello");
        println!("World");
        4u32
    };
    let t: IO<u32, ()> = delay(IoEffect::<(), u32, u32, ()>::apply(()), func);
    assert_eq!(4, run_sync(t));

    let func = || {
        println!("Hello");
        println!("World");
        pure(4)
    };
    let t: IO<i32, ()> = suspend(IoEffect::<(), i32, i32, ()>::apply(()), func);
    assert_eq!(4, run_sync(t));
}

#[test]
fn test_errors() {
    let t: IO<i32, u32> = IO::apply(move || {
        println!("Hello");
        println!("World");
        4
    });
    let t: IO<i32, u32> = flat_map(t, |_| raise_error(2u32));
    let t: IO<i32, u32> = handle_error(t, |_| pure(200));
    assert_eq!(attempt(t), Ok(200));
}

#[test]
fn io_round_trip() {
    let t: IO<u32, ()> = delay(IoEffect::<(), u32, u32, ()>::apply(()), || 4);
    assert_eq!(4, run_sync(t));
}

#[test]
fn io_chain_keeps_order_of_side_effects() {
    let log: Arc<Mutex<Vec<u32>>> = Arc::new(Mutex::new(Vec::new()));
    let l1 = log.clone();
    let l2 = log.clone();
    let l3 = log.clone();
    let first: IO<u32, ()> = delay(IoEffect::<(), u32, u32, ()>::apply(()), move || {
        l1.lock().unwrap().push(1);
        10
    });
    let chained: IO<u32, ()> = flat_map(first, move |x| {
        l2.lock().unwrap().push(2);
        let l3 = l3.clone();
        delay(IoEffect::<(), u32, u32, ()>::apply(()), move || {
            l3.lock().unwrap().push(3);
            x + 1
        })
    });
    assert!(log.lock().unwrap().is_empty());
    assert_eq!(11, run_sync(chained));
    assert_eq!(vec![1, 2, 3], *log.lock().unwrap());
}

#[test]
fn io_construction_does_not_run_the_thunk() {
    let calls = Arc::new(AtomicUsize::new(0));
    let c1 = calls.clone();
    let c2 = calls.clone();
    let c3 = calls.clone();
    let a: IO<u32, ()> = IO::apply(move || {
        c1.fetch_add(1, Ordering::SeqCst);
        1
    });
    let b: IO<u32, ()> = delay(IoEffect::<(), u32, u32, ()>::apply(()), move || {
        c2.fetch_add(1, Ordering::SeqCst);
        2
    });
    let c: IO<u32, ()> = suspend(IoEffect::<(), u32, u32, ()>::apply(()), move || {
        c3.fetch_add(1, Ordering::SeqCst);
        pure(3)
    });
    assert_eq!(0, calls.load(Ordering::SeqCst));
    assert_eq!(Ok(1), attempt(a));
    assert_eq!(1, calls.load(Ordering::SeqCst));
    assert_eq!(Ok(2), attempt(b));
    assert_eq!(Ok(3), attempt(c));
    assert_eq!(3, calls.load(Ordering::SeqCst));
}

#[test]
fn io_lazy_defers_its_function() {
    let calls = Arc::new(AtomicUsize::new(0));
    let c = calls.clone();
    let io: IO<u32, ()> = IO::lazy(move || {
        c.fetch_add(1, Ordering::SeqCst);
        pure(8)
    });
    assert_eq!(0, calls.load(Ordering::SeqCst));
    assert_eq!(8, run_sync(io));
    assert_eq!(1, calls.load(Ordering::SeqCst));
}

#[test]
fn io_lazy_passes_failure_on() {
    let io: IO<u32, &'static str> = IO::lazy(|| raise_error("down"));
    assert_eq!(Err("down"), attempt(io));
}

#[test]
fn unwrap_outcome_gives_the_payload() {
    let r: Result<u32, ()> = Ok(7);
    assert_eq!(7, unwrap_outcome(r));
}

#[test]
fn io_new_wraps_a_deferred_result() {
    let inner: ConcreteFutureResult<u32, ()> = pure(5);
    let io = IO::new(inner);
    assert_eq!(Ok(5), attempt(io));
}

#[test]
fn io_flat_map_on_failure_never_calls_function() {
    let calls = Arc::new(AtomicUsize::new(0));
    let c = calls.clone();
    let failed: IO<u32, &'static str> = raise_error("down");
    let out: IO<u32, &'static str> = flat_map(failed, move |x| {
        c.fetch_add(1, Ordering::SeqCst);
        pure(x + 1)
    });
    assert_eq!(Err("down"), attempt(out));
    assert_eq!(0, calls.load(Ordering::SeqCst));
}

#[test]
fn io_handle_error_recovers_only_failures() {
    let ok: IO<u32, u32> = pure(1);
    let kept: IO<u32, u32> = handle_error(ok, |e| pure(e + 100));
    assert_eq!(Ok(1), attempt(kept));

    let failed: IO<u32, u32> = raise_error(1);
    let recovered: IO<u32, u32> = handle_error(failed, |e| pure(e + 100));
    assert_eq!(Ok(101), attempt(recovered));

    let failed: IO<u32, u32> = raise_error(1);
    let failed_again: IO<u32, u32> = handle_error(failed, |e| raise_error(e + 100));
    assert_eq!(Err(101), attempt(failed_again));
}

#[test]
fn io_steps_decide_on_the_outcome() {
    let mid = IoEffect::<&str, u32, u32, ()>::flat_map_step(Ok(2), |x| pure(x + 1));
    assert_eq!(Ok(3), attempt(mid));
    let mid = IoEffect::<&str, u32, u32, ()>::flat_map_step(Err("e"), |x| pure(x + 1));
    assert_eq!(Err("e"), attempt(mid));
    let mid = IoEffect::<&str, u32, (), ()>::handle_error_step(Ok(2), |_| pure(0));
    assert_eq!(Ok(2), attempt(mid));
    let mid = IoEffect::<&str, u32, (), ()>::handle_error_step(Err("e"), |_| pure(0));
    assert_eq!(Ok(0), attempt(mid));
}

#[test]
fn io_algebra() {
    let a: IO<u32, ()> = pure(3);
    let b: IO<u32, ()> = pure(4);
    assert_eq!(Ok(7), attempt(combine(a, b)));

    let a: IO<u32, ()> = pure(3);
    let b: IO<u32, ()> = pure(4);
    assert_eq!(Ok(12), attempt(combine_inner::<_, _, IntMulSemigroup>(a, b)));

    let e: IO<u32, ()> = empty();
    assert_eq!(Ok(0), attempt(e));

    let a: IO<u32, ()> = pure(3);
    assert_eq!(Ok("3".to_string()), attempt(fmap(a, |x| format!("{}", x))));

    let a: IO<u32, ()> = pure(3);
    let b: IO<u32, ()> = pure(4);
    let c: IO<u32, ()> = fmap2(a, b, |x, y| x * y);
    assert_eq!(Ok(12), attempt(c));

    let a: IO<u32, ()> = pure(3);
    let b: IO<&str, ()> = pure("x");
    assert_eq!(Ok((3, "x")), attempt(product(a, b)));

    let a: IO<u32, ()> = pure(3);
    assert_eq!(Ok(13), attempt(fold(a, 10u32, |acc, x| acc + x)));

    let a: IO<u32, u8> = raise_error(9);
    assert_eq!(Err(9), attempt(fold(a, 10u32, |acc, x| acc + x)));
}

#[test]
fn io_traverse() {
    let out = traverse(vec![1u32, 2, 3], |x| pure::<IO<u32, ()>>(x * 2));
    assert_eq!(Ok(vec![2, 4, 6]), attempt(out));
    let out = traverse(vec![1u32, 2, 3], |x| -> IO<u32, u32> {
        match x % 2 {
            0 => raise_error(x),
            _ => pure(x),
        }
    });
    assert_eq!(Err(2), attempt(out));
}
