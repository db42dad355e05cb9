use rust_effects::result::ResultEffect;
use rust_effects::typeclasses::applicative::{apply, pure};
use rust_effects::typeclasses::functor::{fmap, fmap2};
use rust_effects::typeclasses::monad::{flat_map, fold};
use rust_effects::typeclasses::monaderror::{attempt, handle_error, raise_error};
use rust_effects::typeclasses::monoid::empty;
use rust_effects::typeclasses::product::product;
use rust_effects::typeclasses::semigroup::{
    combine, combine_inner, IntMulSemigroup, SemigroupInner,
};

#[test]
fn result_test_semigroup() {
    let a = Ok(3);
    let b = Ok(5);

    let out: Result<i32, ()> = combine(a, b);
    assert_eq!(Ok(8), out);

    let a = Ok(3);
    let b = Err(());

    let out = combine(a, b);
    assert_eq!(Err(()), out);

    let a = Ok("Hello");
    let b = Ok(" World".to_string());

    let out: Result<String, ()> = combine(a, b);
    assert_eq!("Hello World", out.unwrap());

    let a = Ok(3);
    let b = Ok(5);

    let out: Result<i32, ()> = ResultEffect::combine_inner::<IntMulSemigroup>(a, b);
    assert_eq!(Ok(15), out);

    let a = Ok(3);
    let b = Ok(5);

    let out: Result<i32, ()> = combine_inner::<_, _, IntMulSemigroup>(a, b);
    assert_eq!(Ok(15), out);
}

#[test]
fn result_test_monoid() {
    let out: Result<u32, ()> = empty();
    assert_eq!(Err(()), out);
}

#[test]
fn result_test_applicative() {
    let out = pure::<Result<u32, ()>>(3);
    assert_eq!(Ok(3), out);

    let out: Result<&str, ()> = pure("test");
    assert_eq!(Ok("test"), out);
}

#[test]
fn result_test_functor() {
    let out: Result<u32, ()> = pure(3);
    let res = fmap(out, |i| i + 4);
    assert_eq!(Ok(7), res);

    let out: Result<String, ()> = pure(format!("Hello"));
    let res = fmap(out, |i| format!("{} World", i));
    assert_eq!("Hello World", res.unwrap());

    let out: Result<String, ()> = empty();
    let res = fmap(out, |i| format!("{} World", i));
    assert_eq!(Err(()), res);

    let out1: Result<u32, ()> = pure(3);
    let out2 = pure::<Result<String, ()>>(format!("Bowls"));
    let res = fmap2(out1, out2, |i, j| format!("{} {} of salad", i + 4, j));
    assert_eq!("7 Bowls of salad", res.unwrap());

    let out1: Result<u32, ()> = pure(3);
    let out2: Result<String, ()> = Err(());
    let res = fmap2(out1, out2, |i, j| format!("{} {} of salad", i + 4, j));
    assert_eq!(Err(()), res);
}

#[test]
fn result_test_monad() {
    let out: Result<u32, ()> = pure(3);
    let res = flat_map(out, |i| Ok(i + 4));
    assert_eq!(Ok(7), res);

    let out: Result<String, ()> = empty();
    let res = flat_map(out, |i| Ok(format!("{} World", i)));
    assert_eq!(Err(()), res);
}

#[test]
fn result_test_product() {
    let out1: Result<u32, ()> = pure(3);
    let out2: Result<u32, ()> = pure(5);
    let res = product(out1, out2);
    assert_eq!(Ok((3, 5)), res);

    let out1: Result<u32, ()> = pure(3);
    let out2: Result<u32, ()> = empty();
    let res = product(out1, out2);
    assert_eq!(Err(()), res);
}

#[test]
fn result_first_failure_wins() {
    let a: Result<u32, &str> = Err("left");
    let b: Result<u32, &str> = Err("right");
    assert_eq!(Err("left"), combine(a, b));

    let a: Result<u32, &str> = Ok(1);
    let b: Result<u32, &str> = Err("right");
    assert_eq!(Err("right"), combine(a, b));

    let a: Result<u32, &str> = Err("left");
    let b: Result<u32, &str> = Ok(1);
    assert_eq!(Err("left"), combine(a, b));

    let a: Result<u32, &str> = Err("left");
    let b: Result<u32, &str> = Err("right");
    let res: Result<u32, &str> = fmap2(a, b, |x, y| x + y);
    assert_eq!(Err("left"), res);

    let a: Result<u32, &str> = Err("left");
    let b: Result<u32, &str> = Err("right");
    assert_eq!(Err("left"), product(a, b));
}

#[test]
fn result_combine_results_merges_successes() {
    let out: Result<u32, ()> =
        ResultEffect::<(), (), (), ()>::combine_results(Ok(2u8), Ok(3u16), |a, b| {
            (a as u32) * (b as u32)
        });
    assert_eq!(Ok(6), out);
    let out: Result<u32, u8> =
        ResultEffect::<u8, (), (), ()>::combine_results(Ok(2u8), Err(9u8), |a, b: u16| {
            (a as u32) * (b as u32)
        });
    assert_eq!(Err(9), out);
}

#[test]
fn result_witness_can_be_built() {
    let _w: ResultEffect<(), u32, u32, ()> = ResultEffect::apply();
}

#[test]
fn result_apply_runs_contained_function() {
    let input: Result<u32, ()> = pure(3);
    let out: Result<String, ()> = apply(Ok(|i: u32| format!("{} beans", i)), input);
    assert_eq!(Ok("3 beans".to_string()), out);

    let input: Result<u32, u8> = Err(1);
    let func: Result<fn(u32) -> u32, u8> = Err(2);
    let out: Result<u32, u8> = apply(func, input);
    assert_eq!(Err(1), out);

    let input: Result<u32, u8> = Ok(1);
    let func: Result<fn(u32) -> u32, u8> = Err(2);
    let out: Result<u32, u8> = apply(func, input);
    assert_eq!(Err(2), out);
}

#[test]
fn result_fold_keeps_seed_on_failure() {
    let ok: Result<u32, ()> = Ok(4);
    assert_eq!(14, fold(ok, 10u32, |acc, x| acc + x));
    let failed: Result<u32, ()> = Err(());
    assert_eq!(10, fold(failed, 10u32, |acc, x| acc + x));
}

#[test]
fn result_error_handling() {
    let out: Result<u32, u32> = pure(3);
    let res: Result<String, u32> = flat_map(out, |i| match i % 2 {
        0 => pure("Good".to_string()),
        _ => raise_error(i),
    });
    assert_eq!(Err(3), res);

    let recovered: Result<String, u32> = handle_error(res, |e| pure(format!("{}", e)));
    assert_eq!(Ok("3".to_string()), recovered);

    let kept: Result<u32, u32> = handle_error(Ok(1), |e| Ok(e + 100));
    assert_eq!(Ok(1), kept);

    let failed_again: Result<u32, u32> = handle_error(Err(1), |e| Err(e + 100));
    assert_eq!(Err(101), failed_again);

    let plain: Result<u32, u32> = attempt(Err::<u32, u32>(7));
    assert_eq!(Err(7), plain);
}

#[test]
fn result_functor_and_monad_laws_on_values() {
    let f = |x: u32| x + 1;
    let g = |x: u32| x * 2;
    for c in [Ok(5u32), Err("bad")] {
        let same: Result<u32, &str> = fmap(c, |x: u32| x);
        assert_eq!(c, same);
        let twice: Result<u32, &str> = fmap(fmap(c, f), g);
        let once: Result<u32, &str> = fmap(c, move |x| g(f(x)));
        assert_eq!(twice, once);
        let back: Result<u32, &str> = flat_map(c, |y| pure::<Result<u32, &str>>(y));
        assert_eq!(c, back);
    }
    let k = |x: u32| if x > 3 { Ok(x + 1) } else { Err("small") };
    let left: Result<u32, &str> = flat_map(pure::<Result<u32, &str>>(5), k);
    assert_eq!(k(5), left);
}

#[test]
fn result_semigroup_is_associative_on_values() {
    let cases: [Result<u32, &str>; 3] = [Ok(1), Ok(2), Err("x")];
    for a in cases {
        for b in cases {
            for c in cases {
                let left: Result<u32, &str> = combine(combine(a, b), c);
                let right: Result<u32, &str> = combine(a, combine(b, c));
                assert_eq!(left, right);
            }
        }
    }
}
