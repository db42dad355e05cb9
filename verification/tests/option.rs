use std::sync::atomic::{AtomicUsize, Ordering};
use rust_effects::option::OptionEffect;
use rust_effects::typeclasses::applicative::{apply, pure};
use rust_effects::typeclasses::functor::{fmap, fmap2};
use rust_effects::typeclasses::monad::{flat_map, fold};
use rust_effects::typeclasses::monaderror::{attempt, handle_error, raise_error};
use rust_effects::typeclasses::monoid::empty;
use rust_effects::typeclasses::product::product;
use rust_effects::typeclasses::semigroup::{
    combine, combine_inner, IntAddSemigroup, IntMulSemigroup, SemigroupInner,
};

#[test]
fn option_test_semigroup() {
    let a = Some(3);
    let b = Some(5);

    let out = combine(a, b);
    assert_eq!(Some(8), out);

    let a = Some(3);
    let b = None;

    let out = combine(a, b);
    assert_eq!(Some(3), out);

    let a = Some("Hello");
    let b = Some(" World".to_string());

    let out = combine(a, b);
    assert_eq!("Hello World", out.unwrap());

    let a = Some(3);
    let b = Some(4);

    let out = OptionEffect::combine_inner::<IntMulSemigroup>(a, b);
    assert_eq!(Some(12), out);

    let a = Some(3);
    let b = Some(4);

    let out = combine_inner::<_, _, IntMulSemigroup>(a, b);
    assert_eq!(Some(12), out);
}

#[test]
fn option_test_monoid() {
    let out: Option<u32> = empty();
    assert_eq!(None, out);
}

#[test]
fn option_test_applicative() {
    let out = pure::<Option<_>>(3);
    assert_eq!(Some(3), out);

    let out: Option<_> = pure("test");
    assert_eq!(Some("test"), out);
}

#[test]
fn option_test_apply() {
    let input: Option<u32> = pure(3);
    let out: Option<String> = apply(Some(|i: u32| format!("{} beans", i)), input);
    assert_eq!(Some("3 beans".to_string()), out);

    let input: Option<_> = pure(3);
    let input2: Option<_> = pure(4);
    let func = pure(|i: i32| move |x: i32| i + x);
    let out2: Option<_> = apply(apply(func, input), input2);

    assert_eq!(Some(7), out2);

    let input: Option<i32> = empty();
    let input2: Option<_> = pure(4);
    let func = pure(|i: i32| move |x: i32| i + x);
    let out2: Option<_> = apply(apply(func, input), input2);

    assert_eq!(None, out2);
}

#[test]
fn option_test_functor() {
    let out: Option<u32> = pure(3);
    let res = fmap(out, |i| i + 4);
    assert_eq!(Some(7), res);

    let out: Option<String> = pure(format!("Hello"));
    let res = fmap(out, |i| format!("{} World", i));
    assert_eq!("Hello World", res.unwrap());

    let out: Option<u32> = empty();
    let res = fmap(out, |i| format!("{} World", i));
    assert_eq!(None, res);

    let out1: Option<u32> = pure(3);
    let out2: Option<String> = pure(format!("Bowls"));
    let res = fmap2(out1, out2, |i, j| format!("{} {} of salad", i + 4, j));
    assert_eq!("7 Bowls of salad", res.unwrap());
}

#[test]
fn option_test_monad() {
    let out: Option<u32> = pure(3);
    let res = flat_map(out, |i| Some(i + 4));
    assert_eq!(Some(7), res);

    let out: Option<u32> = empty();
    let res = flat_map(out, |i| Some(i + 4));
    assert_eq!(None, res);

    let out: Option<u32> = pure(2);
    let res = fold(out, 0, |init, i| init + i);
    assert_eq!(2, res);

    let out: Option<u32> = empty();
    let res = fold(out, 0, |init, i| init + i);
    assert_eq!(0, res);
}

#[test]
fn test_monaderror() {
    let out: Option<u32> = pure(3);
    let res: Option<u32> = flat_map(out, |_| raise_error(()));
    assert_eq!(None, res);
}

#[test]
fn option_test_product() {
    let out1: Option<u32> = pure(3);
    let out2: Option<u32> = pure(5);
    let res = product(out1, out2);
    assert_eq!(Some((3, 5)), res);

    let out1: Option<u32> = pure(3);
    let out2: Option<u32> = empty();
    let res = product(out1, out2);
    assert_eq!(None, res);
}

#[test]
fn option_combine_absent_is_identity() {
    let none: Option<u32> = None;
    assert_eq!(Some(7u32), combine(Some(7u32), none));
    let none: Option<u32> = None;
    assert_eq!(Some(7u32), combine(none, Some(7u32)));
    let a: Option<u32> = None;
    let b: Option<u32> = None;
    assert_eq!(None, combine(a, b));
    let out: Option<String> = combine(Some("Hello"), None::<String>);
    assert_eq!(Some("Hello".to_string()), out);
}

#[test]
fn option_combine_inner_absent_is_identity() {
    let out = combine_inner::<_, _, IntMulSemigroup>(Some(3u32), None);
    assert_eq!(Some(3), out);
    let out = combine_inner::<_, _, IntMulSemigroup>(None, Some(4u32));
    assert_eq!(Some(4), out);
    let out = combine_inner::<_, _, IntAddSemigroup>(None::<u32>, None);
    assert_eq!(None, out);
    let out = combine_inner::<_, _, IntAddSemigroup>(Some(3u32), Some(4u32));
    assert_eq!(Some(7), out);
}

#[test]
fn option_combine_options_needs_both() {
    let out = OptionEffect::<(), (), ()>::combine_options(Some(2u8), Some(3u16), |a, b| {
        (a as u32) + (b as u32)
    });
    assert_eq!(Some(5u32), out);
    let out = OptionEffect::<(), (), ()>::combine_options(Some(2u8), None::<u16>, |a, b| {
        (a as u32) + (b as u32)
    });
    assert_eq!(None, out);
    let out = OptionEffect::<(), (), ()>::combine_options(None::<u8>, Some(3u16), |a, b| {
        (a as u32) + (b as u32)
    });
    assert_eq!(None, out);
}

#[test]
fn option_error_handling() {
    let failed: Option<u32> = raise_error(());
    assert_eq!(None, failed);

    let kept: Option<u32> = handle_error(Some(1), |_| Some(9));
    assert_eq!(Some(1), kept);

    let recovered: Option<u32> = handle_error(None, |_| Some(9));
    assert_eq!(Some(9), recovered);

    let still_failed: Option<u32> = handle_error(None, |_| None);
    assert_eq!(None, still_failed);

    assert_eq!(Ok(5u32), attempt(Some(5u32)));
    assert_eq!(Err(()), attempt(None::<u32>));
}

#[test]
fn option_functor_laws_on_values() {
    let c = Some(5u32);
    assert_eq!(c, fmap(c, |x: u32| x));
    let none: Option<u32> = None;
    assert_eq!(none, fmap(none, |x: u32| x));

    let f = |x: u32| x + 1;
    let g = |x: u32| x * 2;
    assert_eq!(fmap(fmap(c, f), g), fmap(c, move |x| g(f(x))));
}

#[test]
fn option_monad_laws_on_values() {
    let f = |x: u32| if x > 3 { Some(x + 1) } else { None };
    let g = |x: u32| if x % 2 == 0 { Some(x * 2) } else { None };
    for x in [1u32, 5, 6] {
        let left: Option<u32> = flat_map(pure::<Option<u32>>(x), f);
        assert_eq!(f(x), left);
        let c = Some(x);
        let back: Option<u32> = flat_map(c, |y| pure::<Option<u32>>(y));
        assert_eq!(c, back);
        let nested: Option<u32> = flat_map(flat_map(c, f), g);
        let chained: Option<u32> = flat_map(c, move |y| flat_map(f(y), g));
        assert_eq!(nested, chained);
    }
}

#[test]
fn option_flat_map_skips_function_when_absent() {
    let calls = AtomicUsize::new(0);
    let none: Option<u32> = None;
    let res: Option<u32> = flat_map(none, |x| {
        calls.fetch_add(1, Ordering::SeqCst);
        Some(x)
    });
    assert_eq!(None, res);
    assert_eq!(0, calls.load(Ordering::SeqCst));
}
