use std::sync::Mutex;
use rust_effects::typeclasses::applicative::{pure, Applicative, ApplicativeEffect};
use rust_effects::typeclasses::functor::{fmap, fmap2};
use rust_effects::typeclasses::monad::{flat_map, fold};
use rust_effects::typeclasses::monoid::empty;
use rust_effects::typeclasses::product::product;
use rust_effects::typeclasses::semigroup::combine;
use rust_effects::typeclasses::traverse::traverse;
use rust_effects::vec::VecEffect;

#[test]
fn vec_test_semigroup() {
    let a = vec![3, 4, 5];
    let b = vec![6, 7, 8];

    let out = combine(a, b);
    assert_eq!(vec![3, 4, 5, 6, 7, 8], out);

    let a = vec![3, 4, 5];
    let b = vec![];

    let out = combine(a, b);
    assert_eq!(vec![3, 4, 5], out);

    let a = vec!["Hello".to_string()];
    let b = vec!["World".to_string()];

    let out = combine(a, b);
    assert_eq!(vec![format!("Hello"), format!("World")], out);
}

#[test]
fn vec_test_monoid() {
    let out: Vec<u32> = empty();
    assert!(out.is_empty());
}

#[test]
fn vec_test_applicative() {
    let out = <Vec<u32> as ApplicativeEffect>::Fct::pure(3);
    assert_eq!(vec![3], out);
    let out: Vec<&str> = pure("test");
    assert_eq!(vec!["test"], out);
}

#[test]
fn vec_test_functor() {
    let out: Vec<u32> = pure(3);
    let res = fmap(out, |i| i + 4);
    assert_eq!(vec![7], res);

    let out: Vec<String> = pure(format!("Hello"));
    let res = fmap(out, |i| format!("{} World", i));
    assert_eq!(vec![format!("Hello World")], res);

    let out: Vec<String> = empty();
    let res = fmap(out, |i| format!("{} World", i));
    assert!(res.is_empty());

    let out1: Vec<u32> = pure(3);
    let out2: Vec<String> = pure(format!("Bowls"));
    let res = fmap2(out1, out2, |i, j| format!("{} {} of salad", i + 4, j));
    assert_eq!(vec![format!("7 Bowls of salad")], res);
}

#[test]
fn vec_test_monad() {
    let out: Vec<u32> = pure(3);
    let res = flat_map(out, |i| vec![i + 1, i + 2, i + 3]);
    assert_eq!(vec![4, 5, 6], res);

    let out: Vec<u32> = vec![3, 4];
    let res = flat_map(out, |i| vec![i + 1, i + 2, i + 3]);
    assert_eq!(vec![4, 5, 6, 5, 6, 7], res);

    let out: Vec<u32> = empty();
    let res = flat_map(out, |i| vec![i + 1, i + 2, i + 3]);
    assert!(res.is_empty());

    let out: Vec<u32> = vec![3, 4, 5];
    let res: Vec<u32> = flat_map(out, |_i| empty());
    assert!(res.is_empty());

    let out: Vec<u32> = vec![2, 3, 4];
    let res = fold(out, 0, |init, i| init + i);
    assert_eq!(9, res);

    let out: Vec<u32> = empty();
    let res = fold(out, 0, |init, i| init + i);
    assert_eq!(0, res);
}

#[test]
fn vec_test_product() {
    let out1: Vec<u32> = vec![2, 3];
    let out2: Vec<u32> = vec![4, 5];
    let res = product(out1, out2);
    assert_eq!(vec![(2, 4), (2, 5), (3, 4), (3, 5)], res);

    let out1: Vec<u32> = vec![2, 3];
    let out2: Vec<u32> = empty();
    let res = product(out1, out2);
    assert!(res.is_empty());
}

#[test]
fn vec_test_traverse() {
    let o = traverse(vec![2, 4, 6], |x| match x % 2 == 0 {
        true => Some(format!("{}", x)),
        false => None,
    });
    assert!(o.is_some());
    let v = o.unwrap();
    assert!(v.contains(&"2".to_string()));
    assert!(v.contains(&"4".to_string()));
    assert!(v.contains(&"6".to_string()));
}

#[test]
fn test_traverse_err() {
    let o = traverse(vec![2, 5, 6], |x| match x % 2 == 0 {
        true => Some(format!("{}", x)),
        false => None,
    });
    assert!(o.is_none());
}

#[test]
fn vec_traverse_keeps_input_order() {
    let o = traverse(vec![2, 4, 6], |x: u32| match x % 2 == 0 {
        true => Some(format!("{}", x)),
        false => None,
    });
    assert_eq!(Some(vec!["2".to_string(), "4".to_string(), "6".to_string()]), o);

    let r = traverse(vec![3u32, 10, 4], |x| Ok::<u32, ()>(x + 5));
    assert_eq!(Ok(vec![8, 15, 9]), r);
}

#[test]
fn vec_traverse_of_nothing_succeeds() {
    let none: Vec<u32> = vec![];
    let o = traverse(none, |_x: u32| None::<String>);
    assert_eq!(Some(Vec::<String>::new()), o);

    let none: Vec<u32> = vec![];
    let r = traverse(none, |_x: u32| Err::<String, u8>(1));
    assert_eq!(Ok(Vec::<String>::new()), r);

    let none: Vec<u32> = vec![];
    let v = traverse(none, |x: u32| vec![x, x]);
    assert_eq!(vec![Vec::<u32>::new()], v);
}

#[test]
fn vec_traverse_first_failure_wins() {
    let r = traverse(vec![2u32, 5, 6, 7], |x| match x % 2 == 0 {
        true => Ok(x),
        false => Err(x),
    });
    assert_eq!(Err(5), r);
}

#[test]
fn vec_traverse_stops_calling_after_first_failure() {
    let seen: Mutex<Vec<u32>> = Mutex::new(Vec::new());
    let r = traverse(vec![2u32, 5, 6, 7], |x| {
        seen.lock().unwrap().push(x);
        match x % 2 == 0 {
            true => Some(x),
            false => None,
        }
    });
    assert_eq!(None, r);
    assert_eq!(vec![2, 5], *seen.lock().unwrap());

    let seen: Mutex<Vec<u32>> = Mutex::new(Vec::new());
    let r = traverse(vec![2u32, 4, 5, 6, 7], |x| {
        seen.lock().unwrap().push(x);
        match x % 2 == 0 {
            true => Ok(x),
            false => Err(x),
        }
    });
    assert_eq!(Err(5), r);
    assert_eq!(vec![2, 4, 5], *seen.lock().unwrap());

    let seen: Mutex<Vec<u32>> = Mutex::new(Vec::new());
    let r = traverse(vec![2u32, 4], |x| {
        seen.lock().unwrap().push(x);
        Some(x)
    });
    assert_eq!(Some(vec![2, 4]), r);
    assert_eq!(vec![2, 4], *seen.lock().unwrap());
}

#[test]
fn vec_traverse_with_sequence_effect() {
    let v = traverse(vec![1u32, 2], |x| vec![x, x * 10]);
    assert_eq!(vec![vec![1, 2], vec![1, 20], vec![10, 2], vec![10, 20]], v);
}

#[test]
fn vec_fmap2_outer_loop_is_first_argument() {
    let res = fmap2(vec![1u32, 2], vec![10u32, 20, 30], |a, b| a + b);
    assert_eq!(vec![11, 21, 31, 12, 22, 32], res);
    let res: Vec<u32> = fmap2(Vec::<u32>::new(), vec![10u32, 20, 30], |a, b| a + b);
    assert!(res.is_empty());
}

#[test]
fn vec_fold_goes_left_to_right() {
    let res = fold(vec![1u32, 2, 3], String::new(), |acc, x| format!("{}{}", acc, x));
    assert_eq!("123", res);
}

#[test]
fn vec_laws_on_values() {
    let c = vec![1u32, 2, 3];
    assert_eq!(c.clone(), fmap(c.clone(), |x: u32| x));
    let f = |x: u32| x + 1;
    let g = |x: u32| x * 2;
    assert_eq!(fmap(fmap(c.clone(), f), g), fmap(c.clone(), move |x| g(f(x))));

    let k = |x: u32| vec![x, x + 1];
    let h = |x: u32| vec![x * 2];
    let left: Vec<u32> = flat_map(pure::<Vec<u32>>(4), k);
    assert_eq!(k(4), left);
    let back: Vec<u32> = flat_map(c.clone(), |y| pure::<Vec<u32>>(y));
    assert_eq!(c, back);
    let nested: Vec<u32> = flat_map(flat_map(c.clone(), k), h);
    let chained: Vec<u32> = flat_map(c.clone(), move |y| flat_map(k(y), h));
    assert_eq!(nested, chained);

    let (a, b, d) = (vec![1u32], vec![2u32, 3], vec![4u32]);
    assert_eq!(
        combine(combine(a.clone(), b.clone()), d.clone()),
        combine(a.clone(), combine(b, d))
    );
    assert_eq!(a.clone(), combine(a.clone(), empty::<Vec<u32>>()));
    assert_eq!(a.clone(), combine(empty::<Vec<u32>>(), a));
}

#[test]
fn vec_witness_can_be_built() {
    let _w: VecEffect<u32, u32, ()> = VecEffect::new(());
}
