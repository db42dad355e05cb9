use rust_effects::typeclasses::monoid::{
    empty, IntAddMonoid, IntMulMonoid, Monoid, Numeric, StringMonoid,
};
use rust_effects::typeclasses::semigroup::{
    combine, IntAddSemigroup, IntMulSemigroup, Semigroup, StringSemigroup,
};

#[test]
fn semigroup_string_combine() {
    let out = combine("Hello", format!(" World"));
    assert_eq!("Hello World", out);
}

#[test]
fn semigroup_int_combine() {
    let out = combine(1, 2);
    assert_eq!(3, out);
}

#[test]
fn semigroup_functional_combine() {
    let out = IntMulSemigroup::combine(1, 2);
    assert_eq!(2, out);

    let out = combine(5, 4);
    assert_eq!(9, out);
}

#[test]
fn monoid_string_combine() {
    let out = StringMonoid::combine("Hello", format!(" World"));
    assert_eq!("Hello World", out);
}

#[test]
fn monoid_int_combine() {
    let out: u32 = IntAddMonoid::combine(1u32, 2u32);
    assert_eq!(3, out);
    let out: u32 = IntMulMonoid::combine(1u32, 2u32);
    assert_eq!(2, out);

    fn foo<X, S: Semigroup<X, X, X>>(a: X, b: X) -> X {
        S::combine(a, b)
    }

    assert_eq!(foo::<i32, IntAddMonoid<i32>>(2i32, -2i32), 0);
    assert_eq!(foo::<i32, IntMulMonoid<i32>>(2i32, -2i32), -4i32);
}

#[test]
fn monoid_functional_combine() {
    let out = IntMulMonoid::combine(1, 2);
    assert_eq!(2, out);

    let out = IntAddMonoid::combine(5, 4);
    assert_eq!(9, out);
}

#[test]
fn test_strings() {
    let out: String = StringMonoid::empty();
    assert_eq!(out, "");
}

#[test]
fn test_ints() {
    let out: i32 = IntAddMonoid::empty();
    assert_eq!(out, 0);

    let out: u32 = IntMulMonoid::empty();
    assert_eq!(out, 1);
}

#[test]
fn string_combine_all_operand_kinds() {
    assert_eq!("ab", StringSemigroup::combine("a", "b"));
    assert_eq!("ab", StringSemigroup::combine("a".to_string(), "b"));
    assert_eq!("ab", StringSemigroup::combine("a".to_string(), "b".to_string()));
    assert_eq!("ab", StringSemigroup::combine("a", "b".to_string()));
    assert_eq!("a", StringSemigroup::combine("a", ""));
    assert_eq!("ab", StringMonoid::combine("a", "b"));
    assert_eq!("ab", StringMonoid::combine("a".to_string(), "b"));
    assert_eq!("ab", StringMonoid::combine("a".to_string(), "b".to_string()));
}

#[test]
fn string_monoid_identity_on_values() {
    let e: String = empty();
    assert_eq!("", e);
    let left: String = combine("abc".to_string(), empty::<String>());
    assert_eq!("abc", left);
    let right: String = combine(empty::<String>(), "abc".to_string());
    assert_eq!("abc", right);
}

#[test]
fn int_semigroup_each_width() {
    assert_eq!(250u8, IntAddSemigroup::combine(200u8, 50u8));
    assert_eq!(60000u16, IntAddSemigroup::combine(59999u16, 1u16));
    assert_eq!(7u32, IntAddSemigroup::combine(3u32, 4u32));
    assert_eq!(7u64, IntAddSemigroup::combine(3u64, 4u64));
    assert_eq!(-7i8, IntAddSemigroup::combine(-3i8, -4i8));
    assert_eq!(-7i16, IntAddSemigroup::combine(-3i16, -4i16));
    assert_eq!(1i32, IntAddSemigroup::combine(-3i32, 4i32));
    assert_eq!(1i64, IntAddSemigroup::combine(-3i64, 4i64));
    assert_eq!(12u8, IntMulSemigroup::combine(3u8, 4u8));
    assert_eq!(-12i8, IntMulSemigroup::combine(3i8, -4i8));
    assert_eq!(12i64, IntMulSemigroup::combine(-3i64, -4i64));
    assert_eq!(u64::MAX, IntMulSemigroup::combine(u64::MAX, 1u64));
}

#[test]
fn int_semigroup_is_associative_on_values() {
    let (a, b, c) = (3i32, -5i32, 11i32);
    assert_eq!(combine(combine(a, b), c), combine(a, combine(b, c)));
    assert_eq!(
        IntMulSemigroup::combine(IntMulSemigroup::combine(a, b), c),
        IntMulSemigroup::combine(a, IntMulSemigroup::combine(b, c))
    );
}

#[test]
fn int_monoid_identity_on_values() {
    let zero: u32 = empty();
    assert_eq!(0, zero);
    assert_eq!(17u32, combine(17u32, empty::<u32>()));
    assert_eq!(17u32, combine(empty::<u32>(), 17u32));
    let one: i64 = IntMulMonoid::<i64>::empty();
    assert_eq!(-9i64, IntMulMonoid::combine(-9i64, one));
}

#[test]
fn numeric_from_u64_cuts_to_width() {
    assert_eq!(5u8, <u8 as Numeric>::from_u64(5));
    assert_eq!(44u8, <u8 as Numeric>::from_u64(300));
    assert_eq!(-1i8, <i8 as Numeric>::from_u64(255));
    assert_eq!(70000u32, <u32 as Numeric>::from_u64(70000));
    assert_eq!(7i64, <i64 as Numeric>::from_u64(7));
    assert_eq!(9u16, 4u16.plus(5));
    assert_eq!(20i16, 4i16.times(5));
}
