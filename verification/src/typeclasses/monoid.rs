use vstd::prelude::*;
use vstd::string::StringExecFns;
use std::marker::PhantomData;
use crate::typeclasses::Effect;
use crate::typeclasses::semigroup::Semigroup;

verus! {

/// The integer types that the numeric witnesses work on, each seen as the
/// mathematical integer it holds.
pub trait Numeric: Sized {
    /// The integer that `self` holds.
    spec fn to_int(self) -> int;

    /// Whether the type can hold `i`.
    spec fn in_range(i: int) -> bool;

    /// Two values that hold the same integer are the same value.
    proof fn to_int_injective(a: Self, b: Self)
        requires
            a.to_int() == b.to_int(),
        ensures
            a == b,
    ;

    /// Every value holds an integer that the type can hold.
    proof fn to_int_in_range(a: Self)
        ensures
            Self::in_range(a.to_int()),
    ;

    /// Every numeric type can hold zero and one.
    proof fn zero_one_in_range()
        ensures
            Self::in_range(0),
            Self::in_range(1),
    ;

    /// The value of this type for `i`: the one that holds `i` where the type
    /// can hold it, and else `i` cut down to the type's width.
    spec fn from_u64_spec(i: u64) -> Self;

    /// Where the type can hold `i`, the value for `i` holds `i`.
    proof fn from_u64_in_range(i: u64)
        requires
            Self::in_range(i as int),
        ensures
            Self::from_u64_spec(i).to_int() == i,
    ;

    fn from_u64(i: u64) -> (out: Self)
        ensures
            out == Self::from_u64_spec(i),
    ;

    fn plus(self, other: Self) -> (out: Self)
        requires
            Self::in_range(self.to_int() + other.to_int()),
        ensures
            out.to_int() == self.to_int() + other.to_int(),
    ;

    fn times(self, other: Self) -> (out: Self)
        requires
            Self::in_range(self.to_int() * other.to_int()),
        ensures
            out.to_int() == self.to_int() * other.to_int(),
    ;
}

impl Numeric for u8 {
    open spec fn to_int(self) -> int {
        self as int
    }

    open spec fn in_range(i: int) -> bool {
        u8::MIN <= i <= u8::MAX
    }

    proof fn to_int_injective(a: u8, b: u8) {
    }

    proof fn zero_one_in_range() {
    }

    proof fn to_int_in_range(a: u8) {
    }

    open spec fn from_u64_spec(i: u64) -> u8 {
        i as u8
    }

    proof fn from_u64_in_range(i: u64) {
    }

    fn from_u64(i: u64) -> (out: u8) {
        #[verifier::truncate]
        (i as u8)
    }

    fn plus(self, other: u8) -> (out: u8) {
        self + other
    }

    fn times(self, other: u8) -> (out: u8) {
        self * other
    }
}

impl Numeric for u16 {
    open spec fn to_int(self) -> int {
        self as int
    }

    open spec fn in_range(i: int) -> bool {
        u16::MIN <= i <= u16::MAX
    }

    proof fn to_int_injective(a: u16, b: u16) {
    }

    proof fn zero_one_in_range() {
    }

    proof fn to_int_in_range(a: u16) {
    }

    open spec fn from_u64_spec(i: u64) -> u16 {
        i as u16
    }

    proof fn from_u64_in_range(i: u64) {
    }

    fn from_u64(i: u64) -> (out: u16) {
        #[verifier::truncate]
        (i as u16)
    }

    fn plus(self, other: u16) -> (out: u16) {
        self + other
    }

    fn times(self, other: u16) -> (out: u16) {
        self * other
    }
}

impl Numeric for u32 {
    open spec fn to_int(self) -> int {
        self as int
    }

    open spec fn in_range(i: int) -> bool {
        u32::MIN <= i <= u32::MAX
    }

    proof fn to_int_injective(a: u32, b: u32) {
    }

    proof fn zero_one_in_range() {
    }

    proof fn to_int_in_range(a: u32) {
    }

    open spec fn from_u64_spec(i: u64) -> u32 {
        i as u32
    }

    proof fn from_u64_in_range(i: u64) {
    }

    fn from_u64(i: u64) -> (out: u32) {
        #[verifier::truncate]
        (i as u32)
    }

    fn plus(self, other: u32) -> (out: u32) {
        self + other
    }

    fn times(self, other: u32) -> (out: u32) {
        self * other
    }
}

impl Numeric for u64 {
    open spec fn to_int(self) -> int {
        self as int
    }

    open spec fn in_range(i: int) -> bool {
        u64::MIN <= i <= u64::MAX
    }

    proof fn to_int_injective(a: u64, b: u64) {
    }

    proof fn zero_one_in_range() {
    }

    proof fn to_int_in_range(a: u64) {
    }

    open spec fn from_u64_spec(i: u64) -> u64 {
        i as u64
    }

    proof fn from_u64_in_range(i: u64) {
    }

    fn from_u64(i: u64) -> (out: u64) {
        #[verifier::truncate]
        (i as u64)
    }

    fn plus(self, other: u64) -> (out: u64) {
        self + other
    }

    fn times(self, other: u64) -> (out: u64) {
        self * other
    }
}

impl Numeric for i8 {
    open spec fn to_int(self) -> int {
        self as int
    }

    open spec fn in_range(i: int) -> bool {
        i8::MIN <= i <= i8::MAX
    }

    proof fn to_int_injective(a: i8, b: i8) {
    }

    proof fn zero_one_in_range() {
    }

    proof fn to_int_in_range(a: i8) {
    }

    open spec fn from_u64_spec(i: u64) -> i8 {
        i as i8
    }

    proof fn from_u64_in_range(i: u64) {
    }

    fn from_u64(i: u64) -> (out: i8) {
        #[verifier::truncate]
        (i as i8)
    }

    fn plus(self, other: i8) -> (out: i8) {
        self + other
    }

    fn times(self, other: i8) -> (out: i8) {
        self * other
    }
}

impl Numeric for i16 {
    open spec fn to_int(self) -> int {
        self as int
    }

    open spec fn in_range(i: int) -> bool {
        i16::MIN <= i <= i16::MAX
    }

    proof fn to_int_injective(a: i16, b: i16) {
    }

    proof fn zero_one_in_range() {
    }

    proof fn to_int_in_range(a: i16) {
    }

    open spec fn from_u64_spec(i: u64) -> i16 {
        i as i16
    }

    proof fn from_u64_in_range(i: u64) {
    }

    fn from_u64(i: u64) -> (out: i16) {
        #[verifier::truncate]
        (i as i16)
    }

    fn plus(self, other: i16) -> (out: i16) {
        self + other
    }

    fn times(self, other: i16) -> (out: i16) {
        self * other
    }
}

impl Numeric for i32 {
    open spec fn to_int(self) -> int {
        self as int
    }

    open spec fn in_range(i: int) -> bool {
        i32::MIN <= i <= i32::MAX
    }

    proof fn to_int_injective(a: i32, b: i32) {
    }

    proof fn zero_one_in_range() {
    }

    proof fn to_int_in_range(a: i32) {
    }

    open spec fn from_u64_spec(i: u64) -> i32 {
        i as i32
    }

    proof fn from_u64_in_range(i: u64) {
    }

    fn from_u64(i: u64) -> (out: i32) {
        #[verifier::truncate]
        (i as i32)
    }

    fn plus(self, other: i32) -> (out: i32) {
        self + other
    }

    fn times(self, other: i32) -> (out: i32) {
        self * other
    }
}

impl Numeric for i64 {
    open spec fn to_int(self) -> int {
        self as int
    }

    open spec fn in_range(i: int) -> bool {
        i64::MIN <= i <= i64::MAX
    }

    proof fn to_int_injective(a: i64, b: i64) {
    }

    proof fn zero_one_in_range() {
    }

    proof fn to_int_in_range(a: i64) {
    }

    open spec fn from_u64_spec(i: u64) -> i64 {
        i as i64
    }

    proof fn from_u64_in_range(i: u64) {
    }

    fn from_u64(i: u64) -> (out: i64) {
        #[verifier::truncate]
        (i as i64)
    }

    fn plus(self, other: i64) -> (out: i64) {
        self + other
    }

    fn times(self, other: i64) -> (out: i64) {
        self * other
    }
}

/// The identity capability: `empty` is the value that leaves every other
/// value unchanged when combined with it:
///
/// ```text
///   a · empty  ==  a  ==  empty · a
/// ```
pub trait Monoid {
    type Output;

    spec fn empty_ensures(out: Self::Output) -> bool;

    fn empty() -> (out: Self::Output)
        ensures
            Self::empty_ensures(out),
    ;
}

/// Association from a value type to its default identity witness.
pub trait MonoidEffect<T> {
    type Fct: Monoid<Output = T>;
}

/// The identity value of the type that the caller expects.
pub fn empty<T: MonoidEffect<T>>() -> (out: T)
    ensures
        T::Fct::empty_ensures(out),
{
    T::Fct::empty()
}

/// Strings under concatenation, with the empty string as identity.
pub struct StringMonoid {}

/// Numbers under addition, with zero as identity.
pub struct IntAddMonoid<T> {
    _t: PhantomData<T>,
}

/// Numbers under multiplication, with one as identity.
pub struct IntMulMonoid<T> {
    _t: PhantomData<T>,
}

impl Effect for StringMonoid {

}

impl<T> Effect for IntAddMonoid<T> {

}

impl<T> Effect for IntMulMonoid<T> {

}

impl Monoid for StringMonoid {
    type Output = String;

    open spec fn empty_ensures(out: String) -> bool {
        out@ == Seq::<char>::empty()
    }

    fn empty() -> (out: String) {
        String::new()
    }
}

impl<'a> Semigroup<&'a str, String, String> for StringMonoid {
    open spec fn combine_requires(a: &'a str, b: String) -> bool {
        true
    }

    open spec fn combine_ensures(a: &'a str, b: String, out: String) -> bool {
        out@ == a@ + b@
    }

    fn combine(a: &'a str, b: String) -> (out: String) {
        String::from_str(a).concat(b.as_str())
    }
}

impl<'a, 'b> Semigroup<&'a str, &'b str, String> for StringMonoid {
    open spec fn combine_requires(a: &'a str, b: &'b str) -> bool {
        true
    }

    open spec fn combine_ensures(a: &'a str, b: &'b str, out: String) -> bool {
        out@ == a@ + b@
    }

    fn combine(a: &'a str, b: &'b str) -> (out: String) {
        String::from_str(a).concat(b)
    }
}

impl Semigroup<String, String, String> for StringMonoid {
    open spec fn combine_requires(a: String, b: String) -> bool {
        true
    }

    open spec fn combine_ensures(a: String, b: String, out: String) -> bool {
        out@ == a@ + b@
    }

    fn combine(a: String, b: String) -> (out: String) {
        a.concat(b.as_str())
    }
}

impl<'a> Semigroup<String, &'a str, String> for StringMonoid {
    open spec fn combine_requires(a: String, b: &'a str) -> bool {
        true
    }

    open spec fn combine_ensures(a: String, b: &'a str, out: String) -> bool {
        out@ == a@ + b@
    }

    fn combine(a: String, b: &'a str) -> (out: String) {
        a.concat(b)
    }
}

impl<T: Numeric> Monoid for IntAddMonoid<T> {
    type Output = T;

    open spec fn empty_ensures(out: T) -> bool {
        out.to_int() == 0
    }

    fn empty() -> (out: T) {
        proof {
            T::zero_one_in_range();
            T::from_u64_in_range(0);
        }
        T::from_u64(0)
    }
}

impl<T: Numeric> Semigroup<T, T, T> for IntAddMonoid<T> {
    open spec fn combine_requires(a: T, b: T) -> bool {
        T::in_range(a.to_int() + b.to_int())
    }

    open spec fn combine_ensures(a: T, b: T, out: T) -> bool {
        out.to_int() == a.to_int() + b.to_int()
    }

    fn combine(a: T, b: T) -> (out: T) {
        a.plus(b)
    }
}

impl<T: Numeric> Monoid for IntMulMonoid<T> {
    type Output = T;

    open spec fn empty_ensures(out: T) -> bool {
        out.to_int() == 1
    }

    fn empty() -> (out: T) {
        proof {
            T::zero_one_in_range();
            T::from_u64_in_range(1);
        }
        T::from_u64(1)
    }
}

impl<T: Numeric> Semigroup<T, T, T> for IntMulMonoid<T> {
    open spec fn combine_requires(a: T, b: T) -> bool {
        T::in_range(a.to_int() * b.to_int())
    }

    open spec fn combine_ensures(a: T, b: T, out: T) -> bool {
        out.to_int() == a.to_int() * b.to_int()
    }

    fn combine(a: T, b: T) -> (out: T) {
        a.times(b)
    }
}

impl MonoidEffect<String> for String {
    type Fct = StringMonoid;
}

impl MonoidEffect<u8> for u8 {
    type Fct = IntAddMonoid<u8>;
}

impl MonoidEffect<u16> for u16 {
    type Fct = IntAddMonoid<u16>;
}

impl MonoidEffect<u32> for u32 {
    type Fct = IntAddMonoid<u32>;
}

impl MonoidEffect<u64> for u64 {
    type Fct = IntAddMonoid<u64>;
}

impl MonoidEffect<i8> for i8 {
    type Fct = IntAddMonoid<i8>;
}

impl MonoidEffect<i16> for i16 {
    type Fct = IntAddMonoid<i16>;
}

impl MonoidEffect<i32> for i32 {
    type Fct = IntAddMonoid<i32>;
}

impl MonoidEffect<i64> for i64 {
    type Fct = IntAddMonoid<i64>;
}

} // verus!
