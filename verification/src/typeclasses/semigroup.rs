use vstd::prelude::*;
use vstd::string::StringExecFns;
use crate::typeclasses::Effect;
use crate::typeclasses::monoid::Numeric;

verus! {

/// The combining capability: two values of functionally equivalent types are
/// merged into one by an associative operation:
///
/// ```text
///   (a · b) · c  ==  a · (b · c)
/// ```
///
/// The operand types `T`, `T2` and the result type `TR` may differ where the
/// language tells apart types that hold the same values, such as a string slice
/// and an owned string.
pub trait Semigroup<T, T2, TR>: Effect {
    /// Whether `a` and `b` can be combined (for numbers: without overflow).
    spec fn combine_requires(a: T, b: T2) -> bool;

    spec fn combine_ensures(a: T, b: T2, out: TR) -> bool;

    fn combine(a: T, b: T2) -> (out: TR)
        requires
            Self::combine_requires(a, b),
        ensures
            Self::combine_ensures(a, b, out),
    ;
}

/// Association from a value type to its default combining witness.
pub trait SemigroupEffect<T, T2, TR> {
    type Fct: Semigroup<T, T2, TR>;
}

/// The capability of combining two containers of one type with a combining
/// witness for the payload that the caller picks.
pub trait SemigroupInner<'a, T, X> where T: 'a {
    spec fn combine_inner_requires(a: T, b: T, pre: spec_fn(X, X) -> bool) -> bool;

    spec fn combine_inner_ensures(
        a: T,
        b: T,
        post: spec_fn(X, X, X) -> bool,
        out: T,
    ) -> bool;

    fn combine_inner<TO>(a: T, b: T) -> (out: T) where TO: 'a + Semigroup<X, X, X>
        requires
            Self::combine_inner_requires(a, b, |x: X, y: X| TO::combine_requires(x, y)),
        ensures
            Self::combine_inner_ensures(
                a,
                b,
                |x: X, y: X, r: X| TO::combine_ensures(x, y, r),
                out,
            ),
    ;
}

/// Combines `a` and `b` with the default witness of `a`'s type.
pub fn combine<T, T2, TR>(a: T, b: T2) -> (out: TR) where T: SemigroupEffect<T, T2, TR>
    requires
        T::Fct::combine_requires(a, b),
    ensures
        T::Fct::combine_ensures(a, b, out),
{
    T::Fct::combine(a, b)
}

/// Combines the containers `a` and `b`, merging their payloads with the
/// witness `TO`.
pub fn combine_inner<'a, T, X, TO>(a: T, b: T) -> (out: T) where
    T: 'a + SemigroupEffect<T, T, T>,
    <T as SemigroupEffect<T, T, T>>::Fct: SemigroupInner<'a, T, X>,
    TO: 'a + Semigroup<X, X, X>,

    requires
        <T::Fct as SemigroupInner<'a, T, X>>::combine_inner_requires(
            a,
            b,
            |x: X, y: X| TO::combine_requires(x, y),
        ),
    ensures
        <T::Fct as SemigroupInner<'a, T, X>>::combine_inner_ensures(
            a,
            b,
            |x: X, y: X, r: X| TO::combine_ensures(x, y, r),
            out,
        ),
{
    <T::Fct as SemigroupInner<'a, T, X>>::combine_inner::<TO>(a, b)
}

/// Combines strings by concatenation.
pub struct StringSemigroup;

impl Effect for StringSemigroup {

}

impl<'a> SemigroupEffect<&'a str, String, String> for &'a str {
    type Fct = StringSemigroup;
}

impl<'a, 'b> SemigroupEffect<&'a str, &'b str, String> for &'a str {
    type Fct = StringSemigroup;
}

impl SemigroupEffect<String, String, String> for String {
    type Fct = StringSemigroup;
}

impl<'a> SemigroupEffect<String, &'a str, String> for String {
    type Fct = StringSemigroup;
}

impl<'a> Semigroup<&'a str, String, String> for StringSemigroup {
    open spec fn combine_requires(a: &'a str, b: String) -> bool {
        true
    }

    open spec fn combine_ensures(a: &'a str, b: String, out: String) -> bool {
        out@ == a@ + b@
    }

    fn combine(a: &'a str, b: String) -> (out: String) {
        String::from_str(a).concat(b.as_str())
    }
}

impl<'a, 'b> Semigroup<&'a str, &'b str, String> for StringSemigroup {
    open spec fn combine_requires(a: &'a str, b: &'b str) -> bool {
        true
    }

    open spec fn combine_ensures(a: &'a str, b: &'b str, out: String) -> bool {
        out@ == a@ + b@
    }

    fn combine(a: &'a str, b: &'b str) -> (out: String) {
        String::from_str(a).concat(b)
    }
}

impl Semigroup<String, String, String> for StringSemigroup {
    open spec fn combine_requires(a: String, b: String) -> bool {
        true
    }

    open spec fn combine_ensures(a: String, b: String, out: String) -> bool {
        out@ == a@ + b@
    }

    fn combine(a: String, b: String) -> (out: String) {
        a.concat(b.as_str())
    }
}

impl<'a> Semigroup<String, &'a str, String> for StringSemigroup {
    open spec fn combine_requires(a: String, b: &'a str) -> bool {
        true
    }

    open spec fn combine_ensures(a: String, b: &'a str, out: String) -> bool {
        out@ == a@ + b@
    }

    fn combine(a: String, b: &'a str) -> (out: String) {
        a.concat(b)
    }
}

/// Combines numbers by addition.
pub struct IntAddSemigroup;

impl Effect for IntAddSemigroup {

}

/// Combines numbers by multiplication.
pub struct IntMulSemigroup;

impl Effect for IntMulSemigroup {

}

impl<T: Numeric> Semigroup<T, T, T> for IntAddSemigroup {
    open spec fn combine_requires(a: T, b: T) -> bool {
        T::in_range(a.to_int() + b.to_int())
    }

    open spec fn combine_ensures(a: T, b: T, out: T) -> bool {
        out.to_int() == a.to_int() + b.to_int()
    }

    fn combine(a: T, b: T) -> (out: T) {
        a.plus(b)
    }
}

impl<T: Numeric> Semigroup<T, T, T> for IntMulSemigroup {
    open spec fn combine_requires(a: T, b: T) -> bool {
        T::in_range(a.to_int() * b.to_int())
    }

    open spec fn combine_ensures(a: T, b: T, out: T) -> bool {
        out.to_int() == a.to_int() * b.to_int()
    }

    fn combine(a: T, b: T) -> (out: T) {
        a.times(b)
    }
}

impl SemigroupEffect<u8, u8, u8> for u8 {
    type Fct = IntAddSemigroup;
}

impl SemigroupEffect<u16, u16, u16> for u16 {
    type Fct = IntAddSemigroup;
}

impl SemigroupEffect<u32, u32, u32> for u32 {
    type Fct = IntAddSemigroup;
}

impl SemigroupEffect<u64, u64, u64> for u64 {
    type Fct = IntAddSemigroup;
}

impl SemigroupEffect<i8, i8, i8> for i8 {
    type Fct = IntAddSemigroup;
}

impl SemigroupEffect<i16, i16, i16> for i16 {
    type Fct = IntAddSemigroup;
}

impl SemigroupEffect<i32, i32, i32> for i32 {
    type Fct = IntAddSemigroup;
}

impl SemigroupEffect<i64, i64, i64> for i64 {
    type Fct = IntAddSemigroup;
}

} // verus!
