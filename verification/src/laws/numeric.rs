//! Laws of the numeric and string witnesses.

use vstd::prelude::*;
use crate::typeclasses::monoid::{IntAddMonoid, IntMulMonoid, Monoid, Numeric, StringMonoid};
use crate::typeclasses::semigroup::{IntAddSemigroup, IntMulSemigroup, Semigroup, StringSemigroup};

verus! {

/// Semigroup associativity for numbers under addition.
pub proof fn lemma_add_associative<T: Numeric>(a: T, b: T, c: T, ab: T, bc: T, left: T, right: T)
    requires
        IntAddSemigroup::combine_ensures(a, b, ab),
        IntAddSemigroup::combine_ensures(ab, c, left),
        IntAddSemigroup::combine_ensures(b, c, bc),
        IntAddSemigroup::combine_ensures(a, bc, right),
    ensures
        left == right,
{
    T::to_int_injective(left, right);
}

/// Semigroup associativity for numbers under multiplication.
pub proof fn lemma_mul_associative<T: Numeric>(a: T, b: T, c: T, ab: T, bc: T, left: T, right: T)
    requires
        IntMulSemigroup::combine_ensures(a, b, ab),
        IntMulSemigroup::combine_ensures(ab, c, left),
        IntMulSemigroup::combine_ensures(b, c, bc),
        IntMulSemigroup::combine_ensures(a, bc, right),
    ensures
        left == right,
{
    let (x, y, z) = (a.to_int(), b.to_int(), c.to_int());
    assert((x * y) * z == x * (y * z)) by (nonlinear_arith);
    T::to_int_injective(left, right);
}

/// Monoid identity for numbers under addition: zero changes nothing on either
/// side.
pub proof fn lemma_add_identity<T: Numeric>(a: T, e: T, left: T, right: T)
    requires
        IntAddMonoid::<T>::empty_ensures(e),
        IntAddMonoid::<T>::combine_ensures(a, e, left),
        IntAddMonoid::<T>::combine_ensures(e, a, right),
    ensures
        left == a,
        right == a,
{
    T::to_int_injective(left, a);
    T::to_int_injective(right, a);
}

/// Monoid identity for numbers under multiplication: one changes nothing on
/// either side.
pub proof fn lemma_mul_identity<T: Numeric>(a: T, e: T, left: T, right: T)
    requires
        IntMulMonoid::<T>::empty_ensures(e),
        IntMulMonoid::<T>::combine_ensures(a, e, left),
        IntMulMonoid::<T>::combine_ensures(e, a, right),
    ensures
        left == a,
        right == a,
{
    T::to_int_injective(left, a);
    T::to_int_injective(right, a);
}

/// Monoid associativity for numbers with the monoid witnesses.
pub proof fn lemma_monoid_add_associative<T: Numeric>(
    a: T,
    b: T,
    c: T,
    ab: T,
    bc: T,
    left: T,
    right: T,
)
    requires
        IntAddMonoid::<T>::combine_ensures(a, b, ab),
        IntAddMonoid::<T>::combine_ensures(ab, c, left),
        IntAddMonoid::<T>::combine_ensures(b, c, bc),
        IntAddMonoid::<T>::combine_ensures(a, bc, right),
    ensures
        left == right,
{
    T::to_int_injective(left, right);
}

/// Semigroup associativity for strings: the three pieces are joined in the
/// same order either way.
pub proof fn lemma_string_associative(
    a: String,
    b: String,
    c: String,
    ab: String,
    bc: String,
    left: String,
    right: String,
)
    requires
        <StringSemigroup as Semigroup<String, String, String>>::combine_ensures(a, b, ab),
        <StringSemigroup as Semigroup<String, String, String>>::combine_ensures(ab, c, left),
        <StringSemigroup as Semigroup<String, String, String>>::combine_ensures(b, c, bc),
        <StringSemigroup as Semigroup<String, String, String>>::combine_ensures(a, bc, right),
    ensures
        left@ == right@,
{
    assert((a@ + b@) + c@ =~= a@ + (b@ + c@));
}

/// Monoid identity for strings: the empty string changes nothing on either
/// side.
pub proof fn lemma_string_identity(a: String, e: String, left: String, right: String)
    requires
        StringMonoid::empty_ensures(e),
        <StringMonoid as Semigroup<String, String, String>>::combine_ensures(a, e, left),
        <StringMonoid as Semigroup<String, String, String>>::combine_ensures(e, a, right),
    ensures
        left@ == a@,
        right@ == a@,
{
    assert(a@ + Seq::<char>::empty() =~= a@);
    assert(Seq::<char>::empty() + a@ =~= a@);
}

} // verus!
