//! Laws of the optional value.

use vstd::prelude::*;
use crate::option::OptionEffect;
use crate::typeclasses::applicative::Applicative;
use crate::typeclasses::functor::{Functor, Functor2};
use crate::typeclasses::monad::Monad;
use crate::typeclasses::monoid::{IntAddMonoid, Monoid, MonoidEffect, Numeric};
use crate::typeclasses::semigroup::{IntAddSemigroup, Semigroup, SemigroupEffect};
use crate::typeclasses::traverse::Traverse;
use crate::vec::{gathered, gathered_step, pushed, VecEffect};

verus! {

/// Functor identity: mapping with the identity function changes nothing.
pub proof fn lemma_fmap_identity<'a, X>(c: Option<X>, out: Option<X>)
    requires
        <OptionEffect<X, X, ()> as Functor<'a>>::fmap_ensures(c, |x: X, y: X| y == x, out),
    ensures
        out == c,
{
}

/// Functor composition: mapping with `f` and then with `g` is mapping once
/// with `g` after `f`.
pub proof fn lemma_fmap_composition<'a, X, Y, Z>(
    c: Option<X>,
    f: spec_fn(X) -> Y,
    g: spec_fn(Y) -> Z,
    mid: Option<Y>,
    twice: Option<Z>,
    once: Option<Z>,
)
    requires
        <OptionEffect<X, Y, ()> as Functor<'a>>::fmap_ensures(c, |x: X, y: Y| y == f(x), mid),
        <OptionEffect<Y, Z, ()> as Functor<'a>>::fmap_ensures(mid, |y: Y, z: Z| z == g(y), twice),
        <OptionEffect<X, Z, ()> as Functor<'a>>::fmap_ensures(c, |x: X, z: Z| z == g(f(x)), once),
    ensures
        twice == once,
{
}

/// Monad left identity: sequencing `pure(x)` with `f` is `f(x)`.
pub proof fn lemma_flat_map_left_identity<'a, X, Y>(
    x: X,
    f: spec_fn(X) -> Option<Y>,
    c: Option<X>,
    out: Option<Y>,
)
    requires
        <OptionEffect<X, Y, ()> as Applicative<'a>>::pure_ensures(x, c),
        <OptionEffect<X, Y, ()> as Monad<'a>>::flat_map_ensures(
            c,
            |a: X, fy: Option<Y>| fy == f(a),
            out,
        ),
    ensures
        out == f(x),
{
}

/// Monad right identity: sequencing with `pure` changes nothing.
pub proof fn lemma_flat_map_right_identity<'a, X>(c: Option<X>, out: Option<X>)
    requires
        <OptionEffect<X, X, ()> as Monad<'a>>::flat_map_ensures(
            c,
            |a: X, fa: Option<X>| <OptionEffect<X, X, ()> as Applicative<'a>>::pure_ensures(a, fa),
            out,
        ),
    ensures
        out == c,
{
}

/// Monad associativity: sequencing with `f` and then with `g` is sequencing
/// once with the function that sequences `f(x)` with `g`.
pub proof fn lemma_flat_map_associative<'a, X, Y, Z>(
    c: Option<X>,
    f: spec_fn(X) -> Option<Y>,
    g: spec_fn(Y) -> Option<Z>,
    mid: Option<Y>,
    nested: Option<Z>,
    chained: Option<Z>,
)
    requires
        <OptionEffect<X, Y, ()> as Monad<'a>>::flat_map_ensures(
            c,
            |x: X, fy: Option<Y>| fy == f(x),
            mid,
        ),
        <OptionEffect<Y, Z, ()> as Monad<'a>>::flat_map_ensures(
            mid,
            |y: Y, fz: Option<Z>| fz == g(y),
            nested,
        ),
        <OptionEffect<X, Z, ()> as Monad<'a>>::flat_map_ensures(
            c,
            |x: X, fz: Option<Z>|
                <OptionEffect<Y, Z, ()> as Monad<'a>>::flat_map_ensures(
                    f(x),
                    |y: Y, gz: Option<Z>| gz == g(y),
                    fz,
                ),
            chained,
        ),
    ensures
        nested == chained,
{
}

/// An absent value needs nothing of the function it is sequenced with, not
/// even that it can be called, and stays absent.
pub proof fn lemma_flat_map_absent<'a, X, Y>(
    post: spec_fn(X, Option<Y>) -> bool,
    out: Option<Y>,
)
    requires
        <OptionEffect<X, Y, ()> as Monad<'a>>::flat_map_ensures(None, post, out),
    ensures
        <OptionEffect<X, Y, ()> as Monad<'a>>::flat_map_requires(None, |x: X| false),
        out is None,
{
}

/// Semigroup associativity for optional numbers under addition.
pub proof fn lemma_combine_associative<T>(
    a: Option<T>,
    b: Option<T>,
    c: Option<T>,
    ab: Option<T>,
    bc: Option<T>,
    left: Option<T>,
    right: Option<T>,
) where
    T: Numeric + SemigroupEffect<T, T, T, Fct = IntAddSemigroup> + MonoidEffect<
        T,
        Fct = IntAddMonoid<T>,
    >,

    requires
        OptionEffect::<T, T, T>::combine_ensures(a, b, ab),
        OptionEffect::<T, T, T>::combine_ensures(ab, c, left),
        OptionEffect::<T, T, T>::combine_ensures(b, c, bc),
        OptionEffect::<T, T, T>::combine_ensures(a, bc, right),
    ensures
        left == right,
{
    lemma_combine_value(a, b, ab);
    lemma_combine_value(ab, c, left);
    lemma_combine_value(b, c, bc);
    lemma_combine_value(a, bc, right);
    if left is Some {
        T::to_int_injective(left->0, right->0);
    }
}

/// The integer held by an optional number, zero for the absent one.
pub open spec fn held<T: Numeric>(a: Option<T>) -> int {
    match a {
        Some(x) => x.to_int(),
        None => 0,
    }
}

/// Combining optional numbers adds what they hold, and the result is absent
/// only if both are.
pub proof fn lemma_combine_value<T>(a: Option<T>, b: Option<T>, out: Option<T>) where
    T: Numeric + SemigroupEffect<T, T, T, Fct = IntAddSemigroup> + MonoidEffect<
        T,
        Fct = IntAddMonoid<T>,
    >,

    requires
        OptionEffect::<T, T, T>::combine_ensures(a, b, out),
    ensures
        held(out) == held(a) + held(b),
        out is None <==> a is None && b is None,
{
}

/// Monoid identity: the empty optional value, which is the absent one, leaves
/// an optional number unchanged when combined with it on either side.
pub proof fn lemma_combine_empty<T>(
    a: Option<T>,
    e: Option<T>,
    left: Option<T>,
    right: Option<T>,
) where
    T: Numeric + SemigroupEffect<T, T, T, Fct = IntAddSemigroup> + MonoidEffect<
        T,
        Fct = IntAddMonoid<T>,
    >,

    requires
        OptionEffect::<T, (), ()>::empty_ensures(e),
        OptionEffect::<T, T, T>::combine_ensures(a, e, left),
        OptionEffect::<T, T, T>::combine_ensures(e, a, right),
    ensures
        left == a,
        right == a,
{
    lemma_combine_value(a, e, left);
    lemma_combine_value(e, a, right);
    if a is Some {
        T::to_int_injective(left->0, a->0);
        T::to_int_injective(right->0, a->0);
    }
}

/// Whether `effs` can be the optional values that traversing `xs` obtains from
/// a function with the relation `post`: one for each item, in order, up to and
/// including the first item for which the function gives nothing.
pub open spec fn effects_of<X, Y>(
    xs: Seq<X>,
    post: spec_fn(X, Option<Y>) -> bool,
    effs: Seq<Option<Y>>,
) -> bool {
    &&& effs.len() <= xs.len()
    &&& forall|i: int| 0 <= i < effs.len() ==> post(xs[i], #[trigger] effs[i])
    &&& forall|i: int| 0 <= i < effs.len() - 1 ==> (#[trigger] effs[i]) is Some
    &&& effs.len() < xs.len() ==> effs.len() > 0 && effs.last() is None
}

/// What traversing gathers from the optional values `effs`: all the payloads,
/// in order, if every one is present, and nothing if one is absent.
pub open spec fn gathered_from<Y>(effs: Seq<Option<Y>>, out: Option<Vec<Y>>) -> bool {
    if forall|i: int| 0 <= i < effs.len() ==> (#[trigger] effs[i]) is Some {
        &&& out is Some
        &&& out->0@ == effs.map_values(|e: Option<Y>| e->0)
    } else {
        out is None
    }
}

/// Traversing a sequence with a function to optional values gives the sequence
/// of all the results, in input order, if the function gave a value for every
/// item, and nothing if it gave none for some item. The function is not
/// called on the items after the first for which it gave nothing.
pub proof fn lemma_traverse<'a, X, Y>(
    xs: Seq<X>,
    post: spec_fn(X, Option<Y>) -> bool,
    out: Option<Vec<Y>>,
)
    requires
        gathered::<X, Y, Option<Y>>(xs, post, out),
    ensures
        exists|effs: Seq<Option<Y>>| #[trigger]
            effects_of(xs, post, effs) && gathered_from(effs, out),
    decreases xs.len(),
{
    if xs.len() == 0 {
        let effs = Seq::<Option<Y>>::empty();
        assert(effs.map_values(|e: Option<Y>| e->0) =~= Seq::<Y>::empty());
        assert(effects_of(xs, post, effs) && gathered_from(effs, out));
    } else {
        let front = xs.drop_last();
        let acc = choose|acc: Option<Vec<Y>>|
            gathered::<X, Y, Option<Y>>(front, post, acc) && #[trigger] gathered_step::<
                X,
                Y,
                Option<Y>,
            >(acc, xs.last(), post, out);
        lemma_traverse::<X, Y>(front, post, acc);
        let before = choose|effs: Seq<Option<Y>>| #[trigger]
            effects_of(front, post, effs) && gathered_from(effs, acc);
        assert forall|i: int| 0 <= i < before.len() implies post(xs[i], #[trigger] before[i]) by {
            assert(front[i] == xs[i]);
        }
        if acc is None {
            let i = choose|i: int| 0 <= i < before.len() && !((#[trigger] before[i]) is Some);
            assert(i == before.len() - 1);
            assert(effects_of(xs, post, before) && gathered_from(before, out));
        } else {
            if before.len() < front.len() {
                assert(before[before.len() - 1] is None);
            }
            let eff = choose|eff: Option<Y>|
                post(xs.last(), eff) && #[trigger] OptionEffect::<
                    Vec<Y>,
                    Y,
                    Vec<Y>,
                >::fmap2_ensures(acc, eff, pushed::<Y>(), out);
            let effs = before.push(eff);
            assert forall|i: int| 0 <= i < effs.len() implies post(xs[i], #[trigger] effs[i]) by {
                if i < before.len() {
                    assert(effs[i] == before[i]);
                }
            }
            assert forall|i: int| 0 <= i < effs.len() - 1 implies (#[trigger] effs[i]) is Some by {
                assert(effs[i] == before[i]);
            }
            if eff is Some {
                assert forall|i: int| 0 <= i < effs.len() implies (#[trigger] effs[i]) is Some by {
                    if i < before.len() {
                        assert(effs[i] == before[i]);
                    }
                }
                assert(out->0@ =~= effs.map_values(|e: Option<Y>| e->0));
            } else {
                assert(!(effs[effs.len() - 1] is Some));
            }
            assert(effects_of(xs, post, effs) && gathered_from(effs, out));
        }
    }
}

/// Traversing the empty sequence succeeds with the empty sequence, whatever
/// the function.
pub proof fn lemma_traverse_empty<'a, X, Y>(
    f: Vec<X>,
    post: spec_fn(X, Option<Y>) -> bool,
    out: Option<Vec<Y>>,
)
    requires
        f@.len() == 0,
        <VecEffect<X, Y, ()> as Traverse<
            'a,
            Vec<X>,
            Option<Y>,
            Vec<Y>,
            Option<Vec<Y>>,
            X,
            Y,
        >>::traverse_ensures(f, post, out),
    ensures
        out is Some,
        out->0@ == Seq::<Y>::empty(),
{
}

} // verus!
