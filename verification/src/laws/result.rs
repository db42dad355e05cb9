//! Laws of the fallible result.

use vstd::prelude::*;
use crate::result::ResultEffect;
use crate::typeclasses::applicative::Applicative;
use crate::typeclasses::functor::{Functor, Functor2};
use crate::typeclasses::monad::Monad;
use crate::typeclasses::monoid::{Monoid, Numeric};
use crate::typeclasses::semigroup::{IntAddSemigroup, Semigroup, SemigroupEffect};
use crate::typeclasses::traverse::Traverse;
use crate::vec::{gathered, gathered_step, pushed, VecEffect};

verus! {

/// Functor identity: mapping with the identity function changes nothing.
pub proof fn lemma_fmap_identity<'a, X, E>(c: Result<X, E>, out: Result<X, E>)
    requires
        <ResultEffect<E, X, X, ()> as Functor<'a>>::fmap_ensures(c, |x: X, y: X| y == x, out),
    ensures
        out == c,
{
}

/// Functor composition: mapping with `f` and then with `g` is mapping once
/// with `g` after `f`.
pub proof fn lemma_fmap_composition<'a, X, Y, Z, E>(
    c: Result<X, E>,
    f: spec_fn(X) -> Y,
    g: spec_fn(Y) -> Z,
    mid: Result<Y, E>,
    twice: Result<Z, E>,
    once: Result<Z, E>,
)
    requires
        <ResultEffect<E, X, Y, ()> as Functor<'a>>::fmap_ensures(c, |x: X, y: Y| y == f(x), mid),
        <ResultEffect<E, Y, Z, ()> as Functor<'a>>::fmap_ensures(
            mid,
            |y: Y, z: Z| z == g(y),
            twice,
        ),
        <ResultEffect<E, X, Z, ()> as Functor<'a>>::fmap_ensures(
            c,
            |x: X, z: Z| z == g(f(x)),
            once,
        ),
    ensures
        twice == once,
{
}

/// Monad left identity: sequencing `pure(x)` with `f` is `f(x)`.
pub proof fn lemma_flat_map_left_identity<'a, X, Y, E>(
    x: X,
    f: spec_fn(X) -> Result<Y, E>,
    c: Result<X, E>,
    out: Result<Y, E>,
)
    requires
        <ResultEffect<E, X, Y, ()> as Applicative<'a>>::pure_ensures(x, c),
        <ResultEffect<E, X, Y, ()> as Monad<'a>>::flat_map_ensures(
            c,
            |a: X, fy: Result<Y, E>| fy == f(a),
            out,
        ),
    ensures
        out == f(x),
{
}

/// Monad right identity: sequencing with `pure` changes nothing.
pub proof fn lemma_flat_map_right_identity<'a, X, E>(c: Result<X, E>, out: Result<X, E>)
    requires
        <ResultEffect<E, X, X, ()> as Monad<'a>>::flat_map_ensures(
            c,
            |a: X, fa: Result<X, E>|
                <ResultEffect<E, X, X, ()> as Applicative<'a>>::pure_ensures(a, fa),
            out,
        ),
    ensures
        out == c,
{
}

/// Monad associativity: sequencing with `f` and then with `g` is sequencing
/// once with the function that sequences `f(x)` with `g`.
pub proof fn lemma_flat_map_associative<'a, X, Y, Z, E>(
    c: Result<X, E>,
    f: spec_fn(X) -> Result<Y, E>,
    g: spec_fn(Y) -> Result<Z, E>,
    mid: Result<Y, E>,
    nested: Result<Z, E>,
    chained: Result<Z, E>,
)
    requires
        <ResultEffect<E, X, Y, ()> as Monad<'a>>::flat_map_ensures(
            c,
            |x: X, fy: Result<Y, E>| fy == f(x),
            mid,
        ),
        <ResultEffect<E, Y, Z, ()> as Monad<'a>>::flat_map_ensures(
            mid,
            |y: Y, fz: Result<Z, E>| fz == g(y),
            nested,
        ),
        <ResultEffect<E, X, Z, ()> as Monad<'a>>::flat_map_ensures(
            c,
            |x: X, fz: Result<Z, E>|
                <ResultEffect<E, Y, Z, ()> as Monad<'a>>::flat_map_ensures(
                    f(x),
                    |y: Y, gz: Result<Z, E>| gz == g(y),
                    fz,
                ),
            chained,
        ),
    ensures
        nested == chained,
{
}

/// A failure needs nothing of the function it is sequenced with, not even that
/// it can be called, and is passed on unchanged.
pub proof fn lemma_flat_map_failed<'a, X, Y, E>(
    e: E,
    post: spec_fn(X, Result<Y, E>) -> bool,
    out: Result<Y, E>,
)
    requires
        <ResultEffect<E, X, Y, ()> as Monad<'a>>::flat_map_ensures(Err(e), post, out),
    ensures
        <ResultEffect<E, X, Y, ()> as Monad<'a>>::flat_map_requires(Err(e), |x: X| false),
        out == Err::<Y, E>(e),
{
}

/// Semigroup associativity for fallible numbers under addition.
pub proof fn lemma_combine_associative<T, E>(
    a: Result<T, E>,
    b: Result<T, E>,
    c: Result<T, E>,
    ab: Result<T, E>,
    bc: Result<T, E>,
    left: Result<T, E>,
    right: Result<T, E>,
) where T: Numeric + SemigroupEffect<T, T, T, Fct = IntAddSemigroup>
    requires
        ResultEffect::<E, T, T, T>::combine_ensures(a, b, ab),
        ResultEffect::<E, T, T, T>::combine_ensures(ab, c, left),
        ResultEffect::<E, T, T, T>::combine_ensures(b, c, bc),
        ResultEffect::<E, T, T, T>::combine_ensures(a, bc, right),
    ensures
        left == right,
{
    if a is Ok && b is Ok && c is Ok {
        T::to_int_injective(left->Ok_0, right->Ok_0);
    }
}

/// Monoid identity, as far as it holds: the empty fallible value is a failure,
/// so combining a failure with it on the right gives that failure back.
pub proof fn lemma_combine_empty_right<T, E: Default>(
    a: Result<T, E>,
    e: Result<T, E>,
    out: Result<T, E>,
) where T: Numeric + SemigroupEffect<T, T, T, Fct = IntAddSemigroup>
    requires
        a is Err,
        ResultEffect::<E, T, (), ()>::empty_ensures(e),
        ResultEffect::<E, T, T, T>::combine_ensures(a, e, out),
    ensures
        out == a,
{
}

/// Monoid identity, as far as it holds: combining the empty fallible value
/// with itself gives it back.
pub proof fn lemma_combine_empty_left<T, E: Default>(e: Result<T, E>, out: Result<T, E>) where
    T: Numeric + SemigroupEffect<T, T, T, Fct = IntAddSemigroup>,

    requires
        ResultEffect::<E, T, (), ()>::empty_ensures(e),
        ResultEffect::<E, T, T, T>::combine_ensures(e, e, out),
    ensures
        out == e,
{
}

/// Whether `effs` can be the fallible values that traversing `xs` obtains from
/// a function with the relation `post`: one for each item, in order, up to and
/// including the first item on which the function fails.
pub open spec fn effects_of<X, Y, E>(
    xs: Seq<X>,
    post: spec_fn(X, Result<Y, E>) -> bool,
    effs: Seq<Result<Y, E>>,
) -> bool {
    &&& effs.len() <= xs.len()
    &&& forall|i: int| 0 <= i < effs.len() ==> post(xs[i], #[trigger] effs[i])
    &&& forall|i: int| 0 <= i < effs.len() - 1 ==> (#[trigger] effs[i]) is Ok
    &&& effs.len() < xs.len() ==> effs.len() > 0 && effs.last() is Err
}

/// What traversing gathers from the fallible values `effs`, of which only the
/// last can be a failure: all the payloads, in order, if every one has
/// succeeded, and else that failure.
pub open spec fn gathered_from<Y, E>(effs: Seq<Result<Y, E>>, out: Result<Vec<Y>, E>) -> bool {
    if forall|i: int| 0 <= i < effs.len() ==> (#[trigger] effs[i]) is Ok {
        &&& out is Ok
        &&& out->Ok_0@ == effs.map_values(|e: Result<Y, E>| e->Ok_0)
    } else {
        out == Err::<Vec<Y>, E>(effs.last()->Err_0)
    }
}

/// Traversing a sequence with a function to fallible values gives the sequence
/// of all the results, in input order, if the function succeeded on every
/// item, and else the failure of the first item, in input order, on which it
/// failed. The function is not called on the items after that one.
pub proof fn lemma_traverse<'a, X, Y, E>(
    xs: Seq<X>,
    post: spec_fn(X, Result<Y, E>) -> bool,
    out: Result<Vec<Y>, E>,
)
    requires
        gathered::<X, Y, Result<Y, E>>(xs, post, out),
    ensures
        exists|effs: Seq<Result<Y, E>>| #[trigger]
            effects_of(xs, post, effs) && gathered_from(effs, out),
    decreases xs.len(),
{
    if xs.len() == 0 {
        let effs = Seq::<Result<Y, E>>::empty();
        assert(effs.map_values(|e: Result<Y, E>| e->Ok_0) =~= Seq::<Y>::empty());
        assert(effects_of(xs, post, effs) && gathered_from(effs, out));
    } else {
        let front = xs.drop_last();
        let acc = choose|acc: Result<Vec<Y>, E>|
            gathered::<X, Y, Result<Y, E>>(front, post, acc) && #[trigger] gathered_step::<
                X,
                Y,
                Result<Y, E>,
            >(acc, xs.last(), post, out);
        lemma_traverse::<X, Y, E>(front, post, acc);
        let before = choose|effs: Seq<Result<Y, E>>| #[trigger]
            effects_of(front, post, effs) && gathered_from(effs, acc);
        assert forall|i: int| 0 <= i < before.len() implies post(xs[i], #[trigger] before[i]) by {
            assert(front[i] == xs[i]);
        }
        if acc is Err {
            assert(effects_of(xs, post, before) && gathered_from(before, out));
        } else {
            if before.len() < front.len() {
                assert(before[before.len() - 1] is Err);
            }
            let eff = choose|eff: Result<Y, E>|
                post(xs.last(), eff) && #[trigger] ResultEffect::<
                    E,
                    Vec<Y>,
                    Y,
                    Vec<Y>,
                >::fmap2_ensures(acc, eff, pushed::<Y>(), out);
            let effs = before.push(eff);
            assert forall|i: int| 0 <= i < effs.len() implies post(xs[i], #[trigger] effs[i]) by {
                if i < before.len() {
                    assert(effs[i] == before[i]);
                }
            }
            assert forall|i: int| 0 <= i < effs.len() - 1 implies (#[trigger] effs[i]) is Ok by {
                assert(effs[i] == before[i]);
            }
            if eff is Ok {
                assert forall|i: int| 0 <= i < effs.len() implies (#[trigger] effs[i]) is Ok by {
                    if i < before.len() {
                        assert(effs[i] == before[i]);
                    }
                }
                assert(out->Ok_0@ =~= effs.map_values(|e: Result<Y, E>| e->Ok_0));
            } else {
                assert(!(effs[effs.len() - 1] is Ok));
                assert(effs.last() == eff);
            }
            assert(effects_of(xs, post, effs) && gathered_from(effs, out));
        }
    }
}

/// Traversing the empty sequence succeeds with the empty sequence, whatever
/// the function.
pub proof fn lemma_traverse_empty<'a, X, Y, E>(
    f: Vec<X>,
    post: spec_fn(X, Result<Y, E>) -> bool,
    out: Result<Vec<Y>, E>,
)
    requires
        f@.len() == 0,
        <VecEffect<X, Y, ()> as Traverse<
            'a,
            Vec<X>,
            Result<Y, E>,
            Vec<Y>,
            Result<Vec<Y>, E>,
            X,
            Y,
        >>::traverse_ensures(f, post, out),
    ensures
        out is Ok,
        out->Ok_0@ == Seq::<Y>::empty(),
{
}

} // verus!
