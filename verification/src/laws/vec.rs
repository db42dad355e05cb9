//! Laws of the sequence, stated over the views of the sequences.

use vstd::prelude::*;
use crate::typeclasses::applicative::{Applicative, ApplicativeEffect};
use crate::typeclasses::functor::Functor;
use crate::typeclasses::monad::Monad;
use crate::typeclasses::monoid::Monoid;
use crate::typeclasses::semigroup::Semigroup;
use crate::typeclasses::traverse::{Traverse, Traversed};
use crate::vec::{joined, VecEffect};

verus! {

/// Every item of `s` replaced by the sequence that `f` gives for it, and the
/// sequences joined in order.
pub open spec fn bind<X, Y>(s: Seq<X>, f: spec_fn(X) -> Seq<Y>) -> Seq<Y> {
    s.map_values(f).flatten()
}

/// Binding a sequence with one more item binds the sequence and adds what the
/// function gives for the item.
pub proof fn lemma_bind_push<X, Y>(s: Seq<X>, x: X, f: spec_fn(X) -> Seq<Y>)
    ensures
        bind(s.push(x), f) == bind(s, f) + f(x),
{
    assert(s.push(x).map_values(f) =~= s.map_values(f).push(f(x)));
    s.map_values(f).lemma_flatten_push(f(x));
}

/// Binding two sequences joined is joining what binding each gives.
pub proof fn lemma_bind_concat<X, Y>(s: Seq<X>, t: Seq<X>, f: spec_fn(X) -> Seq<Y>)
    ensures
        bind(s + t, f) == bind(s, f) + bind(t, f),
    decreases t.len(),
{
    if t.len() == 0 {
        assert(s + t =~= s);
        assert(t.map_values(f) =~= Seq::<Seq<Y>>::empty());
        assert(bind(t, f) =~= Seq::<Y>::empty());
        assert(bind(s, f) + bind(t, f) =~= bind(s, f));
    } else {
        let front = t.drop_last();
        lemma_bind_concat(s, front, f);
        assert(s + t =~= (s + front).push(t.last()));
        assert(t =~= front.push(t.last()));
        lemma_bind_push(s + front, t.last(), f);
        lemma_bind_push(front, t.last(), f);
        assert((bind(s, f) + bind(front, f)) + f(t.last()) =~= bind(s, f) + (bind(front, f) + f(
            t.last(),
        )));
    }
}

/// What mapping gives, for a deterministic function: the function applied to
/// every item, in order.
pub proof fn lemma_fmap_value<'a, X, Y>(c: Vec<X>, f: spec_fn(X) -> Y, out: Vec<Y>)
    requires
        <VecEffect<X, Y, ()> as Functor<'a>>::fmap_ensures(c, |x: X, y: Y| y == f(x), out),
    ensures
        out@ == c@.map_values(f),
{
    assert(out@ =~= c@.map_values(f));
}

/// What sequencing gives, for a deterministic function: the sequences that the
/// function gives for the items, joined in order.
pub proof fn lemma_flat_map_value<'a, X: Clone, Y: Clone>(
    c: Vec<X>,
    f: spec_fn(X) -> Seq<Y>,
    out: Vec<Y>,
)
    requires
        <VecEffect<X, Y, ()> as Monad<'a>>::flat_map_ensures(
            c,
            |x: X, fy: Vec<Y>| fy@ == f(x),
            out,
        ),
    ensures
        out@ == bind(c@, f),
{
    let parts = choose|parts: Seq<Vec<Y>>|
        {
            &&& parts.len() == c@.len()
            &&& forall|i: int| 0 <= i < c@.len() ==> (#[trigger] parts[i])@ == f(c@[i])
            &&& out@ == joined(parts)
        };
    assert(parts.map_values(|v: Vec<Y>| v@) =~= c@.map_values(f));
}

/// Functor identity: mapping with the identity function changes nothing.
pub proof fn lemma_fmap_identity<'a, X>(c: Vec<X>, out: Vec<X>)
    requires
        <VecEffect<X, X, ()> as Functor<'a>>::fmap_ensures(c, |x: X, y: X| y == x, out),
    ensures
        out@ == c@,
{
    assert(out@ =~= c@);
}

/// Functor composition: mapping with `f` and then with `g` is mapping once
/// with `g` after `f`.
pub proof fn lemma_fmap_composition<'a, X, Y, Z>(
    c: Vec<X>,
    f: spec_fn(X) -> Y,
    g: spec_fn(Y) -> Z,
    mid: Vec<Y>,
    twice: Vec<Z>,
    once: Vec<Z>,
)
    requires
        <VecEffect<X, Y, ()> as Functor<'a>>::fmap_ensures(c, |x: X, y: Y| y == f(x), mid),
        <VecEffect<Y, Z, ()> as Functor<'a>>::fmap_ensures(mid, |y: Y, z: Z| z == g(y), twice),
        <VecEffect<X, Z, ()> as Functor<'a>>::fmap_ensures(c, |x: X, z: Z| z == g(f(x)), once),
    ensures
        twice@ == once@,
{
    assert(twice@ =~= once@);
}

/// Monad left identity: sequencing `pure(x)` with `f` is `f(x)`.
pub proof fn lemma_flat_map_left_identity<'a, X: Clone, Y: Clone>(
    x: X,
    f: spec_fn(X) -> Seq<Y>,
    c: Vec<X>,
    out: Vec<Y>,
)
    requires
        <VecEffect<X, Y, ()> as Applicative<'a>>::pure_ensures(x, c),
        <VecEffect<X, Y, ()> as Monad<'a>>::flat_map_ensures(
            c,
            |a: X, fy: Vec<Y>| fy@ == f(a),
            out,
        ),
    ensures
        out@ == f(x),
{
    lemma_flat_map_value(c, f, out);
    assert(c@ =~= Seq::<X>::empty().push(x));
    lemma_bind_push(Seq::<X>::empty(), x, f);
    assert(Seq::<X>::empty().map_values(f) =~= Seq::<Seq<Y>>::empty());
    assert(bind(Seq::<X>::empty(), f) =~= Seq::<Y>::empty());
    assert(Seq::<Y>::empty() + f(x) =~= f(x));
}

/// Binding with the function that wraps each item changes nothing.
pub proof fn lemma_bind_pure<X>(s: Seq<X>)
    ensures
        bind(s, |x: X| seq![x]) == s,
    decreases s.len(),
{
    let wrap = |x: X| seq![x];
    if s.len() == 0 {
        assert(s.map_values(wrap) =~= Seq::<Seq<X>>::empty());
        assert(bind(s, wrap) =~= s);
    } else {
        lemma_bind_pure(s.drop_last());
        assert(s =~= s.drop_last().push(s.last()));
        lemma_bind_push(s.drop_last(), s.last(), wrap);
        assert(s.drop_last() + seq![s.last()] =~= s);
    }
}

/// Monad right identity: sequencing with `pure` changes nothing.
pub proof fn lemma_flat_map_right_identity<'a, X: Clone>(c: Vec<X>, out: Vec<X>)
    requires
        <VecEffect<X, X, ()> as Monad<'a>>::flat_map_ensures(
            c,
            |a: X, fa: Vec<X>| <VecEffect<X, X, ()> as Applicative<'a>>::pure_ensures(a, fa),
            out,
        ),
    ensures
        out@ == c@,
{
    let wrap = |x: X| seq![x];
    let parts = choose|parts: Seq<Vec<X>>|
        {
            &&& parts.len() == c@.len()
            &&& forall|i: int| 0 <= i < c@.len() ==> (#[trigger] parts[i])@ == seq![c@[i]]
            &&& out@ == joined(parts)
        };
    assert(parts.map_values(|v: Vec<X>| v@) =~= c@.map_values(wrap));
    lemma_bind_pure(c@);
}

/// Binding with `f` and then with `g` is binding once with the function that
/// binds `f(x)` with `g`.
pub proof fn lemma_bind_associative<X, Y, Z>(
    s: Seq<X>,
    f: spec_fn(X) -> Seq<Y>,
    g: spec_fn(Y) -> Seq<Z>,
)
    ensures
        bind(bind(s, f), g) == bind(s, |x: X| bind(f(x), g)),
    decreases s.len(),
{
    let h = |x: X| bind(f(x), g);
    if s.len() == 0 {
        assert(s.map_values(f) =~= Seq::<Seq<Y>>::empty());
        assert(s.map_values(h) =~= Seq::<Seq<Z>>::empty());
        assert(bind(s, f) =~= Seq::<Y>::empty());
        assert(bind(s, f).map_values(g) =~= Seq::<Seq<Z>>::empty());
        assert(bind(bind(s, f), g) =~= bind(s, h));
    } else {
        let front = s.drop_last();
        lemma_bind_associative(front, f, g);
        assert(s =~= front.push(s.last()));
        lemma_bind_push(front, s.last(), f);
        lemma_bind_push(front, s.last(), h);
        lemma_bind_concat(bind(front, f), f(s.last()), g);
    }
}

/// Monad associativity: sequencing with `f` and then with `g` is sequencing
/// once with the function that sequences `f(x)` with `g`.
pub proof fn lemma_flat_map_associative<'a, X: Clone, Y: Clone, Z: Clone>(
    c: Vec<X>,
    f: spec_fn(X) -> Seq<Y>,
    g: spec_fn(Y) -> Seq<Z>,
    mid: Vec<Y>,
    nested: Vec<Z>,
    chained: Vec<Z>,
)
    requires
        <VecEffect<X, Y, ()> as Monad<'a>>::flat_map_ensures(
            c,
            |x: X, fy: Vec<Y>| fy@ == f(x),
            mid,
        ),
        <VecEffect<Y, Z, ()> as Monad<'a>>::flat_map_ensures(
            mid,
            |y: Y, fz: Vec<Z>| fz@ == g(y),
            nested,
        ),
        <VecEffect<X, Z, ()> as Monad<'a>>::flat_map_ensures(
            c,
            |x: X, fz: Vec<Z>| fz@ == bind(f(x), g),
            chained,
        ),
    ensures
        nested@ == chained@,
{
    lemma_flat_map_value(c, f, mid);
    lemma_flat_map_value(mid, g, nested);
    lemma_flat_map_value(c, |x: X| bind(f(x), g), chained);
    lemma_bind_associative(c@, f, g);
}

/// Semigroup associativity: joining three sequences gives the same sequence
/// either way.
pub proof fn lemma_combine_associative<X>(
    a: Vec<X>,
    b: Vec<X>,
    c: Vec<X>,
    ab: Vec<X>,
    bc: Vec<X>,
    left: Vec<X>,
    right: Vec<X>,
)
    requires
        VecEffect::<X, X, X>::combine_ensures(a, b, ab),
        VecEffect::<X, X, X>::combine_ensures(ab, c, left),
        VecEffect::<X, X, X>::combine_ensures(b, c, bc),
        VecEffect::<X, X, X>::combine_ensures(a, bc, right),
    ensures
        left@ == right@,
{
    assert((a@ + b@) + c@ =~= a@ + (b@ + c@));
}

/// Monoid identity: the empty sequence changes nothing on either side.
pub proof fn lemma_combine_empty<X>(a: Vec<X>, e: Vec<X>, left: Vec<X>, right: Vec<X>)
    requires
        VecEffect::<X, (), ()>::empty_ensures(e),
        VecEffect::<X, X, X>::combine_ensures(a, e, left),
        VecEffect::<X, X, X>::combine_ensures(e, a, right),
    ensures
        left@ == a@,
        right@ == a@,
{
    assert(a@ + Seq::<X>::empty() =~= a@);
    assert(Seq::<X>::empty() + a@ =~= a@);
}

/// Traversing the empty sequence gives the effect that wraps the empty
/// sequence, whatever the function and whatever the effect.
pub proof fn lemma_traverse_empty<'a, X, Y, EffIn>(
    f: Vec<X>,
    post: spec_fn(X, EffIn) -> bool,
    out: EffIn::Gathered,
) where EffIn: Traversed<'a, Y>
    requires
        f@.len() == 0,
        <VecEffect<X, Y, ()> as Traverse<
            'a,
            Vec<X>,
            EffIn,
            Vec<Y>,
            EffIn::Gathered,
            X,
            Y,
        >>::traverse_ensures(f, post, out),
    ensures
        exists|e: Vec<Y>|
            e@ == Seq::<Y>::empty() && #[trigger] <<EffIn::Gathered as ApplicativeEffect<
                'a,
            >>::Fct as Applicative<'a>>::pure_ensures(e, out),
{
}

} // verus!
