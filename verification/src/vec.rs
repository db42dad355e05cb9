//! The sequence as a container: any number of items, in order.
//!
//! ```text
//!   combine([a, b], [x, y])     =>  [a, b, x, y]
//!   empty()                     =>  []
//!   pure(x)                     =>  [x]
//!   fmap([x, y], g)             =>  [g(x), g(y)]
//!   fmap2([a, b], [x, y], g)    =>  [g(a, x), g(a, y), g(b, x), g(b, y)]
//!   flat_map([x, y], g)         =>  g(x) ++ g(y)
//!   fold([x, y], init, g)       =>  g(g(init, x), y)
//!   product([a, b], [x, y])     =>  [(a, x), (a, y), (b, x), (b, y)]
//!   traverse([x, y], g)         =>  the effect of [*g(x), *g(y)]
//! ```
//!
//! `traverse` goes through the items in order, runs `g` on an item and merges
//! its effect into the effect gathered so far, which comes first in the merge:
//! the first failure in input order is the one that is kept. Once the gathered
//! effect is seen to have failed, `g` is not run on the items that follow. A
//! deferred effect shows nothing before it is driven, so with it `g` runs on
//! every item.

use vstd::prelude::*;
use std::marker::PhantomData;
use crate::typeclasses::{Effect, F};
use crate::typeclasses::applicative::{Applicative, ApplicativeEffect};
use crate::typeclasses::functor::{Functor, Functor2, Functor2Effect, FunctorEffect};
use crate::typeclasses::monad::{Foldable, FoldableEffect, Monad, MonadEffect};
use crate::typeclasses::monoid::{Monoid, MonoidEffect};
use crate::typeclasses::product::{Productable, ProductableEffect};
use crate::typeclasses::semigroup::{Semigroup, SemigroupEffect};
use crate::typeclasses::traverse::{Traverse, TraverseEffect, Traversed};

verus! {

impl<X> F<X> for Vec<X> {

}

impl<X> SemigroupEffect<Vec<X>, Vec<X>, Vec<X>> for Vec<X> {
    type Fct = VecEffect<X, X, X>;
}

impl<X> MonoidEffect<Vec<X>> for Vec<X> {
    type Fct = VecEffect<X, (), ()>;
}

impl<'a, X: Clone> ApplicativeEffect<'a> for Vec<X> {
    type X = X;

    type Fct = VecEffect<X, X, ()>;
}

impl<'a, X, Y> FunctorEffect<'a, X, Y> for Vec<X> {
    type FX = Vec<X>;

    type FY = Vec<Y>;

    type Fct = VecEffect<X, Y, ()>;
}

impl<'a, X: Clone, Y: Clone, Z> Functor2Effect<'a, X, Y, Z> for Vec<X> {
    type FX = Vec<X>;

    type FY = Vec<Y>;

    type FZ = Vec<Z>;

    type Fct = VecEffect<X, Y, Z>;
}

impl<'a, X: Clone, Y: Clone> MonadEffect<'a, X, Y> for Vec<X> {
    type FX = Vec<X>;

    type FY = Vec<Y>;

    type Fct = VecEffect<X, Y, ()>;
}

impl<'a, X: Clone, Y: Clone> FoldableEffect<'a, X, Y, Y> for Vec<X> {
    type FX = Vec<X>;

    type Fct = VecEffect<X, Y, ()>;
}

impl<'a, X: Clone, Y: Clone> ProductableEffect<'a, X, Y> for Vec<X> {
    type FX = Vec<X>;

    type FY = Vec<Y>;

    type FZ = Vec<(X, Y)>;

    type Fct = VecEffect<X, Y, (X, Y)>;
}

impl<'a, X, Y, EffIn> TraverseEffect<'a, EffIn, X, Y> for Vec<X> where EffIn: Traversed<'a, Y> {
    type TRet = Vec<Y>;

    type EffRet = EffIn::Gathered;

    type Fct = VecEffect<X, Y, ()>;
}

impl<'a, Y: Clone> Traversed<'a, Y> for Vec<Y> {
    type Gathered = Vec<Vec<Y>>;

    open spec fn seen_failed(acc: Vec<Vec<Y>>) -> bool {
        false
    }

    fn has_failed(_acc: &Vec<Vec<Y>>) -> (b: bool) {
        false
    }
}

/// The witness for sequences. It holds nothing; its parameters name the
/// payload types of the operation it is used for.
pub struct VecEffect<X = (), Y = (), Z = ()> {
    _a: PhantomData<X>,
    _b: PhantomData<Y>,
    _c: PhantomData<Z>,
}

impl<X, Y, Z> VecEffect<X, Y, Z> {
    /// The witness; the argument only fixes the last type parameter.
    pub fn new(_z: Z) -> Self {
        VecEffect { _a: PhantomData, _b: PhantomData, _c: PhantomData }
    }
}

impl<X, Y, Z> Clone for VecEffect<X, Y, Z> {
    fn clone(&self) -> Self {
        VecEffect { _a: PhantomData, _b: PhantomData, _c: PhantomData }
    }
}

impl<X, Y, Z> Effect for VecEffect<X, Y, Z> {

}

impl<X> Semigroup<Vec<X>, Vec<X>, Vec<X>> for VecEffect<X, X, X> {
    open spec fn combine_requires(a: Vec<X>, b: Vec<X>) -> bool {
        true
    }

    open spec fn combine_ensures(a: Vec<X>, b: Vec<X>, out: Vec<X>) -> bool {
        out@ == a@ + b@
    }

    fn combine(a: Vec<X>, b: Vec<X>) -> (out: Vec<X>) {
        let mut ret = a;
        let mut rest = b;
        ret.append(&mut rest);
        ret
    }
}

impl<X, Y, Z> Monoid for VecEffect<X, Y, Z> {
    type Output = Vec<X>;

    open spec fn empty_ensures(out: Vec<X>) -> bool {
        out@ == Seq::<X>::empty()
    }

    fn empty() -> (out: Vec<X>) {
        Vec::new()
    }
}

impl<'a, X, Y, Z> Functor<'a> for VecEffect<X, Y, Z> {
    type X = X;

    type Y = Y;

    type FX = Vec<X>;

    type FY = Vec<Y>;

    open spec fn fmap_requires(f: Vec<X>, pre: spec_fn(X) -> bool) -> bool {
        forall|i: int| 0 <= i < f@.len() ==> pre(#[trigger] f@[i])
    }

    open spec fn fmap_ensures(f: Vec<X>, post: spec_fn(X, Y) -> bool, out: Vec<Y>) -> bool {
        &&& out@.len() == f@.len()
        &&& forall|i: int| 0 <= i < f@.len() ==> post(f@[i], #[trigger] out@[i])
    }

    proof fn fmap_ensures_weaken(
        f: Vec<X>,
        p: spec_fn(X, Y) -> bool,
        q: spec_fn(X, Y) -> bool,
        out: Vec<Y>,
    ) {
        assert forall|i: int| 0 <= i < f@.len() implies q(f@[i], #[trigger] out@[i]) by {
            assert(p(f@[i], out@[i]));
        }
    }

    fn fmap<Func: 'a + Fn(X) -> Y + Send + Sync>(f: Vec<X>, func: Func) -> (out: Vec<Y>) {
        let ghost items = f@;
        let mut out: Vec<Y> = Vec::new();
        for x in it: f.into_iter()
            invariant
                it.seq() == items,
                forall|i: int| 0 <= i < items.len() ==> func.requires((#[trigger] items[i],)),
                out@.len() == it.index(),
                forall|i: int|
                    0 <= i < it.index() ==> func.ensures((items[i],), #[trigger] out@[i]),
        {
            out.push(func(x));
        }
        out
    }
}

/// Where the pair of item `i` of the first sequence and item `j` of the second
/// stands in their product, the second sequence having `n` items.
pub open spec fn product_index(i: int, j: int, n: int) -> int {
    i * n + j
}

/// Whether item `product_index(i, j, ..)` of `out` is a result, by `post`, for
/// copies of item `i` of `fa` and item `j` of `fb`.
pub open spec fn product_item<X: Clone, Y: Clone, Z>(
    fa: Seq<X>,
    fb: Seq<Y>,
    post: spec_fn(X, Y, Z) -> bool,
    out: Seq<Z>,
    i: int,
    j: int,
) -> bool {
    exists|x: X, y: Y|
        cloned(fa[i], x) && cloned(fb[j], y) && #[trigger] post(
            x,
            y,
            out[product_index(i, j, fb.len() as int)],
        )
}

/// The index of a pair in a product lies in the product, in the stretch that
/// belongs to the pair's first item.
pub proof fn lemma_product_index(i: int, j: int, m: int, n: int)
    requires
        0 <= i < m,
        0 <= j < n,
    ensures
        0 <= product_index(i, j, n) < m * n,
        product_index(i, j, n) < (i + 1) * n,
        i * n <= product_index(i, j, n),
{
    assert(i * n + n == (i + 1) * n) by (nonlinear_arith);
    assert((i + 1) * n <= m * n) by (nonlinear_arith)
        requires
            i + 1 <= m,
            0 <= n,
    ;
    assert(0 <= i * n) by (nonlinear_arith)
        requires
            0 <= i,
            0 <= n,
    ;
}

impl<'a, X: Clone, Y: Clone, Z> Functor2<'a> for VecEffect<X, Y, Z> {
    type Z = Z;

    type FZ = Vec<Z>;

    open spec fn fmap2_requires(fa: Vec<X>, fb: Vec<Y>, pre: spec_fn(X, Y) -> bool) -> bool {
        forall|i: int, j: int, x: X, y: Y|
            0 <= i < fa@.len() && 0 <= j < fb@.len() && #[trigger] cloned(fa@[i], x)
                && #[trigger] cloned(fb@[j], y) ==> pre(x, y)
    }

    open spec fn fmap2_ensures(
        fa: Vec<X>,
        fb: Vec<Y>,
        post: spec_fn(X, Y, Z) -> bool,
        out: Vec<Z>,
    ) -> bool {
        &&& out@.len() == fa@.len() * fb@.len()
        &&& forall|i: int, j: int|
            0 <= i < fa@.len() && 0 <= j < fb@.len() ==> #[trigger] product_item(
                fa@,
                fb@,
                post,
                out@,
                i,
                j,
            )
    }

    proof fn fmap2_requires_total(fa: Vec<X>, fb: Vec<Y>, pre: spec_fn(X, Y) -> bool) {
    }

    proof fn fmap2_ensures_weaken(
        fa: Vec<X>,
        fb: Vec<Y>,
        p: spec_fn(X, Y, Z) -> bool,
        q: spec_fn(X, Y, Z) -> bool,
        out: Vec<Z>,
    ) {
        assert forall|i: int, j: int|
            0 <= i < fa@.len() && 0 <= j < fb@.len() implies #[trigger] product_item(
            fa@,
            fb@,
            q,
            out@,
            i,
            j,
        ) by {
            assert(product_item(fa@, fb@, p, out@, i, j));
            let (x, y) = choose|x: X, y: Y|
                cloned(fa@[i], x) && cloned(fb@[j], y) && #[trigger] p(
                    x,
                    y,
                    out@[product_index(i, j, fb@.len() as int)],
                );
            assert(q(x, y, out@[product_index(i, j, fb@.len() as int)]));
        }
    }

    fn fmap2<Func: 'a + Fn(X, Y) -> Z + Send + Sync>(fa: Vec<X>, fb: Vec<Y>, func: Func) -> (out:
        Vec<Z>) {
        let ghost xs = fa@;
        let ghost ys = fb@;
        let ghost post = |x: X, y: Y, z: Z| func.ensures((x, y), z);
        let n = fb.len();
        let mut out: Vec<Z> = Vec::new();
        for x in ita: fa.into_iter()
            invariant
                ita.seq() == xs,
                ys == fb@,
                n == ys.len(),
                post == (|x: X, y: Y, z: Z| func.ensures((x, y), z)),
                forall|i: int, j: int, x: X, y: Y|
                    0 <= i < xs.len() && 0 <= j < ys.len() && #[trigger] cloned(xs[i], x)
                        && #[trigger] cloned(ys[j], y) ==> func.requires((x, y)),
                out@.len() == ita.index() * ys.len(),
                forall|i: int, j: int|
                    0 <= i < ita.index() && 0 <= j < ys.len() ==> #[trigger] product_item(
                        xs,
                        ys,
                        post,
                        out@,
                        i,
                        j,
                    ),
        {
            let ghost row = ita.index() as int;
            let ghost before = out@;
            let mut k: usize = 0;
            while k < n
                invariant
                    0 <= row < xs.len(),
                    x == xs[row],
                    ys == fb@,
                    n == ys.len(),
                    k <= n,
                    post == (|x: X, y: Y, z: Z| func.ensures((x, y), z)),
                    forall|i: int, j: int, x: X, y: Y|
                        0 <= i < xs.len() && 0 <= j < ys.len() && #[trigger] cloned(xs[i], x)
                            && #[trigger] cloned(ys[j], y) ==> func.requires((x, y)),
                    before.len() == row * ys.len(),
                    out@.len() == row * ys.len() + k,
                    out@.subrange(0, before.len() as int) == before,
                    forall|j: int|
                        0 <= j < k ==> #[trigger] product_item(xs, ys, post, out@, row, j),
                decreases n - k,
            {
                let ghost prev_out = out@;
                let a = x.clone();
                let b = fb[k].clone();
                proof {
                    assert(cloned(xs[row], a));
                    assert(cloned(ys[k as int], b));
                }
                let z = func(a, b);
                out.push(z);
                proof {
                    assert(out@[product_index(row, k as int, ys.len() as int)] == z);
                    assert(post(a, b, z));
                    assert(product_item(xs, ys, post, out@, row, k as int));
                    assert forall|j: int| 0 <= j < k implies #[trigger] product_item(
                        xs,
                        ys,
                        post,
                        out@,
                        row,
                        j,
                    ) by {
                        assert(product_item(xs, ys, post, prev_out, row, j));
                        assert(prev_out[product_index(row, j, ys.len() as int)] == out@[product_index(
                            row,
                            j,
                            ys.len() as int,
                        )]);
                    }
                    assert(out@.subrange(0, before.len() as int) =~= before);
                }
                k = k + 1;
            }
            proof {
                assert((row + 1) * ys.len() == row * ys.len() + ys.len()) by (nonlinear_arith);
                assert forall|i: int, j: int| 0 <= i < row + 1 && 0 <= j < ys.len() implies #[trigger] product_item(
                    xs,
                    ys,
                    post,
                    out@,
                    i,
                    j,
                ) by {
                    if i < row {
                        lemma_product_index(i, j, row, ys.len() as int);
                        assert(product_item(xs, ys, post, before, i, j));
                        assert(before[product_index(i, j, ys.len() as int)] == out@[product_index(
                            i,
                            j,
                            ys.len() as int,
                        )]);
                    }
                }
            }
        }
        proof {
            assert(xs.len() * ys.len() == out@.len());
        }
        out
    }
}

impl<'a, X: Clone, Y: Clone, Z> Applicative<'a> for VecEffect<X, Y, Z> {
    open spec fn pure_ensures(x: X, out: Vec<X>) -> bool {
        out@ == seq![x]
    }

    fn pure(x: X) -> (out: Vec<X>) {
        let mut out: Vec<X> = Vec::new();
        out.push(x);
        assert(out@ =~= seq![x]);
        out
    }
}

/// The views of the sequences in `parts`, joined in order.
pub open spec fn joined<Y>(parts: Seq<Vec<Y>>) -> Seq<Y> {
    parts.map_values(|v: Vec<Y>| v@).flatten()
}

impl<'a, X: Clone, Y: Clone, Z> Monad<'a> for VecEffect<X, Y, Z> {
    open spec fn flat_map_requires(f: Vec<X>, pre: spec_fn(X) -> bool) -> bool {
        forall|i: int| 0 <= i < f@.len() ==> pre(#[trigger] f@[i])
    }

    open spec fn flat_map_ensures(
        f: Vec<X>,
        post: spec_fn(X, Vec<Y>) -> bool,
        out: Vec<Y>,
    ) -> bool {
        exists|parts: Seq<Vec<Y>>|
            {
                &&& parts.len() == f@.len()
                &&& forall|i: int| 0 <= i < f@.len() ==> post(f@[i], #[trigger] parts[i])
                &&& out@ == joined(parts)
            }
    }

    proof fn flat_map_ensures_weaken(
        f: Vec<X>,
        p: spec_fn(X, Vec<Y>) -> bool,
        q: spec_fn(X, Vec<Y>) -> bool,
        out: Vec<Y>,
    ) {
        let parts = choose|parts: Seq<Vec<Y>>|
            {
                &&& parts.len() == f@.len()
                &&& forall|i: int| 0 <= i < f@.len() ==> p(f@[i], #[trigger] parts[i])
                &&& out@ == joined(parts)
            };
        assert forall|i: int| 0 <= i < f@.len() implies q(f@[i], #[trigger] parts[i]) by {
            assert(p(f@[i], parts[i]));
        }
    }

    fn flat_map<Func: 'a + Fn(X) -> Vec<Y> + Send + Sync>(f: Vec<X>, func: Func) -> (out: Vec<Y>) {
        let ghost items = f@;
        let ghost mut parts: Seq<Vec<Y>> = Seq::empty();
        let mut out: Vec<Y> = Vec::new();
        proof {
            assert(joined(parts) =~= Seq::<Y>::empty());
        }
        for x in it: f.into_iter()
            invariant
                it.seq() == items,
                forall|i: int| 0 <= i < items.len() ==> func.requires((#[trigger] items[i],)),
                parts.len() == it.index(),
                forall|i: int|
                    0 <= i < it.index() ==> func.ensures((items[i],), #[trigger] parts[i]),
                out@ == joined(parts),
        {
            let mut part = func(x);
            proof {
                let views = parts.map_values(|v: Vec<Y>| v@);
                views.lemma_flatten_push(part@);
                assert(parts.push(part).map_values(|v: Vec<Y>| v@) =~= views.push(part@));
                parts = parts.push(part);
            }
            out.append(&mut part);
        }
        out
    }
}

/// Whether `acc` can be what a left fold of `s` from `init` arrives at, with a
/// step function whose results lie in `post`.
pub open spec fn fold_reaches<X, Y>(
    s: Seq<X>,
    init: Y,
    post: spec_fn(Y, X, Y) -> bool,
    acc: Y,
) -> bool
    decreases s.len(),
{
    if s.len() == 0 {
        acc == init
    } else {
        exists|prev: Y|
            fold_reaches(s.drop_last(), init, post, prev) && #[trigger] post(
                prev,
                s.last(),
                acc,
            )
    }
}

proof fn lemma_fold_reaches_step<X, Y>(
    s: Seq<X>,
    init: Y,
    post: spec_fn(Y, X, Y) -> bool,
    prev: Y,
    acc: Y,
)
    requires
        s.len() > 0,
        fold_reaches(s.drop_last(), init, post, prev),
        post(prev, s.last(), acc),
    ensures
        fold_reaches(s, init, post, acc),
{
}

/// What a fold can arrive at with a step relation, it can arrive at with
/// every weaker one.
pub proof fn lemma_fold_reaches_weaken<X, Y>(
    s: Seq<X>,
    init: Y,
    p: spec_fn(Y, X, Y) -> bool,
    q: spec_fn(Y, X, Y) -> bool,
    acc: Y,
)
    requires
        fold_reaches(s, init, p, acc),
        forall|y: Y, x: X, r: Y| #[trigger] p(y, x, r) ==> q(y, x, r),
    ensures
        fold_reaches(s, init, q, acc),
    decreases s.len(),
{
    if s.len() > 0 {
        let prev = choose|prev: Y|
            fold_reaches(s.drop_last(), init, p, prev) && #[trigger] p(prev, s.last(), acc);
        lemma_fold_reaches_weaken(s.drop_last(), init, p, q, prev);
        assert(q(prev, s.last(), acc));
    }
}

impl<'a, X: Clone, Y: Clone, Z> Foldable<'a> for VecEffect<X, Y, Z> {
    type Y2 = Y;

    open spec fn fold_requires(
        f: Vec<X>,
        init: Y,
        pre: spec_fn(Y, X) -> bool,
        post: spec_fn(Y, X, Y) -> bool,
    ) -> bool {
        forall|i: int, acc: Y|
            0 <= i < f@.len() && #[trigger] fold_reaches(f@.take(i), init, post, acc) ==> pre(
                acc,
                f@[i],
            )
    }

    open spec fn fold_ensures(
        f: Vec<X>,
        init: Y,
        post: spec_fn(Y, X, Y) -> bool,
        out: Y,
    ) -> bool {
        fold_reaches(f@, init, post, out)
    }

    proof fn fold_ensures_weaken(
        f: Vec<X>,
        init: Y,
        p: spec_fn(Y, X, Y) -> bool,
        q: spec_fn(Y, X, Y) -> bool,
        out: Y,
    ) {
        lemma_fold_reaches_weaken(f@, init, p, q, out);
    }

    fn fold<Func: 'a + Fn(Y, X) -> Y + Send + Sync>(f: Vec<X>, init: Y, func: Func) -> (out: Y) {
        let ghost items = f@;
        let ghost post = |y: Y, x: X, r: Y| func.ensures((y, x), r);
        let mut acc = init;
        proof {
            assert(items.take(0) =~= Seq::<X>::empty());
        }
        for x in it: f.into_iter()
            invariant
                it.seq() == items,
                post == (|y: Y, x: X, r: Y| func.ensures((y, x), r)),
                forall|i: int, a: Y|
                    0 <= i < items.len() && #[trigger] fold_reaches(items.take(i), init, post, a)
                        ==> func.requires((a, items[i])),
                fold_reaches(items.take(it.index() as int), init, post, acc),
        {
            let ghost prev = acc;
            let ghost i = it.index() as int;
            acc = func(acc, x);
            proof {
                assert(items.take(i + 1).drop_last() =~= items.take(i));
                assert(items.take(i + 1).last() == items[i]);
                assert(post(prev, items[i], acc));
                lemma_fold_reaches_step(items.take(i + 1), init, post, prev, acc);
            }
        }
        proof {
            assert(items.take(items.len() as int) =~= items);
        }
        acc
    }
}

impl<'a, X: Clone, Y: Clone> Productable<'a> for VecEffect<X, Y, (X, Y)> {

}

/// The relation of a sequence and an item to the sequence with the item added
/// at its end.
pub open spec fn pushed<Y>() -> spec_fn(Vec<Y>, Y, Vec<Y>) -> bool {
    |v: Vec<Y>, y: Y, r: Vec<Y>| r@ == v@.push(y)
}

/// Whether `out` can be what traversing makes of the effect `acc`, gathered so
/// far, and the next item `x`, with a function whose input/effect pairs lie in
/// `post`. Where `acc` is seen to have failed it is kept, and the function is
/// not called; else the effect of `x` is merged into `acc` so that its payload
/// goes to the end.
pub open spec fn gathered_step<'a, X, Y, EffIn>(
    acc: EffIn::Gathered,
    x: X,
    post: spec_fn(X, EffIn) -> bool,
    out: EffIn::Gathered,
) -> bool where EffIn: Traversed<'a, Y> {
    if EffIn::seen_failed(acc) {
        out == acc
    } else {
        exists|eff: EffIn|
            post(x, eff) && #[trigger] <<EffIn::Gathered as Functor2Effect<
                'a,
                Vec<Y>,
                Y,
                Vec<Y>,
            >>::Fct as Functor2<'a>>::fmap2_ensures(acc, eff, pushed::<Y>(), out)
    }
}

/// Whether `out` can be what traversing `xs` gathers, with a function whose
/// input/effect pairs lie in `post`: for no items, the effect that wraps the
/// empty sequence; for more, a step from what is gathered for all but the last
/// item.
pub open spec fn gathered<'a, X, Y, EffIn>(
    xs: Seq<X>,
    post: spec_fn(X, EffIn) -> bool,
    out: EffIn::Gathered,
) -> bool where EffIn: Traversed<'a, Y>
    decreases xs.len(),
{
    if xs.len() == 0 {
        exists|e: Vec<Y>|
            e@ == Seq::<Y>::empty() && #[trigger] <<EffIn::Gathered as ApplicativeEffect<
                'a,
            >>::Fct as Applicative<'a>>::pure_ensures(e, out)
    } else {
        exists|acc: EffIn::Gathered|
            gathered::<X, Y, EffIn>(xs.drop_last(), post, acc) && #[trigger] gathered_step::<
                X,
                Y,
                EffIn,
            >(acc, xs.last(), post, out)
    }
}

/// What traversing can gather with a relation, it can gather with every
/// weaker one.
pub proof fn lemma_gathered_weaken<'a, X, Y, EffIn>(
    xs: Seq<X>,
    p: spec_fn(X, EffIn) -> bool,
    q: spec_fn(X, EffIn) -> bool,
    out: EffIn::Gathered,
) where EffIn: Traversed<'a, Y>
    requires
        gathered::<X, Y, EffIn>(xs, p, out),
        forall|x: X, e: EffIn| #[trigger] p(x, e) ==> q(x, e),
    ensures
        gathered::<X, Y, EffIn>(xs, q, out),
    decreases xs.len(),
{
    if xs.len() > 0 {
        let acc = choose|acc: EffIn::Gathered|
            gathered::<X, Y, EffIn>(xs.drop_last(), p, acc) && #[trigger] gathered_step::<
                X,
                Y,
                EffIn,
            >(acc, xs.last(), p, out);
        lemma_gathered_weaken::<X, Y, EffIn>(xs.drop_last(), p, q, acc);
        if !EffIn::seen_failed(acc) {
            let eff = choose|eff: EffIn|
                p(xs.last(), eff) && #[trigger] <<EffIn::Gathered as Functor2Effect<
                    'a,
                    Vec<Y>,
                    Y,
                    Vec<Y>,
                >>::Fct as Functor2<'a>>::fmap2_ensures(acc, eff, pushed::<Y>(), out);
            assert(q(xs.last(), eff));
        }
        assert(gathered_step::<X, Y, EffIn>(acc, xs.last(), q, out));
    }
}

impl<'a, X, Y, EffIn> Traverse<'a, Vec<X>, EffIn, Vec<Y>, EffIn::Gathered, X, Y> for VecEffect<
    X,
    Y,
    (),
> where EffIn: Traversed<'a, Y> {
    open spec fn traverse_requires(
        f: Vec<X>,
        pre: spec_fn(X) -> bool,
        post: spec_fn(X, EffIn) -> bool,
    ) -> bool {
        forall|i: int, acc: EffIn::Gathered|
            0 <= i < f@.len() && #[trigger] gathered::<X, Y, EffIn>(f@.take(i), post, acc)
                && !EffIn::seen_failed(acc) ==> pre(f@[i])
    }

    open spec fn traverse_ensures(
        f: Vec<X>,
        post: spec_fn(X, EffIn) -> bool,
        out: EffIn::Gathered,
    ) -> bool {
        gathered::<X, Y, EffIn>(f@, post, out)
    }

    proof fn traverse_ensures_weaken(
        f: Vec<X>,
        p: spec_fn(X, EffIn) -> bool,
        q: spec_fn(X, EffIn) -> bool,
        out: EffIn::Gathered,
    ) {
        lemma_gathered_weaken::<X, Y, EffIn>(f@, p, q, out);
    }

    fn traverse<Func: 'a + Fn(X) -> EffIn + Send + Sync>(f: Vec<X>, func: Func) -> (out:
        EffIn::Gathered) {
        let ghost items = f@;
        let ghost post = |x: X, e: EffIn| func.ensures((x,), e);
        let mut acc: EffIn::Gathered = <EffIn::Gathered as ApplicativeEffect<'a>>::Fct::pure(
            Vec::new(),
        );
        proof {
            assert(items.take(0) =~= Seq::<X>::empty());
        }
        for x in it: f.into_iter()
            invariant
                it.seq() == items,
                post == (|x: X, e: EffIn| func.ensures((x,), e)),
                forall|i: int, a: EffIn::Gathered|
                    0 <= i < items.len() && #[trigger] gathered::<X, Y, EffIn>(
                        items.take(i),
                        post,
                        a,
                    ) && !EffIn::seen_failed(a) ==> func.requires((items[i],)),
                gathered::<X, Y, EffIn>(items.take(it.index() as int), post, acc),
        {
            let ghost i = it.index() as int;
            let ghost prev = acc;
            proof {
                assert(items.take(i + 1).drop_last() =~= items.take(i));
                assert(items.take(i + 1).last() == items[i]);
            }
            if EffIn::has_failed(&acc) {
                proof {
                    assert(gathered_step::<X, Y, EffIn>(prev, items[i], post, acc));
                }
            } else {
                let eff = func(x);
                let push = |v: Vec<Y>, y: Y| -> (r: Vec<Y>)
                    ensures
                        r@ == v@.push(y),
                    {
                        let mut w = v;
                        w.push(y);
                        w
                    };
                let ghost push_post = |v: Vec<Y>, y: Y, r: Vec<Y>| push.ensures((v, y), r);
                proof {
                    <<EffIn::Gathered as Functor2Effect<'a, Vec<Y>, Y, Vec<Y>>>::Fct as Functor2<
                        'a,
                    >>::fmap2_requires_total(acc, eff, |v: Vec<Y>, y: Y| push.requires((v, y)));
                }
                acc =
                <<EffIn::Gathered as Functor2Effect<'a, Vec<Y>, Y, Vec<Y>>>::Fct as Functor2<
                    'a,
                >>::fmap2(acc, eff, push);
                proof {
                    <<EffIn::Gathered as Functor2Effect<'a, Vec<Y>, Y, Vec<Y>>>::Fct as Functor2<
                        'a,
                    >>::fmap2_ensures_weaken(prev, eff, push_post, pushed::<Y>(), acc);
                    assert(post(items[i], eff));
                    assert(gathered_step::<X, Y, EffIn>(prev, items[i], post, acc));
                }
            }
        }
        proof {
            assert(items.take(items.len() as int) =~= items);
        }
        acc
    }
}

} // verus!
