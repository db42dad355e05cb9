//! Everything a caller needs, under one path.

pub use crate::typeclasses::{Effect, F};
pub use crate::typeclasses::applicative::{
    apply, pure, Applicative, ApplicativeApply, ApplicativeApplyEffect, ApplicativeEffect,
};
pub use crate::typeclasses::functor::{
    fmap, fmap2, Functor, Functor2, Functor2Effect, FunctorEffect,
};
pub use crate::typeclasses::monad::{
    flat_map, fold, Foldable, FoldableEffect, Monad, MonadEffect,
};
pub use crate::typeclasses::monaderror::{
    attempt, handle_error, raise_error, Attempt, AttemptEffect, MonadError, MonadErrorEffect,
};
pub use crate::typeclasses::monoid::{
    empty, IntAddMonoid, IntMulMonoid, Monoid, MonoidEffect, Numeric, StringMonoid,
};
pub use crate::typeclasses::product::{product, Productable, ProductableEffect};
pub use crate::typeclasses::semigroup::{
    combine, combine_inner, IntAddSemigroup, IntMulSemigroup, Semigroup, SemigroupEffect,
    SemigroupInner, StringSemigroup,
};
pub use crate::typeclasses::synct::{delay, suspend, SyncT};
pub use crate::typeclasses::traverse::{traverse, Traverse, TraverseEffect, Traversed};
pub use crate::option::OptionEffect;
pub use crate::result::ResultEffect;
pub use crate::vec::VecEffect;
pub use crate::{Empty, NilEffect};
pub use crate::future::{
    combine_future_inner, fut, vfold, ConcreteFuture, Deferred, FutureEffect, SemigroupFutureInner,
};
pub use crate::futureresult::{fut_res, ConcreteFutureResult, FutureResultEffect};
pub use crate::effects::io::{unwrap_outcome, IoEffect, IO};
