//! Position access for tuples of one element.

use crate::markers::TupleIndex0;
use crate::protocol::{Arity, TypedTuple};
use crate::shapes::{pop_output, select, split_left, split_right};
use crate::uniform::{FollowsShape, Uniform};
use vstd::prelude::*;

verus! {

impl<T0> Arity for (T0,) {
    open spec fn arity() -> nat {
        1
    }
}

impl<A> Uniform<A> for (A,) {
    open spec fn items(self) -> Seq<A> {
        seq![self.0]
    }
}

/// The first element of a tuple of one.
impl<T0> TypedTuple<TupleIndex0, T0> for (T0,) {
    type PopOutput = ();

    type SplitLeft = (T0,);

    type SplitRight = ();

    const INDEX: usize = 0;

    open spec fn element(self) -> T0 {
        self.0
    }

    open spec fn remainder(self) -> Self::PopOutput {
        ()
    }

    open spec fn reinserted(x: T0, rest: Self::PopOutput) -> Self {
        (x,)
    }

    open spec fn left(self) -> Self::SplitLeft {
        (self.0,)
    }

    open spec fn right(self) -> Self::SplitRight {
        ()
    }

    open spec fn joined(left: Self::SplitLeft, right: Self::SplitRight) -> Self {
        (left.0,)
    }

    fn get(&self) -> (r: &T0) {
        &self.0
    }

    fn get_mut(&mut self) -> (r: &mut T0) {
        &mut self.0
    }

    fn map<FN: FnOnce(T0) -> T0>(&mut self, f: FN) where T0: Default {
        let mut held = T0::default();
        core::mem::swap(&mut self.0, &mut held);
        self.0 = f(held);
    }

    fn pop(self) -> (r: (T0, Self::PopOutput)) {
        (self.0, ())
    }

    fn split_at(self) -> (r: (Self::SplitLeft, Self::SplitRight)) {
        ((self.0,), ())
    }

    proof fn lemma_shape() {
    }

    proof fn lemma_pop_inverse(v: Self, x: T0, rest: Self::PopOutput) {
    }

    proof fn lemma_split_inverse(v: Self, left: Self::SplitLeft, right: Self::SplitRight) {
    }
}

impl<A> FollowsShape<TupleIndex0, A> for (A,) {
    proof fn lemma_follows_shape(v: Self) {
        <Self as TypedTuple<TupleIndex0, A>>::lemma_shape();
        let rest = <Self as TypedTuple<TupleIndex0, A>>::remainder(v);
        let left = <Self as TypedTuple<TupleIndex0, A>>::left(v);
        let right = <Self as TypedTuple<TupleIndex0, A>>::right(v);
        assert(rest.items() =~= select(v.items(), pop_output(1, 0)));
        assert(left.items() =~= select(v.items(), split_left(1, 0)));
        assert(right.items() =~= select(v.items(), split_right(1, 0)));
    }

    proof fn lemma_rebuilds(
        x: A,
        rest: Self::PopOutput,
        left: Self::SplitLeft,
        right: Self::SplitRight,
    ) {
        <Self as TypedTuple<TupleIndex0, A>>::lemma_shape();
        let popped = <Self as TypedTuple<TupleIndex0, A>>::reinserted(x, rest);
        let whole = <Self as TypedTuple<TupleIndex0, A>>::joined(left, right);
        assert(popped.items() =~= rest.items().insert(0, x));
        assert(whole.items() =~= left.items() + right.items());
    }
}

} // verus!
