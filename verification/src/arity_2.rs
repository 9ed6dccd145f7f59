//! Position access for tuples of two elements.

use crate::markers::{TupleIndex0, TupleIndex1};
use crate::protocol::{Arity, TypedTuple};
use crate::shapes::{pop_output, select, split_left, split_right};
use crate::uniform::{FollowsShape, Uniform};
use vstd::prelude::*;

verus! {

impl<T0, T1> Arity for (T0, T1) {
    open spec fn arity() -> nat {
        2
    }
}

impl<A> Uniform<A> for (A, A) {
    open spec fn items(self) -> Seq<A> {
        seq![self.0, self.1]
    }
}

/// The first element of a tuple of two.
impl<T0, T1> TypedTuple<TupleIndex0, T0> for (T0, T1) {
    type PopOutput = (T1,);

    type SplitLeft = (T0,);

    type SplitRight = (T1,);

    const INDEX: usize = 0;

    open spec fn element(self) -> T0 {
        self.0
    }

    open spec fn remainder(self) -> Self::PopOutput {
        (self.1,)
    }

    open spec fn reinserted(x: T0, rest: Self::PopOutput) -> Self {
        (x, rest.0)
    }

    open spec fn left(self) -> Self::SplitLeft {
        (self.0,)
    }

    open spec fn right(self) -> Self::SplitRight {
        (self.1,)
    }

    open spec fn joined(left: Self::SplitLeft, right: Self::SplitRight) -> Self {
        (left.0, right.0)
    }

    fn get(&self) -> (r: &T0) {
        &self.0
    }

    fn get_mut(&mut self) -> (r: &mut T0) {
        &mut self.0
    }

    fn map<FN: FnOnce(T0) -> T0>(&mut self, f: FN) where T0: Default {
        let mut held = T0::default();
        core::mem::swap(&mut self.0, &mut held);
        self.0 = f(held);
    }

    fn pop(self) -> (r: (T0, Self::PopOutput)) {
        (self.0, (self.1,))
    }

    fn split_at(self) -> (r: (Self::SplitLeft, Self::SplitRight)) {
        ((self.0,), (self.1,))
    }

    proof fn lemma_shape() {
    }

    proof fn lemma_pop_inverse(v: Self, x: T0, rest: Self::PopOutput) {
    }

    proof fn lemma_split_inverse(v: Self, left: Self::SplitLeft, right: Self::SplitRight) {
    }
}

impl<A> FollowsShape<TupleIndex0, A> for (A, A) {
    proof fn lemma_follows_shape(v: Self) {
        <Self as TypedTuple<TupleIndex0, A>>::lemma_shape();
        let rest = <Self as TypedTuple<TupleIndex0, A>>::remainder(v);
        let left = <Self as TypedTuple<TupleIndex0, A>>::left(v);
        let right = <Self as TypedTuple<TupleIndex0, A>>::right(v);
        assert(rest.items() =~= select(v.items(), pop_output(2, 0)));
        assert(left.items() =~= select(v.items(), split_left(2, 0)));
        assert(right.items() =~= select(v.items(), split_right(2, 0)));
    }

    proof fn lemma_rebuilds(
        x: A,
        rest: Self::PopOutput,
        left: Self::SplitLeft,
        right: Self::SplitRight,
    ) {
        <Self as TypedTuple<TupleIndex0, A>>::lemma_shape();
        let popped = <Self as TypedTuple<TupleIndex0, A>>::reinserted(x, rest);
        let whole = <Self as TypedTuple<TupleIndex0, A>>::joined(left, right);
        assert(popped.items() =~= rest.items().insert(0, x));
        assert(whole.items() =~= left.items() + right.items());
    }
}

/// The second element of a tuple of two.
impl<T0, T1> TypedTuple<TupleIndex1, T1> for (T0, T1) {
    type PopOutput = (T0,);

    type SplitLeft = (T0, T1);

    type SplitRight = ();

    const INDEX: usize = 1;

    open spec fn element(self) -> T1 {
        self.1
    }

    open spec fn remainder(self) -> Self::PopOutput {
        (self.0,)
    }

    open spec fn reinserted(x: T1, rest: Self::PopOutput) -> Self {
        (rest.0, x)
    }

    open spec fn left(self) -> Self::SplitLeft {
        (self.0, self.1)
    }

    open spec fn right(self) -> Self::SplitRight {
        ()
    }

    open spec fn joined(left: Self::SplitLeft, right: Self::SplitRight) -> Self {
        (left.0, left.1)
    }

    fn get(&self) -> (r: &T1) {
        &self.1
    }

    fn get_mut(&mut self) -> (r: &mut T1) {
        &mut self.1
    }

    fn map<FN: FnOnce(T1) -> T1>(&mut self, f: FN) where T1: Default {
        let mut held = T1::default();
        core::mem::swap(&mut self.1, &mut held);
        self.1 = f(held);
    }

    fn pop(self) -> (r: (T1, Self::PopOutput)) {
        (self.1, (self.0,))
    }

    fn split_at(self) -> (r: (Self::SplitLeft, Self::SplitRight)) {
        ((self.0, self.1), ())
    }

    proof fn lemma_shape() {
    }

    proof fn lemma_pop_inverse(v: Self, x: T1, rest: Self::PopOutput) {
    }

    proof fn lemma_split_inverse(v: Self, left: Self::SplitLeft, right: Self::SplitRight) {
    }
}

impl<A> FollowsShape<TupleIndex1, A> for (A, A) {
    proof fn lemma_follows_shape(v: Self) {
        <Self as TypedTuple<TupleIndex1, A>>::lemma_shape();
        let rest = <Self as TypedTuple<TupleIndex1, A>>::remainder(v);
        let left = <Self as TypedTuple<TupleIndex1, A>>::left(v);
        let right = <Self as TypedTuple<TupleIndex1, A>>::right(v);
        assert(rest.items() =~= select(v.items(), pop_output(2, 1)));
        assert(left.items() =~= select(v.items(), split_left(2, 1)));
        assert(right.items() =~= select(v.items(), split_right(2, 1)));
    }

    proof fn lemma_rebuilds(
        x: A,
        rest: Self::PopOutput,
        left: Self::SplitLeft,
        right: Self::SplitRight,
    ) {
        <Self as TypedTuple<TupleIndex1, A>>::lemma_shape();
        let popped = <Self as TypedTuple<TupleIndex1, A>>::reinserted(x, rest);
        let whole = <Self as TypedTuple<TupleIndex1, A>>::joined(left, right);
        assert(popped.items() =~= rest.items().insert(1, x));
        assert(whole.items() =~= left.items() + right.items());
    }
}

} // verus!
