//! Position access for tuples of four elements.

use crate::markers::{TupleIndex0, TupleIndex1, TupleIndex2, TupleIndex3};
use crate::protocol::{Arity, TypedTuple};
use crate::shapes::{pop_output, select, split_left, split_right};
use crate::uniform::{FollowsShape, Uniform};
use vstd::prelude::*;

verus! {

impl<T0, T1, T2, T3> Arity for (T0, T1, T2, T3) {
    open spec fn arity() -> nat {
        4
    }
}

impl<A> Uniform<A> for (A, A, A, A) {
    open spec fn items(self) -> Seq<A> {
        seq![self.0, self.1, self.2, self.3]
    }
}

/// The first element of a tuple of four.
impl<T0, T1, T2, T3> TypedTuple<TupleIndex0, T0> for (T0, T1, T2, T3) {
    type PopOutput = (T1, T2, T3);

    type SplitLeft = (T0,);

    type SplitRight = (T1, T2, T3);

    const INDEX: usize = 0;

    open spec fn element(self) -> T0 {
        self.0
    }

    open spec fn remainder(self) -> Self::PopOutput {
        (self.1, self.2, self.3)
    }

    open spec fn reinserted(x: T0, rest: Self::PopOutput) -> Self {
        (x, rest.0, rest.1, rest.2)
    }

    open spec fn left(self) -> Self::SplitLeft {
        (self.0,)
    }

    open spec fn right(self) -> Self::SplitRight {
        (self.1, self.2, self.3)
    }

    open spec fn joined(left: Self::SplitLeft, right: Self::SplitRight) -> Self {
        (left.0, right.0, right.1, right.2)
    }

    fn get(&self) -> (r: &T0) {
        &self.0
    }

    fn get_mut(&mut self) -> (r: &mut T0) {
        &mut self.0
    }

    fn map<FN: FnOnce(T0) -> T0>(&mut self, f: FN) where T0: Default {
        let mut held = T0::default();
        core::mem::swap(&mut self.0, &mut held);
        self.0 = f(held);
    }

    fn pop(self) -> (r: (T0, Self::PopOutput)) {
        (self.0, (self.1, self.2, self.3))
    }

    fn split_at(self) -> (r: (Self::SplitLeft, Self::SplitRight)) {
        ((self.0,), (self.1, self.2, self.3))
    }

    proof fn lemma_shape() {
    }

    proof fn lemma_pop_inverse(v: Self, x: T0, rest: Self::PopOutput) {
    }

    proof fn lemma_split_inverse(v: Self, left: Self::SplitLeft, right: Self::SplitRight) {
    }
}

impl<A> FollowsShape<TupleIndex0, A> for (A, A, A, A) {
    proof fn lemma_follows_shape(v: Self) {
        <Self as TypedTuple<TupleIndex0, A>>::lemma_shape();
        let rest = <Self as TypedTuple<TupleIndex0, A>>::remainder(v);
        let left = <Self as TypedTuple<TupleIndex0, A>>::left(v);
        let right = <Self as TypedTuple<TupleIndex0, A>>::right(v);
        assert(rest.items() =~= select(v.items(), pop_output(4, 0)));
        assert(left.items() =~= select(v.items(), split_left(4, 0)));
        assert(right.items() =~= select(v.items(), split_right(4, 0)));
    }

    proof fn lemma_rebuilds(
        x: A,
        rest: Self::PopOutput,
        left: Self::SplitLeft,
        right: Self::SplitRight,
    ) {
        <Self as TypedTuple<TupleIndex0, A>>::lemma_shape();
        let popped = <Self as TypedTuple<TupleIndex0, A>>::reinserted(x, rest);
        let whole = <Self as TypedTuple<TupleIndex0, A>>::joined(left, right);
        assert(popped.items() =~= rest.items().insert(0, x));
        assert(whole.items() =~= left.items() + right.items());
    }
}

/// The second element of a tuple of four.
impl<T0, T1, T2, T3> TypedTuple<TupleIndex1, T1> for (T0, T1, T2, T3) {
    type PopOutput = (T0, T2, T3);

    type SplitLeft = (T0, T1);

    type SplitRight = (T2, T3);

    const INDEX: usize = 1;

    open spec fn element(self) -> T1 {
        self.1
    }

    open spec fn remainder(self) -> Self::PopOutput {
        (self.0, self.2, self.3)
    }

    open spec fn reinserted(x: T1, rest: Self::PopOutput) -> Self {
        (rest.0, x, rest.1, rest.2)
    }

    open spec fn left(self) -> Self::SplitLeft {
        (self.0, self.1)
    }

    open spec fn right(self) -> Self::SplitRight {
        (self.2, self.3)
    }

    open spec fn joined(left: Self::SplitLeft, right: Self::SplitRight) -> Self {
        (left.0, left.1, right.0, right.1)
    }

    fn get(&self) -> (r: &T1) {
        &self.1
    }

    fn get_mut(&mut self) -> (r: &mut T1) {
        &mut self.1
    }

    fn map<FN: FnOnce(T1) -> T1>(&mut self, f: FN) where T1: Default {
        let mut held = T1::default();
        core::mem::swap(&mut self.1, &mut held);
        self.1 = f(held);
    }

    fn pop(self) -> (r: (T1, Self::PopOutput)) {
        (self.1, (self.0, self.2, self.3))
    }

    fn split_at(self) -> (r: (Self::SplitLeft, Self::SplitRight)) {
        ((self.0, self.1), (self.2, self.3))
    }

    proof fn lemma_shape() {
    }

    proof fn lemma_pop_inverse(v: Self, x: T1, rest: Self::PopOutput) {
    }

    proof fn lemma_split_inverse(v: Self, left: Self::SplitLeft, right: Self::SplitRight) {
    }
}

impl<A> FollowsShape<TupleIndex1, A> for (A, A, A, A) {
    proof fn lemma_follows_shape(v: Self) {
        <Self as TypedTuple<TupleIndex1, A>>::lemma_shape();
        let rest = <Self as TypedTuple<TupleIndex1, A>>::remainder(v);
        let left = <Self as TypedTuple<TupleIndex1, A>>::left(v);
        let right = <Self as TypedTuple<TupleIndex1, A>>::right(v);
        assert(rest.items() =~= select(v.items(), pop_output(4, 1)));
        assert(left.items() =~= select(v.items(), split_left(4, 1)));
        assert(right.items() =~= select(v.items(), split_right(4, 1)));
    }

    proof fn lemma_rebuilds(
        x: A,
        rest: Self::PopOutput,
        left: Self::SplitLeft,
        right: Self::SplitRight,
    ) {
        <Self as TypedTuple<TupleIndex1, A>>::lemma_shape();
        let popped = <Self as TypedTuple<TupleIndex1, A>>::reinserted(x, rest);
        let whole = <Self as TypedTuple<TupleIndex1, A>>::joined(left, right);
        assert(popped.items() =~= rest.items().insert(1, x));
        assert(whole.items() =~= left.items() + right.items());
    }
}

/// The third element of a tuple of four.
impl<T0, T1, T2, T3> TypedTuple<TupleIndex2, T2> for (T0, T1, T2, T3) {
    type PopOutput = (T0, T1, T3);

    type SplitLeft = (T0, T1, T2);

    type SplitRight = (T3,);

    const INDEX: usize = 2;

    open spec fn element(self) -> T2 {
        self.2
    }

    open spec fn remainder(self) -> Self::PopOutput {
        (self.0, self.1, self.3)
    }

    open spec fn reinserted(x: T2, rest: Self::PopOutput) -> Self {
        (rest.0, rest.1, x, rest.2)
    }

    open spec fn left(self) -> Self::SplitLeft {
        (self.0, self.1, self.2)
    }

    open spec fn right(self) -> Self::SplitRight {
        (self.3,)
    }

    open spec fn joined(left: Self::SplitLeft, right: Self::SplitRight) -> Self {
        (left.0, left.1, left.2, right.0)
    }

    fn get(&self) -> (r: &T2) {
        &self.2
    }

    fn get_mut(&mut self) -> (r: &mut T2) {
        &mut self.2
    }

    fn map<FN: FnOnce(T2) -> T2>(&mut self, f: FN) where T2: Default {
        let mut held = T2::default();
        core::mem::swap(&mut self.2, &mut held);
        self.2 = f(held);
    }

    fn pop(self) -> (r: (T2, Self::PopOutput)) {
        (self.2, (self.0, self.1, self.3))
    }

    fn split_at(self) -> (r: (Self::SplitLeft, Self::SplitRight)) {
        ((self.0, self.1, self.2), (self.3,))
    }

    proof fn lemma_shape() {
    }

    proof fn lemma_pop_inverse(v: Self, x: T2, rest: Self::PopOutput) {
    }

    proof fn lemma_split_inverse(v: Self, left: Self::SplitLeft, right: Self::SplitRight) {
    }
}

impl<A> FollowsShape<TupleIndex2, A> for (A, A, A, A) {
    proof fn lemma_follows_shape(v: Self) {
        <Self as TypedTuple<TupleIndex2, A>>::lemma_shape();
        let rest = <Self as TypedTuple<TupleIndex2, A>>::remainder(v);
        let left = <Self as TypedTuple<TupleIndex2, A>>::left(v);
        let right = <Self as TypedTuple<TupleIndex2, A>>::right(v);
        assert(rest.items() =~= select(v.items(), pop_output(4, 2)));
        assert(left.items() =~= select(v.items(), split_left(4, 2)));
        assert(right.items() =~= select(v.items(), split_right(4, 2)));
    }

    proof fn lemma_rebuilds(
        x: A,
        rest: Self::PopOutput,
        left: Self::SplitLeft,
        right: Self::SplitRight,
    ) {
        <Self as TypedTuple<TupleIndex2, A>>::lemma_shape();
        let popped = <Self as TypedTuple<TupleIndex2, A>>::reinserted(x, rest);
        let whole = <Self as TypedTuple<TupleIndex2, A>>::joined(left, right);
        assert(popped.items() =~= rest.items().insert(2, x));
        assert(whole.items() =~= left.items() + right.items());
    }
}

/// The fourth element of a tuple of four.
impl<T0, T1, T2, T3> TypedTuple<TupleIndex3, T3> for (T0, T1, T2, T3) {
    type PopOutput = (T0, T1, T2);

    type SplitLeft = (T0, T1, T2, T3);

    type SplitRight = ();

    const INDEX: usize = 3;

    open spec fn element(self) -> T3 {
        self.3
    }

    open spec fn remainder(self) -> Self::PopOutput {
        (self.0, self.1, self.2)
    }

    open spec fn reinserted(x: T3, rest: Self::PopOutput) -> Self {
        (rest.0, rest.1, rest.2, x)
    }

    open spec fn left(self) -> Self::SplitLeft {
        (self.0, self.1, self.2, self.3)
    }

    open spec fn right(self) -> Self::SplitRight {
        ()
    }

    open spec fn joined(left: Self::SplitLeft, right: Self::SplitRight) -> Self {
        (left.0, left.1, left.2, left.3)
    }

    fn get(&self) -> (r: &T3) {
        &self.3
    }

    fn get_mut(&mut self) -> (r: &mut T3) {
        &mut self.3
    }

    fn map<FN: FnOnce(T3) -> T3>(&mut self, f: FN) where T3: Default {
        let mut held = T3::default();
        core::mem::swap(&mut self.3, &mut held);
        self.3 = f(held);
    }

    fn pop(self) -> (r: (T3, Self::PopOutput)) {
        (self.3, (self.0, self.1, self.2))
    }

    fn split_at(self) -> (r: (Self::SplitLeft, Self::SplitRight)) {
        ((self.0, self.1, self.2, self.3), ())
    }

    proof fn lemma_shape() {
    }

    proof fn lemma_pop_inverse(v: Self, x: T3, rest: Self::PopOutput) {
    }

    proof fn lemma_split_inverse(v: Self, left: Self::SplitLeft, right: Self::SplitRight) {
    }
}

impl<A> FollowsShape<TupleIndex3, A> for (A, A, A, A) {
    proof fn lemma_follows_shape(v: Self) {
        <Self as TypedTuple<TupleIndex3, A>>::lemma_shape();
        let rest = <Self as TypedTuple<TupleIndex3, A>>::remainder(v);
        let left = <Self as TypedTuple<TupleIndex3, A>>::left(v);
        let right = <Self as TypedTuple<TupleIndex3, A>>::right(v);
        assert(rest.items() =~= select(v.items(), pop_output(4, 3)));
        assert(left.items() =~= select(v.items(), split_left(4, 3)));
        assert(right.items() =~= select(v.items(), split_right(4, 3)));
    }

    proof fn lemma_rebuilds(
        x: A,
        rest: Self::PopOutput,
        left: Self::SplitLeft,
        right: Self::SplitRight,
    ) {
        <Self as TypedTuple<TupleIndex3, A>>::lemma_shape();
        let popped = <Self as TypedTuple<TupleIndex3, A>>::reinserted(x, rest);
        let whole = <Self as TypedTuple<TupleIndex3, A>>::joined(left, right);
        assert(popped.items() =~= rest.items().insert(3, x));
        assert(whole.items() =~= left.items() + right.items());
    }
}

} // verus!
