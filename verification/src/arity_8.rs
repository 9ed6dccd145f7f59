//! Position access for tuples of eight elements.

use crate::markers::{
    TupleIndex0, TupleIndex1, TupleIndex2, TupleIndex3, TupleIndex4, TupleIndex5,
    TupleIndex6, TupleIndex7,
};
use crate::protocol::{Arity, TypedTuple};
use crate::shapes::{pop_output, select, split_left, split_right};
use crate::uniform::{FollowsShape, Uniform};
use vstd::prelude::*;

verus! {

impl<T0, T1, T2, T3, T4, T5, T6, T7> Arity for (T0, T1, T2, T3, T4, T5, T6, T7) {
    open spec fn arity() -> nat {
        8
    }
}

impl<A> Uniform<A> for (A, A, A, A, A, A, A, A) {
    open spec fn items(self) -> Seq<A> {
        seq![self.0, self.1, self.2, self.3, self.4, self.5, self.6, self.7]
    }
}

/// The first element of a tuple of eight.
impl<T0, T1, T2, T3, T4, T5, T6, T7> TypedTuple<TupleIndex0, T0>
    for (T0, T1, T2, T3, T4, T5, T6, T7)
{
    type PopOutput = (T1, T2, T3, T4, T5, T6, T7);

    type SplitLeft = (T0,);

    type SplitRight = (T1, T2, T3, T4, T5, T6, T7);

    const INDEX: usize = 0;

    open spec fn element(self) -> T0 {
        self.0
    }

    open spec fn remainder(self) -> Self::PopOutput {
        (self.1, self.2, self.3, self.4, self.5, self.6, self.7)
    }

    open spec fn reinserted(x: T0, rest: Self::PopOutput) -> Self {
        (x, rest.0, rest.1, rest.2, rest.3, rest.4, rest.5, rest.6)
    }

    open spec fn left(self) -> Self::SplitLeft {
        (self.0,)
    }

    open spec fn right(self) -> Self::SplitRight {
        (self.1, self.2, self.3, self.4, self.5, self.6, self.7)
    }

    open spec fn joined(left: Self::SplitLeft, right: Self::SplitRight) -> Self {
        (left.0, right.0, right.1, right.2, right.3, right.4, right.5, right.6)
    }

    fn get(&self) -> (r: &T0) {
        &self.0
    }

    fn get_mut(&mut self) -> (r: &mut T0) {
        &mut self.0
    }

    fn map<FN: FnOnce(T0) -> T0>(&mut self, f: FN) where T0: Default {
        let mut held = T0::default();
        core::mem::swap(&mut self.0, &mut held);
        self.0 = f(held);
    }

    fn pop(self) -> (r: (T0, Self::PopOutput)) {
        (self.0, (self.1, self.2, self.3, self.4, self.5, self.6, self.7))
    }

    fn split_at(self) -> (r: (Self::SplitLeft, Self::SplitRight)) {
        ((self.0,), (self.1, self.2, self.3, self.4, self.5, self.6, self.7))
    }

    proof fn lemma_shape() {
    }

    proof fn lemma_pop_inverse(v: Self, x: T0, rest: Self::PopOutput) {
    }

    proof fn lemma_split_inverse(v: Self, left: Self::SplitLeft, right: Self::SplitRight) {
    }
}

impl<A> FollowsShape<TupleIndex0, A> for (A, A, A, A, A, A, A, A) {
    proof fn lemma_follows_shape(v: Self) {
        <Self as TypedTuple<TupleIndex0, A>>::lemma_shape();
        let rest = <Self as TypedTuple<TupleIndex0, A>>::remainder(v);
        let left = <Self as TypedTuple<TupleIndex0, A>>::left(v);
        let right = <Self as TypedTuple<TupleIndex0, A>>::right(v);
        assert(rest.items() =~= select(v.items(), pop_output(8, 0)));
        assert(left.items() =~= select(v.items(), split_left(8, 0)));
        assert(right.items() =~= select(v.items(), split_right(8, 0)));
    }

    proof fn lemma_rebuilds(
        x: A,
        rest: Self::PopOutput,
        left: Self::SplitLeft,
        right: Self::SplitRight,
    ) {
        <Self as TypedTuple<TupleIndex0, A>>::lemma_shape();
        let popped = <Self as TypedTuple<TupleIndex0, A>>::reinserted(x, rest);
        let whole = <Self as TypedTuple<TupleIndex0, A>>::joined(left, right);
        assert(popped.items() =~= rest.items().insert(0, x));
        assert(whole.items() =~= left.items() + right.items());
    }
}

/// The second element of a tuple of eight.
impl<T0, T1, T2, T3, T4, T5, T6, T7> TypedTuple<TupleIndex1, T1>
    for (T0, T1, T2, T3, T4, T5, T6, T7)
{
    type PopOutput = (T0, T2, T3, T4, T5, T6, T7);

    type SplitLeft = (T0, T1);

    type SplitRight = (T2, T3, T4, T5, T6, T7);

    const INDEX: usize = 1;

    open spec fn element(self) -> T1 {
        self.1
    }

    open spec fn remainder(self) -> Self::PopOutput {
        (self.0, self.2, self.3, self.4, self.5, self.6, self.7)
    }

    open spec fn reinserted(x: T1, rest: Self::PopOutput) -> Self {
        (rest.0, x, rest.1, rest.2, rest.3, rest.4, rest.5, rest.6)
    }

    open spec fn left(self) -> Self::SplitLeft {
        (self.0, self.1)
    }

    open spec fn right(self) -> Self::SplitRight {
        (self.2, self.3, self.4, self.5, self.6, self.7)
    }

    open spec fn joined(left: Self::SplitLeft, right: Self::SplitRight) -> Self {
        (left.0, left.1, right.0, right.1, right.2, right.3, right.4, right.5)
    }

    fn get(&self) -> (r: &T1) {
        &self.1
    }

    fn get_mut(&mut self) -> (r: &mut T1) {
        &mut self.1
    }

    fn map<FN: FnOnce(T1) -> T1>(&mut self, f: FN) where T1: Default {
        let mut held = T1::default();
        core::mem::swap(&mut self.1, &mut held);
        self.1 = f(held);
    }

    fn pop(self) -> (r: (T1, Self::PopOutput)) {
        (self.1, (self.0, self.2, self.3, self.4, self.5, self.6, self.7))
    }

    fn split_at(self) -> (r: (Self::SplitLeft, Self::SplitRight)) {
        ((self.0, self.1), (self.2, self.3, self.4, self.5, self.6, self.7))
    }

    proof fn lemma_shape() {
    }

    proof fn lemma_pop_inverse(v: Self, x: T1, rest: Self::PopOutput) {
    }

    proof fn lemma_split_inverse(v: Self, left: Self::SplitLeft, right: Self::SplitRight) {
    }
}

impl<A> FollowsShape<TupleIndex1, A> for (A, A, A, A, A, A, A, A) {
    proof fn lemma_follows_shape(v: Self) {
        <Self as TypedTuple<TupleIndex1, A>>::lemma_shape();
        let rest = <Self as TypedTuple<TupleIndex1, A>>::remainder(v);
        let left = <Self as TypedTuple<TupleIndex1, A>>::left(v);
        let right = <Self as TypedTuple<TupleIndex1, A>>::right(v);
        assert(rest.items() =~= select(v.items(), pop_output(8, 1)));
        assert(left.items() =~= select(v.items(), split_left(8, 1)));
        assert(right.items() =~= select(v.items(), split_right(8, 1)));
    }

    proof fn lemma_rebuilds(
        x: A,
        rest: Self::PopOutput,
        left: Self::SplitLeft,
        right: Self::SplitRight,
    ) {
        <Self as TypedTuple<TupleIndex1, A>>::lemma_shape();
        let popped = <Self as TypedTuple<TupleIndex1, A>>::reinserted(x, rest);
        let whole = <Self as TypedTuple<TupleIndex1, A>>::joined(left, right);
        assert(popped.items() =~= rest.items().insert(1, x));
        assert(whole.items() =~= left.items() + right.items());
    }
}

/// The third element of a tuple of eight.
impl<T0, T1, T2, T3, T4, T5, T6, T7> TypedTuple<TupleIndex2, T2>
    for (T0, T1, T2, T3, T4, T5, T6, T7)
{
    type PopOutput = (T0, T1, T3, T4, T5, T6, T7);

    type SplitLeft = (T0, T1, T2);

    type SplitRight = (T3, T4, T5, T6, T7);

    const INDEX: usize = 2;

    open spec fn element(self) -> T2 {
        self.2
    }

    open spec fn remainder(self) -> Self::PopOutput {
        (self.0, self.1, self.3, self.4, self.5, self.6, self.7)
    }

    open spec fn reinserted(x: T2, rest: Self::PopOutput) -> Self {
        (rest.0, rest.1, x, rest.2, rest.3, rest.4, rest.5, rest.6)
    }

    open spec fn left(self) -> Self::SplitLeft {
        (self.0, self.1, self.2)
    }

    open spec fn right(self) -> Self::SplitRight {
        (self.3, self.4, self.5, self.6, self.7)
    }

    open spec fn joined(left: Self::SplitLeft, right: Self::SplitRight) -> Self {
        (left.0, left.1, left.2, right.0, right.1, right.2, right.3, right.4)
    }

    fn get(&self) -> (r: &T2) {
        &self.2
    }

    fn get_mut(&mut self) -> (r: &mut T2) {
        &mut self.2
    }

    fn map<FN: FnOnce(T2) -> T2>(&mut self, f: FN) where T2: Default {
        let mut held = T2::default();
        core::mem::swap(&mut self.2, &mut held);
        self.2 = f(held);
    }

    fn pop(self) -> (r: (T2, Self::PopOutput)) {
        (self.2, (self.0, self.1, self.3, self.4, self.5, self.6, self.7))
    }

    fn split_at(self) -> (r: (Self::SplitLeft, Self::SplitRight)) {
        ((self.0, self.1, self.2), (self.3, self.4, self.5, self.6, self.7))
    }

    proof fn lemma_shape() {
    }

    proof fn lemma_pop_inverse(v: Self, x: T2, rest: Self::PopOutput) {
    }

    proof fn lemma_split_inverse(v: Self, left: Self::SplitLeft, right: Self::SplitRight) {
    }
}

impl<A> FollowsShape<TupleIndex2, A> for (A, A, A, A, A, A, A, A) {
    proof fn lemma_follows_shape(v: Self) {
        <Self as TypedTuple<TupleIndex2, A>>::lemma_shape();
        let rest = <Self as TypedTuple<TupleIndex2, A>>::remainder(v);
        let left = <Self as TypedTuple<TupleIndex2, A>>::left(v);
        let right = <Self as TypedTuple<TupleIndex2, A>>::right(v);
        assert(rest.items() =~= select(v.items(), pop_output(8, 2)));
        assert(left.items() =~= select(v.items(), split_left(8, 2)));
        assert(right.items() =~= select(v.items(), split_right(8, 2)));
    }

    proof fn lemma_rebuilds(
        x: A,
        rest: Self::PopOutput,
        left: Self::SplitLeft,
        right: Self::SplitRight,
    ) {
        <Self as TypedTuple<TupleIndex2, A>>::lemma_shape();
        let popped = <Self as TypedTuple<TupleIndex2, A>>::reinserted(x, rest);
        let whole = <Self as TypedTuple<TupleIndex2, A>>::joined(left, right);
        assert(popped.items() =~= rest.items().insert(2, x));
        assert(whole.items() =~= left.items() + right.items());
    }
}

/// The fourth element of a tuple of eight.
impl<T0, T1, T2, T3, T4, T5, T6, T7> TypedTuple<TupleIndex3, T3>
    for (T0, T1, T2, T3, T4, T5, T6, T7)
{
    type PopOutput = (T0, T1, T2, T4, T5, T6, T7);

    type SplitLeft = (T0, T1, T2, T3);

    type SplitRight = (T4, T5, T6, T7);

    const INDEX: usize = 3;

    open spec fn element(self) -> T3 {
        self.3
    }

    open spec fn remainder(self) -> Self::PopOutput {
        (self.0, self.1, self.2, self.4, self.5, self.6, self.7)
    }

    open spec fn reinserted(x: T3, rest: Self::PopOutput) -> Self {
        (rest.0, rest.1, rest.2, x, rest.3, rest.4, rest.5, rest.6)
    }

    open spec fn left(self) -> Self::SplitLeft {
        (self.0, self.1, self.2, self.3)
    }

    open spec fn right(self) -> Self::SplitRight {
        (self.4, self.5, self.6, self.7)
    }

    open spec fn joined(left: Self::SplitLeft, right: Self::SplitRight) -> Self {
        (left.0, left.1, left.2, left.3, right.0, right.1, right.2, right.3)
    }

    fn get(&self) -> (r: &T3) {
        &self.3
    }

    fn get_mut(&mut self) -> (r: &mut T3) {
        &mut self.3
    }

    fn map<FN: FnOnce(T3) -> T3>(&mut self, f: FN) where T3: Default {
        let mut held = T3::default();
        core::mem::swap(&mut self.3, &mut held);
        self.3 = f(held);
    }

    fn pop(self) -> (r: (T3, Self::PopOutput)) {
        (self.3, (self.0, self.1, self.2, self.4, self.5, self.6, self.7))
    }

    fn split_at(self) -> (r: (Self::SplitLeft, Self::SplitRight)) {
        ((self.0, self.1, self.2, self.3), (self.4, self.5, self.6, self.7))
    }

    proof fn lemma_shape() {
    }

    proof fn lemma_pop_inverse(v: Self, x: T3, rest: Self::PopOutput) {
    }

    proof fn lemma_split_inverse(v: Self, left: Self::SplitLeft, right: Self::SplitRight) {
    }
}

impl<A> FollowsShape<TupleIndex3, A> for (A, A, A, A, A, A, A, A) {
    proof fn lemma_follows_shape(v: Self) {
        <Self as TypedTuple<TupleIndex3, A>>::lemma_shape();
        let rest = <Self as TypedTuple<TupleIndex3, A>>::remainder(v);
        let left = <Self as TypedTuple<TupleIndex3, A>>::left(v);
        let right = <Self as TypedTuple<TupleIndex3, A>>::right(v);
        assert(rest.items() =~= select(v.items(), pop_output(8, 3)));
        assert(left.items() =~= select(v.items(), split_left(8, 3)));
        assert(right.items() =~= select(v.items(), split_right(8, 3)));
    }

    proof fn lemma_rebuilds(
        x: A,
        rest: Self::PopOutput,
        left: Self::SplitLeft,
        right: Self::SplitRight,
    ) {
        <Self as TypedTuple<TupleIndex3, A>>::lemma_shape();
        let popped = <Self as TypedTuple<TupleIndex3, A>>::reinserted(x, rest);
        let whole = <Self as TypedTuple<TupleIndex3, A>>::joined(left, right);
        assert(popped.items() =~= rest.items().insert(3, x));
        assert(whole.items() =~= left.items() + right.items());
    }
}

/// The fifth element of a tuple of eight.
impl<T0, T1, T2, T3, T4, T5, T6, T7> TypedTuple<TupleIndex4, T4>
    for (T0, T1, T2, T3, T4, T5, T6, T7)
{
    type PopOutput = (T0, T1, T2, T3, T5, T6, T7);

    type SplitLeft = (T0, T1, T2, T3, T4);

    type SplitRight = (T5, T6, T7);

    const INDEX: usize = 4;

    open spec fn element(self) -> T4 {
        self.4
    }

    open spec fn remainder(self) -> Self::PopOutput {
        (self.0, self.1, self.2, self.3, self.5, self.6, self.7)
    }

    open spec fn reinserted(x: T4, rest: Self::PopOutput) -> Self {
        (rest.0, rest.1, rest.2, rest.3, x, rest.4, rest.5, rest.6)
    }

    open spec fn left(self) -> Self::SplitLeft {
        (self.0, self.1, self.2, self.3, self.4)
    }

    open spec fn right(self) -> Self::SplitRight {
        (self.5, self.6, self.7)
    }

    open spec fn joined(left: Self::SplitLeft, right: Self::SplitRight) -> Self {
        (left.0, left.1, left.2, left.3, left.4, right.0, right.1, right.2)
    }

    fn get(&self) -> (r: &T4) {
        &self.4
    }

    fn get_mut(&mut self) -> (r: &mut T4) {
        &mut self.4
    }

    fn map<FN: FnOnce(T4) -> T4>(&mut self, f: FN) where T4: Default {
        let mut held = T4::default();
        core::mem::swap(&mut self.4, &mut held);
        self.4 = f(held);
    }

    fn pop(self) -> (r: (T4, Self::PopOutput)) {
        (self.4, (self.0, self.1, self.2, self.3, self.5, self.6, self.7))
    }

    fn split_at(self) -> (r: (Self::SplitLeft, Self::SplitRight)) {
        ((self.0, self.1, self.2, self.3, self.4), (self.5, self.6, self.7))
    }

    proof fn lemma_shape() {
    }

    proof fn lemma_pop_inverse(v: Self, x: T4, rest: Self::PopOutput) {
    }

    proof fn lemma_split_inverse(v: Self, left: Self::SplitLeft, right: Self::SplitRight) {
    }
}

impl<A> FollowsShape<TupleIndex4, A> for (A, A, A, A, A, A, A, A) {
    proof fn lemma_follows_shape(v: Self) {
        <Self as TypedTuple<TupleIndex4, A>>::lemma_shape();
        let rest = <Self as TypedTuple<TupleIndex4, A>>::remainder(v);
        let left = <Self as TypedTuple<TupleIndex4, A>>::left(v);
        let right = <Self as TypedTuple<TupleIndex4, A>>::right(v);
        assert(rest.items() =~= select(v.items(), pop_output(8, 4)));
        assert(left.items() =~= select(v.items(), split_left(8, 4)));
        assert(right.items() =~= select(v.items(), split_right(8, 4)));
    }

    proof fn lemma_rebuilds(
        x: A,
        rest: Self::PopOutput,
        left: Self::SplitLeft,
        right: Self::SplitRight,
    ) {
        <Self as TypedTuple<TupleIndex4, A>>::lemma_shape();
        let popped = <Self as TypedTuple<TupleIndex4, A>>::reinserted(x, rest);
        let whole = <Self as TypedTuple<TupleIndex4, A>>::joined(left, right);
        assert(popped.items() =~= rest.items().insert(4, x));
        assert(whole.items() =~= left.items() + right.items());
    }
}

/// The sixth element of a tuple of eight.
impl<T0, T1, T2, T3, T4, T5, T6, T7> TypedTuple<TupleIndex5, T5>
    for (T0, T1, T2, T3, T4, T5, T6, T7)
{
    type PopOutput = (T0, T1, T2, T3, T4, T6, T7);

    type SplitLeft = (T0, T1, T2, T3, T4, T5);

    type SplitRight = (T6, T7);

    const INDEX: usize = 5;

    open spec fn element(self) -> T5 {
        self.5
    }

    open spec fn remainder(self) -> Self::PopOutput {
        (self.0, self.1, self.2, self.3, self.4, self.6, self.7)
    }

    open spec fn reinserted(x: T5, rest: Self::PopOutput) -> Self {
        (rest.0, rest.1, rest.2, rest.3, rest.4, x, rest.5, rest.6)
    }

    open spec fn left(self) -> Self::SplitLeft {
        (self.0, self.1, self.2, self.3, self.4, self.5)
    }

    open spec fn right(self) -> Self::SplitRight {
        (self.6, self.7)
    }

    open spec fn joined(left: Self::SplitLeft, right: Self::SplitRight) -> Self {
        (left.0, left.1, left.2, left.3, left.4, left.5, right.0, right.1)
    }

    fn get(&self) -> (r: &T5) {
        &self.5
    }

    fn get_mut(&mut self) -> (r: &mut T5) {
        &mut self.5
    }

    fn map<FN: FnOnce(T5) -> T5>(&mut self, f: FN) where T5: Default {
        let mut held = T5::default();
        core::mem::swap(&mut self.5, &mut held);
        self.5 = f(held);
    }

    fn pop(self) -> (r: (T5, Self::PopOutput)) {
        (self.5, (self.0, self.1, self.2, self.3, self.4, self.6, self.7))
    }

    fn split_at(self) -> (r: (Self::SplitLeft, Self::SplitRight)) {
        ((self.0, self.1, self.2, self.3, self.4, self.5), (self.6, self.7))
    }

    proof fn lemma_shape() {
    }

    proof fn lemma_pop_inverse(v: Self, x: T5, rest: Self::PopOutput) {
    }

    proof fn lemma_split_inverse(v: Self, left: Self::SplitLeft, right: Self::SplitRight) {
    }
}

impl<A> FollowsShape<TupleIndex5, A> for (A, A, A, A, A, A, A, A) {
    proof fn lemma_follows_shape(v: Self) {
        <Self as TypedTuple<TupleIndex5, A>>::lemma_shape();
        let rest = <Self as TypedTuple<TupleIndex5, A>>::remainder(v);
        let left = <Self as TypedTuple<TupleIndex5, A>>::left(v);
        let right = <Self as TypedTuple<TupleIndex5, A>>::right(v);
        assert(rest.items() =~= select(v.items(), pop_output(8, 5)));
        assert(left.items() =~= select(v.items(), split_left(8, 5)));
        assert(right.items() =~= select(v.items(), split_right(8, 5)));
    }

    proof fn lemma_rebuilds(
        x: A,
        rest: Self::PopOutput,
        left: Self::SplitLeft,
        right: Self::SplitRight,
    ) {
        <Self as TypedTuple<TupleIndex5, A>>::lemma_shape();
        let popped = <Self as TypedTuple<TupleIndex5, A>>::reinserted(x, rest);
        let whole = <Self as TypedTuple<TupleIndex5, A>>::joined(left, right);
        assert(popped.items() =~= rest.items().insert(5, x));
        assert(whole.items() =~= left.items() + right.items());
    }
}

/// The seventh element of a tuple of eight.
impl<T0, T1, T2, T3, T4, T5, T6, T7> TypedTuple<TupleIndex6, T6>
    for (T0, T1, T2, T3, T4, T5, T6, T7)
{
    type PopOutput = (T0, T1, T2, T3, T4, T5, T7);

    type SplitLeft = (T0, T1, T2, T3, T4, T5, T6);

    type SplitRight = (T7,);

    const INDEX: usize = 6;

    open spec fn element(self) -> T6 {
        self.6
    }

    open spec fn remainder(self) -> Self::PopOutput {
        (self.0, self.1, self.2, self.3, self.4, self.5, self.7)
    }

    open spec fn reinserted(x: T6, rest: Self::PopOutput) -> Self {
        (rest.0, rest.1, rest.2, rest.3, rest.4, rest.5, x, rest.6)
    }

    open spec fn left(self) -> Self::SplitLeft {
        (self.0, self.1, self.2, self.3, self.4, self.5, self.6)
    }

    open spec fn right(self) -> Self::SplitRight {
        (self.7,)
    }

    open spec fn joined(left: Self::SplitLeft, right: Self::SplitRight) -> Self {
        (left.0, left.1, left.2, left.3, left.4, left.5, left.6, right.0)
    }

    fn get(&self) -> (r: &T6) {
        &self.6
    }

    fn get_mut(&mut self) -> (r: &mut T6) {
        &mut self.6
    }

    fn map<FN: FnOnce(T6) -> T6>(&mut self, f: FN) where T6: Default {
        let mut held = T6::default();
        core::mem::swap(&mut self.6, &mut held);
        self.6 = f(held);
    }

    fn pop(self) -> (r: (T6, Self::PopOutput)) {
        (self.6, (self.0, self.1, self.2, self.3, self.4, self.5, self.7))
    }

    fn split_at(self) -> (r: (Self::SplitLeft, Self::SplitRight)) {
        ((self.0, self.1, self.2, self.3, self.4, self.5, self.6), (self.7,))
    }

    proof fn lemma_shape() {
    }

    proof fn lemma_pop_inverse(v: Self, x: T6, rest: Self::PopOutput) {
    }

    proof fn lemma_split_inverse(v: Self, left: Self::SplitLeft, right: Self::SplitRight) {
    }
}

impl<A> FollowsShape<TupleIndex6, A> for (A, A, A, A, A, A, A, A) {
    proof fn lemma_follows_shape(v: Self) {
        <Self as TypedTuple<TupleIndex6, A>>::lemma_shape();
        let rest = <Self as TypedTuple<TupleIndex6, A>>::remainder(v);
        let left = <Self as TypedTuple<TupleIndex6, A>>::left(v);
        let right = <Self as TypedTuple<TupleIndex6, A>>::right(v);
        assert(rest.items() =~= select(v.items(), pop_output(8, 6)));
        assert(left.items() =~= select(v.items(), split_left(8, 6)));
        assert(right.items() =~= select(v.items(), split_right(8, 6)));
    }

    proof fn lemma_rebuilds(
        x: A,
        rest: Self::PopOutput,
        left: Self::SplitLeft,
        right: Self::SplitRight,
    ) {
        <Self as TypedTuple<TupleIndex6, A>>::lemma_shape();
        let popped = <Self as TypedTuple<TupleIndex6, A>>::reinserted(x, rest);
        let whole = <Self as TypedTuple<TupleIndex6, A>>::joined(left, right);
        assert(popped.items() =~= rest.items().insert(6, x));
        assert(whole.items() =~= left.items() + right.items());
    }
}

/// The eighth element of a tuple of eight.
impl<T0, T1, T2, T3, T4, T5, T6, T7> TypedTuple<TupleIndex7, T7>
    for (T0, T1, T2, T3, T4, T5, T6, T7)
{
    type PopOutput = (T0, T1, T2, T3, T4, T5, T6);

    type SplitLeft = (T0, T1, T2, T3, T4, T5, T6, T7);

    type SplitRight = ();

    const INDEX: usize = 7;

    open spec fn element(self) -> T7 {
        self.7
    }

    open spec fn remainder(self) -> Self::PopOutput {
        (self.0, self.1, self.2, self.3, self.4, self.5, self.6)
    }

    open spec fn reinserted(x: T7, rest: Self::PopOutput) -> Self {
        (rest.0, rest.1, rest.2, rest.3, rest.4, rest.5, rest.6, x)
    }

    open spec fn left(self) -> Self::SplitLeft {
        (self.0, self.1, self.2, self.3, self.4, self.5, self.6, self.7)
    }

    open spec fn right(self) -> Self::SplitRight {
        ()
    }

    open spec fn joined(left: Self::SplitLeft, right: Self::SplitRight) -> Self {
        (left.0, left.1, left.2, left.3, left.4, left.5, left.6, left.7)
    }

    fn get(&self) -> (r: &T7) {
        &self.7
    }

    fn get_mut(&mut self) -> (r: &mut T7) {
        &mut self.7
    }

    fn map<FN: FnOnce(T7) -> T7>(&mut self, f: FN) where T7: Default {
        let mut held = T7::default();
        core::mem::swap(&mut self.7, &mut held);
        self.7 = f(held);
    }

    fn pop(self) -> (r: (T7, Self::PopOutput)) {
        (self.7, (self.0, self.1, self.2, self.3, self.4, self.5, self.6))
    }

    fn split_at(self) -> (r: (Self::SplitLeft, Self::SplitRight)) {
        ((self.0, self.1, self.2, self.3, self.4, self.5, self.6, self.7), ())
    }

    proof fn lemma_shape() {
    }

    proof fn lemma_pop_inverse(v: Self, x: T7, rest: Self::PopOutput) {
    }

    proof fn lemma_split_inverse(v: Self, left: Self::SplitLeft, right: Self::SplitRight) {
    }
}

impl<A> FollowsShape<TupleIndex7, A> for (A, A, A, A, A, A, A, A) {
    proof fn lemma_follows_shape(v: Self) {
        <Self as TypedTuple<TupleIndex7, A>>::lemma_shape();
        let rest = <Self as TypedTuple<TupleIndex7, A>>::remainder(v);
        let left = <Self as TypedTuple<TupleIndex7, A>>::left(v);
        let right = <Self as TypedTuple<TupleIndex7, A>>::right(v);
        assert(rest.items() =~= select(v.items(), pop_output(8, 7)));
        assert(left.items() =~= select(v.items(), split_left(8, 7)));
        assert(right.items() =~= select(v.items(), split_right(8, 7)));
    }

    proof fn lemma_rebuilds(
        x: A,
        rest: Self::PopOutput,
        left: Self::SplitLeft,
        right: Self::SplitRight,
    ) {
        <Self as TypedTuple<TupleIndex7, A>>::lemma_shape();
        let popped = <Self as TypedTuple<TupleIndex7, A>>::reinserted(x, rest);
        let whole = <Self as TypedTuple<TupleIndex7, A>>::joined(left, right);
        assert(popped.items() =~= rest.items().insert(7, x));
        assert(whole.items() =~= left.items() + right.items());
    }
}

} // verus!
