//! Tuples whose elements all have one type, read as sequences.
//!
//! Where all elements of a tuple have the same type, the tuple is a sequence
//! of that type, and what an implementation does to the tuple can be held
//! against what the shapes say of sequences. An implementation treats its
//! elements alike whatever their types are, so what is shown here of uniform
//! tuples shows how it moves the elements of any tuple.

use crate::protocol::{Arity, TypedTuple};
use crate::shapes::{pop_output, select, split_left, split_right};
use vstd::prelude::*;

verus! {

/// A tuple whose elements all have the type `A`, as the sequence of them.
pub trait Uniform<A>: Arity {
    spec fn items(self) -> Seq<A>;
}

impl<A> Uniform<A> for () {
    open spec fn items(self) -> Seq<A> {
        Seq::empty()
    }
}

/// On a uniform tuple, the implementation for a position does to the elements
/// what the shapes for the tuple's arity and that position say.
pub trait FollowsShape<Idx, A>: TypedTuple<Idx, A> + Uniform<A> where
    Self::PopOutput: Uniform<A>,
    Self::SplitLeft: Uniform<A>,
    Self::SplitRight: Uniform<A>,
{
    /// The element is the one at the position; the remainder and the two
    /// halves are picked from the tuple by the positions of the shapes.
    proof fn lemma_follows_shape(v: Self)
        ensures
            v.items().len() == Self::arity(),
            v.element() == v.items()[Self::INDEX as int],
            v.remainder().items() == select(
                v.items(),
                pop_output(Self::arity(), Self::INDEX as nat),
            ),
            v.left().items() == select(v.items(), split_left(Self::arity(), Self::INDEX as nat)),
            v.right().items() == select(v.items(), split_right(Self::arity(), Self::INDEX as nat)),
    ;

    /// Reinserting puts the element in at the position; joining puts the
    /// right half behind the left.
    proof fn lemma_rebuilds(
        x: A,
        rest: Self::PopOutput,
        left: Self::SplitLeft,
        right: Self::SplitRight,
    )
        ensures
            Self::reinserted(x, rest).items() == rest.items().insert(Self::INDEX as int, x),
            Self::joined(left, right).items() == left.items() + right.items(),
    ;
}

} // verus!
