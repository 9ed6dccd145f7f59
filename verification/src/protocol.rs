//! The position-access protocol: what every (tuple, position) pair offers.

use vstd::prelude::*;

verus! {

/// The largest arity of a tuple that has implementations.
pub const MAX_ARITY: usize = 12;

/// The number of elements of a tuple type, as a specification-level constant.
pub trait Arity {
    spec fn arity() -> nat;
}

impl Arity for () {
    open spec fn arity() -> nat {
        0
    }
}

/// Access to the element of type `T` that a tuple holds at the position named
/// by the marker `Idx`.
///
/// Each implementation fixes one position of one tuple type. The model of an
/// implementation is two decompositions of the tuple, each with its inverse:
/// `element`/`remainder` against `reinserted`, and `left`/`right` against
/// `joined`. The laws at the end say that these really are inverses, and how
/// the arities of the three derived tuple types follow from the position.
pub trait TypedTuple<Idx, T>: Arity + Sized {
    /// The tuple without the element at this position, order kept.
    type PopOutput: Arity;

    /// The elements up to and including this position.
    type SplitLeft: Arity;

    /// The elements after this position.
    type SplitRight: Arity;

    /// The zero-based position that `Idx` names.
    const INDEX: usize;

    /// The element at this position.
    spec fn element(self) -> T;

    /// All other elements, in their order.
    spec fn remainder(self) -> Self::PopOutput;

    /// The tuple that holds `x` at this position and `rest` around it.
    spec fn reinserted(x: T, rest: Self::PopOutput) -> Self;

    /// The elements up to and including this position.
    spec fn left(self) -> Self::SplitLeft;

    /// The elements after this position.
    spec fn right(self) -> Self::SplitRight;

    /// The tuple made of `left` followed by `right`.
    spec fn joined(left: Self::SplitLeft, right: Self::SplitRight) -> Self;

    /// Borrows the element at this position.
    fn get(&self) -> (r: &T)
        ensures
            *r == self.element(),
    ;

    /// Borrows the element at this position for writing. Whatever the caller
    /// leaves behind the reference becomes the element; nothing else changes.
    fn get_mut(&mut self) -> (r: &mut T)
        ensures
            *r == old(self).element(),
            *final(self) == Self::reinserted(*final(r), old(self).remainder()),
    ;

    /// Replaces the element at this position by what `f` makes of it; nothing
    /// else changes.
    fn map<FN: FnOnce(T) -> T>(&mut self, f: FN) where T: Default
        requires
            f.requires((old(self).element(),)),
        ensures
            f.ensures((old(self).element(),), final(self).element()),
            *final(self) == Self::reinserted(final(self).element(), old(self).remainder()),
    ;

    /// Takes the tuple apart into the element at this position and the rest.
    fn pop(self) -> (r: (T, Self::PopOutput))
        ensures
            r.0 == self.element(),
            r.1 == self.remainder(),
    ;

    /// Cuts the tuple in two behind this position.
    fn split_at(self) -> (r: (Self::SplitLeft, Self::SplitRight))
        ensures
            r.0 == self.left(),
            r.1 == self.right(),
    ;

    /// The position lies inside the tuple, and the derived types have the
    /// arities that the position dictates.
    proof fn lemma_shape()
        ensures
            Self::INDEX < Self::arity() <= MAX_ARITY,
            Self::PopOutput::arity() == Self::arity() - 1,
            Self::SplitLeft::arity() == Self::INDEX + 1,
            Self::SplitRight::arity() == Self::arity() - Self::INDEX - 1,
    ;

    /// `reinserted` undoes `element`/`remainder`, and the other way round.
    proof fn lemma_pop_inverse(v: Self, x: T, rest: Self::PopOutput)
        ensures
            Self::reinserted(v.element(), v.remainder()) == v,
            Self::reinserted(x, rest).element() == x,
            Self::reinserted(x, rest).remainder() == rest,
    ;

    /// `joined` undoes `left`/`right`, and the other way round.
    proof fn lemma_split_inverse(v: Self, left: Self::SplitLeft, right: Self::SplitRight)
        ensures
            Self::joined(v.left(), v.right()) == v,
            Self::joined(left, right).left() == left,
            Self::joined(left, right).right() == right,
    ;
}

} // verus!
