//! The three shapes that follow from a tuple's arity and one of its positions:
//! what is left when the element is popped, and the two halves of a split.
//!
//! A shape is a list of positions of the tuple it is derived from. Read as a
//! list of element types it is the derived tuple type; read as a list of
//! fields it is the expression that builds the derived value.

use vstd::prelude::*;

verus! {

/// The positions `0, 1, .., size - 1`.
pub open spec fn positions(size: nat) -> Seq<int> {
    Seq::new(size, |k: int| k)
}

/// The positions `from, from + 1, .., to - 1`.
pub open spec fn span(from: nat, to: nat) -> Seq<int> {
    Seq::new((to - from) as nat, |k: int| from + k)
}

/// The positions of a tuple of `size` elements without `index`, in order.
pub open spec fn pop_output(size: nat, index: nat) -> Seq<int> {
    positions(size).remove(index as int)
}

/// The positions up to and including `index`.
pub open spec fn split_left(size: nat, index: nat) -> Seq<int> {
    positions(size).subrange(0, index as int + 1)
}

/// The positions after `index`.
pub open spec fn split_right(size: nat, index: nat) -> Seq<int> {
    positions(size).subrange(index as int + 1, size as int)
}

/// The entries of `values` at the positions `picks`, in the order of `picks`.
pub open spec fn select<A>(values: Seq<A>, picks: Seq<int>) -> Seq<A> {
    Seq::new(picks.len(), |k: int| values[picks[k]])
}

/// A list of machine integers read as a list of positions.
pub open spec fn as_positions(v: Seq<usize>) -> Seq<int> {
    v.map_values(|k: usize| k as int)
}

/// Lists the positions `from..to`.
pub fn span_positions(from: usize, to: usize) -> (r: Vec<usize>)
    requires
        from <= to,
    ensures
        as_positions(r@) == span(from as nat, to as nat),
{
    let mut out: Vec<usize> = Vec::new();
    let mut k: usize = from;
    while k < to
        invariant
            from <= k <= to,
            out@.len() == k - from,
            forall|j: int| 0 <= j < out@.len() ==> out@[j] == from + j,
        decreases to - k,
    {
        out.push(k);
        k = k + 1;
    }
    assert(as_positions(out@) =~= span(from as nat, to as nat));
    out
}

/// Lists the positions of a tuple of `size` elements without `index`.
pub fn remaining_positions(size: usize, index: usize) -> (r: Vec<usize>)
    requires
        index < size,
    ensures
        as_positions(r@) == pop_output(size as nat, index as nat),
{
    let mut out: Vec<usize> = Vec::new();
    let mut k: usize = 0;
    while k < size
        invariant
            index < size,
            k <= size,
            out@.len() == (if k <= index { k as int } else { k - 1 }),
            forall|j: int| 0 <= j < out@.len() ==> out@[j] == (if j < index { j } else { j + 1 }),
        decreases size - k,
    {
        if k != index {
            out.push(k);
        }
        k = k + 1;
    }
    assert(as_positions(out@) =~= pop_output(size as nat, index as nat));
    out
}

} // verus!
