//! What holds of the family and of the five operations, for every arity and
//! every position.

use crate::generator::{artifact_count, artifacts_in, Artifact, Family};
use crate::protocol::{Arity, TypedTuple};
use crate::shapes::{pop_output, select, split_left, split_right};
use crate::uniform::{FollowsShape, Uniform};
use vstd::prelude::*;

verus! {

/// The tuple `v` after `x` was written to the position of `S`'s
/// implementation for `Idx`: `x` there, and the rest as it was.
pub open spec fn written<Idx, T, S: TypedTuple<Idx, T>>(v: S, x: T) -> S {
    S::reinserted(x, v.remainder())
}

/// For every arity from 1 to the maximum and every position of such a tuple,
/// the family holds the artifact for that arity and position, and holds it
/// exactly once.
pub proof fn law_exactly_one_artifact(family: Family, size: nat, index: nat)
    requires
        family.well_formed(),
        1 <= size <= family.max_size,
        index < size,
    ensures
        family.serves(size - 1, index as int, size, index),
        forall|row: int, column: int| #[trigger]
            family.serves(row, column, size, index) ==> row == size - 1 && column == index,
{
    assert(family.rows@[size - 1]@.len() == size);
    assert(family.rows@[size - 1]@[index as int]@.size == size);
    assert forall|row: int, column: int| #[trigger]
        family.serves(row, column, size, index) implies row == size - 1 && column == index by {
        assert(family.rows@[row]@.len() == row + 1);
        assert(family.rows@[row]@[column]@.size == row + 1);
        assert(family.rows@[row]@[column]@.index == column);
    }
}

/// Every artifact of the family is for an arity from 1 to the maximum and for
/// a position of a tuple of that arity: there is none for any other pair.
pub proof fn law_no_other_artifact(family: Family, row: int, column: int)
    requires
        family.well_formed(),
        0 <= row < family.rows@.len(),
        0 <= column < family.rows@[row]@.len(),
    ensures
        1 <= family.rows@[row]@[column].size <= family.max_size,
        family.rows@[row]@[column].index < family.rows@[row]@[column].size,
        family.rows@[row]@[column].well_formed(),
        family.serves(row, column, (row + 1) as nat, column as nat),
{
    assert(family.rows@[row]@.len() == row + 1);
    let artifact: Artifact = family.rows@[row]@[column];
    assert(artifact@.size == row + 1);
    assert(artifact@.index == column);
}

proof fn lemma_product_is_even(n: nat)
    ensures
        n * (n + 1) % 2 == 0,
    decreases n,
{
    if n > 0 {
        lemma_product_is_even((n - 1) as nat);
        assert(n * (n + 1) == (n - 1) * n + 2 * n) by (nonlinear_arith);
    }
}

/// The artifact count of maximum arity `n` is the sum of the arities from 1
/// to `n`: it is 0 for 0 and grows by `n + 1` from `n` to `n + 1`.
pub proof fn law_count_is_sum_of_arities(n: nat)
    ensures
        artifact_count(0) == 0,
        artifact_count(n + 1) == artifact_count(n) + (n + 1),
{
    assert((n + 1) * (n + 2) == n * (n + 1) + 2 * (n + 1)) by (nonlinear_arith);
    lemma_product_is_even(n);
}

proof fn lemma_rows_hold(family: Family, upto: nat)
    requires
        family.well_formed(),
        upto <= family.max_size,
    ensures
        artifacts_in(family.rows@, upto) == artifact_count(upto),
    decreases upto,
{
    if upto > 0 {
        lemma_rows_hold(family, (upto - 1) as nat);
        law_count_is_sum_of_arities((upto - 1) as nat);
        assert(family.rows@[upto - 1]@.len() == upto);
    }
}

/// The family holds as many artifacts as the sum of the arities from 1 to the
/// maximum.
pub proof fn law_artifact_count(family: Family)
    requires
        family.well_formed(),
    ensures
        family.count() == artifact_count(family.max_size as nat),
{
    lemma_rows_hold(family, family.max_size as nat);
}

/// Popping position `index` of a sequence of values by the positions of
/// `pop_output` gives a remainder that is one shorter, keeps the order of all
/// other values, and gives the sequence back when the popped value is put in
/// again at `index`.
pub proof fn law_pop_of_values<A>(v: Seq<A>, index: nat)
    requires
        index < v.len(),
    ensures
        select(v, pop_output(v.len(), index)) == v.remove(index as int),
        select(v, pop_output(v.len(), index)).len() == v.len() - 1,
        select(v, pop_output(v.len(), index)).insert(index as int, v[index as int]) == v,
        forall|j: int|
            0 <= j < index ==> #[trigger] select(v, pop_output(v.len(), index))[j] == v[j],
        forall|j: int|
            index <= j < v.len() - 1 ==> #[trigger] select(v, pop_output(v.len(), index))[j] == v[j
                + 1],
{
    let rest = select(v, pop_output(v.len(), index));
    assert(rest =~= v.remove(index as int));
    assert(rest.insert(index as int, v[index as int]) =~= v);
}

/// Splitting a sequence of values behind position `index` by the positions of
/// `split_left` and `split_right` gives `index + 1` values and the others, and
/// the two put together are the sequence.
pub proof fn law_split_of_values<A>(v: Seq<A>, index: nat)
    requires
        index < v.len(),
    ensures
        select(v, split_left(v.len(), index)).len() == index + 1,
        select(v, split_right(v.len(), index)).len() == v.len() - index - 1,
        select(v, split_left(v.len(), index)) + select(v, split_right(v.len(), index)) == v,
        select(v, split_left(v.len(), index)) == v.subrange(0, index as int + 1),
        select(v, split_right(v.len(), index)) == v.subrange(index as int + 1, v.len() as int),
{
    let left = select(v, split_left(v.len(), index));
    let right = select(v, split_right(v.len(), index));
    assert(left =~= v.subrange(0, index as int + 1));
    assert(right =~= v.subrange(index as int + 1, v.len() as int));
    assert(left + right =~= v);
}

/// After a value was written to a position, reading that position gives the
/// value, and all other positions are as they were.
pub proof fn law_write_then_read<Idx, T, S: TypedTuple<Idx, T>>(v: S, x: T)
    ensures
        written::<Idx, T, S>(v, x).element() == x,
        written::<Idx, T, S>(v, x).remainder() == v.remainder(),
{
    S::lemma_pop_inverse(v, x, v.remainder());
}

/// A transform that gives each value back leaves the tuple as it was: where
/// `after` is `v` with its element written anew, and that element is the one
/// `v` had, `after` is `v`.
pub proof fn law_identity_transform<Idx, T, S: TypedTuple<Idx, T>>(v: S, after: S)
    requires
        after == written::<Idx, T, S>(v, after.element()),
        after.element() == v.element(),
    ensures
        after == v,
        written::<Idx, T, S>(v, v.element()) == v,
{
    S::lemma_pop_inverse(v, v.element(), v.remainder());
}

/// What `pop` gives has one element less than the tuple, and putting the
/// popped element in again at its position gives the tuple back.
pub proof fn law_pop_then_reinsert<Idx, T, S: TypedTuple<Idx, T>>(v: S)
    ensures
        S::PopOutput::arity() == S::arity() - 1,
        S::reinserted(v.element(), v.remainder()) == v,
{
    S::lemma_shape();
    S::lemma_pop_inverse(v, v.element(), v.remainder());
}

/// What `split_at` gives has `INDEX + 1` elements on the left and the others
/// on the right, and the two put together are the tuple.
pub proof fn law_split_then_join<Idx, T, S: TypedTuple<Idx, T>>(v: S)
    ensures
        S::SplitLeft::arity() == S::INDEX + 1,
        S::SplitRight::arity() == S::arity() - S::INDEX - 1,
        S::joined(v.left(), v.right()) == v,
{
    S::lemma_shape();
    S::lemma_split_inverse(v, v.left(), v.right());
}

/// On a tuple whose elements share a type, read as a sequence: `get` reads
/// the element at `INDEX`, and what `pop` leaves is the sequence without that
/// element, all others in their order, which gives the sequence back when the
/// popped element is put in again at `INDEX`.
pub proof fn law_pop_keeps_order<Idx, A, S: FollowsShape<Idx, A>>(v: S) where
    S::PopOutput: Uniform<A>,
    S::SplitLeft: Uniform<A>,
    S::SplitRight: Uniform<A>,
    ensures
        S::INDEX < v.items().len(),
        v.element() == v.items()[S::INDEX as int],
        v.remainder().items() == v.items().remove(S::INDEX as int),
        v.remainder().items().len() == v.items().len() - 1,
        v.remainder().items().insert(S::INDEX as int, v.element()) == v.items(),
        S::reinserted(v.element(), v.remainder()).items() == v.items(),
{
    S::lemma_shape();
    S::lemma_follows_shape(v);
    S::lemma_rebuilds(v.element(), v.remainder(), v.left(), v.right());
    law_pop_of_values(v.items(), S::INDEX as nat);
}

/// On a tuple whose elements share a type, read as a sequence: writing `x`
/// changes the entry at `INDEX` to `x` and no other.
pub proof fn law_write_changes_one_entry<Idx, A, S: FollowsShape<Idx, A>>(v: S, x: A) where
    S::PopOutput: Uniform<A>,
    S::SplitLeft: Uniform<A>,
    S::SplitRight: Uniform<A>,
    ensures
        written::<Idx, A, S>(v, x).items() == v.items().update(S::INDEX as int, x),
{
    S::lemma_shape();
    S::lemma_follows_shape(v);
    S::lemma_rebuilds(x, v.remainder(), v.left(), v.right());
    law_pop_of_values(v.items(), S::INDEX as nat);
    assert(v.items().remove(S::INDEX as int).insert(S::INDEX as int, x) =~= v.items().update(
        S::INDEX as int,
        x,
    ));
}

/// On a tuple whose elements share a type, read as a sequence: `split_at`
/// cuts the sequence behind `INDEX`, so that the left half has `INDEX + 1`
/// entries, the right half the others, and left followed by right is the
/// sequence.
pub proof fn law_split_cuts_behind_index<Idx, A, S: FollowsShape<Idx, A>>(v: S) where
    S::PopOutput: Uniform<A>,
    S::SplitLeft: Uniform<A>,
    S::SplitRight: Uniform<A>,
    ensures
        v.left().items() == v.items().subrange(0, S::INDEX + 1),
        v.right().items() == v.items().subrange(S::INDEX + 1, v.items().len() as int),
        v.left().items().len() == S::INDEX + 1,
        v.right().items().len() == v.items().len() - S::INDEX - 1,
        v.left().items() + v.right().items() == v.items(),
        S::joined(v.left(), v.right()).items() == v.items(),
{
    S::lemma_shape();
    S::lemma_follows_shape(v);
    S::lemma_rebuilds(v.element(), v.remainder(), v.left(), v.right());
    law_split_of_values(v.items(), S::INDEX as nat);
}

} // verus!
