//! The family of implementations for all tuples up to a maximum arity: one
//! marker per position, and one artifact per arity and position.

use crate::shapes::{
    as_positions, pop_output, remaining_positions, span, span_positions, split_left, split_right,
};
use vstd::prelude::*;

verus! {

/// Why a request names no implementation.
#[derive(Debug, Clone, Copy, PartialEq, Eq, Structural)]
pub enum Rejection {
    /// The arity is larger than the largest arity that was generated.
    ArityBeyondMaximum,
    /// The position is not a position of a tuple of that arity.
    PositionBeyondArity,
}

/// The identity that names one position, whatever the arity.
#[derive(Debug, Clone, Copy, PartialEq, Eq, Structural)]
pub struct Marker {
    pub index: usize,
}

/// What one implementation is made of, as mathematical values.
pub struct Shape {
    pub size: nat,
    pub index: nat,
    pub pop_output: Seq<int>,
    pub split_left: Seq<int>,
    pub split_right: Seq<int>,
}

/// The shape of the implementation for position `index` of a tuple of `size`.
pub open spec fn shape_of(size: nat, index: nat) -> Shape {
    Shape {
        size,
        index,
        pop_output: pop_output(size, index),
        split_left: split_left(size, index),
        split_right: split_right(size, index),
    }
}

/// One implementation: a tuple arity, a position in it, and the positions that
/// make up the three derived tuples.
#[derive(Debug)]
pub struct Artifact {
    pub size: usize,
    pub index: usize,
    pub pop_output: Vec<usize>,
    pub split_left: Vec<usize>,
    pub split_right: Vec<usize>,
}

impl View for Artifact {
    type V = Shape;

    open spec fn view(&self) -> Shape {
        Shape {
            size: self.size as nat,
            index: self.index as nat,
            pop_output: as_positions(self.pop_output@),
            split_left: as_positions(self.split_left@),
            split_right: as_positions(self.split_right@),
        }
    }
}

impl Artifact {
    /// The artifact names a position of its tuple, and its three lists are the
    /// ones that follow from arity and position.
    pub open spec fn well_formed(&self) -> bool {
        &&& self.index < self.size
        &&& self@ == shape_of(self.size as nat, self.index as nat)
    }

    /// Derives the implementation for position `index` of a tuple of `size`
    /// elements, or rejects a position that such a tuple does not have.
    pub fn derive(size: usize, index: usize) -> (r: Result<Artifact, Rejection>)
        ensures
            index < size ==> r is Ok && r->Ok_0@ == shape_of(size as nat, index as nat),
            index >= size ==> r == Err::<Artifact, Rejection>(Rejection::PositionBeyondArity),
    {
        if index >= size {
            return Err(Rejection::PositionBeyondArity);
        }
        Ok(Artifact::at(size, index))
    }

    /// The implementation for position `index` of a tuple of `size` elements.
    pub fn at(size: usize, index: usize) -> (artifact: Artifact)
        requires
            index < size,
        ensures
            artifact@ == shape_of(size as nat, index as nat),
    {
        let rest = remaining_positions(size, index);
        let left = span_positions(0, index + 1);
        let right = span_positions(index + 1, size);
        proof {
            assert(span(0, (index + 1) as nat) =~= split_left(size as nat, index as nat));
            assert(span((index + 1) as nat, size as nat) =~= split_right(
                size as nat,
                index as nat,
            ));
        }
        Artifact { size, index, pop_output: rest, split_left: left, split_right: right }
    }
}

/// Everything that is generated for one maximum arity: the markers, and the
/// artifacts in rows by arity, the row of arity `s` at `rows[s - 1]` and the
/// artifact for position `i` in it at `rows[s - 1][i]`.
#[derive(Debug)]
pub struct Family {
    pub max_size: usize,
    pub markers: Vec<Marker>,
    pub rows: Vec<Vec<Artifact>>,
}

/// The number of artifacts for all arities from 1 to `max_size`.
pub open spec fn artifact_count(max_size: nat) -> nat {
    max_size * (max_size + 1) / 2
}

/// The number of artifacts in the first `upto` of `rows`.
pub open spec fn artifacts_in(rows: Seq<Vec<Artifact>>, upto: nat) -> nat
    decreases upto,
{
    if upto == 0 {
        0
    } else {
        artifacts_in(rows, (upto - 1) as nat) + rows[upto - 1]@.len()
    }
}

impl Family {
    /// There is one marker per position, in order; one row per arity from 1
    /// to `max_size`, in order; and the row of arity `s` holds the artifacts
    /// for the positions `0..s`, in order, and nothing else.
    pub open spec fn well_formed(&self) -> bool {
        &&& self.markers@.len() == self.max_size
        &&& forall|k: int| 0 <= k < self.max_size ==> (#[trigger] self.markers@[k]).index == k
        &&& self.rows@.len() == self.max_size
        &&& forall|s: int| 0 <= s < self.max_size ==> (#[trigger] self.rows@[s])@.len() == s + 1
        &&& forall|s: int, i: int|
            0 <= i <= s < self.max_size ==> (#[trigger] self.rows@[s]@[i])@ == shape_of(
                (s + 1) as nat,
                i as nat,
            )
    }

    /// The number of artifacts in the family.
    pub open spec fn count(&self) -> nat {
        artifacts_in(self.rows@, self.rows@.len())
    }

    /// The artifact at `row` and `column` is the one for `size` and `index`.
    pub open spec fn serves(&self, row: int, column: int, size: nat, index: nat) -> bool {
        &&& 0 <= row < self.rows@.len()
        &&& 0 <= column < self.rows@[row]@.len()
        &&& self.rows@[row]@[column].size == size
        &&& self.rows@[row]@[column].index == index
    }

    /// Looks up the implementation for position `index` of a tuple of `size`
    /// elements. An arity beyond the maximum is rejected first, then a position
    /// that a tuple of that arity does not have.
    pub fn find(&self, size: usize, index: usize) -> (r: Result<&Artifact, Rejection>)
        requires
            self.well_formed(),
        ensures
            size <= self.max_size && index < size ==> r is Ok && r->Ok_0@ == shape_of(
                size as nat,
                index as nat,
            ) && *r->Ok_0 == self.rows@[size - 1]@[index as int],
            size > self.max_size ==> r == Err::<&Artifact, Rejection>(
                Rejection::ArityBeyondMaximum,
            ),
            size <= self.max_size && index >= size ==> r == Err::<&Artifact, Rejection>(
                Rejection::PositionBeyondArity,
            ),
    {
        if size > self.max_size {
            return Err(Rejection::ArityBeyondMaximum);
        }
        if index >= size {
            return Err(Rejection::PositionBeyondArity);
        }
        let row = &self.rows[size - 1];
        Ok(&row[index])
    }
}

/// Derives the artifacts for all positions of a tuple of `size` elements.
pub fn artifacts_of_arity(size: usize) -> (row: Vec<Artifact>)
    ensures
        row@.len() == size,
        forall|i: int| 0 <= i < size ==> (#[trigger] row@[i])@ == shape_of(size as nat, i as nat),
{
    let mut row: Vec<Artifact> = Vec::new();
    let mut index: usize = 0;
    while index < size
        invariant
            index <= size,
            row@.len() == index,
            forall|i: int| 0 <= i < index ==> (#[trigger] row@[i])@ == shape_of(
                size as nat,
                i as nat,
            ),
        decreases size - index,
    {
        row.push(Artifact::at(size, index));
        index = index + 1;
    }
    row
}

/// Generates the markers and the implementations for all tuples of up to
/// `max_size` elements: one marker for each position `0..max_size`, and for
/// each arity from 1 to `max_size` one artifact for each of its positions.
pub fn generate_typed_tuple_impls(max_size: usize) -> (family: Family)
    ensures
        family.max_size == max_size,
        family.well_formed(),
{
    let mut markers: Vec<Marker> = Vec::new();
    let mut index: usize = 0;
    while index < max_size
        invariant
            index <= max_size,
            markers@.len() == index,
            forall|k: int| 0 <= k < index ==> (#[trigger] markers@[k]).index == k,
        decreases max_size - index,
    {
        markers.push(Marker { index });
        index = index + 1;
    }
    let mut rows: Vec<Vec<Artifact>> = Vec::new();
    let mut done: usize = 0;
    while done < max_size
        invariant
            done <= max_size,
            rows@.len() == done,
            forall|s: int| 0 <= s < done ==> (#[trigger] rows@[s])@.len() == s + 1,
            forall|s: int, i: int|
                0 <= i <= s < done ==> (#[trigger] rows@[s]@[i])@ == shape_of(
                    (s + 1) as nat,
                    i as nat,
                ),
        decreases max_size - done,
    {
        let row = artifacts_of_arity(done + 1);
        rows.push(row);
        done = done + 1;
    }
    Family { max_size, markers, rows }
}

} // verus!
