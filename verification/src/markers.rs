//! The markers that name tuple positions.

use vstd::prelude::*;

verus! {

/// Marker type for tuple index 0
pub struct TupleIndex0;

/// Marker type for tuple index 1
pub struct TupleIndex1;

/// Marker type for tuple index 2
pub struct TupleIndex2;

/// Marker type for tuple index 3
pub struct TupleIndex3;

/// Marker type for tuple index 4
pub struct TupleIndex4;

/// Marker type for tuple index 5
pub struct TupleIndex5;

/// Marker type for tuple index 6
pub struct TupleIndex6;

/// Marker type for tuple index 7
pub struct TupleIndex7;

/// Marker type for tuple index 8
pub struct TupleIndex8;

/// Marker type for tuple index 9
pub struct TupleIndex9;

/// Marker type for tuple index 10
pub struct TupleIndex10;

/// Marker type for tuple index 11
pub struct TupleIndex11;

} // verus!
