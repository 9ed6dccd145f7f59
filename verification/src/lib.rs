//! Type-directed access to the elements of tuples.
//!
//! A tuple of up to twelve elements can be read, written, transformed, popped
//! and split at any of its positions. The position is chosen by the type of the
//! element, or by a marker where two elements share a type; a call that names
//! neither a marker nor a type that occurs once does not compile.
//!
//! - [`protocol`] declares the five operations and their contracts.
//! - `arity_1` to `arity_12` implement them, one implementation for each
//!   arity and position.
//! - [`shapes`] and [`generator`] compute, for any maximum arity, which
//!   implementations there are and what each is made of.
//! - [`names`] gives the generated items their names.
//! - [`uniform`] and [`laws`] state what holds of all of them.

pub mod arity_1;
pub mod arity_10;
pub mod arity_11;
pub mod arity_12;
pub mod arity_2;
pub mod arity_3;
pub mod arity_4;
pub mod arity_5;
pub mod arity_6;
pub mod arity_7;
pub mod arity_8;
pub mod arity_9;
pub mod generator;
pub mod laws;
pub mod markers;
pub mod names;
pub mod protocol;
pub mod shapes;
pub mod uniform;

pub use generator::{
    artifacts_of_arity, generate_typed_tuple_impls, Artifact, Family, Marker, Rejection,
};
pub use markers::{
    TupleIndex0, TupleIndex1, TupleIndex10, TupleIndex11, TupleIndex2, TupleIndex3, TupleIndex4,
    TupleIndex5, TupleIndex6, TupleIndex7, TupleIndex8, TupleIndex9,
};
pub use names::{append_decimal, type_parameter_name};
pub use protocol::{Arity, TypedTuple, MAX_ARITY};
pub use shapes::{remaining_positions, span_positions};
