//! Refined scalar and collection types: a value of one of these types that
//! came from a checked constructor satisfies the type's predicate.

pub mod error;
pub mod number;
pub mod sequence;
pub mod string;
