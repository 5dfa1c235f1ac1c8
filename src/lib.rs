//! Fixed-length numeric vectors whose length is part of the type.
//!
//! A `Vector<N, T>` holds exactly `N` components of a signed integer representation `T`.
//! Vectors combine componentwise (`+`, `-`, unary `-`) and with a scalar (`+`, `-`, `*`),
//! with in-place forms of each. The right-hand operand may use another representation: each of
//! its components, or the scalar, is cast to the left operand's representation first.
//!
//! Failure policy: every operation states in its precondition that each cast succeeds and that
//! each result fits in `T`. Verified callers must prove it; at run time an unverified caller
//! that breaks it gets a panic from the failed cast, never a silently altered value.
//! Vectors of two different lengths are two different types, so combining them does not compile.
mod sealed;

pub mod scalar;
pub mod vector;

pub use scalar::SignedUnified;
pub use vector::Vector;
