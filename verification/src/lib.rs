//! Composable scalar height fields over integer coordinates.
//!
//! A scalar field maps an N-dimensional point to a value. Fields are built
//! bottom-up from leaves (constants, simple generators) through pointwise
//! combinators (add, multiply, absolute value, average), a domain-warp
//! operator that perturbs sample coordinates with values drawn from another
//! field, and adapters that change the dimensionality a field is exposed at.
//! Coordinates and values are fixed-point integers; all arithmetic saturates
//! at the representation bounds, so every evaluation is total.

pub mod arith;
pub mod field;
pub mod warp;
pub mod wrappers;
pub mod terrain;
