//! Arithmetic over the finite field GF(2^8).
//!
//! An element is a byte; addition is XOR; multiplication, division,
//! inversion and powers go through a table of discrete logarithms and a
//! table of antilogarithms for the generator 2 and the reduction polynomial
//! `0x11D`.  A lane vector does the same for several bytes at once.
//!
//! What each operation returns is stated against the polynomial arithmetic
//! of `algebra`, and proved; `laws` states the laws of the field over the
//! same functions.
//!
//! Zero has no inverse and nothing can be divided by it.  `inv` and
//! `checked_div` say so by returning `None`, for a scalar and for a lane
//! vector alike, where for a vector one zero lane is enough.  The operators
//! `/` and `/=` are for a divisor that is known not to be zero: that is
//! their precondition.
pub mod algebra;
pub mod element;
pub mod gen_table;
pub mod group;
pub mod laws;
pub mod operators;
pub mod simd;
pub mod tables;

pub use element::{GF, GF256};
pub use gen_table::{gen_tables_u8, tables_are_consistent};
pub use simd::GF256Simd;
