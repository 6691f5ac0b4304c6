//! Arithmetization and preprocessing of PLONK-style circuits over the
//! BLS12-381 scalar field.
//!
//! A circuit is assembled gate by gate, its wires are tied together through a
//! permutation, and preprocessing turns the finished circuit into the
//! selector, permutation and vanishing polynomials that a polynomial
//! commitment layer later commits to.

pub mod algebra;
pub mod domain;
pub mod field;
pub mod gates;
pub mod interpolation;
pub mod order;
pub mod permutation;
pub mod plonk;
pub mod polynomial;
pub mod preprocessing;
pub mod roots;
