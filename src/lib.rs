//! Generic algebraic structures: elements paired with the structure that
//! defines their arithmetic, capability traits, and concrete structures
//! (machine integers, arbitrary-precision integers, residues modulo a
//! modulus, and dense polynomials in one symbol).
use vstd::prelude::*;

pub mod arith;
pub mod big_int;
pub mod decimal;
pub mod dense_polynomial;
pub mod laws;
pub mod modulo;
pub mod primitive_int;
pub mod structure;

pub use crate::big_int::{BigInt, Int};
pub use crate::dense_polynomial::DensePolynomial;
pub use crate::modulo::Mod;
pub use crate::primitive_int::{I, U};
pub use crate::structure::{
    El, SAdd, SEuclidean, SFusedMulAdd, SMul, SRem, SRing, SSub, Structure, Super2Structure, Super3Structure,
    SuperStructure,
};

verus! {

} // verus!
