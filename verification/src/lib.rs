//! A recursive decision-folding engine: decisions are scored, folded one at a
//! time into a running accumulator, and anchored by a deterministic
//! hash commitment over the ordered decision history.

pub mod accumulator;
pub mod codec;
pub mod commitment;
pub mod decision;
pub mod digest;
pub mod errors;
pub mod groth16;
pub mod instruction;
pub mod proximity;
pub mod risk;
