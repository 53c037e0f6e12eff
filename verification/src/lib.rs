//! Groth16 proof verification over the BLS12-381 pairing-friendly curve.
//!
//! The crate decides whether a Groth16 proof is valid for a verification key
//! and a sequence of public inputs.  Points of the two source groups are
//! carried as their canonical fixed-width byte encodings; the curve and
//! pairing arithmetic itself is supplied by an external arithmetic library
//! behind a small set of trusted primitives, and everything above those
//! primitives -- input validation, the public-input linear combination, and
//! the assembly of the pairing identity -- is verified.

pub mod curve;
pub mod groth16;
pub mod scalar;
