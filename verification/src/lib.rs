//! A BBS+-style anonymous-credential signature scheme over BLS12-381, with a
//! Schnorr-style selective-disclosure proof of knowledge.
//!
//! The curve and pairing arithmetic comes from the `bls12_381` crate; every
//! group element is modelled in specifications by its discrete logarithm to
//! the group's base point, an integer modulo the group order. All protocol
//! equations are stated and proved as congruences over those integers.

pub mod curve;
pub mod prove;
pub mod sign;
pub mod types;
pub mod verify;
pub mod laws;
pub mod model;
pub mod modular;
