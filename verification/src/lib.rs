//! BLS signatures over BLS12-381: key generation, signing, verification,
//! aggregation and proofs of possession, in the basic, message-augmentation
//! and proof-of-possession ciphersuites, for signatures in either group.
//!
//! The arithmetic of the curve, the hash to the curve, the pairing and HKDF
//! are those of `pairing_plus` and `hkdf`. They are reached through small
//! trusted functions in `scalar`, `g1`, `g2` and `pairing`, each with a
//! contract that Verus takes on trust; everything else is proved from
//! those contracts.
//!
//! Points and scalars are held as their canonical encodings. The contracts
//! speak of a point as of the exponent to which the generator of its group
//! is raised: a number below the group order, so that adding points adds
//! exponents, a scalar multiplies them, and a product of pairings is the
//! neutral element exactly when the products of the paired exponents sum
//! to a multiple of the group order. In this model `laws` proves that
//! signatures verify, alone and aggregated, in both configurations.

pub mod curve;
pub mod g1;
pub mod g2;
pub mod laws;
pub mod pairing;
pub mod scalar;
pub mod signature;
