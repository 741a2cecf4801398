//! Algebraic stack of the BN254 pairing-friendly elliptic curve: the tower
//! of field extensions over the base prime field, the two curve groups in
//! Jacobian coordinates, and the bilinear ate pairing into the degree-12
//! extension.
pub mod bigint;
pub mod fp;
pub mod fp2;
pub mod fp6;
pub mod fp12;
pub mod g1;
pub mod g2;
pub mod pairing;
