//! Sponge hash functions over the 64-bit prime field with modulus 2^64 - 2^32 + 1:
//! the Tip4, Tip4' and Tip5 permutations, their sponges, and the coefficient containers
//! of the surrounding proof system.

pub mod coefficients;
pub mod field;
pub mod mds;
pub mod sbox;
pub mod sponge;
pub mod tip;
