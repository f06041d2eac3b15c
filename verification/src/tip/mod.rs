//! The Tip4, Tip4' and Tip5 hash functions, and the layers of a round that they share.

pub mod layers;
pub mod tip4;
pub mod tip4_prime;
pub mod tip5;

pub use tip4::Tip4_256;
pub use tip4_prime::Tip4p_256;
pub use tip5::Tip5_320;
