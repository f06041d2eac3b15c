//! Multiplication of a state by a fixed MDS matrix.

pub mod linear;
pub mod mds_12x12;
pub mod mds_16x16;
pub mod mds_16x16_columns;
