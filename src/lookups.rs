//! Lookup tables for the S-boxes and for the Galois-field products that
//! the mix columns step needs.

pub mod cases;
pub mod gmul;
pub mod sbox;
