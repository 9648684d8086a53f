//! AES (Rijndael) block cipher with 128, 192 and 256 bit keys, the ECB and
//! CBC modes of operation and PKCS #7, byte and zero padding.

use vstd::prelude::*;

pub mod block;
pub mod decryption;
pub mod encryption;
pub mod key;
pub mod lookups;
pub mod padding;

mod init_vec;
mod util;

pub use init_vec::InitializationVector;

verus! {

/// AES encryption mode
///
/// Implemented modes:
///
/// - Electronic Code Book (ECB):
///   Each block is encrypted with the same key and algorithm.
///   It is fast and easy but quite insecure and therefore not recommended.
///
/// - Cipher Block Chaining (CBC):
///   An [initialization vector (IV)](InitializationVector) is used and the blocks are chained together.
///   It is generally more secure.
#[derive(Debug, Clone, Copy)]
pub enum EncryptionMode {
    ECB,
    CBC(InitializationVector),
}

} // verus!
