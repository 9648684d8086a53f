//! Initialization vector module
//!
//! This module provides a wrapper type for a [Block] that is used as initialization vector (IV).

use vstd::prelude::*;

use crate::block::Block;

verus! {

/// Relies on rand::random: it returns a value drawn from the thread-local
/// generator. Nothing is known of the value.
pub assume_specification<T>[ rand::random::<T> ]() -> (r: T)
    where
        rand::distributions::Standard: rand::distributions::Distribution<T>,
;

/// Initialization vector (IV) wrapper
///
/// This type wraps a [Block] that is used as IV.
#[derive(Debug, PartialEq, Eq, Clone, Copy)]
pub struct InitializationVector(Block);

impl View for InitializationVector {
    type V = Seq<u8>;

    closed spec fn view(&self) -> Seq<u8> {
        self.0@
    }
}

impl InitializationVector {
    /// Constructor that takes 16 bytes
    pub fn from_bytes(bytes: [u8; 16]) -> (r: Self)
        ensures
            r@ == bytes@,
    {
        Self(Block::from_bytes(bytes))
    }

    /// Construct a random IV
    pub fn random() -> (r: Self)
        ensures
            r@.len() == 16,
    {
        let bytes: [u8; 16] = rand::random();
        Self::from_bytes(bytes)
    }

    /// Get the inner bytes
    pub fn into_bytes(&self) -> (r: [u8; 16])
        ensures
            r@ == self@,
    {
        self.0.dump_bytes()
    }

    /// The IV as a block
    pub fn block(&self) -> (r: Block)
        ensures
            r@ == self@,
    {
        self.0
    }

    /// The view of an IV always has 16 bytes.
    pub proof fn lemma_view_len(&self)
        ensures
            self@.len() == 16,
    {
        self.0.lemma_view_len();
    }
}

} // verus!
