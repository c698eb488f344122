//! Keys and key material.
//!
//! A key can either be a symmetric or an asymmetric key. Key bytes are
//! generated by a cryptographically secure external generator; this module
//! only fixes the required lengths.

use vstd::prelude::*;

use rand::Rng;

verus! {

#[allow(non_camel_case_types)]
#[derive(Debug)]
pub enum SymKey<'a, T> {
    bytes(&'a [u8]),
    key(T),
}

pub trait SymmetricKeyOps<T> {
    fn new(&self, key_bytes: &[u8]) -> T;
}

pub trait AsymmetricKeyOps<T> {
    fn new(&self, secret: &[u8], public: &[u8]) -> T;
}

/// Relies on rand::Rng::fill: fills the buffer with bytes from the
/// thread-local cryptographically secure generator. Nothing is promised of
/// the contents, only the length is fixed.
#[verifier::external_body]
pub(crate) fn random_bytes(len: usize) -> (r: Vec<u8>)
    ensures
        r@.len() == len,
{
    let mut v = vec![0u8; len];
    rand::thread_rng().fill(&mut v[..]);
    v
}

} // verus!
