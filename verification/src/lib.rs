//! A pluggable cryptographic-algorithm registry.
//!
//! Independent providers register bundles of named algorithm implementations;
//! callers resolve an algorithm by name to an owned capability instance
//! (an AEAD, a message digest, a cipher) without depending on any concrete
//! provider at compile time.

pub mod aead;

pub mod cipher;

pub mod digest;

pub mod key;

pub mod registry;

// Some providers
pub mod provider;
