//! Some providers.

pub mod noop_provider;

pub mod rustcrypto_provider;
