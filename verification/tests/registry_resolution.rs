use rca::aead::Aead;
use rca::digest::Digest;
use rca::provider::noop_provider::{NoopAead, NoopProvider};
use rca::provider::rustcrypto_provider::{Chacha20Poly1305Provider, RustCryptoProvider};
use rca::registry::{BaseProvider, BoxedProvider, Provider, Registry};

fn boxed(p: BaseProvider) -> BoxedProvider {
    BoxedProvider { inner: Box::new(p) }
}

#[test]
fn test_unsupported_algorithm() {
    // Register provider
    let mut registry = Registry::new();
    registry.add(boxed(RustCryptoProvider::new()));

    assert_eq!(registry.supports("unimplemented cipher"), false);
    let cipher_result = registry.get_aead("unimplemented cipher");
    assert_eq!(cipher_result.is_err(), true);
}

#[test]
fn test_unsupported_name_everywhere() {
    // A registry with zero providers supports nothing.
    let mut registry = Registry::new();
    assert!(!registry.supports("nonexistent"));
    assert!(registry.get_aead("nonexistent").is_err());
    assert!(registry.get_digest("nonexistent").is_err());

    // Unrelated providers change nothing about an unknown name.
    registry.add(boxed(RustCryptoProvider::new()));
    registry.add(boxed(NoopProvider::new()));
    assert!(!registry.supports("nonexistent"));
    assert_eq!(registry.get_aead("nonexistent").err(), Some("Unsupported algorithm"));
    assert_eq!(registry.get_digest("nonexistent").err(), Some("Unsupported algorithm"));
}

#[test]
fn test_resolution_order() {
    // Two providers register an AEAD under the same name; the one
    // registered first must win. The two implementations are told apart by
    // their key length (16 for the identity AEAD, 32 for ChaCha20-Poly1305).
    let provider_a = BaseProvider::new(
        vec![("X".to_owned(), rca::aead::BoxedAeadPrototype { inner: Box::new(NoopAead {}) })],
        Vec::new(),
    );
    let provider_b = BaseProvider::new(
        vec![(
            "X".to_owned(),
            rca::aead::BoxedAeadPrototype { inner: Box::new(Chacha20Poly1305Provider {}) },
        )],
        Vec::new(),
    );

    let mut registry = Registry::new();
    registry.add(boxed(provider_a));
    registry.add(boxed(provider_b));
    assert!(registry.supports("X"));

    let cipher = registry.get_aead("X").unwrap();
    assert_eq!(cipher.inner.get_key_len(), 16);
}

#[test]
fn test_clear_semantics() {
    let mut registry = Registry::new();
    registry.add(boxed(RustCryptoProvider::new()));
    registry.add(boxed(NoopProvider::new()));
    assert!(registry.supports("Chacha20Poly1305"));
    assert!(registry.supports("SHA2-256"));
    assert!(registry.supports("noop"));
    assert!(registry.supports("xor-fold"));

    registry.clear();

    assert!(!registry.supports("Chacha20Poly1305"));
    assert!(!registry.supports("SHA2-256"));
    assert!(!registry.supports("noop"));
    assert!(!registry.supports("xor-fold"));
    assert!(registry.get_aead("Chacha20Poly1305").is_err());
    assert!(registry.get_aead("noop").is_err());
    assert!(registry.get_digest("SHA2-256").is_err());
    assert!(registry.get_digest("xor-fold").is_err());
}

#[test]
fn test_noop_aead_scenario() {
    // A registry with one provider mapping "noop" to the identity AEAD:
    // encrypt returns the plaintext unchanged plus a fixed-length tag, and
    // decrypt returns the plaintext.
    let mut registry = Registry::new();
    registry.add(boxed(NoopProvider::new()));
    assert!(registry.supports("noop"));

    let cipher = registry.get_aead("noop").unwrap();
    let key = vec![0u8; 16];
    let nonce = vec![0u8; 12];
    let aad = vec![9u8, 9u8];
    let m = vec![1u8, 2u8, 3u8];

    let (c, tag) = cipher.inner.encrypt(&key, &nonce, &aad, &m).unwrap();
    assert_eq!(c, vec![1u8, 2u8, 3u8]);
    assert_eq!(tag.len(), 16);

    let decrypted = cipher.inner.decrypt(&key, &nonce, &aad, &c, &tag).unwrap();
    assert_eq!(decrypted, vec![1u8, 2u8, 3u8]);
}

#[test]
fn test_resolved_instances_are_independent() {
    // Two digests resolved for the same name carry independent streaming
    // state: feeding one does not affect the other.
    let mut registry = Registry::new();
    registry.add(boxed(NoopProvider::new()));
    assert!(registry.supports("xor-fold"));

    let mut d1 = registry.get_digest("xor-fold").unwrap();
    let mut d2 = registry.get_digest("xor-fold").unwrap();

    d1.inner.update(&[1, 2, 3]);
    let h1 = d1.inner.finish(&[]);
    let h2 = d2.inner.finish(&[1, 2, 3]);
    assert_eq!(h1, h2);
}

#[test]
fn test_base_provider_namespaces() {
    // The AEAD and digest namespaces of one provider are independent.
    let provider = RustCryptoProvider::new();
    assert!(provider.get_aead("Chacha20Poly1305").is_some());
    assert!(provider.get_aead("SHA2-256").is_none());
    assert!(provider.get_digest("SHA2-256").is_some());
    assert!(provider.get_digest("Chacha20Poly1305").is_none());
    assert!(provider.supports("Chacha20Poly1305"));
    assert!(provider.supports("SHA2-256"));
    assert!(!provider.supports("AES-GCM-128"));
}
