use rca::aead::{Aead, Error};
use rca::provider::noop_provider::NoopAead;
use rca::provider::rustcrypto_provider::{Chacha20Poly1305Provider, RustCryptoProvider};
use rca::registry::{Algorithm, BoxedProvider, Registry};

fn hex(s: &str) -> Vec<u8> {
    let digits: Vec<u8> = s
        .bytes()
        .filter(|b| !b.is_ascii_whitespace())
        .map(|b| match b {
            b'0'..=b'9' => b - b'0',
            b'a'..=b'f' => b - b'a' + 10,
            b'A'..=b'F' => b - b'A' + 10,
            _ => panic!("not a hex digit"),
        })
        .collect();
    digits.chunks(2).map(|p| (p[0] << 4) | p[1]).collect()
}

// The ChaCha20-Poly1305 test vector from RFC 8439, section 2.8.2.
fn rfc8439_key() -> Vec<u8> {
    (0x80u8..=0x9f).collect()
}

fn rfc8439_nonce() -> Vec<u8> {
    hex("070000004041424344454647")
}

fn rfc8439_aad() -> Vec<u8> {
    hex("50515253c0c1c2c3c4c5c6c7")
}

fn rfc8439_plaintext() -> Vec<u8> {
    b"Ladies and Gentlemen of the class of '99: If I could offer you only one tip for the future, sunscreen would be it.".to_vec()
}

fn rfc8439_ciphertext() -> Vec<u8> {
    hex(
        "d31a8d34648e60db7b86afbc53ef7ec2\
         a4aded51296e08fea9e2b5a736ee62d6\
         3dbea45e8ca9671282fafb69da92728b\
         1a71de0a9e060b2905d6a5b67ecd3b36\
         92ddbd7f2d778b8c9803aee328091b58\
         fab324e4fad675945585808b4831d7bc\
         3ff4def08e4b7a9de576d26586cec64b\
         6116",
    )
}

fn rfc8439_tag() -> Vec<u8> {
    hex("1ae10b594f09e26a7e902ecbd0600691")
}

#[test]
fn test_chacha20poly1305_rfc8439_vector() {
    let cipher = Chacha20Poly1305Provider {};
    let (c, tag) = cipher
        .encrypt(&rfc8439_key(), &rfc8439_nonce(), &rfc8439_aad(), &rfc8439_plaintext())
        .unwrap();
    assert_eq!(c, rfc8439_ciphertext());
    assert_eq!(tag, rfc8439_tag());

    let m = cipher
        .decrypt(&rfc8439_key(), &rfc8439_nonce(), &rfc8439_aad(), &c, &tag)
        .unwrap();
    assert_eq!(m, rfc8439_plaintext());
}

#[test]
fn test_aead() {
    // Register provider
    let mut registry = Registry::new();
    registry.add(BoxedProvider { inner: Box::new(RustCryptoProvider::new()) });
    assert!(registry.supports("Chacha20Poly1305"));

    // Get cipher through registry.
    let cipher_result = registry.get_aead("Chacha20Poly1305");
    assert!(cipher_result.is_ok());
    let cipher = match cipher_result {
        Ok(v) => v,
        Err(e) => panic!("Error getting AEAD {}", e),
    };

    let key = cipher.inner.key_gen();
    let nonce = cipher.inner.nonce_gen();
    assert_eq!(key.len(), cipher.inner.get_key_len());
    assert_eq!(nonce.len(), cipher.inner.get_nonce_len());
    let aad = vec![7u8; 10];
    let m = vec![42u8; 32];

    let (c, tag) = cipher.inner.encrypt(&key, &nonce, &aad, &m).unwrap();
    assert_ne!(c, m);
    let m_dec = cipher.inner.decrypt(&key, &nonce, &aad, &c, &tag).unwrap();
    assert_eq!(m_dec, m);

    // Remove all providers
    registry.clear();
    assert!(!registry.supports("Chacha20Poly1305"));
}

#[test]
fn test_aead_tamper_detection() {
    let cipher = Chacha20Poly1305Provider {};
    let key = cipher.key_gen();
    let nonce = cipher.nonce_gen();
    let aad = vec![1u8, 2u8];
    let m = b"attack at dawn".to_vec();
    let (c, tag) = cipher.encrypt(&key, &nonce, &aad, &m).unwrap();

    // Flip one bit of the tag: decryption must fail.
    let mut bad_tag = tag.clone();
    bad_tag[0] ^= 0x01;
    assert!(cipher.decrypt(&key, &nonce, &aad, &c, &bad_tag).is_err());

    // Flip one bit of the ciphertext: decryption must fail.
    let mut bad_c = c.clone();
    bad_c[3] ^= 0x80;
    assert!(cipher.decrypt(&key, &nonce, &aad, &bad_c, &tag).is_err());

    // Change the associated data: decryption must fail.
    assert!(cipher.decrypt(&key, &nonce, &[9u8], &c, &tag).is_err());

    // The untampered inputs still decrypt.
    assert_eq!(cipher.decrypt(&key, &nonce, &aad, &c, &tag).unwrap(), m);
}

#[test]
fn test_noop_aead_tamper_detection() {
    let cipher = NoopAead {};
    let key = vec![0u8; 16];
    let nonce = vec![0u8; 12];
    let aad = vec![5u8, 6u8];
    let m = vec![10u8, 20u8, 30u8, 40u8];
    let (c, tag) = cipher.encrypt(&key, &nonce, &aad, &m).unwrap();

    let mut bad_tag = tag.clone();
    bad_tag[0] ^= 0x04;
    assert!(cipher.decrypt(&key, &nonce, &aad, &c, &bad_tag).is_err());

    let mut bad_c = c.clone();
    bad_c[2] ^= 0x10;
    assert!(cipher.decrypt(&key, &nonce, &aad, &bad_c, &tag).is_err());

    assert_eq!(cipher.decrypt(&key, &nonce, &aad, &c, &tag).unwrap(), m);
}

#[test]
fn test_aead_error_variants() {
    let chacha = Chacha20Poly1305Provider {};
    let noop = NoopAead {};
    let m = vec![1u8];

    // Wrong nonce length.
    assert_eq!(
        chacha.encrypt(&vec![0u8; 32], &vec![0u8; 11], &[], &m),
        Err(Error::InvalidNonce)
    );
    assert_eq!(noop.encrypt(&vec![0u8; 16], &vec![0u8; 13], &[], &m), Err(Error::InvalidNonce));

    // Wrong key length (with a valid nonce).
    assert_eq!(chacha.encrypt(&vec![0u8; 31], &vec![0u8; 12], &[], &m), Err(Error::InvalidInit));
    assert_eq!(noop.encrypt(&vec![0u8; 15], &vec![0u8; 12], &[], &m), Err(Error::InvalidInit));

    // Decryption rejects wrong-length inputs as an error, not a panic.
    assert!(chacha.decrypt(&vec![0u8; 31], &vec![0u8; 12], &[], &m, &vec![0u8; 16]).is_err());
    assert!(chacha.decrypt(&vec![0u8; 32], &vec![0u8; 12], &[], &m, &vec![0u8; 15]).is_err());
    assert!(noop.decrypt(&vec![0u8; 16], &vec![0u8; 11], &[], &m, &vec![0u8; 16]).is_err());
}

#[test]
fn test_aead_key_nonce_generation() {
    let chacha = Chacha20Poly1305Provider {};
    assert_eq!(chacha.get_key_len(), 32);
    assert_eq!(chacha.get_nonce_len(), 12);
    assert_eq!(chacha.key_gen().len(), 32);
    assert_eq!(chacha.nonce_gen().len(), 12);

    let noop = NoopAead {};
    assert_eq!(noop.get_key_len(), 16);
    assert_eq!(noop.get_nonce_len(), 12);
    assert_eq!(noop.key_gen().len(), 16);
    assert_eq!(noop.nonce_gen().len(), 12);
}

#[test]
fn test_algorithm_names() {
    assert_eq!(<Chacha20Poly1305Provider as Algorithm>::get_name(), "Chacha20Poly1305");
    assert_eq!(<NoopAead as Algorithm>::get_name(), "noop");
}
