use rca::cipher::{AsymmetricCipher, SymmetricCipher};
use rca::provider::noop_provider::{NoopAsymmetricCipher, NoopSymmetricCipher};
use rca::registry::Algorithm;

#[test]
fn test_sym_cipher_noop() {
    let cipher = NoopSymmetricCipher::new();
    let key = cipher.gen_key();
    let iv = cipher.gen_iv();
    assert_eq!(key.len(), 128);
    assert_eq!(iv.len(), 12);

    let aad = vec![3u8; 32];
    let m = vec![7u8; 32];

    let (c, iv_out) = cipher.encrypt(&key, Some(&iv), Some(&aad), &m);
    assert_eq!(iv_out, iv);
    let m_dec = cipher.decrypt(&key, &iv_out, Some(&aad), &c).unwrap();
    assert_eq!(m_dec, m);
}

#[test]
fn test_sym_cipher_fresh_iv() {
    let cipher = NoopSymmetricCipher::new();
    let key = cipher.gen_key();
    let m = vec![8u8; 5];

    // Without a caller-supplied IV, one of the right length is generated.
    let (c, iv_out) = cipher.encrypt(&key, None, None, &m);
    assert_eq!(iv_out.len(), 12);
    let m_dec = cipher.decrypt(&key, &iv_out, None, &c).unwrap();
    assert_eq!(m_dec, m);
}

#[test]
fn test_asym_cipher_noop() {
    let cipher = NoopAsymmetricCipher::new();
    let key_pair = cipher.gen_keypair();
    let nonce = cipher.gen_nonce();
    assert_eq!(key_pair.public_bytes.len(), 256);
    assert_eq!(key_pair.secret_bytes.len(), 256);
    assert_eq!(nonce.len(), 128);

    let m = vec![9u8; 32];
    let c = cipher.encrypt(&key_pair.public_bytes, &nonce, &m);
    let m_dec = cipher.decrypt(&key_pair, &nonce, &c).unwrap();
    assert_eq!(m_dec, m);
}

#[test]
fn test_cipher_instances() {
    let sym = NoopSymmetricCipher::new();
    let sym2 = sym.get_instance();
    let m = vec![1u8, 2u8];
    let (c, iv_out) = sym2.encrypt(&sym2.gen_key(), None, None, &m);
    assert_eq!(sym2.decrypt(&sym2.gen_key(), &iv_out, None, &c).unwrap(), m);

    let asym = NoopAsymmetricCipher::new();
    let asym2 = asym.get_instance();
    let kp = asym2.gen_keypair();
    let nonce = asym2.gen_nonce();
    let c = asym2.encrypt(&kp.public_bytes, &nonce, &m);
    assert_eq!(asym2.decrypt(&kp, &nonce, &c).unwrap(), m);
}

#[test]
fn test_cipher_names() {
    assert_eq!(<NoopSymmetricCipher as Algorithm>::get_name(), "noop");
    assert_eq!(<NoopAsymmetricCipher as Algorithm>::get_name(), "noop asym");
}
