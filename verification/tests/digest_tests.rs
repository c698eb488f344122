use rca::digest::Digest;
use rca::provider::noop_provider::XorFoldDigest;
use rca::provider::rustcrypto_provider::{
    RustCryptoProvider, Sha256Provider, Sha384Provider, Sha512Provider,
};
use rca::registry::{Algorithm, BoxedProvider, Registry};

fn hex(s: &str) -> Vec<u8> {
    let digits: Vec<u8> = s
        .bytes()
        .filter(|b| !b.is_ascii_whitespace())
        .map(|b| match b {
            b'0'..=b'9' => b - b'0',
            b'a'..=b'f' => b - b'a' + 10,
            b'A'..=b'F' => b - b'A' + 10,
            _ => panic!("not a hex digit"),
        })
        .collect();
    digits.chunks(2).map(|p| (p[0] << 4) | p[1]).collect()
}

#[test]
fn test_sha256_known_vector() {
    let md = Sha256Provider::new();
    let digest = md.hash(b"abc");
    assert_eq!(
        digest,
        hex("ba7816bf8f01cfea414140de5dae2223b00361a396177a9cb410ff61f20015ad")
    );
    let empty = md.hash(b"");
    assert_eq!(
        empty,
        hex("e3b0c44298fc1c149afbf4c8996fb92427ae41e4649b934ca495991b7852b855")
    );
}

#[test]
fn test_sha384_sha512_known_vectors() {
    let md384 = Sha384Provider::new();
    assert_eq!(
        md384.hash(b"abc"),
        hex(
            "cb00753f45a35e8bb5a03d699ac65007272c32ab0eded163\
             1a8b605a43ff5bed8086072ba1e7cc2358baeca134c825a7"
        )
    );
    let md512 = Sha512Provider::new();
    assert_eq!(
        md512.hash(b"abc"),
        hex(
            "ddaf35a193617abacc417349ae20413112e6fa4e89a97ea2\
             0a9eeee64b55d39a2192992a274fc1a836ba3c23a3feebbd\
             454d4423643ce80e2a9ac94fa54ca49f"
        )
    );
}

#[test]
fn test_all_sha_variants_resolvable() {
    let mut registry = Registry::new();
    registry.add(BoxedProvider { inner: Box::new(RustCryptoProvider::new()) });
    assert!(registry.supports("SHA2-256"));
    assert!(registry.supports("SHA2-384"));
    assert!(registry.supports("SHA2-512"));

    let mut d384 = registry.get_digest("SHA2-384").unwrap();
    let mut d512 = registry.get_digest("SHA2-512").unwrap();
    d384.inner.update(b"ab");
    assert_eq!(d384.inner.finish(b"c").len(), 48);
    d512.inner.update(b"ab");
    assert_eq!(d512.inner.finish(b"c").len(), 64);
}

#[test]
fn test_message_digest_base() {
    // Register provider
    let mut registry = Registry::new();
    registry.add(BoxedProvider { inner: Box::new(RustCryptoProvider::new()) });
    assert!(registry.supports("SHA2-256"));

    // Get digest through registry.
    let md_result = registry.get_digest("SHA2-256");
    assert_eq!(md_result.is_ok(), true);
    let md = match md_result.ok() {
        Some(v) => v,
        None => return,
    };
    let mut md2 = registry.get_digest("SHA2-256").unwrap();
    let mut md3 = registry.get_digest("SHA2-256").unwrap();

    let m: Vec<u8> = (0..77u8).collect();

    let hash = md.inner.hash(&m);
    let hash2 = md.inner.hash(&m);
    assert_eq!(hash, hash2);

    md2.inner.update(&m);
    md2.inner.update(&m);
    let h = md2.inner.finish(&[]);

    md3.inner.update(&m);
    md3.inner.update(&m);
    let h2 = md3.inner.finish(&m);
    assert_ne!(h, h2);
}

#[test]
fn test_digest_determinism() {
    let sha = Sha256Provider::new();
    let fold = XorFoldDigest::new();
    let m = b"determinism".to_vec();
    assert_eq!(sha.hash(&m), sha.hash(&m));
    assert_eq!(fold.hash(&m), fold.hash(&m));
}

#[test]
fn test_streaming_equivalence() {
    // Two streaming paths with the same total input agree with each other
    // and with the one-shot hash, for both digest implementations.
    let m = b"streaming equivalence".to_vec();
    let mut total = m.clone();
    total.extend_from_slice(&m);

    let sha = Sha256Provider::new();
    let mut s1 = Sha256Provider::new();
    let mut s2 = Sha256Provider::new();
    s1.update(&m);
    s1.update(&m);
    let h1 = s1.finish(&[]);
    s2.update(&m);
    let h2 = s2.finish(&m);
    assert_eq!(h1, h2);
    assert_eq!(h1, sha.hash(&total));

    let fold = XorFoldDigest::new();
    let mut f1 = XorFoldDigest::new();
    let mut f2 = XorFoldDigest::new();
    f1.update(&m);
    f1.update(&m);
    let g1 = f1.finish(&[]);
    f2.update(&m);
    let g2 = f2.finish(&m);
    assert_eq!(g1, g2);
    assert_eq!(g1, fold.hash(&total));
}

#[test]
fn test_xorfold_exact_value() {
    let fold = XorFoldDigest::new();
    // Bytes beyond position 31 wrap around: byte 32 lands on position 0.
    let mut m = vec![0u8; 33];
    m[0] = 0x0f;
    m[32] = 0xf0;
    let h = fold.hash(&m);
    assert_eq!(h.len(), 32);
    assert_eq!(h[0], 0xff);
    for i in 1..32 {
        assert_eq!(h[i], 0);
    }

    // The empty input hashes to all zeroes.
    let h0 = fold.hash(&[]);
    assert_eq!(h0, vec![0u8; 32]);
}

#[test]
fn test_digest_names() {
    assert_eq!(<Sha256Provider as Algorithm>::get_name(), "SHA2-256");
    assert_eq!(<XorFoldDigest as Algorithm>::get_name(), "xor-fold");
}
