//! Provider backed by the RustCrypto crates: ChaCha20-Poly1305 for
//! authenticated encryption and SHA-256 for hashing.
//!
//! The calls into the backing crates are confined to small trusted
//! wrappers; everything around them is verified against the models in
//! [`crate::aead`] and [`crate::digest`].

use vstd::prelude::*;

use chacha20poly1305::aead::inout::InOutBuf;
use chacha20poly1305::{AeadInOut, KeyInit};

use crate::aead::{
    chacha20_stream, chacha20poly1305_tag, Aad, Aead, AeadModel, AeadPrototype, BoxedAead,
    BoxedAeadPrototype, Ciphertext, Error, Key, Nonce, Tag,
};
use crate::digest::{
    sha256_of, sha384_of, sha512_of, BoxedDigest, BoxedDigestPrototype, Digest, DigestModel,
    DigestPrototype,
};
use crate::key::random_bytes;
use crate::registry::{
    pairs_lookup, push_aead_entry, push_digest_entry, Algorithm, BaseProvider, Provider,
};

verus! {

/// Relies on chacha20poly1305::ChaCha20Poly1305::encrypt_inout_detached:
/// it applies the ChaCha20 keystream (block counter starting at 1) to the
/// message and returns the detached 16-byte Poly1305 tag computed over the
/// associated data and the ciphertext. Applying the same keystream to the
/// ciphertext recovers the message, as the paired decryption documents.
/// With the message under the block-count limit the call cannot fail.
#[verifier::external_body]
fn chacha_encrypt(key: &[u8], nonce: &[u8], aad: &[u8], m: &[u8]) -> (r: (Vec<u8>, Vec<u8>))
    requires
        key@.len() == 32,
        nonce@.len() == 12,
        m@.len() / 64 < 0xffff_ffff,
    ensures
        r.0@ == chacha20_stream(key@, nonce@, m@),
        r.0@.len() == m@.len(),
        r.1@ == chacha20poly1305_tag(key@, nonce@, aad@, r.0@),
        r.1@.len() == 16,
        chacha20_stream(key@, nonce@, r.0@) == m@,
{
    let cipher = chacha20poly1305::ChaCha20Poly1305::new(key.try_into().unwrap());
    let mut buf = m.to_vec();
    let tag = cipher
        .encrypt_inout_detached(nonce.try_into().unwrap(), aad, InOutBuf::from(&mut buf[..]))
        .unwrap();
    (buf, tag.to_vec())
}

/// Relies on chacha20poly1305::ChaCha20Poly1305::decrypt_inout_detached:
/// it recomputes the Poly1305 tag over the associated data and the
/// ciphertext, fails if the given tag differs, and otherwise applies the
/// ChaCha20 keystream to the ciphertext.
#[verifier::external_body]
fn chacha_decrypt(key: &[u8], nonce: &[u8], aad: &[u8], c: &[u8], tag: &[u8]) -> (r: Option<
    Vec<u8>,
>)
    requires
        key@.len() == 32,
        nonce@.len() == 12,
        tag@.len() == 16,
        c@.len() / 64 < 0xffff_ffff,
    ensures
        r is Some <==> tag@ == chacha20poly1305_tag(key@, nonce@, aad@, c@),
        match r {
            Some(m) => m@ == chacha20_stream(key@, nonce@, c@) && m@.len() == c@.len(),
            None => true,
        },
{
    let cipher = chacha20poly1305::ChaCha20Poly1305::new(key.try_into().unwrap());
    let mut buf = c.to_vec();
    let r = cipher.decrypt_inout_detached(
        nonce.try_into().unwrap(),
        aad,
        InOutBuf::from(&mut buf[..]),
        tag.try_into().unwrap(),
    );
    match r {
        Ok(()) => Some(buf),
        Err(_) => None,
    }
}

/// Relies on sha2::Sha256::digest: the 32-byte SHA-256 digest of the
/// input, a function of the input bytes alone.
#[verifier::external_body]
fn sha256(data: &[u8]) -> (r: Vec<u8>)
    ensures
        r@ == sha256_of(data@),
        r@.len() == 32,
{
    <sha2::Sha256 as sha2::Digest>::digest(data).to_vec()
}

/// Relies on sha2::Sha384::digest: the 48-byte SHA-384 digest of the
/// input, a function of the input bytes alone.
#[verifier::external_body]
fn sha384(data: &[u8]) -> (r: Vec<u8>)
    ensures
        r@ == sha384_of(data@),
        r@.len() == 48,
{
    <sha2::Sha384 as sha2::Digest>::digest(data).to_vec()
}

/// Relies on sha2::Sha512::digest: the 64-byte SHA-512 digest of the
/// input, a function of the input bytes alone.
#[verifier::external_body]
fn sha512(data: &[u8]) -> (r: Vec<u8>)
    ensures
        r@ == sha512_of(data@),
        r@.len() == 64,
{
    <sha2::Sha512 as sha2::Digest>::digest(data).to_vec()
}

pub struct Chacha20Poly1305Provider {}

impl Algorithm for Chacha20Poly1305Provider {
    open spec fn spec_name() -> Seq<char> {
        "Chacha20Poly1305"@
    }

    fn get_name() -> (r: String) {
        "Chacha20Poly1305".to_owned()
    }
}

impl AeadPrototype for Chacha20Poly1305Provider {
    open spec fn instance_model(&self) -> crate::aead::AeadModel {
        crate::aead::AeadModel::ChaCha20Poly1305
    }

    fn get_instance(&self) -> (r: BoxedAead) {
        BoxedAead { inner: Box::new(Chacha20Poly1305Provider {  }) }
    }
}

impl Aead for Chacha20Poly1305Provider {
    open spec fn model(&self) -> crate::aead::AeadModel {
        crate::aead::AeadModel::ChaCha20Poly1305
    }

    open spec fn spec_model() -> crate::aead::AeadModel {
        crate::aead::AeadModel::ChaCha20Poly1305
    }

    fn new() -> (r: Self) {
        Chacha20Poly1305Provider {  }
    }

    fn key_gen(&self) -> (r: Vec<u8>) {
        random_bytes(32)
    }

    fn get_key_len(&self) -> (r: usize) {
        32
    }

    fn nonce_gen(&self) -> (r: Vec<u8>) {
        random_bytes(12)
    }

    fn get_nonce_len(&self) -> (r: usize) {
        12
    }

    fn encrypt(&self, key: &Key, nonce: &Nonce, aad: &Aad, m: &[u8]) -> (r: Result<
        (Ciphertext, Tag),
        Error,
    >) {
        if nonce.len() != 12 {
            return Err(Error::InvalidNonce);
        }
        if key.len() != 32 {
            return Err(Error::InvalidInit);
        }
        if m.len() / 64 >= 0xffff_ffffusize {
            return Err(Error::UnsupportedConfig);
        }
        let ct_tag = chacha_encrypt(key, nonce, aad, m);
        Ok(ct_tag)
    }

    fn decrypt(&self, key: &Key, nonce: &Nonce, aad: &Aad, c: &Ciphertext, tag: &Tag) -> (r: Result<
        Vec<u8>,
        String,
    >) {
        if key.len() != 32 || nonce.len() != 12 || tag.len() != 16 || c.len() / 64
            >= 0xffff_ffffusize {
            return Err("Error decrypting.".to_owned());
        }
        match chacha_decrypt(key, nonce, aad, c.as_slice(), tag.as_slice()) {
            Some(m) => Ok(m),
            None => Err("Error decrypting.".to_owned()),
        }
    }
}

pub struct Sha256Provider {
    buf: Vec<u8>,
    done: bool,
}

impl Algorithm for Sha256Provider {
    open spec fn spec_name() -> Seq<char> {
        "SHA2-256"@
    }

    fn get_name() -> (r: String) {
        "SHA2-256".to_owned()
    }
}

impl DigestPrototype for Sha256Provider {
    open spec fn instance_model(&self) -> DigestModel {
        DigestModel::Sha256
    }

    fn get_instance(&self) -> (r: BoxedDigest) {
        BoxedDigest { inner: Box::new(Sha256Provider { buf: Vec::new(), done: false }) }
    }
}

impl Digest for Sha256Provider {
    closed spec fn model(&self) -> DigestModel {
        DigestModel::Sha256
    }

    open spec fn spec_model() -> DigestModel {
        DigestModel::Sha256
    }

    closed spec fn acc(&self) -> Seq<u8> {
        self.buf@
    }

    closed spec fn finished(&self) -> bool {
        self.done
    }

    fn new() -> (r: Self) {
        Sha256Provider { buf: Vec::new(), done: false }
    }

    fn hash(&self, message: &[u8]) -> (r: Vec<u8>) {
        sha256(message)
    }

    fn update(&mut self, message: &[u8]) {
        self.buf.extend_from_slice(message);
        proof {
            assert(self.buf@ =~= old(self).buf@ + message@);
        }
    }

    fn finish(&mut self, message: &[u8]) -> (r: Vec<u8>) {
        self.buf.extend_from_slice(message);
        proof {
            assert(self.buf@ =~= old(self).buf@ + message@);
        }
        self.done = true;
        sha256(self.buf.as_slice())
    }
}

pub struct Sha384Provider {
    buf: Vec<u8>,
    done: bool,
}

impl Algorithm for Sha384Provider {
    open spec fn spec_name() -> Seq<char> {
        "SHA2-384"@
    }

    fn get_name() -> (r: String) {
        "SHA2-384".to_owned()
    }
}

impl DigestPrototype for Sha384Provider {
    open spec fn instance_model(&self) -> DigestModel {
        DigestModel::Sha384
    }

    fn get_instance(&self) -> (r: BoxedDigest) {
        BoxedDigest { inner: Box::new(Sha384Provider { buf: Vec::new(), done: false }) }
    }
}

impl Digest for Sha384Provider {
    closed spec fn model(&self) -> DigestModel {
        DigestModel::Sha384
    }

    open spec fn spec_model() -> DigestModel {
        DigestModel::Sha384
    }

    closed spec fn acc(&self) -> Seq<u8> {
        self.buf@
    }

    closed spec fn finished(&self) -> bool {
        self.done
    }

    fn new() -> (r: Self) {
        Sha384Provider { buf: Vec::new(), done: false }
    }

    fn hash(&self, message: &[u8]) -> (r: Vec<u8>) {
        sha384(message)
    }

    fn update(&mut self, message: &[u8]) {
        self.buf.extend_from_slice(message);
        proof {
            assert(self.buf@ =~= old(self).buf@ + message@);
        }
    }

    fn finish(&mut self, message: &[u8]) -> (r: Vec<u8>) {
        self.buf.extend_from_slice(message);
        proof {
            assert(self.buf@ =~= old(self).buf@ + message@);
        }
        self.done = true;
        sha384(self.buf.as_slice())
    }
}

pub struct Sha512Provider {
    buf: Vec<u8>,
    done: bool,
}

impl Algorithm for Sha512Provider {
    open spec fn spec_name() -> Seq<char> {
        "SHA2-512"@
    }

    fn get_name() -> (r: String) {
        "SHA2-512".to_owned()
    }
}

impl DigestPrototype for Sha512Provider {
    open spec fn instance_model(&self) -> DigestModel {
        DigestModel::Sha512
    }

    fn get_instance(&self) -> (r: BoxedDigest) {
        BoxedDigest { inner: Box::new(Sha512Provider { buf: Vec::new(), done: false }) }
    }
}

impl Digest for Sha512Provider {
    closed spec fn model(&self) -> DigestModel {
        DigestModel::Sha512
    }

    open spec fn spec_model() -> DigestModel {
        DigestModel::Sha512
    }

    closed spec fn acc(&self) -> Seq<u8> {
        self.buf@
    }

    closed spec fn finished(&self) -> bool {
        self.done
    }

    fn new() -> (r: Self) {
        Sha512Provider { buf: Vec::new(), done: false }
    }

    fn hash(&self, message: &[u8]) -> (r: Vec<u8>) {
        sha512(message)
    }

    fn update(&mut self, message: &[u8]) {
        self.buf.extend_from_slice(message);
        proof {
            assert(self.buf@ =~= old(self).buf@ + message@);
        }
    }

    fn finish(&mut self, message: &[u8]) -> (r: Vec<u8>) {
        self.buf.extend_from_slice(message);
        proof {
            assert(self.buf@ =~= old(self).buf@ + message@);
        }
        self.done = true;
        sha512(self.buf.as_slice())
    }
}

/// The provider bundling the RustCrypto-backed implementations, under the
/// names "Chacha20Poly1305" (AEAD) and "SHA2-256" (digest).
pub struct RustCryptoProvider {}

/// Characterizes first-match lookup over a three-entry map.
proof fn lemma_pairs_lookup_entries(s: Seq<(String, BoxedDigestPrototype)>, name: Seq<char>)
    requires
        s.len() == 3,
    ensures
        pairs_lookup(s, name) == (if s[0].0@ == name {
            Some(s[0].1)
        } else if s[1].0@ == name {
            Some(s[1].1)
        } else if s[2].0@ == name {
            Some(s[2].1)
        } else {
            None::<BoxedDigestPrototype>
        }),
{
    assert(s.skip(0) =~= s);
    crate::registry::lemma_pairs_lookup_skip(s, name, 0);
    crate::registry::lemma_pairs_lookup_skip(s, name, 1);
    crate::registry::lemma_pairs_lookup_skip(s, name, 2);
    assert(s.skip(3).len() == 0);
}

impl RustCryptoProvider {
    pub fn new() -> (r: BaseProvider)
        ensures
            r.spec_has_aead("Chacha20Poly1305"@),
            r.spec_aead_model("Chacha20Poly1305"@) == AeadModel::ChaCha20Poly1305,
            r.spec_has_digest("SHA2-256"@),
            r.spec_digest_model("SHA2-256"@) == DigestModel::Sha256,
            r.spec_has_digest("SHA2-384"@),
            r.spec_digest_model("SHA2-384"@) == DigestModel::Sha384,
            r.spec_has_digest("SHA2-512"@),
            r.spec_digest_model("SHA2-512"@) == DigestModel::Sha512,
            forall|name: Seq<char>| r.spec_has_aead(name) ==> name == "Chacha20Poly1305"@,
            forall|name: Seq<char>|
                r.spec_has_digest(name) ==> (name == "SHA2-256"@ || name == "SHA2-384"@ || name
                    == "SHA2-512"@),
    {
        let mut aead_map: Vec<(String, BoxedAeadPrototype)> = Vec::new();
        let aead_name = <Chacha20Poly1305Provider as Algorithm>::get_name();
        let aead_proto = BoxedAeadPrototype { inner: Box::new(Chacha20Poly1305Provider {  }) };
        push_aead_entry(&mut aead_map, aead_name, aead_proto);

        let mut digest_map: Vec<(String, BoxedDigestPrototype)> = Vec::new();
        let sha256_name = <Sha256Provider as Algorithm>::get_name();
        let sha256_proto = BoxedDigestPrototype {
            inner: Box::new(Sha256Provider { buf: Vec::new(), done: false }),
        };
        push_digest_entry(&mut digest_map, sha256_name, sha256_proto);
        let sha384_name = <Sha384Provider as Algorithm>::get_name();
        let sha384_proto = BoxedDigestPrototype {
            inner: Box::new(Sha384Provider { buf: Vec::new(), done: false }),
        };
        push_digest_entry(&mut digest_map, sha384_name, sha384_proto);
        let sha512_name = <Sha512Provider as Algorithm>::get_name();
        let sha512_proto = BoxedDigestPrototype {
            inner: Box::new(Sha512Provider { buf: Vec::new(), done: false }),
        };
        push_digest_entry(&mut digest_map, sha512_name, sha512_proto);

        let provider = BaseProvider::new(aead_map, digest_map);
        proof {
            let s = provider.spec_digest_map();
            assert(s.len() == 3);
            assert(s[0].0@ == "SHA2-256"@);
            assert(s[0].1.inner.instance_model() == DigestModel::Sha256);
            assert(s[1].0@ == "SHA2-384"@);
            assert(s[1].1.inner.instance_model() == DigestModel::Sha384);
            assert(s[2].0@ == "SHA2-512"@);
            assert(s[2].1.inner.instance_model() == DigestModel::Sha512);
            assert(provider.spec_aead_map().len() == 1);
            assert(provider.spec_aead_map().first().0@ == "Chacha20Poly1305"@);
            assert(provider.spec_aead_map().first().1.inner.instance_model()
                == AeadModel::ChaCha20Poly1305);
            assert forall|name: Seq<char>|
                provider.spec_has_aead(name) == (name == "Chacha20Poly1305"@) by {
                let a = provider.spec_aead_map();
                if name != "Chacha20Poly1305"@ {
                    assert(pairs_lookup(a, name) == pairs_lookup(a.drop_first(), name));
                    assert(a.drop_first().len() == 0);
                }
            }
            assert(provider.spec_aead_model("Chacha20Poly1305"@) == AeadModel::ChaCha20Poly1305);
            reveal_strlit("SHA2-256");
            reveal_strlit("SHA2-384");
            reveal_strlit("SHA2-512");
            assert forall|name: Seq<char>|
                provider.spec_has_digest(name) == (name == "SHA2-256"@ || name == "SHA2-384"@
                    || name == "SHA2-512"@) by {
                assert(s.skip(0) =~= s);
                lemma_pairs_lookup_entries(s, name);
            }
            assert(provider.spec_digest_model("SHA2-256"@) == DigestModel::Sha256) by {
                lemma_pairs_lookup_entries(s, "SHA2-256"@);
            }
            assert(provider.spec_digest_model("SHA2-384"@) == DigestModel::Sha384) by {
                lemma_pairs_lookup_entries(s, "SHA2-384"@);
                assert("SHA2-384"@ != "SHA2-256"@);
            }
            assert(provider.spec_digest_model("SHA2-512"@) == DigestModel::Sha512) by {
                lemma_pairs_lookup_entries(s, "SHA2-512"@);
                assert("SHA2-512"@ != "SHA2-256"@);
                assert("SHA2-512"@ != "SHA2-384"@);
            }
        }
        provider
    }
}

} // verus!
