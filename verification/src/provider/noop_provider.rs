//! A reference provider with verified toy implementations: the identity
//! AEAD (ciphertext equals plaintext, checksum tag) and the XOR-fold
//! digest. They exercise every capability contract end to end and are used
//! for conformance testing; they offer no cryptographic protection.

use vstd::prelude::*;

use crate::aead::{
    noop_tag, xor_all, Aad, Aead, AeadModel, AeadPrototype, BoxedAead, BoxedAeadPrototype,
    Ciphertext, Error, Key, Nonce, Tag,
};
use crate::cipher::{AsymmetricCipher, KeyPair, SymmetricCipher};
use crate::digest::{
    xorfold_of, BoxedDigest, BoxedDigestPrototype, Digest, DigestModel, DigestPrototype,
};
use crate::key::random_bytes;
use crate::registry::{pairs_lookup, Algorithm, BaseProvider, Provider};

verus! {

/// Byte-for-byte equality of two slices.
fn bytes_eq(a: &[u8], b: &[u8]) -> (r: bool)
    ensures
        r == (a@ == b@),
{
    if a.len() != b.len() {
        return false;
    }
    let mut i: usize = 0;
    while i < a.len()
        invariant
            a@.len() == b@.len(),
            i <= a@.len(),
            forall|j: int| 0 <= j < i ==> a@[j] == b@[j],
        decreases a@.len() - i,
    {
        if a[i] != b[i] {
            return false;
        }
        i = i + 1;
    }
    proof {
        assert(a@ =~= b@);
    }
    true
}

/// XOR of all bytes of `aad` followed by all bytes of `ct`.
fn xor_checksum(aad: &[u8], ct: &[u8]) -> (r: u8)
    ensures
        r == xor_all(aad@ + ct@),
{
    let mut x: u8 = 0;
    let mut i: usize = 0;
    proof {
        assert(aad@.take(0) =~= Seq::<u8>::empty());
        assert(xor_all(aad@.take(0)) == 0);
    }
    while i < aad.len()
        invariant
            i <= aad@.len(),
            x == xor_all(aad@.take(i as int)),
        decreases aad@.len() - i,
    {
        proof {
            assert(aad@.take(i + 1).drop_last() =~= aad@.take(i as int));
            assert(aad@.take(i + 1).last() == aad@[i as int]);
        }
        x = x ^ aad[i];
        i = i + 1;
    }
    proof {
        assert(aad@.take(aad@.len() as int) =~= aad@);
        assert((aad@ + ct@.take(0)) =~= aad@);
    }
    let mut j: usize = 0;
    while j < ct.len()
        invariant
            j <= ct@.len(),
            x == xor_all(aad@ + ct@.take(j as int)),
        decreases ct@.len() - j,
    {
        proof {
            assert((aad@ + ct@.take(j + 1)).drop_last() =~= aad@ + ct@.take(j as int));
            assert((aad@ + ct@.take(j + 1)).last() == ct@[j as int]);
        }
        x = x ^ ct[j];
        j = j + 1;
    }
    proof {
        assert(aad@ + ct@.take(ct@.len() as int) =~= aad@ + ct@);
    }
    x
}

/// The identity AEAD's 16-byte tag over `aad` and `ct`.
fn compute_noop_tag(aad: &[u8], ct: &[u8]) -> (r: Vec<u8>)
    ensures
        r@ == noop_tag(aad@, ct@),
{
    let x = xor_checksum(aad, ct);
    let mut r: Vec<u8> = Vec::new();
    r.push(x);
    let mut i: usize = 1;
    while i < 16
        invariant
            1 <= i <= 16,
            r@.len() == i,
            r@[0] == xor_all(aad@ + ct@),
            forall|t: int| 1 <= t < i ==> r@[t] == 0u8,
        decreases 16 - i,
    {
        r.push(0u8);
        i = i + 1;
    }
    proof {
        assert(r@ =~= noop_tag(aad@, ct@));
    }
    r
}

/// The identity AEAD: ciphertext equals plaintext, the tag is a 16-byte
/// XOR checksum of the associated data and the ciphertext.
pub struct NoopAead {}

impl Algorithm for NoopAead {
    open spec fn spec_name() -> Seq<char> {
        "noop"@
    }

    fn get_name() -> (r: String) {
        "noop".to_owned()
    }
}

impl AeadPrototype for NoopAead {
    open spec fn instance_model(&self) -> AeadModel {
        AeadModel::Noop
    }

    fn get_instance(&self) -> (r: BoxedAead) {
        BoxedAead { inner: Box::new(NoopAead {  }) }
    }
}

impl Aead for NoopAead {
    open spec fn model(&self) -> AeadModel {
        AeadModel::Noop
    }

    open spec fn spec_model() -> AeadModel {
        AeadModel::Noop
    }

    fn new() -> (r: Self) {
        NoopAead {  }
    }

    fn key_gen(&self) -> (r: Vec<u8>) {
        random_bytes(16)
    }

    fn get_key_len(&self) -> (r: usize) {
        16
    }

    fn nonce_gen(&self) -> (r: Vec<u8>) {
        random_bytes(12)
    }

    fn get_nonce_len(&self) -> (r: usize) {
        12
    }

    fn encrypt(&self, key: &Key, nonce: &Nonce, aad: &Aad, m: &[u8]) -> (r: Result<
        (Ciphertext, Tag),
        Error,
    >) {
        if nonce.len() != 12 {
            return Err(Error::InvalidNonce);
        }
        if key.len() != 16 {
            return Err(Error::InvalidInit);
        }
        let ct = vstd::slice::slice_to_vec(m);
        let tag = compute_noop_tag(aad, ct.as_slice());
        Ok((ct, tag))
    }

    fn decrypt(&self, key: &Key, nonce: &Nonce, aad: &Aad, c: &Ciphertext, tag: &Tag) -> (r: Result<
        Vec<u8>,
        String,
    >) {
        if key.len() != 16 || nonce.len() != 12 || tag.len() != 16 {
            return Err("Error decrypting.".to_owned());
        }
        let expected = compute_noop_tag(aad, c.as_slice());
        if bytes_eq(tag.as_slice(), expected.as_slice()) {
            Ok(vstd::slice::slice_to_vec(c.as_slice()))
        } else {
            Err("Error decrypting.".to_owned())
        }
    }
}

/// Computes the XOR-fold digest of `data`.
fn xorfold_compute(data: &[u8]) -> (r: Vec<u8>)
    ensures
        r@ == xorfold_of(data@),
{
    let mut r: Vec<u8> = Vec::new();
    let mut k: usize = 0;
    while k < 32
        invariant
            k <= 32,
            r@.len() == k,
            forall|t: int| 0 <= t < k ==> r@[t] == 0u8,
        decreases 32 - k,
    {
        r.push(0u8);
        k = k + 1;
    }
    proof {
        assert(data@.take(0) =~= Seq::<u8>::empty());
        assert(r@ =~= xorfold_of(data@.take(0)));
    }
    let mut i: usize = 0;
    while i < data.len()
        invariant
            i <= data@.len(),
            r@.len() == 32,
            r@ == xorfold_of(data@.take(i as int)),
        decreases data@.len() - i,
    {
        proof {
            assert(data@.take(i + 1).drop_last() =~= data@.take(i as int));
            assert(data@.take(i + 1).last() == data@[i as int]);
        }
        let idx = i % 32;
        let b = r[idx];
        r[idx] = b ^ data[i];
        i = i + 1;
    }
    proof {
        assert(data@.take(data@.len() as int) =~= data@);
    }
    r
}

/// A streaming XOR-fold digest instance.
pub struct XorFoldDigest {
    buf: Vec<u8>,
    done: bool,
}

impl Algorithm for XorFoldDigest {
    open spec fn spec_name() -> Seq<char> {
        "xor-fold"@
    }

    fn get_name() -> (r: String) {
        "xor-fold".to_owned()
    }
}

impl DigestPrototype for XorFoldDigest {
    open spec fn instance_model(&self) -> DigestModel {
        DigestModel::XorFold
    }

    fn get_instance(&self) -> (r: BoxedDigest) {
        BoxedDigest { inner: Box::new(XorFoldDigest { buf: Vec::new(), done: false }) }
    }
}

impl Digest for XorFoldDigest {
    closed spec fn model(&self) -> DigestModel {
        DigestModel::XorFold
    }

    open spec fn spec_model() -> DigestModel {
        DigestModel::XorFold
    }

    closed spec fn acc(&self) -> Seq<u8> {
        self.buf@
    }

    closed spec fn finished(&self) -> bool {
        self.done
    }

    fn new() -> (r: Self) {
        XorFoldDigest { buf: Vec::new(), done: false }
    }

    fn hash(&self, message: &[u8]) -> (r: Vec<u8>) {
        let r = xorfold_compute(message);
        proof {
            crate::digest::lemma_xorfold_len(message@);
        }
        r
    }

    fn update(&mut self, message: &[u8]) {
        self.buf.extend_from_slice(message);
        proof {
            assert(self.buf@ =~= old(self).buf@ + message@);
        }
    }

    fn finish(&mut self, message: &[u8]) -> (r: Vec<u8>) {
        self.buf.extend_from_slice(message);
        proof {
            assert(self.buf@ =~= old(self).buf@ + message@);
        }
        self.done = true;
        let r = xorfold_compute(self.buf.as_slice());
        proof {
            crate::digest::lemma_xorfold_len(self.buf@);
        }
        r
    }
}

/// The provider bundling the reference implementations, under the names
/// "noop" (AEAD) and "xor-fold" (digest).
pub struct NoopProvider {}

impl NoopProvider {
    pub fn new() -> (r: BaseProvider)
        ensures
            r.spec_has_aead("noop"@),
            r.spec_aead_model("noop"@) == AeadModel::Noop,
            r.spec_has_digest("xor-fold"@),
            r.spec_digest_model("xor-fold"@) == DigestModel::XorFold,
            forall|name: Seq<char>| r.spec_has_aead(name) ==> name == "noop"@,
            forall|name: Seq<char>| r.spec_has_digest(name) ==> name == "xor-fold"@,
    {
        let mut aead_map: Vec<(String, BoxedAeadPrototype)> = Vec::new();
        let aead_name = <NoopAead as Algorithm>::get_name();
        let aead_proto = BoxedAeadPrototype { inner: Box::new(NoopAead {  }) };
        crate::registry::push_aead_entry(&mut aead_map, aead_name, aead_proto);

        let mut digest_map: Vec<(String, BoxedDigestPrototype)> = Vec::new();
        let digest_name = <XorFoldDigest as Algorithm>::get_name();
        let digest_proto = BoxedDigestPrototype { inner: Box::new(XorFoldDigest::new()) };
        crate::registry::push_digest_entry(&mut digest_map, digest_name, digest_proto);

        let provider = BaseProvider::new(aead_map, digest_map);
        proof {
            assert(provider.spec_aead_map().len() == 1);
            assert(provider.spec_aead_map().first().0@ == "noop"@);
            assert(provider.spec_aead_map().first().1.inner.instance_model() == AeadModel::Noop);
            assert(provider.spec_digest_map().len() == 1);
            assert(provider.spec_digest_map().first().0@ == "xor-fold"@);
            assert(provider.spec_digest_map().first().1.inner.instance_model()
                == DigestModel::XorFold);
            assert forall|name: Seq<char>|
                provider.spec_has_aead(name) == (name == "noop"@) by {
                let s = provider.spec_aead_map();
                assert(s.len() == 1);
                assert(s.first().0@ == "noop"@);
                if name != "noop"@ {
                    assert(pairs_lookup(s, name) == pairs_lookup(s.drop_first(), name));
                    assert(s.drop_first().len() == 0);
                }
            }
            assert forall|name: Seq<char>|
                provider.spec_has_digest(name) == (name == "xor-fold"@) by {
                let s = provider.spec_digest_map();
                assert(s.len() == 1);
                assert(s.first().0@ == "xor-fold"@);
                if name != "xor-fold"@ {
                    assert(pairs_lookup(s, name) == pairs_lookup(s.drop_first(), name));
                    assert(s.drop_first().len() == 0);
                }
            }
            assert(provider.spec_aead_model("noop"@) == AeadModel::Noop) by {
                reveal_with_fuel(pairs_lookup, 3);
            }
            assert(provider.spec_digest_model("xor-fold"@) == DigestModel::XorFold) by {
                reveal_with_fuel(pairs_lookup, 3);
            }
        }
        provider
    }
}

/// The identity symmetric cipher: ciphertext equals plaintext, the IV is
/// passed through, decryption always succeeds.
pub struct NoopSymmetricCipher {}

impl Algorithm for NoopSymmetricCipher {
    open spec fn spec_name() -> Seq<char> {
        "noop"@
    }

    fn get_name() -> (r: String) {
        "noop".to_owned()
    }
}

impl SymmetricCipher for NoopSymmetricCipher {
    open spec fn spec_key_len(&self) -> nat {
        128
    }

    open spec fn spec_iv_len(&self) -> nat {
        12
    }

    open spec fn spec_enc(&self, key: Seq<u8>, iv: Seq<u8>, aad: Option<Seq<u8>>, m: Seq<u8>) -> Seq<
        u8,
    > {
        m
    }

    open spec fn spec_dec(&self, key: Seq<u8>, iv: Seq<u8>, aad: Option<Seq<u8>>, c: Seq<u8>) -> Seq<
        u8,
    > {
        c
    }

    open spec fn spec_dec_ok(
        &self,
        key: Seq<u8>,
        iv: Seq<u8>,
        aad: Option<Seq<u8>>,
        c: Seq<u8>,
    ) -> bool {
        true
    }

    fn new() -> (r: Self) {
        NoopSymmetricCipher {  }
    }

    fn get_instance(&self) -> (r: Self) {
        NoopSymmetricCipher {  }
    }

    fn gen_key(&self) -> (r: Vec<u8>) {
        random_bytes(128)
    }

    fn gen_iv(&self) -> (r: Vec<u8>) {
        random_bytes(12)
    }

    fn encrypt(&self, key: &[u8], iv: Option<&[u8]>, aad: Option<&[u8]>, m: &[u8]) -> (r: (
        Vec<u8>,
        Vec<u8>,
    )) {
        let iv_out = match iv {
            Some(v) => vstd::slice::slice_to_vec(v),
            None => random_bytes(12),
        };
        (vstd::slice::slice_to_vec(m), iv_out)
    }

    fn decrypt(&self, key: &[u8], iv: &[u8], aad: Option<&[u8]>, c: &[u8]) -> (r: Result<
        Vec<u8>,
        String,
    >) {
        Ok(vstd::slice::slice_to_vec(c))
    }
}

/// The identity asymmetric cipher: ciphertext equals plaintext, any key
/// pair decrypts anything.
pub struct NoopAsymmetricCipher {}

impl Algorithm for NoopAsymmetricCipher {
    open spec fn spec_name() -> Seq<char> {
        "noop asym"@
    }

    fn get_name() -> (r: String) {
        "noop asym".to_owned()
    }
}

impl AsymmetricCipher for NoopAsymmetricCipher {
    open spec fn spec_public_len(&self) -> nat {
        256
    }

    open spec fn spec_secret_len(&self) -> nat {
        256
    }

    open spec fn spec_nonce_len(&self) -> nat {
        128
    }

    open spec fn spec_enc(&self, public_key: Seq<u8>, nonce: Seq<u8>, m: Seq<u8>) -> Seq<u8> {
        m
    }

    open spec fn spec_dec(
        &self,
        public_key: Seq<u8>,
        secret_key: Seq<u8>,
        nonce: Seq<u8>,
        c: Seq<u8>,
    ) -> Seq<u8> {
        c
    }

    open spec fn spec_dec_ok(
        &self,
        public_key: Seq<u8>,
        secret_key: Seq<u8>,
        nonce: Seq<u8>,
        c: Seq<u8>,
    ) -> bool {
        true
    }

    fn new() -> (r: Self) {
        NoopAsymmetricCipher {  }
    }

    fn get_instance(&self) -> (r: Self) {
        NoopAsymmetricCipher {  }
    }

    fn gen_keypair(&self) -> (r: KeyPair) {
        let public_bytes = random_bytes(256);
        let secret_bytes = random_bytes(256);
        KeyPair { public_bytes, secret_bytes }
    }

    fn gen_nonce(&self) -> (r: Vec<u8>) {
        random_bytes(128)
    }

    fn encrypt(&self, key: &[u8], nonce: &[u8], m: &[u8]) -> (r: Vec<u8>) {
        vstd::slice::slice_to_vec(m)
    }

    fn decrypt(&self, key: &KeyPair, nonce: &[u8], c: &[u8]) -> (r: Result<Vec<u8>, String>) {
        Ok(vstd::slice::slice_to_vec(c))
    }
}

} // verus!
