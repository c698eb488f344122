//! AEADs: authenticated encryption with associated data.
//!
//! The contract of every AEAD is stated over a small mathematical model
//! ([`AeadModel`]): spec-level ciphertext, tag and decryption functions.
//! Every implementation's `encrypt` promises that the ciphertext it returns
//! decrypts back to the original message, and `decrypt` accepts exactly the
//! inputs whose tag matches the model's tag function.

use vstd::prelude::*;

verus! {

pub type Ciphertext = Vec<u8>;

pub type Tag = Vec<u8>;

pub type Nonce = [u8];

pub type Aad = [u8];

pub type Key = [u8];

#[derive(Debug, PartialEq, Eq, Structural)]
pub enum Error {
    InvalidInit,
    InvalidAlgorithm,
    InvalidCiphertext,
    InvalidNonce,
    UnsupportedConfig,
    Encrypting,
    Decrypting,
}

/// Spec-level identity of an AEAD algorithm shipped by this crate.
#[derive(Clone, Copy, Debug, PartialEq, Eq, Structural)]
pub enum AeadModel {
    /// ChaCha20-Poly1305 as implemented by the backing cryptographic library.
    ChaCha20Poly1305,
    /// The identity AEAD: ciphertext equals plaintext, the tag is a
    /// fixed-length checksum. Useful as a reference implementation for
    /// conformance testing, worthless as cryptography.
    Noop,
}

/// The result of applying the ChaCha20 keystream (as the backing library's
/// ChaCha20-Poly1305 does, with the block counter starting at 1) to `data`.
/// Encryption and decryption both apply this same keystream.
pub uninterp spec fn chacha20_stream(key: Seq<u8>, nonce: Seq<u8>, data: Seq<u8>) -> Seq<u8>;

/// The Poly1305 tag that the backing library's ChaCha20-Poly1305 computes
/// over the associated data and the ciphertext.
pub uninterp spec fn chacha20poly1305_tag(
    key: Seq<u8>,
    nonce: Seq<u8>,
    aad: Seq<u8>,
    ct: Seq<u8>,
) -> Seq<u8>;

/// XOR of all bytes of `s`.
pub open spec fn xor_all(s: Seq<u8>) -> u8
    decreases s.len(),
{
    if s.len() == 0 {
        0u8
    } else {
        xor_all(s.drop_last()) ^ s.last()
    }
}

/// The identity AEAD's tag: 16 bytes, the first of which is the XOR of all
/// bytes of the associated data followed by the ciphertext.
pub open spec fn noop_tag(aad: Seq<u8>, ct: Seq<u8>) -> Seq<u8> {
    Seq::new(16, |i: int| if i == 0 { xor_all(aad + ct) } else { 0u8 })
}

pub open spec fn aead_key_len(a: AeadModel) -> nat {
    match a {
        AeadModel::ChaCha20Poly1305 => 32,
        AeadModel::Noop => 16,
    }
}

pub open spec fn aead_nonce_len(a: AeadModel) -> nat {
    match a {
        AeadModel::ChaCha20Poly1305 => 12,
        AeadModel::Noop => 12,
    }
}

pub open spec fn aead_tag_len(a: AeadModel) -> nat {
    match a {
        AeadModel::ChaCha20Poly1305 => 16,
        AeadModel::Noop => 16,
    }
}

/// Whether a message (or ciphertext) of `len` bytes is within the
/// algorithm's size contract. The backing ChaCha20-Poly1305 rejects inputs
/// of 2^32 or more 64-byte blocks; the identity AEAD takes anything.
pub open spec fn aead_msg_ok(a: AeadModel, len: nat) -> bool {
    match a {
        AeadModel::ChaCha20Poly1305 => len / 64 < 0xffff_ffff,
        AeadModel::Noop => true,
    }
}

/// The ciphertext an AEAD produces for a message.
pub open spec fn aead_ct(a: AeadModel, key: Seq<u8>, nonce: Seq<u8>, m: Seq<u8>) -> Seq<u8> {
    match a {
        AeadModel::ChaCha20Poly1305 => chacha20_stream(key, nonce, m),
        AeadModel::Noop => m,
    }
}

/// The tag an AEAD computes over associated data and ciphertext.
pub open spec fn aead_tag(
    a: AeadModel,
    key: Seq<u8>,
    nonce: Seq<u8>,
    aad: Seq<u8>,
    ct: Seq<u8>,
) -> Seq<u8> {
    match a {
        AeadModel::ChaCha20Poly1305 => chacha20poly1305_tag(key, nonce, aad, ct),
        AeadModel::Noop => noop_tag(aad, ct),
    }
}

/// The plaintext an AEAD recovers from a ciphertext (independent of whether
/// the tag verifies).
pub open spec fn aead_pt(a: AeadModel, key: Seq<u8>, nonce: Seq<u8>, ct: Seq<u8>) -> Seq<u8> {
    match a {
        AeadModel::ChaCha20Poly1305 => chacha20_stream(key, nonce, ct),
        AeadModel::Noop => ct,
    }
}

/// Exactly the inputs on which an AEAD's `decrypt` succeeds: sizes within
/// the algorithm's contract and a tag equal to the one recomputed over the
/// associated data and ciphertext.
pub open spec fn aead_accepts(
    a: AeadModel,
    key: Seq<u8>,
    nonce: Seq<u8>,
    aad: Seq<u8>,
    ct: Seq<u8>,
    tag: Seq<u8>,
) -> bool {
    &&& key.len() == aead_key_len(a)
    &&& nonce.len() == aead_nonce_len(a)
    &&& tag.len() == aead_tag_len(a)
    &&& aead_msg_ok(a, ct.len())
    &&& tag == aead_tag(a, key, nonce, aad, ct)
}

pub trait Aead {
    /// The algorithm this instance implements, as a spec-level model.
    spec fn model(&self) -> AeadModel;

    /// The model every fresh instance of this implementation carries.
    spec fn spec_model() -> AeadModel where Self: Sized;

    fn new() -> (r: Self) where Self: Sized
        ensures
            r.model() == Self::spec_model(),
    ;


    // Nonce and key generation helper.
    fn key_gen(&self) -> (r: Vec<u8>)
        ensures
            r@.len() == aead_key_len(self.model()),
    ;

    fn get_key_len(&self) -> (r: usize)
        ensures
            r == aead_key_len(self.model()),
    ;

    fn nonce_gen(&self) -> (r: Vec<u8>)
        ensures
            r@.len() == aead_nonce_len(self.model()),
    ;

    fn get_nonce_len(&self) -> (r: usize)
        ensures
            r == aead_nonce_len(self.model()),
    ;

    /// Single-shot encryption. On success the ciphertext is the model's
    /// ciphertext, the tag is the model's tag over it, and decrypting the
    /// ciphertext with the same key and nonce yields the message back.
    fn encrypt(&self, key: &Key, nonce: &Nonce, aad: &Aad, m: &[u8]) -> (r: Result<
        (Ciphertext, Tag),
        Error,
    >)
        ensures
            match r {
                Ok(ct_tag) => {
                    &&& key@.len() == aead_key_len(self.model())
                    &&& nonce@.len() == aead_nonce_len(self.model())
                    &&& aead_msg_ok(self.model(), m@.len())
                    &&& ct_tag.0@ == aead_ct(self.model(), key@, nonce@, m@)
                    &&& ct_tag.0@.len() == m@.len()
                    &&& ct_tag.1@ == aead_tag(self.model(), key@, nonce@, aad@, ct_tag.0@)
                    &&& ct_tag.1@.len() == aead_tag_len(self.model())
                    &&& aead_pt(self.model(), key@, nonce@, ct_tag.0@) == m@
                },
                Err(e) => {
                    &&& !(key@.len() == aead_key_len(self.model()) && nonce@.len()
                        == aead_nonce_len(self.model()) && aead_msg_ok(self.model(), m@.len()))
                    &&& e == (if nonce@.len() != aead_nonce_len(self.model()) {
                        Error::InvalidNonce
                    } else if key@.len() != aead_key_len(self.model()) {
                        Error::InvalidInit
                    } else {
                        Error::UnsupportedConfig
                    })
                },
            },
    ;

    /// Single-shot decryption: all-or-nothing. Succeeds exactly on inputs
    /// the model accepts, and then returns the model's plaintext.
    fn decrypt(&self, key: &Key, nonce: &Nonce, aad: &Aad, c: &Ciphertext, tag: &Tag) -> (r: Result<
        Vec<u8>,
        String,
    >)
        ensures
            match r {
                Ok(m) => {
                    &&& aead_accepts(self.model(), key@, nonce@, aad@, c@, tag@)
                    &&& m@ == aead_pt(self.model(), key@, nonce@, c@)
                    &&& m@.len() == c@.len()
                },
                Err(_) => !aead_accepts(self.model(), key@, nonce@, aad@, c@, tag@),
            },
    ;
}

/// An owned AEAD instance behind the capability interface.
pub struct BoxedAead {
    pub inner: Box<dyn Aead>,
}

/// The prototype role of an AEAD implementation: an object owned by a
/// provider that stands for one algorithm and hands out fresh,
/// independently owned instances of it.
pub trait AeadPrototype {
    /// The algorithm of every instance this prototype produces.
    spec fn instance_model(&self) -> AeadModel;

    /// A fresh instance, sharing no mutable state with the prototype or
    /// with any other instance.
    fn get_instance(&self) -> (r: BoxedAead)
        ensures
            r.inner.model() == self.instance_model(),
    ;
}

/// A provider-owned AEAD prototype behind the capability interface.
pub struct BoxedAeadPrototype {
    pub inner: Box<dyn AeadPrototype>,
}

/// Round trip: a ciphertext and tag produced under an AEAD's size contract
/// are accepted by decryption. Together with `decrypt`'s postcondition
/// (the accepted ciphertext decrypts to `aead_pt`) and `encrypt`'s
/// postcondition (`aead_pt` of the produced ciphertext is the message),
/// decrypt-of-encrypt returns the original plaintext.
pub proof fn lemma_round_trip_accepted(
    a: AeadModel,
    key: Seq<u8>,
    nonce: Seq<u8>,
    aad: Seq<u8>,
    m: Seq<u8>,
    c: Seq<u8>,
    t: Seq<u8>,
)
    ensures
        (key.len() == aead_key_len(a) && nonce.len() == aead_nonce_len(a) && aead_msg_ok(a, c.len())
            && c == aead_ct(a, key, nonce, m) && t == aead_tag(a, key, nonce, aad, c) && t.len()
            == aead_tag_len(a)) ==> aead_accepts(a, key, nonce, aad, c, t),
{
}

/// Tamper detection, tag side: any tag other than the one the model
/// computes over the associated data and ciphertext is rejected.
pub proof fn lemma_tamper_rejected(
    a: AeadModel,
    key: Seq<u8>,
    nonce: Seq<u8>,
    aad: Seq<u8>,
    c: Seq<u8>,
    t: Seq<u8>,
)
    ensures
        t != aead_tag(a, key, nonce, aad, c) ==> !aead_accepts(a, key, nonce, aad, c, t),
{
}

/// Flipping any bit of a byte changes the byte.
pub proof fn lemma_bit_flip_changes_byte(b: u8, j: u8)
    ensures
        j < 8 ==> b ^ (1u8 << j) != b,
{
    assert(j < 8 ==> b ^ (1u8 << j) != b) by (bit_vector);
}

/// For the identity AEAD, decrypting the ciphertext gives back the message.
pub proof fn lemma_noop_round_trip(key: Seq<u8>, nonce: Seq<u8>, m: Seq<u8>)
    ensures
        aead_pt(AeadModel::Noop, key, nonce, aead_ct(AeadModel::Noop, key, nonce, m)) == m,
{
}

/// Replacing one byte of a sequence XORs its checksum with the old and the
/// new byte.
pub proof fn lemma_xor_all_update(s: Seq<u8>, i: int, v: u8)
    requires
        0 <= i < s.len(),
    ensures
        xor_all(s.update(i, v)) == xor_all(s) ^ s[i] ^ v,
    decreases s.len(),
{
    let x = xor_all(s.drop_last());
    if i == s.len() - 1 {
        assert(s.update(i, v).drop_last() =~= s.drop_last());
        assert(xor_all(s.update(i, v)) == x ^ v);
        assert(xor_all(s) == x ^ s[i]);
        let a = s[i];
        assert(x ^ v == (x ^ a) ^ a ^ v) by (bit_vector);
    } else {
        assert(s.update(i, v).drop_last() =~= s.drop_last().update(i, v));
        lemma_xor_all_update(s.drop_last(), i, v);
        let a = s.drop_last()[i];
        let b = s.last();
        assert(xor_all(s.update(i, v)) == (x ^ a ^ v) ^ b);
        assert(s[i] == a);
        assert((x ^ a ^ v) ^ b == (x ^ b) ^ a ^ v) by (bit_vector);
    }
}

/// Tamper detection for the identity AEAD, ciphertext side: corrupting any
/// single byte of the ciphertext (in particular, flipping any bit of it)
/// makes the checksum tag mismatch, so decryption rejects the input.
pub proof fn lemma_noop_ciphertext_tamper(
    key: Seq<u8>,
    nonce: Seq<u8>,
    aad: Seq<u8>,
    c: Seq<u8>,
    i: int,
    v: u8,
    t: Seq<u8>,
)
    ensures
        (0 <= i < c.len() && v != c[i] && t == aead_tag(AeadModel::Noop, key, nonce, aad, c))
            ==> !aead_accepts(AeadModel::Noop, key, nonce, aad, c.update(i, v), t),
{
    if 0 <= i < c.len() && v != c[i] && t == aead_tag(AeadModel::Noop, key, nonce, aad, c) {
        let s = aad + c;
        let c2 = c.update(i, v);
        assert(aad + c2 =~= s.update(aad.len() + i, v));
        lemma_xor_all_update(s, aad.len() + i, v);
        assert(s[aad.len() + i] == c[i]);
        let x = xor_all(s);
        let a = c[i];
        assert(a != v ==> x ^ a ^ v != x) by (bit_vector);
        assert(noop_tag(aad, c2)[0] == xor_all(s) ^ a ^ v);
        assert(noop_tag(aad, c)[0] == xor_all(s));
        assert(t != aead_tag(AeadModel::Noop, key, nonce, aad, c2));
    }
}

} // verus!
