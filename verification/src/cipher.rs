//! A cipher.
//! A cipher can either be a symmetric or an asymmetric cipher.
//!
//! These are the lower-level, non-authenticated cipher contracts. Like the
//! AEAD contract they are stated over spec-level encryption and decryption
//! functions; every implementation's `encrypt` promises that decryption
//! recovers the message.

use vstd::prelude::*;

verus! {

/// The byte view of an optional byte-slice argument.
pub open spec fn opt_bytes(o: Option<&[u8]>) -> Option<Seq<u8>> {
    match o {
        Some(s) => Some(s@),
        None => None,
    }
}

pub trait SymmetricCipher {
    /// Required key length, in bytes.
    spec fn spec_key_len(&self) -> nat;

    /// Required IV length, in bytes.
    spec fn spec_iv_len(&self) -> nat;

    /// The ciphertext produced for a message.
    spec fn spec_enc(&self, key: Seq<u8>, iv: Seq<u8>, aad: Option<Seq<u8>>, m: Seq<u8>) -> Seq<
        u8,
    >;

    /// The plaintext recovered from a ciphertext.
    spec fn spec_dec(&self, key: Seq<u8>, iv: Seq<u8>, aad: Option<Seq<u8>>, c: Seq<u8>) -> Seq<
        u8,
    >;

    /// Exactly the inputs on which decryption succeeds.
    spec fn spec_dec_ok(&self, key: Seq<u8>, iv: Seq<u8>, aad: Option<Seq<u8>>, c: Seq<u8>) -> bool;

    fn new() -> (r: Self) where Self: Sized;

    /// A fresh, independently owned instance of the same cipher.
    fn get_instance(&self) -> (r: Self) where Self: Sized
        ensures
            r.spec_key_len() == self.spec_key_len(),
            r.spec_iv_len() == self.spec_iv_len(),
            forall|key: Seq<u8>, iv: Seq<u8>, aad: Option<Seq<u8>>, m: Seq<u8>|
                #![auto]
                r.spec_enc(key, iv, aad, m) == self.spec_enc(key, iv, aad, m),
            forall|key: Seq<u8>, iv: Seq<u8>, aad: Option<Seq<u8>>, c: Seq<u8>|
                #![auto]
                r.spec_dec(key, iv, aad, c) == self.spec_dec(key, iv, aad, c) && r.spec_dec_ok(
                    key,
                    iv,
                    aad,
                    c,
                ) == self.spec_dec_ok(key, iv, aad, c),
    ;

    // IV and key generation helper.
    fn gen_key(&self) -> (r: Vec<u8>)
        ensures
            r@.len() == self.spec_key_len(),
    ;

    fn gen_iv(&self) -> (r: Vec<u8>)
        ensures
            r@.len() == self.spec_iv_len(),
    ;

    /// One-shot encryption: returns the ciphertext and the IV that was
    /// used (the given one, or a fresh one when none was given).
    /// Decrypting the ciphertext under that IV recovers the message.
    fn encrypt(&self, key: &[u8], iv: Option<&[u8]>, aad: Option<&[u8]>, m: &[u8]) -> (r: (
        Vec<u8>,
        Vec<u8>,
    ))
        ensures
            iv matches Some(v) ==> r.1@ == v@,
            iv is None ==> r.1@.len() == self.spec_iv_len(),
            r.0@ == self.spec_enc(key@, r.1@, opt_bytes(aad), m@),
            self.spec_dec_ok(key@, r.1@, opt_bytes(aad), r.0@),
            self.spec_dec(key@, r.1@, opt_bytes(aad), r.0@) == m@,
    ;

    /// One-shot decryption.
    fn decrypt(&self, key: &[u8], iv: &[u8], aad: Option<&[u8]>, c: &[u8]) -> (r: Result<
        Vec<u8>,
        String,
    >)
        ensures
            r is Ok <==> self.spec_dec_ok(key@, iv@, opt_bytes(aad), c@),
            r matches Ok(m) ==> m@ == self.spec_dec(key@, iv@, opt_bytes(aad), c@),
    ;
}

/// A public/secret key pair, as flat bytes.
#[derive(Debug, PartialEq)]
pub struct KeyPair {
    pub public_bytes: Vec<u8>,
    pub secret_bytes: Vec<u8>,
}

pub trait AsymmetricCipher {
    /// Length of a generated public key, in bytes.
    spec fn spec_public_len(&self) -> nat;

    /// Length of a generated secret key, in bytes.
    spec fn spec_secret_len(&self) -> nat;

    /// Required nonce length, in bytes.
    spec fn spec_nonce_len(&self) -> nat;

    /// The ciphertext produced under a public key.
    spec fn spec_enc(&self, public_key: Seq<u8>, nonce: Seq<u8>, m: Seq<u8>) -> Seq<u8>;

    /// The plaintext recovered with the whole key pair.
    spec fn spec_dec(
        &self,
        public_key: Seq<u8>,
        secret_key: Seq<u8>,
        nonce: Seq<u8>,
        c: Seq<u8>,
    ) -> Seq<u8>;

    /// Exactly the inputs on which decryption succeeds.
    spec fn spec_dec_ok(
        &self,
        public_key: Seq<u8>,
        secret_key: Seq<u8>,
        nonce: Seq<u8>,
        c: Seq<u8>,
    ) -> bool;

    fn new() -> (r: Self) where Self: Sized;

    /// A fresh, independently owned instance of the same cipher.
    fn get_instance(&self) -> (r: Self) where Self: Sized
        ensures
            r.spec_public_len() == self.spec_public_len(),
            r.spec_secret_len() == self.spec_secret_len(),
            r.spec_nonce_len() == self.spec_nonce_len(),
            forall|pk: Seq<u8>, nonce: Seq<u8>, m: Seq<u8>|
                #![auto]
                r.spec_enc(pk, nonce, m) == self.spec_enc(pk, nonce, m),
            forall|pk: Seq<u8>, sk: Seq<u8>, nonce: Seq<u8>, c: Seq<u8>|
                #![auto]
                r.spec_dec(pk, sk, nonce, c) == self.spec_dec(pk, sk, nonce, c) && r.spec_dec_ok(
                    pk,
                    sk,
                    nonce,
                    c,
                ) == self.spec_dec_ok(pk, sk, nonce, c),
    ;

    /// A fresh key pair. Whatever is encrypted under its public half,
    /// decryption with the pair accepts and recovers.
    fn gen_keypair(&self) -> (r: KeyPair)
        ensures
            r.public_bytes@.len() == self.spec_public_len(),
            r.secret_bytes@.len() == self.spec_secret_len(),
            forall|nonce: Seq<u8>, m: Seq<u8>|
                #![auto]
                self.spec_dec_ok(
                    r.public_bytes@,
                    r.secret_bytes@,
                    nonce,
                    self.spec_enc(r.public_bytes@, nonce, m),
                ) && self.spec_dec(
                    r.public_bytes@,
                    r.secret_bytes@,
                    nonce,
                    self.spec_enc(r.public_bytes@, nonce, m),
                ) == m,
    ;

    fn gen_nonce(&self) -> (r: Vec<u8>)
        ensures
            r@.len() == self.spec_nonce_len(),
    ;

    fn encrypt(&self, key: &[u8], nonce: &[u8], m: &[u8]) -> (r: Vec<u8>)
        ensures
            r@ == self.spec_enc(key@, nonce@, m@),
    ;

    fn decrypt(&self, key: &KeyPair, nonce: &[u8], c: &[u8]) -> (r: Result<Vec<u8>, String>)
        ensures
            r is Ok <==> self.spec_dec_ok(key.public_bytes@, key.secret_bytes@, nonce@, c@),
            r matches Ok(m) ==> m@ == self.spec_dec(
                key.public_bytes@,
                key.secret_bytes@,
                nonce@,
                c@,
            ),
    ;
}

} // verus!
