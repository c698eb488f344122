//! Message digests.
//!
//! A digest is offered in two forms that agree on output: a pure one-shot
//! `hash`, and a streaming state machine that accumulates input across
//! `update` calls and produces the digest of the whole accumulated input at
//! `finish`.

use vstd::prelude::*;

verus! {

/// Spec-level identity of a digest algorithm shipped by this crate.
#[derive(Clone, Copy, Debug, PartialEq, Eq, Structural)]
pub enum DigestModel {
    /// SHA-256 as implemented by the backing cryptographic library.
    Sha256,
    /// SHA-384 as implemented by the backing cryptographic library.
    Sha384,
    /// SHA-512 as implemented by the backing cryptographic library.
    Sha512,
    /// A toy 32-byte XOR-fold checksum, implemented and verified in this
    /// crate. Useful as a reference implementation for conformance testing.
    XorFold,
}

/// The SHA-256 digest of `data`, as the backing library computes it.
pub uninterp spec fn sha256_of(data: Seq<u8>) -> Seq<u8>;

/// The SHA-384 digest of `data`, as the backing library computes it.
pub uninterp spec fn sha384_of(data: Seq<u8>) -> Seq<u8>;

/// The SHA-512 digest of `data`, as the backing library computes it.
pub uninterp spec fn sha512_of(data: Seq<u8>) -> Seq<u8>;

/// The XOR-fold digest: a 32-byte state, initially zero, where byte `i` of
/// the input is XORed into position `i % 32`.
pub open spec fn xorfold_of(data: Seq<u8>) -> Seq<u8>
    decreases data.len(),
{
    if data.len() == 0 {
        Seq::new(32, |i: int| 0u8)
    } else {
        let prev = xorfold_of(data.drop_last());
        let pos = ((data.len() - 1) as int) % 32;
        prev.update(pos, prev[pos] ^ data.last())
    }
}

/// The XOR-fold digest is always 32 bytes long.
pub proof fn lemma_xorfold_len(data: Seq<u8>)
    ensures
        xorfold_of(data).len() == 32,
    decreases data.len(),
{
    if data.len() != 0 {
        lemma_xorfold_len(data.drop_last());
    }
}

/// The digest a model computes over a message.
pub open spec fn digest_hash(d: DigestModel, m: Seq<u8>) -> Seq<u8> {
    match d {
        DigestModel::Sha256 => sha256_of(m),
        DigestModel::Sha384 => sha384_of(m),
        DigestModel::Sha512 => sha512_of(m),
        DigestModel::XorFold => xorfold_of(m),
    }
}

/// The fixed output length of a digest model, in bytes.
pub open spec fn digest_len(d: DigestModel) -> nat {
    match d {
        DigestModel::Sha256 => 32,
        DigestModel::Sha384 => 48,
        DigestModel::Sha512 => 64,
        DigestModel::XorFold => 32,
    }
}

pub trait Digest {
    /// The algorithm this instance implements, as a spec-level model.
    spec fn model(&self) -> DigestModel;

    /// The model every fresh instance of this implementation carries.
    spec fn spec_model() -> DigestModel where Self: Sized;

    /// The input accumulated so far by the streaming interface.
    spec fn acc(&self) -> Seq<u8>;

    /// Whether `finish` has been called on this instance.
    spec fn finished(&self) -> bool;

    fn new() -> (r: Self) where Self: Sized
        ensures
            r.model() == Self::spec_model(),
            r.acc() == Seq::<u8>::empty(),
            !r.finished(),
    ;


    /// Single-shot hash: a pure function of the message bytes, so hashing
    /// the same bytes twice yields the same digest.
    fn hash(&self, message: &[u8]) -> (r: Vec<u8>)
        ensures
            r@ == digest_hash(self.model(), message@),
            r@.len() == digest_len(self.model()),
    ;

    /// Append a chunk to the accumulated input.
    fn update(&mut self, message: &[u8])
        requires
            !old(self).finished(),
        ensures
            final(self).model() == old(self).model(),
            final(self).acc() == old(self).acc() + message@,
            !final(self).finished(),
    ;

    /// Append a final chunk, then return the digest of the whole
    /// accumulated input. Agrees with the one-shot `hash` on the same
    /// total input.
    fn finish(&mut self, message: &[u8]) -> (r: Vec<u8>)
        requires
            !old(self).finished(),
        ensures
            final(self).model() == old(self).model(),
            final(self).finished(),
            r@ == digest_hash(old(self).model(), old(self).acc() + message@),
            r@.len() == digest_len(old(self).model()),
    ;
}

/// An owned digest instance behind the capability interface.
pub struct BoxedDigest {
    pub inner: Box<dyn Digest>,
}

/// The prototype role of a digest implementation: an object owned by a
/// provider that stands for one algorithm and hands out fresh instances
/// with empty streaming state.
pub trait DigestPrototype {
    /// The algorithm of every instance this prototype produces.
    spec fn instance_model(&self) -> DigestModel;

    /// A fresh instance with empty streaming state, sharing no mutable
    /// state with the prototype or with any other instance.
    fn get_instance(&self) -> (r: BoxedDigest)
        ensures
            r.inner.model() == self.instance_model(),
            r.inner.acc() == Seq::<u8>::empty(),
            !r.inner.finished(),
    ;
}

/// A provider-owned digest prototype behind the capability interface.
pub struct BoxedDigestPrototype {
    pub inner: Box<dyn DigestPrototype>,
}

/// The concatenation of a sequence of input chunks.
pub open spec fn concat_chunks(chunks: Seq<Seq<u8>>) -> Seq<u8>
    decreases chunks.len(),
{
    if chunks.len() == 0 {
        Seq::<u8>::empty()
    } else {
        concat_chunks(chunks.drop_last()) + chunks.last()
    }
}

/// Digest determinism: equal inputs give equal digests.
pub proof fn lemma_digest_deterministic(d: DigestModel, m1: Seq<u8>, m2: Seq<u8>)
    ensures
        m1 == m2 ==> digest_hash(d, m1) == digest_hash(d, m2),
{
}

/// Streaming equivalence: two streaming paths whose chunks concatenate to
/// the same total input produce the same digest, however the input was
/// split across `update` and `finish` calls.
pub proof fn lemma_streaming_equivalence(d: DigestModel, p1: Seq<Seq<u8>>, p2: Seq<Seq<u8>>)
    ensures
        concat_chunks(p1) == concat_chunks(p2) ==> digest_hash(d, concat_chunks(p1)) == digest_hash(
            d,
            concat_chunks(p2),
        ),
{
}

} // verus!
