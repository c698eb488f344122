//! The registry that allows crypto providers to register their
//! implementations.
//!
//! A [`Registry`] owns an ordered sequence of providers. Resolution scans
//! the providers in registration order and returns a fresh instance from
//! the first provider that knows the requested algorithm name; an earlier
//! registration always shadows a later one.

use vstd::prelude::*;

use crate::aead::{AeadModel, AeadPrototype, BoxedAead, BoxedAeadPrototype};
use crate::digest::{BoxedDigest, BoxedDigestPrototype, DigestModel, DigestPrototype};

verus! {

/// A crypto library that wants to register with the `Registry` has to
/// implement this `Provider` trait.
pub trait Provider {
    /// Whether this provider has an AEAD registered under `name`.
    spec fn spec_has_aead(&self, name: Seq<char>) -> bool;

    /// Whether this provider has a digest registered under `name`.
    spec fn spec_has_digest(&self, name: Seq<char>) -> bool;

    /// The algorithm of the AEAD registered under `name` (meaningful when
    /// `spec_has_aead(name)` holds).
    spec fn spec_aead_model(&self, name: Seq<char>) -> AeadModel;

    /// The algorithm of the digest registered under `name` (meaningful
    /// when `spec_has_digest(name)` holds).
    spec fn spec_digest_model(&self, name: Seq<char>) -> DigestModel;

    /// True iff any capability namespace of this provider contains
    /// `algorithm`.
    fn supports(&self, algorithm: &'static str) -> (r: bool)
        ensures
            r == (self.spec_has_aead(algorithm@) || self.spec_has_digest(algorithm@)),
    ;

    /// The AEAD prototype registered under `algorithm`, if any.
    fn get_aead(&self, algorithm: &'static str) -> (r: Option<&BoxedAeadPrototype>)
        ensures
            match r {
                Some(p) => self.spec_has_aead(algorithm@) && p.inner.instance_model()
                    == self.spec_aead_model(algorithm@),
                None => !self.spec_has_aead(algorithm@),
            },
    ;

    /// The digest prototype registered under `algorithm`, if any.
    fn get_digest(&self, algorithm: &'static str) -> (r: Option<&BoxedDigestPrototype>)
        ensures
            match r {
                Some(p) => self.spec_has_digest(algorithm@) && p.inner.instance_model()
                    == self.spec_digest_model(algorithm@),
                None => !self.spec_has_digest(algorithm@),
            },
    ;
}

/// The first value registered under `name` in an ordered list of
/// name-keyed entries, or `None` if the name is absent.
pub open spec fn pairs_lookup<T>(s: Seq<(String, T)>, name: Seq<char>) -> Option<T>
    decreases s.len(),
{
    if s.len() == 0 {
        None
    } else if s.first().0@ == name {
        Some(s.first().1)
    } else {
        pairs_lookup(s.drop_first(), name)
    }
}

pub(crate) proof fn lemma_pairs_lookup_skip<T>(s: Seq<(String, T)>, name: Seq<char>, i: int)
    requires
        0 <= i < s.len(),
    ensures
        s[i].0@ == name ==> pairs_lookup(s.skip(i), name) == Some(s[i].1),
        s[i].0@ != name ==> pairs_lookup(s.skip(i), name) == pairs_lookup(s.skip(i + 1), name),
{
    assert(s.skip(i).len() == s.len() - i);
    assert(s.skip(i).first() == s[i]);
    assert(s.skip(i).drop_first() =~= s.skip(i + 1));
}

/// Appends a named AEAD prototype to a provider map under construction.
pub fn push_aead_entry(
    map: &mut Vec<(String, BoxedAeadPrototype)>,
    name: String,
    proto: BoxedAeadPrototype,
)
    ensures
        final(map)@.len() == old(map)@.len() + 1,
        forall|i: int| 0 <= i < old(map)@.len() ==> final(map)@[i] == old(map)@[i],
        final(map)@.last().0@ == name@,
        final(map)@.last().1.inner.instance_model() == proto.inner.instance_model(),
{
    let entry = (name, proto);
    map.push(entry);
}

/// Appends a named digest prototype to a provider map under construction.
pub fn push_digest_entry(
    map: &mut Vec<(String, BoxedDigestPrototype)>,
    name: String,
    proto: BoxedDigestPrototype,
)
    ensures
        final(map)@.len() == old(map)@.len() + 1,
        forall|i: int| 0 <= i < old(map)@.len() ==> final(map)@[i] == old(map)@[i],
        final(map)@.last().0@ == name@,
        final(map)@.last().1.inner.instance_model() == proto.inner.instance_model(),
{
    let entry = (name, proto);
    map.push(entry);
}

/// A basic implementation of a provider that can be used for convenience:
/// two independent name-keyed maps, one per capability kind, fixed at
/// construction time. Within one map the earliest entry under a name wins.
pub struct BaseProvider {
    aead_map: Vec<(String, BoxedAeadPrototype)>,
    digest_map: Vec<(String, BoxedDigestPrototype)>,
}

impl BaseProvider {
    pub closed spec fn spec_aead_map(&self) -> Seq<(String, BoxedAeadPrototype)> {
        self.aead_map@
    }

    pub closed spec fn spec_digest_map(&self) -> Seq<(String, BoxedDigestPrototype)> {
        self.digest_map@
    }

    /// Create a new Provider with the given AEADs and digests.
    pub fn new(
        aead_map: Vec<(String, BoxedAeadPrototype)>,
        digest_map: Vec<(String, BoxedDigestPrototype)>,
    ) -> (r: BaseProvider)
        ensures
            r.spec_aead_map() == aead_map@,
            r.spec_digest_map() == digest_map@,
            r.spec_aead_map().len() == aead_map@.len(),
            r.spec_digest_map().len() == digest_map@.len(),
            forall|i: int| 0 <= i < aead_map@.len() ==> r.spec_aead_map()[i] == aead_map@[i],
            forall|i: int|
                0 <= i < digest_map@.len() ==> r.spec_digest_map()[i] == digest_map@[i],
    {
        BaseProvider { aead_map, digest_map }
    }

    fn find_aead(&self, algorithm: &str) -> (r: Option<&BoxedAeadPrototype>)
        ensures
            match r {
                Some(p) => pairs_lookup(self.spec_aead_map(), algorithm@) == Some(*p),
                None => pairs_lookup(self.spec_aead_map(), algorithm@) is None,
            },
    {
        let key: String = algorithm.to_owned();
        proof {
            assert(self.aead_map@.skip(0) =~= self.aead_map@);
        }
        let mut i: usize = 0;
        while i < self.aead_map.len()
            invariant
                i <= self.aead_map@.len(),
                key@ == algorithm@,
                pairs_lookup(self.aead_map@, algorithm@) == pairs_lookup(
                    self.aead_map@.skip(i as int),
                    algorithm@,
                ),
            decreases self.aead_map@.len() - i,
        {
            proof {
                lemma_pairs_lookup_skip(self.aead_map@, algorithm@, i as int);
            }
            if self.aead_map[i].0 == key {
                return Some(&self.aead_map[i].1);
            }
            i = i + 1;
        }
        None
    }

    fn find_digest(&self, algorithm: &str) -> (r: Option<&BoxedDigestPrototype>)
        ensures
            match r {
                Some(p) => pairs_lookup(self.spec_digest_map(), algorithm@) == Some(*p),
                None => pairs_lookup(self.spec_digest_map(), algorithm@) is None,
            },
    {
        let key: String = algorithm.to_owned();
        proof {
            assert(self.digest_map@.skip(0) =~= self.digest_map@);
        }
        let mut i: usize = 0;
        while i < self.digest_map.len()
            invariant
                i <= self.digest_map@.len(),
                key@ == algorithm@,
                pairs_lookup(self.digest_map@, algorithm@) == pairs_lookup(
                    self.digest_map@.skip(i as int),
                    algorithm@,
                ),
            decreases self.digest_map@.len() - i,
        {
            proof {
                lemma_pairs_lookup_skip(self.digest_map@, algorithm@, i as int);
            }
            if self.digest_map[i].0 == key {
                return Some(&self.digest_map[i].1);
            }
            i = i + 1;
        }
        None
    }
}

impl Provider for BaseProvider {
    open spec fn spec_has_aead(&self, name: Seq<char>) -> bool {
        pairs_lookup(self.spec_aead_map(), name) is Some
    }

    open spec fn spec_has_digest(&self, name: Seq<char>) -> bool {
        pairs_lookup(self.spec_digest_map(), name) is Some
    }

    open spec fn spec_aead_model(&self, name: Seq<char>) -> AeadModel {
        pairs_lookup(self.spec_aead_map(), name)->Some_0.inner.instance_model()
    }

    open spec fn spec_digest_model(&self, name: Seq<char>) -> DigestModel {
        pairs_lookup(self.spec_digest_map(), name)->Some_0.inner.instance_model()
    }

    fn supports(&self, algorithm: &'static str) -> (r: bool) {
        if self.get_aead(algorithm).is_some() {
            return true;
        }
        if self.get_digest(algorithm).is_some() {
            return true;
        }
        false
    }

    fn get_aead(&self, algorithm: &'static str) -> (r: Option<&BoxedAeadPrototype>) {
        self.find_aead(algorithm)
    }

    fn get_digest(&self, algorithm: &'static str) -> (r: Option<&BoxedDigestPrototype>) {
        self.find_digest(algorithm)
    }
}

/// The basic trait implemented by all primitives.
pub trait Algorithm {
    /// The name this primitive registers itself under.
    spec fn spec_name() -> Seq<char> where Self: Sized;

    fn get_name() -> (r: String) where Self: Sized
        ensures
            r@ == Self::spec_name(),
    ;
}

/// A provider behind the registration interface.
pub struct BoxedProvider {
    pub inner: Box<dyn Provider>,
}

/// The `Registry` holding all providers.
pub struct Registry {
    providers: Vec<BoxedProvider>,
}

impl Registry {
    pub closed spec fn spec_providers(&self) -> Seq<BoxedProvider> {
        self.providers@
    }

    /// Whether any registered provider has an AEAD under `name`.
    pub open spec fn spec_supports_aead(&self, name: Seq<char>) -> bool {
        exists|i: int|
            0 <= i < self.spec_providers().len() && self.spec_providers()[i].inner.spec_has_aead(
                name,
            )
    }

    /// Whether any registered provider has a digest under `name`.
    pub open spec fn spec_supports_digest(&self, name: Seq<char>) -> bool {
        exists|i: int|
            0 <= i < self.spec_providers().len() && self.spec_providers()[i].inner.spec_has_digest(
                name,
            )
    }

    /// Whether any registered provider supports `name` in any capability
    /// namespace.
    pub open spec fn spec_supports(&self, name: Seq<char>) -> bool {
        exists|i: int|
            0 <= i < self.spec_providers().len() && (self.spec_providers()[i].inner.spec_has_aead(
                name,
            ) || self.spec_providers()[i].inner.spec_has_digest(name))
    }

    /// Provider `i` is the winner for AEAD resolution of `name`: it has
    /// the name, and no earlier-registered provider does.
    pub open spec fn spec_first_aead(&self, name: Seq<char>, i: int) -> bool {
        &&& 0 <= i < self.spec_providers().len()
        &&& self.spec_providers()[i].inner.spec_has_aead(name)
        &&& forall|j: int|
            0 <= j < i ==> !self.spec_providers()[j].inner.spec_has_aead(name)
    }

    /// Provider `i` is the winner for digest resolution of `name`.
    pub open spec fn spec_first_digest(&self, name: Seq<char>, i: int) -> bool {
        &&& 0 <= i < self.spec_providers().len()
        &&& self.spec_providers()[i].inner.spec_has_digest(name)
        &&& forall|j: int|
            0 <= j < i ==> !self.spec_providers()[j].inner.spec_has_digest(name)
    }

    /// Initialise the `Registry`.
    pub fn new() -> (r: Registry)
        ensures
            r.spec_providers().len() == 0,
    {
        Registry { providers: Vec::new() }
    }

    /// Add a new provider to the `Registry`, at the end of the resolution
    /// order.
    pub fn add(&mut self, provider: BoxedProvider)
        ensures
            final(self).spec_providers().len() == old(self).spec_providers().len() + 1,
            forall|i: int|
                0 <= i < old(self).spec_providers().len() ==> final(self).spec_providers()[i] == old(
                    self,
                ).spec_providers()[i],
            forall|name: Seq<char>|
                #![auto]
                {
                    &&& final(self).spec_providers().last().inner.spec_has_aead(name)
                        == provider.inner.spec_has_aead(name)
                    &&& final(self).spec_providers().last().inner.spec_has_digest(name)
                        == provider.inner.spec_has_digest(name)
                    &&& final(self).spec_providers().last().inner.spec_aead_model(name)
                        == provider.inner.spec_aead_model(name)
                    &&& final(self).spec_providers().last().inner.spec_digest_model(name)
                        == provider.inner.spec_digest_model(name)
                },
    {
        self.providers.push(provider);
    }

    /// Remove all providers from the `Registry`: afterwards no name is
    /// supported.
    pub fn clear(&mut self)
        ensures
            final(self).spec_providers().len() == 0,
            forall|name: Seq<char>| !final(self).spec_supports(name),
    {
        self.providers.clear();
    }

    /// Check support for an `algorithm`.
    /// Returns `true` if a `Provider` is registered that supports the
    /// `algorithm`.
    pub fn supports(&mut self, algorithm: &'static str) -> (r: bool)
        ensures
            final(self).spec_providers() == old(self).spec_providers(),
            r == old(self).spec_supports(algorithm@),
    {
        let mut i: usize = 0;
        while i < self.providers.len()
            invariant
                i <= self.providers@.len(),
                self.providers@ == old(self).providers@,
                forall|j: int|
                    0 <= j < i ==> !(self.providers@[j].inner.spec_has_aead(algorithm@)
                        || self.providers@[j].inner.spec_has_digest(algorithm@)),
            decreases self.providers@.len() - i,
        {
            if self.providers[i].inner.supports(algorithm) {
                proof {
                    assert(old(self).spec_providers()[i as int].inner.spec_has_aead(algorithm@)
                        || old(self).spec_providers()[i as int].inner.spec_has_digest(algorithm@));
                    assert(old(self).spec_supports(algorithm@));
                }
                return true;
            }
            i = i + 1;
        }
        false
    }

    /// Resolve an AEAD by name: the earliest-registered provider that has
    /// the name wins and hands back a fresh, caller-owned instance.
    pub fn get_aead(&self, algorithm: &'static str) -> (r: Result<BoxedAead, &'static str>)
        ensures
            match r {
                Ok(inst) => exists|i: int|
                    #![auto]
                    self.spec_first_aead(algorithm@, i) && inst.inner.model()
                        == self.spec_providers()[i].inner.spec_aead_model(algorithm@),
                Err(e) => !self.spec_supports_aead(algorithm@) && e@ == "Unsupported algorithm"@,
            },
    {
        let mut i: usize = 0;
        while i < self.providers.len()
            invariant
                i <= self.providers@.len(),
                forall|j: int| 0 <= j < i ==> !self.providers@[j].inner.spec_has_aead(algorithm@),
            decreases self.providers@.len() - i,
        {
            match self.providers[i].inner.get_aead(algorithm) {
                Some(c) => {
                    proof {
                        assert(self.spec_first_aead(algorithm@, i as int));
                    }
                    return Ok(c.inner.get_instance());
                },
                None => {},
            }
            i = i + 1;
        }
        Err("Unsupported algorithm")
    }

    /// Resolve a digest by name: the earliest-registered provider that has
    /// the name wins and hands back a fresh instance with empty streaming
    /// state.
    pub fn get_digest(&self, algorithm: &'static str) -> (r: Result<BoxedDigest, &'static str>)
        ensures
            match r {
                Ok(inst) => exists|i: int|
                    #![auto]
                    self.spec_first_digest(algorithm@, i) && inst.inner.model()
                        == self.spec_providers()[i].inner.spec_digest_model(algorithm@)
                        && inst.inner.acc() == Seq::<u8>::empty() && !inst.inner.finished(),
                Err(e) => !self.spec_supports_digest(algorithm@) && e@ == "Unsupported algorithm"@,
            },
    {
        let mut i: usize = 0;
        while i < self.providers.len()
            invariant
                i <= self.providers@.len(),
                forall|j: int| 0 <= j < i ==> !self.providers@[j].inner.spec_has_digest(algorithm@),
            decreases self.providers@.len() - i,
        {
            match self.providers[i].inner.get_digest(algorithm) {
                Some(c) => {
                    proof {
                        assert(self.spec_first_digest(algorithm@, i as int));
                    }
                    return Ok(c.inner.get_instance());
                },
                None => {},
            }
            i = i + 1;
        }
        Err("Unsupported algorithm")
    }
}

/// Resolution is deterministic: for a given name there is at most one
/// winning provider, so resolving the same name twice from the same
/// registry always draws on the same provider.
pub proof fn lemma_resolution_deterministic(r: &Registry, name: Seq<char>, i: int, j: int)
    ensures
        r.spec_first_aead(name, i) && r.spec_first_aead(name, j) ==> i == j,
        r.spec_first_digest(name, i) && r.spec_first_digest(name, j) ==> i == j,
{
    if r.spec_first_aead(name, i) && r.spec_first_aead(name, j) && i != j {
        if i < j {
            assert(!r.spec_providers()[i].inner.spec_has_aead(name));
        } else {
            assert(!r.spec_providers()[j].inner.spec_has_aead(name));
        }
    }
    if r.spec_first_digest(name, i) && r.spec_first_digest(name, j) && i != j {
        if i < j {
            assert(!r.spec_providers()[i].inner.spec_has_digest(name));
        } else {
            assert(!r.spec_providers()[j].inner.spec_has_digest(name));
        }
    }
}

impl Default for Registry {
    /// An empty registry.
    fn default() -> (r: Registry)
        ensures
            r.spec_providers().len() == 0,
    {
        Registry { providers: Vec::new() }
    }
}

} // verus!
