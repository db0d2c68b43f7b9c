//! The key ring: a registry mapping a logical key identifier to an
//! active provider instance, for callers that need to look up "the
//! signer for this purpose" without knowing which backend holds the
//! key. Pure composition; no cryptography of its own.

use vstd::prelude::*;

use crate::ed25519::Ed25519Signer;
use crate::hsm::YubiHSMSigner;
use crate::p256::{Asn1, Fixed, Signer};

verus! {

/// One active signature provider, one variant per backend.
pub enum Provider {
    SoftwareEd25519(Ed25519Signer),
    SoftwareP256Asn1(Signer<Asn1>),
    SoftwareP256Fixed(Signer<Fixed>),
    HardwareEd25519(YubiHSMSigner),
}

/// Registry of active providers, keyed by a logical key identifier.
/// Each identifier is bound to at most one provider at a time.
pub struct KeyRing {
    entries: Vec<(u64, Provider)>,
}

impl KeyRing {
    #[verifier::type_invariant]
    closed spec fn wf(self) -> bool {
        forall|i: int, j: int|
            0 <= i < j < self.entries@.len() ==> self.entries@[i].0 != self.entries@[j].0
    }

    /// Whether some provider is registered under `key_id`.
    pub closed spec fn contains_id(self, key_id: u64) -> bool {
        exists|i: int| 0 <= i < self.entries@.len() && self.entries@[i].0 == key_id
    }

    /// Whether `provider` is the provider registered under `key_id`.
    pub closed spec fn holds(self, key_id: u64, provider: Provider) -> bool {
        exists|i: int| 0 <= i < self.entries@.len() && self.entries@[i] == (key_id, provider)
    }

    /// An empty registry.
    pub fn new() -> (r: KeyRing)
        ensures
            forall|key_id: u64| !r.contains_id(key_id),
    {
        KeyRing { entries: Vec::new() }
    }

    /// The index of `key_id`'s entry, if one exists.
    fn position(&self, key_id: u64) -> (r: Option<usize>)
        ensures
            r is Some <==> self.contains_id(key_id),
            r matches Some(i) ==> i < self.entries@.len() && self.entries@[i as int].0 == key_id,
    {
        let mut i: usize = 0;
        while i < self.entries.len()
            invariant
                0 <= i <= self.entries@.len(),
                forall|j: int| 0 <= j < i ==> self.entries@[j].0 != key_id,
            decreases self.entries@.len() - i,
        {
            if self.entries[i].0 == key_id {
                return Some(i);
            }
            i = i + 1;
        }
        None
    }

    /// Bind `key_id` to `provider`, replacing any provider previously
    /// registered under the same identifier and leaving every other
    /// binding unchanged.
    pub fn add(&mut self, key_id: u64, provider: Provider)
        ensures
            final (self).holds(key_id, provider),
            final (self).contains_id(key_id),
            forall|other: u64| other != key_id ==> (final (self).contains_id(other) <==> old(
                self,
            ).contains_id(other)),
            forall|other: u64, p: Provider|
                other != key_id ==> (final (self).holds(other, p) <==> old(self).holds(other, p)),
    {
        proof {
            use_type_invariant(&*self);
        }
        let pos = self.position(key_id);
        let mut entries: Vec<(u64, Provider)> = Vec::new();
        core::mem::swap(&mut self.entries, &mut entries);
        match pos {
            Some(i) => {
                entries.set(i, (key_id, provider));
            }
            None => {
                entries.push((key_id, provider));
            }
        }
        core::mem::swap(&mut self.entries, &mut entries);
        proof {
            match pos {
                Some(i) => assert(self.entries@[i as int] == (key_id, provider)),
                None => assert(self.entries@[self.entries@.len() - 1] == (key_id, provider)),
            }
            assert forall|other: u64| other != key_id implies (self.contains_id(other) <==> old(
                self,
            ).contains_id(other)) by {
                if self.contains_id(other) {
                    let i2 = choose|i2: int|
                        0 <= i2 < self.entries@.len() && self.entries@[i2].0 == other;
                    assert(old(self).entries@[i2].0 == other);
                }
                if old(self).contains_id(other) {
                    let i2 = choose|i2: int|
                        0 <= i2 < old(self).entries@.len() && old(self).entries@[i2].0 == other;
                    assert(self.entries@[i2].0 == other);
                }
            }
            assert forall|other: u64, p: Provider| other != key_id implies (self.holds(other, p)
                <==> old(self).holds(other, p)) by {
                if self.holds(other, p) {
                    let i2 = choose|i2: int|
                        0 <= i2 < self.entries@.len() && self.entries@[i2] == (other, p);
                    assert(old(self).entries@[i2] == (other, p));
                }
                if old(self).holds(other, p) {
                    let i2 = choose|i2: int|
                        0 <= i2 < old(self).entries@.len() && old(self).entries@[i2] == (other, p);
                    assert(self.entries@[i2] == (other, p));
                }
            }
        }
    }

    /// Look up the provider registered under `key_id`.
    pub fn find(&self, key_id: u64) -> (r: Option<&Provider>)
        ensures
            r is Some <==> self.contains_id(key_id),
            r matches Some(p) ==> self.holds(key_id, *p),
    {
        match self.position(key_id) {
            Some(i) => Some(&self.entries[i].1),
            None => None,
        }
    }
}

} // verus!
