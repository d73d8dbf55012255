//! The derivation-path value model: which key, of which kind, for which entity,
//! on which network.

use vstd::prelude::*;

use crate::base::{CAP26EntityKind, CAP26KeyKind, FactorSourceID, NetworkID};

verus! {

/// Whether an index belongs to the unsecurified or the securified range.
#[derive(Clone, Copy, Debug, PartialEq, Eq, Hash, Structural)]
pub enum KeySpace {
    Unsecurified,
    Securified,
}

/// A derivation sequence number, tagged with the key space it lives in. An
/// index's key space is fixed at construction and never reassigned.
#[derive(Clone, Copy, Debug, PartialEq, Eq, Hash, Structural)]
pub enum CAP26EntityIndex {
    Securified(u32),
    Unsecurified(u32),
}

impl CAP26EntityIndex {
    /// The untagged sequence number.
    pub open spec fn spec_value(&self) -> u32 {
        match *self {
            CAP26EntityIndex::Securified(v) => v,
            CAP26EntityIndex::Unsecurified(v) => v,
        }
    }

    /// The key space the index belongs to, for specifications.
    pub open spec fn spec_key_space(&self) -> KeySpace {
        match *self {
            CAP26EntityIndex::Securified(_) => KeySpace::Securified,
            CAP26EntityIndex::Unsecurified(_) => KeySpace::Unsecurified,
        }
    }

    /// The successor of `self` within the same key space.
    pub open spec fn spec_next(&self) -> CAP26EntityIndex
        recommends
            self.spec_value() < u32::MAX,
    {
        match *self {
            CAP26EntityIndex::Securified(v) => CAP26EntityIndex::Securified((v + 1) as u32),
            CAP26EntityIndex::Unsecurified(v) => CAP26EntityIndex::Unsecurified((v + 1) as u32),
        }
    }

    /// Advances strictly to the next index in the same key space. Crossing
    /// key spaces is not a valid operation and cannot happen here.
    pub fn next(&self) -> (r: Self)
        requires
            self.spec_value() < u32::MAX,
        ensures
            r == self.spec_next(),
            r.spec_key_space() == self.spec_key_space(),
            r.spec_value() == self.spec_value() + 1,
    {
        match self {
            CAP26EntityIndex::Securified(v) => CAP26EntityIndex::Securified(*v + 1),
            CAP26EntityIndex::Unsecurified(v) => CAP26EntityIndex::Unsecurified(*v + 1),
        }
    }

    pub fn key_space(&self) -> (r: KeySpace)
        ensures
            r == self.spec_key_space(),
    {
        match self {
            CAP26EntityIndex::Securified(_) => KeySpace::Securified,
            CAP26EntityIndex::Unsecurified(_) => KeySpace::Unsecurified,
        }
    }

    pub fn value(&self) -> (r: u32)
        ensures
            r == self.spec_value(),
    {
        match self {
            CAP26EntityIndex::Securified(v) => *v,
            CAP26EntityIndex::Unsecurified(v) => *v,
        }
    }
}

/// The full coordinates of one derivation: together with a factor source it
/// determines a derivable public key.
#[derive(Clone, Copy, Debug, PartialEq, Eq, Hash, Structural)]
pub struct DerivationPath {
    pub network_id: NetworkID,
    pub entity_kind: CAP26EntityKind,
    pub key_kind: CAP26KeyKind,
    pub entity_index: CAP26EntityIndex,
}

impl DerivationPath {
    /// The key space, for specifications: derived from the index's tag.
    pub open spec fn spec_key_space(&self) -> KeySpace {
        self.entity_index.spec_key_space()
    }

    pub fn key_space(&self) -> (r: KeySpace)
        ensures
            r == self.spec_key_space(),
    {
        self.entity_index.key_space()
    }
}

/// An unvalidated derived-key handle: a derivation path paired with the factor
/// source it was (or is to be) derived from. Carries no template guarantee.
#[derive(Clone, Copy, Debug, PartialEq, Eq, Hash)]
pub struct HDFactorInstance {
    pub derivation_path: DerivationPath,
    pub factor_source_id: FactorSourceID,
}

/// A key-material provider, reduced to its stable identifier.
#[derive(Clone, Copy, Debug, PartialEq, Eq, Hash)]
pub struct HDFactorSource {
    pub factor_source_id: FactorSourceID,
}

impl HDFactorSource {
    pub fn new(factor_source_id: FactorSourceID) -> (r: Self)
        ensures
            r.factor_source_id == factor_source_id,
    {
        Self { factor_source_id }
    }

    pub fn sample() -> (r: Self)
        ensures
            forall|i: int| 0 <= i < 32 ==> r.factor_source_id.bytes()[i] == 0xaa,
    {
        Self::new(FactorSourceID::sample())
    }

    pub fn sample_other() -> (r: Self)
        ensures
            forall|i: int| 0 <= i < 32 ==> r.factor_source_id.bytes()[i] == 0xbb,
    {
        Self::new(FactorSourceID::sample_other())
    }
}

} // verus!
