//! The error type and the small identifier and tag types that the rest of the
//! crate builds on.

use vstd::prelude::*;

verus! {

/// Every failure the library can report. Validation errors are raised only at
/// construction boundaries; code holding an already-validated value never
/// observes them.
#[derive(Clone, Copy, Debug, PartialEq, Eq, Hash, Structural)]
pub enum CommonError {
    /// A handle's network disagrees with the partition it was offered to.
    NetworkDiscrepancy,
    /// A handle's factor source disagrees with the partition it was offered to.
    FactorSourceDiscrepancy,
    /// A handle's entity kind does not match the template its wrapper claims.
    EntityKindDiscrepancy,
    /// A handle's key space does not match the template its wrapper claims.
    KeySpaceDiscrepancy,
    /// A handle's key kind does not match the template its wrapper claims.
    KeyKindDiscrepancy,
    /// An internal invariant was violated: a value that must exist is missing.
    ExpectedValue,
}

/// The target ledger network.
#[derive(Clone, Copy, Debug, PartialEq, Eq, Hash, Structural)]
pub enum NetworkID {
    Mainnet,
    Testnet,
}

/// Whether an entity is an account or an identity (persona).
#[derive(Clone, Copy, Debug, PartialEq, Eq, Hash, Structural)]
pub enum CAP26EntityKind {
    Account,
    Identity,
}

/// What a derived key is used for.
#[derive(Clone, Copy, Debug, PartialEq, Eq, Hash, Structural)]
pub enum CAP26KeyKind {
    TransactionSigning,
    AuthenticationSigning,
}

/// The stable identifier of a key-material provider (a seed or device).
#[derive(Clone, Copy, Debug, Eq, Hash)]
pub struct FactorSourceID([u8; 32]);

impl FactorSourceID {
    /// The identifier's bytes, for specifications.
    pub closed spec fn bytes(&self) -> Seq<u8> {
        self.0@
    }

    pub fn new(bytes: [u8; 32]) -> (r: Self)
        ensures
            r.bytes() == bytes@,
    {
        Self(bytes)
    }

    pub fn sample() -> (r: Self)
        ensures
            forall|i: int| 0 <= i < 32 ==> r.bytes()[i] == 0xaa,
    {
        Self::new([0xaa; 32])
    }

    pub fn sample_other() -> (r: Self)
        ensures
            forall|i: int| 0 <= i < 32 ==> r.bytes()[i] == 0xbb,
    {
        Self::new([0xbb; 32])
    }
}

/// Two identifiers with the same bytes are the same identifier.
pub proof fn lemma_factor_source_id_ext(a: FactorSourceID, b: FactorSourceID)
    requires
        forall|i: int| 0 <= i < 32 ==> a.bytes()[i] == b.bytes()[i],
    ensures
        a == b,
{
    broadcast use vstd::array::group_array_axioms;

    assert forall|i: int| 0 <= i < 32 implies a.0@[i] == b.0@[i] by {
        assert(a.bytes()[i] == b.bytes()[i]);
    };
    assert(a.0 =~= b.0);
}

impl PartialEq for FactorSourceID {
    fn eq(&self, other: &Self) -> (r: bool) {
        let mut i: usize = 0;
        while i < 32
            invariant
                0 <= i <= 32,
                forall|j: int| 0 <= j < i ==> self.0@[j] == other.0@[j],
            decreases 32 - i,
        {
            if self.0[i] != other.0[i] {
                return false;
            }
            i = i + 1;
        }
        proof {
            lemma_factor_source_id_ext(*self, *other);
        }
        true
    }
}

impl vstd::std_specs::cmp::PartialEqSpecImpl for FactorSourceID {
    open spec fn obeys_eq_spec() -> bool {
        true
    }

    open spec fn eq_spec(&self, other: &Self) -> bool {
        *self == *other
    }
}

} // verus!
