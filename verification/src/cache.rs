//! The two-level cache of unused validated handles: network, then factor
//! source, then one insertion-ordered group per template. The cache never
//! derives anything itself; it only reports and updates its state, and is
//! passed around as an owned snapshot that the caller commits.

use vstd::prelude::*;

use crate::assoc::{
    assoc_get, lemma_assoc_get_first_match, lemma_assoc_get_none, lemma_assoc_get_push,
    lemma_assoc_get_update,
};
use crate::base::{CommonError, FactorSourceID, NetworkID};
use crate::collections::{merge_dedup, CollectionsOfFactorInstances, ToCache};
use crate::derivation::HDFactorInstance;
use crate::instances::{is_account_veci_path, AccountVeci, IdentityVeci, IsHDFactorInstance};

verus! {

/// A handle served from the cache, together with the signal that it was the
/// last one of its group, which is the trigger for a proactive refill.
#[derive(Clone, Copy, Debug, PartialEq, Eq, Hash)]
pub struct FactorInstanceFromCache {
    pub instance: HDFactorInstance,
    /// Whether this was the last handle of its group: if so, more SHOULD be
    /// derived.
    pub was_last_used: bool,
}

/// The unused handles of one network, per factor source.
#[derive(Debug)]
pub struct FactorInstancesForSpecificNetworkCache {
    network_id: NetworkID,
    per_factor_source: Vec<(FactorSourceID, CollectionsOfFactorInstances)>,
}

impl FactorInstancesForSpecificNetworkCache {
    /// The cache's network, for specifications.
    pub closed spec fn spec_network(&self) -> NetworkID {
        self.network_id
    }

    /// The collection held for a factor source, if any.
    pub closed spec fn spec_get(&self, factor_source_id: FactorSourceID) -> Option<
        CollectionsOfFactorInstances,
    > {
        assoc_get(self.per_factor_source@, factor_source_id)
    }

    /// The account-veci group for a factor source; empty when absent.
    pub open spec fn spec_accounts_for(&self, factor_source_id: FactorSourceID) -> Seq<
        AccountVeci,
    > {
        match self.spec_get(factor_source_id) {
            Some(c) => c.accounts(),
            None => Seq::empty(),
        }
    }

    /// The identity-veci group for a factor source; empty when absent.
    pub open spec fn spec_identities_for(&self, factor_source_id: FactorSourceID) -> Seq<
        IdentityVeci,
    > {
        match self.spec_get(factor_source_id) {
            Some(c) => c.identities(),
            None => Seq::empty(),
        }
    }

    /// Every entry is keyed by its collection's factor source, keys are
    /// unique, and every collection is homogeneous on the cache's network.
    pub closed spec fn wf(&self) -> bool {
        &&& forall|j1: int, j2: int|
            0 <= j1 < j2 < self.per_factor_source@.len() ==> (
            #[trigger] self.per_factor_source@[j1]).0 != (#[trigger] self.per_factor_source@[j2]).0
        &&& forall|j: int|
            0 <= j < self.per_factor_source@.len() ==> {
                &&& (#[trigger] self.per_factor_source@[j]).1.wf()
                &&& self.per_factor_source@[j].1.spec_network() == self.network_id
                &&& self.per_factor_source@[j].1.spec_factor_source_id()
                    == self.per_factor_source@[j].0
            }
    }

    /// A cache with no handles for any factor source.
    pub fn empty(network: NetworkID) -> (r: Self)
        ensures
            r.spec_network() == network,
            forall|f: FactorSourceID| #[trigger] r.spec_get(f) is None,
            r.wf(),
    {
        let r = Self { network_id: network, per_factor_source: Vec::new() };
        proof {
            assert forall|f: FactorSourceID| #[trigger] r.spec_get(f) is None by {
                lemma_assoc_get_none(r.per_factor_source@, f);
            }
        }
        r
    }

    /// The cache's network.
    pub fn network(&self) -> (r: NetworkID)
        ensures
            r == self.spec_network(),
    {
        self.network_id
    }

    /// The position of the entry for a factor source, if present.
    #[verifier::loop_isolation(false)]
    fn find_entry(&self, factor_source_id: FactorSourceID) -> (r: Option<usize>)
        ensures
            match r {
                Some(i) => 0 <= i < self.per_factor_source@.len()
                    && self.per_factor_source@[i as int].0 == factor_source_id && self.spec_get(
                    factor_source_id,
                ) == Some(self.per_factor_source@[i as int].1) && (forall|j: int|
                    0 <= j < i ==> (#[trigger] self.per_factor_source@[j]).0 != factor_source_id),
                None => self.spec_get(factor_source_id) is None,
            },
    {
        let mut i: usize = 0;
        while i < self.per_factor_source.len()
            invariant
                0 <= i <= self.per_factor_source@.len(),
                forall|j: int|
                    0 <= j < i ==> (#[trigger] self.per_factor_source@[j]).0 != factor_source_id,
            decreases self.per_factor_source@.len() - i,
        {
            if self.per_factor_source[i].0 == factor_source_id {
                proof {
                    lemma_assoc_get_first_match(
                        self.per_factor_source@,
                        i as int,
                        factor_source_id,
                    );
                }
                return Some(i);
            }
            i = i + 1;
        }
        proof {
            lemma_assoc_get_none(self.per_factor_source@, factor_source_id);
        }
        None
    }

    /// Serves the next account-veci handle for the factor source and removes
    /// it, reporting whether it was the group's last. Consuming from an absent
    /// or empty group returns nothing and changes nothing.
    pub fn consume_account_veci(&mut self, factor_source_id: FactorSourceID) -> (r: Option<
        FactorInstanceFromCache,
    >)
        requires
            old(self).wf(),
        ensures
            final(self).wf(),
            final(self).spec_network() == old(self).spec_network(),
            old(self).spec_accounts_for(factor_source_id).len() == 0 ==> r is None && *final(self)
                == *old(self),
            old(self).spec_accounts_for(factor_source_id).len() > 0 ==> {
                &&& r == Some(
                    FactorInstanceFromCache {
                        instance: old(self).spec_accounts_for(factor_source_id)[0].spec_instance(),
                        was_last_used: old(self).spec_accounts_for(factor_source_id).len() == 1,
                    },
                )
                &&& is_account_veci_path(
                    old(self).spec_accounts_for(factor_source_id)[0].spec_instance().derivation_path,
                )
                &&& old(self).spec_accounts_for(factor_source_id)[0].spec_instance().factor_source_id
                    == factor_source_id
                &&& old(self).spec_accounts_for(
                    factor_source_id,
                )[0].spec_instance().derivation_path.network_id == old(self).spec_network()
                &&& final(self).spec_accounts_for(factor_source_id) == old(self).spec_accounts_for(
                    factor_source_id,
                ).drop_first()
                &&& final(self).spec_identities_for(factor_source_id) == old(
                    self,
                ).spec_identities_for(factor_source_id)
                &&& final(self).spec_get(factor_source_id) is Some
                &&& forall|f2: FactorSourceID|
                    f2 != factor_source_id ==> #[trigger] final(self).spec_get(f2) == old(
                        self,
                    ).spec_get(f2)
            },
    {
        let found = self.find_entry(factor_source_id);
        match found {
            None => None,
            Some(i) => {
                proof {
                    crate::collections::lemma_wf_members(self.per_factor_source@[i as int].1);
                }
                if self.per_factor_source[i].1.account_count() == 0 {
                    return None;
                }
                let (key, mut coll) = self.per_factor_source.remove(i);
                let consumed = coll.consume_first_account();
                self.per_factor_source.insert(i, (key, coll));
                proof {
                    assert(self.per_factor_source@ =~= old(self).per_factor_source@.update(
                        i as int,
                        (factor_source_id, coll),
                    ));
                    lemma_assoc_get_update(
                        old(self).per_factor_source@,
                        i as int,
                        coll,
                        factor_source_id,
                    );
                    assert forall|j: int| 0 <= j < self.per_factor_source@.len() implies (
                    #[trigger] self.per_factor_source@[j]).0 == old(self).per_factor_source@[j].0 by {}
                }
                match consumed {
                    None => None,  // cannot happen: the group was checked non-empty
                    Some((veci, was_last)) => {
                        proof {
                            use_type_invariant(&veci);
                        }
                        Some(
                            FactorInstanceFromCache {
                                instance: veci.instance(),
                                was_last_used: was_last,
                            },
                        )
                    },
                }
            },
        }
    }

    /// The account-veci handle that `consume_account_veci` would serve next,
    /// without any mutation: the cache is read, never written.
    pub fn peek_account_veci(&self, factor_source_id: FactorSourceID) -> (r: Option<AccountVeci>)
        ensures
            self.spec_accounts_for(factor_source_id).len() == 0 ==> r is None,
            self.spec_accounts_for(factor_source_id).len() > 0 ==> r == Some(
                self.spec_accounts_for(factor_source_id)[0],
            ),
    {
        match self.find_entry(factor_source_id) {
            None => None,
            Some(i) => self.per_factor_source[i].1.first_account(),
        }
    }

    /// A copy of everything cached for the factor source, read-only: used to
    /// size a refill against what is actually still there.
    pub fn peek_all_instances_for_factor_source(&self, factor_source_id: FactorSourceID) -> (r:
        Option<CollectionsOfFactorInstances>)
        requires
            self.wf(),
        ensures
            self.spec_get(factor_source_id) is None ==> r is None,
            match (self.spec_get(factor_source_id), r) {
                (Some(c), Some(rc)) => {
                    &&& rc.spec_network() == self.spec_network()
                    &&& rc.spec_factor_source_id() == factor_source_id
                    &&& rc.accounts() == c.accounts()
                    &&& rc.identities() == c.identities()
                    &&& rc.wf()
                },
                (None, None) => true,
                _ => false,
            },
    {
        match self.find_entry(factor_source_id) {
            None => None,
            Some(i) => Some(self.per_factor_source[i].1.duplicate()),
        }
    }

    /// Merges newly derived handles into the factor source's groups, after
    /// re-checking that they belong to this partition: handles for another
    /// network or factor source are refused, and nothing is changed.
    pub fn append_for_factor(
        &mut self,
        factor_source_id: FactorSourceID,
        instances: ToCache,
    ) -> (r: Result<(), CommonError>)
        requires
            old(self).wf(),
            instances.0.wf(),
        ensures
            final(self).wf(),
            final(self).spec_network() == old(self).spec_network(),
            instances.0.spec_network() != old(self).spec_network() ==> r == Err::<(), _>(
                CommonError::NetworkDiscrepancy,
            ) && *final(self) == *old(self),
            instances.0.spec_network() == old(self).spec_network()
                && instances.0.spec_factor_source_id() != factor_source_id ==> r == Err::<(), _>(
                CommonError::FactorSourceDiscrepancy,
            ) && *final(self) == *old(self),
            instances.0.spec_network() == old(self).spec_network()
                && instances.0.spec_factor_source_id() == factor_source_id ==> {
                &&& r == Ok::<(), CommonError>(())
                &&& final(self).spec_accounts_for(factor_source_id) == merge_dedup(
                    old(self).spec_accounts_for(factor_source_id),
                    instances.0.accounts(),
                )
                &&& final(self).spec_identities_for(factor_source_id) == merge_dedup(
                    old(self).spec_identities_for(factor_source_id),
                    instances.0.identities(),
                )
                &&& final(self).spec_get(factor_source_id) is Some
                &&& forall|f2: FactorSourceID|
                    f2 != factor_source_id ==> #[trigger] final(self).spec_get(f2) == old(
                        self,
                    ).spec_get(f2)
            },
    {
        let to_add = instances.0;
        if !(to_add.network_id() == self.network_id) {
            return Err(CommonError::NetworkDiscrepancy);
        }
        if !(to_add.factor_source() == factor_source_id) {
            return Err(CommonError::FactorSourceDiscrepancy);
        }
        let found = self.find_entry(factor_source_id);
        match found {
            Some(i) => {
                let (key, mut coll) = self.per_factor_source.remove(i);
                coll.merge(&to_add);
                self.per_factor_source.insert(i, (key, coll));
                proof {
                    assert(self.per_factor_source@ =~= old(self).per_factor_source@.update(
                        i as int,
                        (factor_source_id, coll),
                    ));
                    lemma_assoc_get_update(
                        old(self).per_factor_source@,
                        i as int,
                        coll,
                        factor_source_id,
                    );
                    assert forall|j: int| 0 <= j < self.per_factor_source@.len() implies (
                    #[trigger] self.per_factor_source@[j]).0 == old(self).per_factor_source@[j].0 by {}
                }
                Ok(())
            },
            None => {
                let mut coll = CollectionsOfFactorInstances::empty(self.network_id, factor_source_id);
                coll.merge(&to_add);
                proof {
                    lemma_assoc_get_push(old(self).per_factor_source@, factor_source_id, coll);
                }
                self.per_factor_source.push((factor_source_id, coll));
                proof {
                    crate::assoc::lemma_assoc_get_some_iff_has(
                        old(self).per_factor_source@,
                        factor_source_id,
                    );
                    assert(merge_dedup(Seq::<AccountVeci>::empty(), to_add.accounts())
                        == merge_dedup(
                        old(self).spec_accounts_for(factor_source_id),
                        to_add.accounts(),
                    ));
                    assert forall|j: int|
                        0 <= j < self.per_factor_source@.len() - 1 implies (
                    #[trigger] self.per_factor_source@[j]) == old(self).per_factor_source@[j] by {}
                    assert(self.per_factor_source@.last() == (factor_source_id, coll));
                    assert forall|j: int|
                        0 <= j < self.per_factor_source@.len() - 1 implies (
                    #[trigger] self.per_factor_source@[j]).0 != factor_source_id by {}
                }
                Ok(())
            },
        }
    }
}

/// Whether two optional collections hold the same handles in the same order
/// for the same partition.
pub open spec fn same_collection_views(
    a: Option<CollectionsOfFactorInstances>,
    b: Option<CollectionsOfFactorInstances>,
) -> bool {
    match (a, b) {
        (Option::None, Option::None) => true,
        (Option::Some(x), Option::Some(y)) => {
            &&& x.spec_network() == y.spec_network()
            &&& x.spec_factor_source_id() == y.spec_factor_source_id()
            &&& x.accounts() == y.accounts()
            &&& x.identities() == y.identities()
            &&& (x.wf() <==> y.wf())
        },
        _ => false,
    }
}

/// Lookups over entry sequences that agree pointwise on keys and views agree
/// on views for every key.
proof fn lemma_assoc_get_viewwise(
    a: Seq<(FactorSourceID, CollectionsOfFactorInstances)>,
    b: Seq<(FactorSourceID, CollectionsOfFactorInstances)>,
    factor_source_id: FactorSourceID,
)
    requires
        a.len() == b.len(),
        forall|j: int|
            0 <= j < a.len() ==> (#[trigger] a[j]).0 == (#[trigger] b[j]).0
                && same_collection_views(Some(a[j].1), Some(b[j].1)),
    ensures
        same_collection_views(assoc_get(a, factor_source_id), assoc_get(b, factor_source_id)),
    decreases a.len(),
{
    if a.len() > 0 {
        assert(a[0].0 == b[0].0);
        if a[0].0 != factor_source_id {
            assert forall|j: int| 0 <= j < a.drop_first().len() implies (
            #[trigger] a.drop_first()[j]).0 == (#[trigger] b.drop_first()[j]).0
                && same_collection_views(
                Some(a.drop_first()[j].1),
                Some(b.drop_first()[j].1),
            ) by {
                assert(a.drop_first()[j] == a[j + 1]);
                assert(b.drop_first()[j] == b[j + 1]);
            }
            lemma_assoc_get_viewwise(a.drop_first(), b.drop_first(), factor_source_id);
        }
    }
}

impl FactorInstancesForSpecificNetworkCache {
    /// A copy holding the same handles for the same factor sources, in the
    /// same serving order.
    #[verifier::loop_isolation(false)]
    pub fn duplicate(&self) -> (r: Self)
        ensures
            r.spec_network() == self.spec_network(),
            forall|f: FactorSourceID|
                same_collection_views(#[trigger] r.spec_get(f), self.spec_get(f)),
            self.wf() ==> r.wf(),
    {
        let mut out: Vec<(FactorSourceID, CollectionsOfFactorInstances)> = Vec::new();
        let mut i: usize = 0;
        while i < self.per_factor_source.len()
            invariant
                0 <= i <= self.per_factor_source@.len(),
                out@.len() == i,
                forall|j: int|
                    0 <= j < i ==> (#[trigger] out@[j]).0 == self.per_factor_source@[j].0
                        && same_collection_views(
                        Some(out@[j].1),
                        Some(self.per_factor_source@[j].1),
                    ),
            decreases self.per_factor_source@.len() - i,
        {
            let dup = self.per_factor_source[i].1.duplicate();
            out.push((self.per_factor_source[i].0, dup));
            i = i + 1;
        }
        let r = Self { network_id: self.network_id, per_factor_source: out };
        proof {
            assert forall|f: FactorSourceID| same_collection_views(
                #[trigger] r.spec_get(f),
                self.spec_get(f),
            ) by {
                lemma_assoc_get_viewwise(r.per_factor_source@, self.per_factor_source@, f);
            }
        }
        r
    }
}

/// The process-wide cache root: one per-network cache per network, created
/// empty at first use, mutated only by committing a provider result.
#[derive(Debug)]
pub struct FactorInstancesForEachNetworkCache {
    networks: Vec<(NetworkID, FactorInstancesForSpecificNetworkCache)>,
}

impl FactorInstancesForEachNetworkCache {
    /// The per-network cache recorded for a network, if any.
    pub closed spec fn spec_get_network(&self, network_id: NetworkID) -> Option<
        FactorInstancesForSpecificNetworkCache,
    > {
        assoc_get(self.networks@, network_id)
    }

    /// Keys are unique and each per-network cache is well-formed on its key.
    pub closed spec fn wf(&self) -> bool {
        &&& forall|j1: int, j2: int|
            0 <= j1 < j2 < self.networks@.len() ==> (#[trigger] self.networks@[j1]).0 != (
            #[trigger] self.networks@[j2]).0
        &&& forall|j: int|
            0 <= j < self.networks@.len() ==> (#[trigger] self.networks@[j]).1.wf()
                && self.networks@[j].1.spec_network() == self.networks@[j].0
    }

    /// Reads out a copy of the per-network cache for a network, or a new
    /// empty one if none is recorded yet; the root is left untouched.
    #[verifier::loop_isolation(false)]
    pub fn clone_for_network(&self, network_id: NetworkID) -> (r:
        FactorInstancesForSpecificNetworkCache)
        requires
            self.wf(),
        ensures
            r.wf(),
            r.spec_network() == network_id,
            match self.spec_get_network(network_id) {
                Some(c) => forall|f: FactorSourceID|
                    same_collection_views(#[trigger] r.spec_get(f), c.spec_get(f)),
                None => forall|f: FactorSourceID| #[trigger] r.spec_get(f) is None,
            },
    {
        let mut i: usize = 0;
        while i < self.networks.len()
            invariant
                0 <= i <= self.networks@.len(),
                forall|j: int| 0 <= j < i ==> (#[trigger] self.networks@[j]).0 != network_id,
            decreases self.networks@.len() - i,
        {
            if self.networks[i].0 == network_id {
                proof {
                    lemma_assoc_get_first_match(self.networks@, i as int, network_id);
                }
                return self.networks[i].1.duplicate();
            }
            i = i + 1;
        }
        proof {
            lemma_assoc_get_none(self.networks@, network_id);
        }
        FactorInstancesForSpecificNetworkCache::empty(network_id)
    }

    /// Writes an updated per-network snapshot back into the root cache: this
    /// is the commit the caller owes after a successful provider call.
    #[verifier::loop_isolation(false)]
    pub fn committing(self, updated: FactorInstancesForSpecificNetworkCache) -> (r: Self)
        requires
            self.wf(),
            updated.wf(),
        ensures
            r.wf(),
            r.spec_get_network(updated.spec_network()) == Some(updated),
            forall|n2: NetworkID|
                n2 != updated.spec_network() ==> #[trigger] r.spec_get_network(n2)
                    == self.spec_get_network(n2),
    {
        let network_id = updated.network();
        let ghost all = self.networks@;
        let mut networks = self.networks;
        let mut i: usize = 0;
        while i < networks.len()
            invariant
                networks@ == all,
                0 <= i <= all.len(),
                forall|j: int| 0 <= j < i ==> (#[trigger] all[j]).0 != network_id,
            decreases all.len() - i,
        {
            if networks[i].0 == network_id {
                networks.set(i, (network_id, updated));
                proof {
                    lemma_assoc_get_update(all, i as int, updated, network_id);
                    assert forall|j: int| 0 <= j < networks@.len() implies (
                    #[trigger] networks@[j]).0 == all[j].0 by {}
                }
                return Self { networks };
            }
            i = i + 1;
        }
        proof {
            lemma_assoc_get_none(all, network_id);
            lemma_assoc_get_push(all, network_id, updated);
        }
        networks.push((network_id, updated));
        proof {
            assert forall|j: int| 0 <= j < networks@.len() - 1 implies (#[trigger] networks@[j])
                == all[j] by {}
        }
        Self { networks }
    }
}

impl Default for FactorInstancesForEachNetworkCache {
    /// A root cache with nothing recorded for any network.
    fn default() -> (r: Self)
        ensures
            r.wf(),
            forall|n: NetworkID| #[trigger] r.spec_get_network(n) is None,
    {
        let r = Self { networks: Vec::new() };
        proof {
            assert forall|n: NetworkID| #[trigger] r.spec_get_network(n) is None by {
                lemma_assoc_get_none(r.networks@, n);
            }
        }
        r
    }
}

} // verus!
