//! Collections of validated handles for one (network, factor source) pair,
//! grouped by template, plus the small carrier types that move handles into
//! and out of the cache.

use vstd::prelude::*;

use crate::base::{CommonError, FactorSourceID, NetworkID};
use crate::derivation::HDFactorInstance;
use crate::fill_cache::CACHE_SIZE;
use crate::index_set::{
    account_veci_set_clone, account_veci_set_elems, account_veci_set_insert, account_veci_set_len,
    account_veci_set_new, account_veci_set_to_vec, identity_veci_set_clone,
    identity_veci_set_elems, identity_veci_set_insert, identity_veci_set_len,
    identity_veci_set_new, identity_veci_set_to_vec,
};
use crate::instances::{AccountVeci, HiddenConstructor, IdentityVeci, IsHDFactorInstance};

verus! {

/// Merges `add` into `base` from the front: an element already present is
/// skipped, a new one is appended. This is how an insertion-ordered set grows.
pub open spec fn merge_dedup<T>(base: Seq<T>, add: Seq<T>) -> Seq<T>
    decreases add.len(),
{
    if add.len() == 0 {
        base
    } else {
        merge_dedup(
            if base.contains(add[0]) {
                base
            } else {
                base.push(add[0])
            },
            add.drop_first(),
        )
    }
}

/// Merging one more element extends the merge of what came before it.
pub proof fn lemma_merge_dedup_push<T>(base: Seq<T>, add: Seq<T>, x: T)
    ensures
        merge_dedup(base, add.push(x)) == (if merge_dedup(base, add).contains(x) {
            merge_dedup(base, add)
        } else {
            merge_dedup(base, add).push(x)
        }),
    decreases add.len(),
{
    if add.len() == 0 {
        assert(add =~= Seq::<T>::empty());
        assert(merge_dedup(base, add) == base);
        let s = add.push(x);
        let base1 = if base.contains(x) {
            base
        } else {
            base.push(x)
        };
        assert(s[0] == x);
        assert(s.drop_first() =~= Seq::<T>::empty());
        assert(merge_dedup(base, s) == merge_dedup(base1, s.drop_first()));
        assert(merge_dedup(base1, s.drop_first()) == base1);
    } else {
        let base1 = if base.contains(add[0]) {
            base
        } else {
            base.push(add[0])
        };
        assert(add.push(x).drop_first() =~= add.drop_first().push(x));
        lemma_merge_dedup_push(base1, add.drop_first(), x);
    }
}

/// Merging elements that are pairwise distinct and all new is concatenation.
pub proof fn lemma_merge_dedup_disjoint<T>(base: Seq<T>, add: Seq<T>)
    requires
        forall|k: int| 0 <= k < add.len() ==> !base.contains(#[trigger] add[k]),
        forall|k1: int, k2: int| 0 <= k1 < k2 < add.len() ==> add[k1] != add[k2],
    ensures
        merge_dedup(base, add) == base + add,
    decreases add.len(),
{
    if add.len() == 0 {
        assert(merge_dedup(base, add) =~= base + add);
    } else {
        let base1 = base.push(add[0]);
        assert(!base.contains(add[0]));
        assert forall|k: int| 0 <= k < add.drop_first().len() implies !base1.contains(
            #[trigger] add.drop_first()[k],
        ) by {
            assert(add.drop_first()[k] == add[k + 1]);
            assert(!base.contains(add[k + 1]));
            if base1.contains(add[k + 1]) {
                let j = choose|j: int| 0 <= j < base1.len() && base1[j] == add[k + 1];
                assert(j == base.len());
                assert(add[0] == add[k + 1]);
            }
        }
        lemma_merge_dedup_disjoint(base1, add.drop_first());
        assert(base1 + add.drop_first() =~= base + add);
    }
}


/// Whether the sequence's elements are pairwise distinct.
pub open spec fn pairwise_distinct<T>(s: Seq<T>) -> bool {
    forall|k1: int, k2: int| 0 <= k1 < k2 < s.len() ==> (#[trigger] s[k1]) != (#[trigger] s[k2])
}

/// Merging into a duplicate-free base yields a duplicate-free sequence: an
/// element already present is skipped, so nothing is ever doubled.
pub proof fn lemma_merge_dedup_distinct<T>(base: Seq<T>, add: Seq<T>)
    requires
        pairwise_distinct(base),
    ensures
        pairwise_distinct(merge_dedup(base, add)),
    decreases add.len(),
{
    if add.len() != 0 {
        let base1 = if base.contains(add[0]) {
            base
        } else {
            base.push(add[0])
        };
        if !base.contains(add[0]) {
            assert forall|k1: int, k2: int| 0 <= k1 < k2 < base1.len() implies (
            #[trigger] base1[k1]) != (#[trigger] base1[k2]) by {
                if k2 == base.len() {
                    assert(base1[k1] == base[k1]);
                    assert(base1[k2] == add[0]);
                    if base[k1] == add[0] {
                        assert(base.contains(add[0]));
                    }
                }
            }
        }
        lemma_merge_dedup_distinct(base1, add.drop_first());
    }
}

/// Whether every handle of the group reports the given network.
pub open spec fn accounts_on_network(s: Seq<AccountVeci>, network: NetworkID) -> bool {
    forall|i: int|
        0 <= i < s.len() ==> (#[trigger] s[i]).spec_instance().derivation_path.network_id
            == network
}

/// Whether every handle of the group reports the given network.
pub open spec fn identities_on_network(s: Seq<IdentityVeci>, network: NetworkID) -> bool {
    forall|i: int|
        0 <= i < s.len() ==> (#[trigger] s[i]).spec_instance().derivation_path.network_id
            == network
}

/// Whether every handle of the group reports the given factor source.
pub open spec fn accounts_from_factor(s: Seq<AccountVeci>, factor_source_id: FactorSourceID) -> bool {
    forall|i: int|
        0 <= i < s.len() ==> (#[trigger] s[i]).spec_instance().factor_source_id == factor_source_id
}

/// Whether every handle of the group reports the given factor source.
pub open spec fn identities_from_factor(
    s: Seq<IdentityVeci>,
    factor_source_id: FactorSourceID,
) -> bool {
    forall|i: int|
        0 <= i < s.len() ==> (#[trigger] s[i]).spec_instance().factor_source_id == factor_source_id
}

/// The unused validated handles of one factor source on one network, one
/// insertion-ordered group per template. Construction re-validates that every
/// member reports the container's network and factor source: a handle proves
/// its template, not its membership in a particular partition.
#[derive(Debug)]
pub struct CollectionsOfFactorInstances {
    hidden_constructor: HiddenConstructor,
    pub network: NetworkID,
    pub factor_source_id: FactorSourceID,
    pub unsecurified_accounts: indexmap::IndexSet<AccountVeci>,
    pub unsecurified_identities: indexmap::IndexSet<IdentityVeci>,
}

impl CollectionsOfFactorInstances {
    /// The account-veci group, in the order handles will be served.
    pub closed spec fn accounts(&self) -> Seq<AccountVeci> {
        account_veci_set_elems(self.unsecurified_accounts)
    }

    /// The identity-veci group, in the order handles will be served.
    pub closed spec fn identities(&self) -> Seq<IdentityVeci> {
        identity_veci_set_elems(self.unsecurified_identities)
    }

    /// The container's network, for specifications.
    pub closed spec fn spec_network(&self) -> NetworkID {
        self.network
    }

    /// The container's factor source, for specifications.
    pub closed spec fn spec_factor_source_id(&self) -> FactorSourceID {
        self.factor_source_id
    }

    /// Homogeneity and uniqueness: every member reports the container's
    /// network and factor source, and no member appears twice. Established by
    /// `new` and preserved by every operation.
    pub closed spec fn wf(&self) -> bool {
        &&& accounts_on_network(self.accounts(), self.network)
        &&& identities_on_network(self.identities(), self.network)
        &&& accounts_from_factor(self.accounts(), self.factor_source_id)
        &&& identities_from_factor(self.identities(), self.factor_source_id)
        &&& pairwise_distinct(self.accounts())
        &&& pairwise_distinct(self.identities())
    }

    /// Succeeds exactly when every handle reports `network` and
    /// `factor_source_id`; a network mismatch is reported first.
    #[verifier::loop_isolation(false)]
    pub fn new(
        network: NetworkID,
        factor_source_id: FactorSourceID,
        unsecurified_accounts: indexmap::IndexSet<AccountVeci>,
        unsecurified_identities: indexmap::IndexSet<IdentityVeci>,
    ) -> (r: Result<Self, CommonError>)
        ensures
            r is Ok <==> {
                &&& accounts_on_network(account_veci_set_elems(unsecurified_accounts), network)
                &&& identities_on_network(identity_veci_set_elems(unsecurified_identities), network)
                &&& accounts_from_factor(
                    account_veci_set_elems(unsecurified_accounts),
                    factor_source_id,
                )
                &&& identities_from_factor(
                    identity_veci_set_elems(unsecurified_identities),
                    factor_source_id,
                )
            },
            !(accounts_on_network(account_veci_set_elems(unsecurified_accounts), network)
                && identities_on_network(
                identity_veci_set_elems(unsecurified_identities),
                network,
            )) ==> r == Err::<Self, _>(CommonError::NetworkDiscrepancy),
            accounts_on_network(account_veci_set_elems(unsecurified_accounts), network)
                && identities_on_network(identity_veci_set_elems(unsecurified_identities), network)
                && !(accounts_from_factor(
                account_veci_set_elems(unsecurified_accounts),
                factor_source_id,
            ) && identities_from_factor(
                identity_veci_set_elems(unsecurified_identities),
                factor_source_id,
            )) ==> r == Err::<Self, _>(CommonError::FactorSourceDiscrepancy),
            r matches Ok(c) ==> {
                &&& c.spec_network() == network
                &&& c.spec_factor_source_id() == factor_source_id
                &&& c.accounts() == account_veci_set_elems(unsecurified_accounts)
                &&& c.identities() == identity_veci_set_elems(unsecurified_identities)
                &&& c.wf()
            },
    {
        let accounts_vec = account_veci_set_to_vec(&unsecurified_accounts);
        let identities_vec = identity_veci_set_to_vec(&unsecurified_identities);

        let mut i: usize = 0;
        while i < accounts_vec.len()
            invariant
                0 <= i <= accounts_vec.len(),
                accounts_vec@ == account_veci_set_elems(unsecurified_accounts),
                forall|j: int|
                    0 <= j < i ==> (#[trigger] accounts_vec@[j]).spec_instance(
                    ).derivation_path.network_id == network,
            decreases accounts_vec.len() - i,
        {
            if !(accounts_vec[i].network_id() == network) {
                return Err(CommonError::NetworkDiscrepancy);
            }
            i = i + 1;
        }
        let mut i: usize = 0;
        while i < identities_vec.len()
            invariant
                0 <= i <= identities_vec.len(),
                identities_vec@ == identity_veci_set_elems(unsecurified_identities),
                forall|j: int|
                    0 <= j < i ==> (#[trigger] identities_vec@[j]).spec_instance(
                    ).derivation_path.network_id == network,
            decreases identities_vec.len() - i,
        {
            if !(identities_vec[i].network_id() == network) {
                return Err(CommonError::NetworkDiscrepancy);
            }
            i = i + 1;
        }
        let mut i: usize = 0;
        while i < accounts_vec.len()
            invariant
                0 <= i <= accounts_vec.len(),
                accounts_vec@ == account_veci_set_elems(unsecurified_accounts),
                forall|j: int|
                    0 <= j < i ==> (#[trigger] accounts_vec@[j]).spec_instance().factor_source_id
                        == factor_source_id,
            decreases accounts_vec.len() - i,
        {
            let fsid = accounts_vec[i].instance().factor_source_id;
            if !(fsid == factor_source_id) {
                return Err(CommonError::FactorSourceDiscrepancy);
            }
            i = i + 1;
        }
        let mut i: usize = 0;
        while i < identities_vec.len()
            invariant
                0 <= i <= identities_vec.len(),
                identities_vec@ == identity_veci_set_elems(unsecurified_identities),
                forall|j: int|
                    0 <= j < i ==> (#[trigger] identities_vec@[j]).spec_instance().factor_source_id
                        == factor_source_id,
            decreases identities_vec.len() - i,
        {
            let fsid = identities_vec[i].instance().factor_source_id;
            if !(fsid == factor_source_id) {
                return Err(CommonError::FactorSourceDiscrepancy);
            }
            i = i + 1;
        }

        Ok(
            Self {
                hidden_constructor: HiddenConstructor,
                network,
                factor_source_id,
                unsecurified_accounts,
                unsecurified_identities,
            },
        )
    }

    /// A collection with no handles at all.
    pub fn empty(network: NetworkID, factor_source_id: FactorSourceID) -> (r: Self)
        ensures
            r.spec_network() == network,
            r.spec_factor_source_id() == factor_source_id,
            r.accounts() == Seq::<AccountVeci>::empty(),
            r.identities() == Seq::<IdentityVeci>::empty(),
            r.wf(),
    {
        Self::new(
            network,
            factor_source_id,
            account_veci_set_new(),
            identity_veci_set_new(),
        ).unwrap()
    }

    /// Whether both groups stand at the target pool size.
    pub fn is_full(&self) -> (r: bool)
        ensures
            r == (self.accounts().len() == CACHE_SIZE && self.identities().len() == CACHE_SIZE),
    {
        account_veci_set_len(&self.unsecurified_accounts) == CACHE_SIZE as usize
            && identity_veci_set_len(&self.unsecurified_identities) == CACHE_SIZE as usize
    }

    /// A copy with the same members in the same order.
    pub fn duplicate(&self) -> (r: Self)
        ensures
            r.spec_network() == self.spec_network(),
            r.spec_factor_source_id() == self.spec_factor_source_id(),
            r.accounts() == self.accounts(),
            r.identities() == self.identities(),
            r.wf() == self.wf(),
    {
        Self {
            hidden_constructor: HiddenConstructor,
            network: self.network,
            factor_source_id: self.factor_source_id,
            unsecurified_accounts: account_veci_set_clone(&self.unsecurified_accounts),
            unsecurified_identities: identity_veci_set_clone(&self.unsecurified_identities),
        }
    }

    /// The container's network.
    pub fn network_id(&self) -> (r: NetworkID)
        ensures
            r == self.spec_network(),
    {
        self.network
    }

    /// The container's factor source.
    pub fn factor_source(&self) -> (r: FactorSourceID)
        ensures
            r == self.spec_factor_source_id(),
    {
        self.factor_source_id
    }

    /// How many account-veci handles are cached.
    pub fn account_count(&self) -> (n: usize)
        ensures
            n == self.accounts().len(),
    {
        account_veci_set_len(&self.unsecurified_accounts)
    }

    /// How many identity-veci handles are cached.
    pub fn identity_count(&self) -> (n: usize)
        ensures
            n == self.identities().len(),
    {
        identity_veci_set_len(&self.unsecurified_identities)
    }

    /// The account-veci handle that would be served next, without removing it.
    pub fn first_account(&self) -> (r: Option<AccountVeci>)
        ensures
            self.accounts().len() == 0 ==> r is None,
            self.accounts().len() > 0 ==> r == Some(self.accounts()[0]),
    {
        crate::index_set::account_veci_set_first(&self.unsecurified_accounts)
    }

    /// Removes and returns the account-veci handle that is served next,
    /// together with whether it was the group's last one.
    pub fn consume_first_account(&mut self) -> (r: Option<(AccountVeci, bool)>)
        requires
            old(self).wf(),
        ensures
            final(self).spec_network() == old(self).spec_network(),
            final(self).spec_factor_source_id() == old(self).spec_factor_source_id(),
            final(self).identities() == old(self).identities(),
            final(self).wf(),
            old(self).accounts().len() == 0 ==> r is None && final(self).accounts() == old(
                self,
            ).accounts(),
            old(self).accounts().len() > 0 ==> r == Some(
                (old(self).accounts()[0], old(self).accounts().len() == 1),
            ) && final(self).accounts() == old(self).accounts().drop_first(),
    {
        let len = account_veci_set_len(&self.unsecurified_accounts);
        let removed = crate::index_set::account_veci_set_shift_remove_first(
            &mut self.unsecurified_accounts,
        );
        match removed {
            None => None,
            Some(v) => {
                proof {
                    assert(forall|i: int|
                        0 <= i < final(self).accounts().len() ==> final(self).accounts()[i] == old(
                            self,
                        ).accounts()[i + 1]);
                    assert forall|k1: int, k2: int|
                        0 <= k1 < k2 < final(self).accounts().len() implies (
                    #[trigger] final(self).accounts()[k1]) != (
                    #[trigger] final(self).accounts()[k2]) by {
                        assert(final(self).accounts()[k1] == old(self).accounts()[k1 + 1]);
                        assert(final(self).accounts()[k2] == old(self).accounts()[k2 + 1]);
                    }
                }
                Some((v, len == 1))
            },
        }
    }

    /// Merges another collection's handles into this one, group by group, in
    /// the other's order, skipping handles already present.
    #[verifier::loop_isolation(false)]
    pub fn merge(&mut self, other: &CollectionsOfFactorInstances)
        requires
            old(self).wf(),
            other.wf(),
            other.spec_network() == old(self).spec_network(),
            other.spec_factor_source_id() == old(self).spec_factor_source_id(),
        ensures
            final(self).spec_network() == old(self).spec_network(),
            final(self).spec_factor_source_id() == old(self).spec_factor_source_id(),
            final(self).accounts() == merge_dedup(old(self).accounts(), other.accounts()),
            final(self).identities() == merge_dedup(old(self).identities(), other.identities()),
            final(self).wf(),
    {
        let accounts_vec = account_veci_set_to_vec(&other.unsecurified_accounts);
        let mut i: usize = 0;
        while i < accounts_vec.len()
            invariant
                0 <= i <= accounts_vec.len(),
                accounts_vec@ == other.accounts(),
                accounts_on_network(other.accounts(), old(self).network),
                accounts_from_factor(other.accounts(), old(self).factor_source_id),
                self.network == old(self).network,
                self.factor_source_id == old(self).factor_source_id,
                self.unsecurified_identities == old(self).unsecurified_identities,
                self.accounts() == merge_dedup(old(self).accounts(), other.accounts().take(i as int)),
                old(self).wf(),
            decreases accounts_vec.len() - i,
        {
            proof {
                lemma_merge_dedup_push(
                    old(self).accounts(),
                    other.accounts().take(i as int),
                    other.accounts()[i as int],
                );
                assert(other.accounts().take(i as int).push(other.accounts()[i as int])
                    =~= other.accounts().take(i as int + 1));
            }
            account_veci_set_insert(&mut self.unsecurified_accounts, accounts_vec[i]);
            i = i + 1;
        }
        proof {
            assert(other.accounts().take(accounts_vec@.len() as int) =~= other.accounts());
        }

        let identities_vec = identity_veci_set_to_vec(&other.unsecurified_identities);
        let mut i: usize = 0;
        while i < identities_vec.len()
            invariant
                0 <= i <= identities_vec.len(),
                identities_vec@ == other.identities(),
                identities_on_network(other.identities(), old(self).network),
                identities_from_factor(other.identities(), old(self).factor_source_id),
                self.network == old(self).network,
                self.factor_source_id == old(self).factor_source_id,
                self.accounts() == merge_dedup(old(self).accounts(), other.accounts()),
                self.identities() == merge_dedup(
                    old(self).identities(),
                    other.identities().take(i as int),
                ),
                old(self).wf(),
            decreases identities_vec.len() - i,
        {
            proof {
                lemma_merge_dedup_push(
                    old(self).identities(),
                    other.identities().take(i as int),
                    other.identities()[i as int],
                );
                assert(other.identities().take(i as int).push(other.identities()[i as int])
                    =~= other.identities().take(i as int + 1));
            }
            identity_veci_set_insert(&mut self.unsecurified_identities, identities_vec[i]);
            i = i + 1;
        }
        proof {
            assert(other.identities().take(identities_vec@.len() as int) =~= other.identities());
            lemma_merge_dedup_wf_accounts(old(self).accounts(), other.accounts(), self.network, self.factor_source_id);
            lemma_merge_dedup_wf_identities(old(self).identities(), other.identities(), self.network, self.factor_source_id);
            lemma_merge_dedup_distinct(old(self).accounts(), other.accounts());
            lemma_merge_dedup_distinct(old(self).identities(), other.identities());
        }
    }
}

/// Merging homogeneous account groups yields a homogeneous group.
proof fn lemma_merge_dedup_wf_accounts(
    base: Seq<AccountVeci>,
    add: Seq<AccountVeci>,
    network: NetworkID,
    factor_source_id: FactorSourceID,
)
    requires
        accounts_on_network(base, network),
        accounts_on_network(add, network),
        accounts_from_factor(base, factor_source_id),
        accounts_from_factor(add, factor_source_id),
    ensures
        accounts_on_network(merge_dedup(base, add), network),
        accounts_from_factor(merge_dedup(base, add), factor_source_id),
    decreases add.len(),
{
    if add.len() != 0 {
        let base1 = if base.contains(add[0]) {
            base
        } else {
            base.push(add[0])
        };
        assert forall|i: int| 0 <= i < add.drop_first().len() implies (#[trigger] add.drop_first()[i])
            == add[i + 1] by {}
        lemma_merge_dedup_wf_accounts(base1, add.drop_first(), network, factor_source_id);
    }
}

/// Merging homogeneous identity groups yields a homogeneous group.
proof fn lemma_merge_dedup_wf_identities(
    base: Seq<IdentityVeci>,
    add: Seq<IdentityVeci>,
    network: NetworkID,
    factor_source_id: FactorSourceID,
)
    requires
        identities_on_network(base, network),
        identities_on_network(add, network),
        identities_from_factor(base, factor_source_id),
        identities_from_factor(add, factor_source_id),
    ensures
        identities_on_network(merge_dedup(base, add), network),
        identities_from_factor(merge_dedup(base, add), factor_source_id),
    decreases add.len(),
{
    if add.len() != 0 {
        let base1 = if base.contains(add[0]) {
            base
        } else {
            base.push(add[0])
        };
        assert forall|i: int| 0 <= i < add.drop_first().len() implies (#[trigger] add.drop_first()[i])
            == add[i + 1] by {}
        lemma_merge_dedup_wf_identities(base1, add.drop_first(), network, factor_source_id);
    }
}

/// A well-formed collection's members all report its network and factor
/// source.
pub proof fn lemma_wf_members(c: CollectionsOfFactorInstances)
    requires
        c.wf(),
    ensures
        accounts_on_network(c.accounts(), c.spec_network()),
        identities_on_network(c.identities(), c.spec_network()),
        accounts_from_factor(c.accounts(), c.spec_factor_source_id()),
        identities_from_factor(c.identities(), c.spec_factor_source_id()),
{
}

/// Law: duplicates are impossible. Within a well-formed collection no two
/// members of a group share a derivation path: membership is keyed by the
/// path, since all members carry the collection's factor source.
pub proof fn lemma_wf_unique_paths(c: CollectionsOfFactorInstances)
    requires
        c.wf(),
    ensures
        forall|k1: int, k2: int|
            0 <= k1 < k2 < c.accounts().len() ==> (#[trigger] c.accounts()[k1]).spec_instance().derivation_path
                != (#[trigger] c.accounts()[k2]).spec_instance().derivation_path,
        forall|k1: int, k2: int|
            0 <= k1 < k2 < c.identities().len() ==> (#[trigger] c.identities()[k1]).spec_instance().derivation_path
                != (#[trigger] c.identities()[k2]).spec_instance().derivation_path,
{
    assert forall|k1: int, k2: int|
        0 <= k1 < k2 < c.accounts().len() implies (
    #[trigger] c.accounts()[k1]).spec_instance().derivation_path != (
    #[trigger] c.accounts()[k2]).spec_instance().derivation_path by {
        if c.accounts()[k1].spec_instance().derivation_path == c.accounts()[k2].spec_instance().derivation_path {
            assert(c.accounts()[k1].spec_instance().factor_source_id == c.factor_source_id);
            assert(c.accounts()[k2].spec_instance().factor_source_id == c.factor_source_id);
            crate::instances::lemma_account_veci_ext(c.accounts()[k1], c.accounts()[k2]);
        }
    }
    assert forall|k1: int, k2: int|
        0 <= k1 < k2 < c.identities().len() implies (
    #[trigger] c.identities()[k1]).spec_instance().derivation_path != (
    #[trigger] c.identities()[k2]).spec_instance().derivation_path by {
        if c.identities()[k1].spec_instance().derivation_path == c.identities()[k2].spec_instance().derivation_path {
            assert(c.identities()[k1].spec_instance().factor_source_id == c.factor_source_id);
            assert(c.identities()[k2].spec_instance().factor_source_id == c.factor_source_id);
            crate::instances::lemma_identity_veci_ext(c.identities()[k1], c.identities()[k2]);
        }
    }
}

/// Newly derived handles on their way into the cache, validated and grouped.
#[derive(Debug)]
pub struct ToCache(pub CollectionsOfFactorInstances);

/// The handles a provider call hands back for immediate use.
#[derive(Debug)]
pub struct ToUseDirectly(pub Vec<HDFactorInstance>);

impl ToUseDirectly {
    /// The handles, in the order they were produced.
    pub open spec fn instances(&self) -> Seq<HDFactorInstance> {
        self.0@
    }

    pub fn new(factor_instances: Vec<HDFactorInstance>) -> (r: Self)
        ensures
            r.instances() == factor_instances@,
    {
        Self(factor_instances)
    }

    pub fn just(factor_instance: HDFactorInstance) -> (r: Self)
        ensures
            r.instances() == seq![factor_instance],
    {
        let mut v: Vec<HDFactorInstance> = Vec::new();
        v.push(factor_instance);
        proof {
            assert(v@ =~= seq![factor_instance]);
        }
        Self::new(v)
    }

    /// The single handle, validated as an account veci. Fails with
    /// `ExpectedValue` unless exactly one handle is held; then validates it.
    pub fn account_veci(self) -> (r: Result<AccountVeci, CommonError>)
        ensures
            self.instances().len() != 1 ==> r == Err::<AccountVeci, _>(CommonError::ExpectedValue),
            self.instances().len() == 1 ==> r == crate::instances::account_veci_new_spec(
                self.instances()[0],
            ),
    {
        if self.0.len() != 1 {
            return Err(CommonError::ExpectedValue);
        }
        AccountVeci::new(self.0[0])
    }
}

/// The derivation paths one batch asks the derivation engine for, grouped by
/// the factor source each path is to be derived with.
#[derive(Debug)]
pub struct DerivationPathPerFactorSource {
    pub per_factor_source: Vec<(FactorSourceID, Vec<crate::derivation::DerivationPath>)>,
}

impl DerivationPathPerFactorSource {
    /// The batch's entries, each factor source with its paths in order.
    pub open spec fn entries(&self) -> Seq<(FactorSourceID, Seq<crate::derivation::DerivationPath>)> {
        Seq::new(
            self.per_factor_source@.len(),
            |i: int| (self.per_factor_source@[i].0, self.per_factor_source@[i].1@),
        )
    }
}

} // verus!
