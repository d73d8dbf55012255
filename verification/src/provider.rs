//! The provider orchestrates one request: consult the cache, decide whether a
//! derivation round-trip is unavoidable, size the batch so that the one trip
//! also tops the cache back up, invoke the derivation step once, split the
//! results into "use now" and "back to the cache", and hand back an atomic
//! bundle of the updated snapshot and the handles to use. The caller commits
//! the snapshot; the provider never touches shared state.

use vstd::prelude::*;

use crate::base::{CAP26EntityKind, CAP26KeyKind, CommonError, FactorSourceID, NetworkID};
use crate::cache::{FactorInstancesForEachNetworkCache, FactorInstancesForSpecificNetworkCache};
use crate::collections::{
    merge_dedup, CollectionsOfFactorInstances, DerivationPathPerFactorSource, ToCache,
    ToUseDirectly,
};
use crate::derivation::{CAP26EntityIndex, DerivationPath, HDFactorInstance, HDFactorSource};
use crate::fill_cache::{FillCacheQuantitiesForFactor, CACHE_SIZE};
use crate::index_assigner::NextDerivationEntityIndexAssigner;
use crate::index_set::{
    account_veci_set_elems, account_veci_set_insert, account_veci_set_new,
    identity_veci_set_elems, identity_veci_set_insert, identity_veci_set_new,
};
use crate::instances::{
    is_account_veci_path, is_identity_veci_path, lemma_account_veci_wrap_instance,
    lemma_identity_veci_wrap_instance, AccountVeci, IdentityVeci, IsHDFactorInstance,
};
use crate::keys_collector::{derived_instances, instances_for_factor, KeysCollector};
use crate::profile::Profile;

verus! {

/// The account-veci derivation path with the given index value.
pub open spec fn account_veci_path_at(network: NetworkID, value: int) -> DerivationPath {
    DerivationPath {
        network_id: network,
        entity_kind: CAP26EntityKind::Account,
        key_kind: CAP26KeyKind::TransactionSigning,
        entity_index: CAP26EntityIndex::Unsecurified(value as u32),
    }
}

/// The identity-veci derivation path with the given index value.
pub open spec fn identity_veci_path_at(network: NetworkID, value: int) -> DerivationPath {
    DerivationPath {
        network_id: network,
        entity_kind: CAP26EntityKind::Identity,
        key_kind: CAP26KeyKind::TransactionSigning,
        entity_index: CAP26EntityIndex::Unsecurified(value as u32),
    }
}

/// The account-mfa derivation path with the given index value.
pub open spec fn account_mfa_path_at(network: NetworkID, value: int) -> DerivationPath {
    DerivationPath {
        network_id: network,
        entity_kind: CAP26EntityKind::Account,
        key_kind: CAP26KeyKind::TransactionSigning,
        entity_index: CAP26EntityIndex::Securified(value as u32),
    }
}

/// The account-veci handle with the given index value.
pub open spec fn account_veci_instance_at(
    network: NetworkID,
    factor_source_id: FactorSourceID,
    value: int,
) -> HDFactorInstance {
    HDFactorInstance { derivation_path: account_veci_path_at(network, value), factor_source_id }
}

/// The identity-veci handle with the given index value.
pub open spec fn identity_veci_instance_at(
    network: NetworkID,
    factor_source_id: FactorSourceID,
    value: int,
) -> HDFactorInstance {
    HDFactorInstance { derivation_path: identity_veci_path_at(network, value), factor_source_id }
}

/// The account-mfa handle with the given index value.
pub open spec fn account_mfa_instance_at(
    network: NetworkID,
    factor_source_id: FactorSourceID,
    value: int,
) -> HDFactorInstance {
    HDFactorInstance { derivation_path: account_mfa_path_at(network, value), factor_source_id }
}

/// `count` consecutive account-veci paths starting at `start`.
pub open spec fn account_veci_paths(network: NetworkID, start: int, count: nat) -> Seq<
    DerivationPath,
> {
    Seq::new(count, |i: int| account_veci_path_at(network, start + i))
}

/// `count` consecutive identity-veci paths starting at `start`.
pub open spec fn identity_veci_paths(network: NetworkID, start: int, count: nat) -> Seq<
    DerivationPath,
> {
    Seq::new(count, |i: int| identity_veci_path_at(network, start + i))
}

/// `count` consecutive account-mfa paths starting at `start`.
pub open spec fn account_mfa_paths(network: NetworkID, start: int, count: nat) -> Seq<
    DerivationPath,
> {
    Seq::new(count, |i: int| account_mfa_path_at(network, start + i))
}

/// `count` consecutive validated account-veci handles starting at `start`.
pub open spec fn fresh_account_vecis(
    network: NetworkID,
    factor_source_id: FactorSourceID,
    start: int,
    count: nat,
) -> Seq<AccountVeci> {
    Seq::new(
        count,
        |i: int| AccountVeci::spec_wrap(account_veci_instance_at(network, factor_source_id, start + i)),
    )
}

/// `count` consecutive validated identity-veci handles starting at `start`.
pub open spec fn fresh_identity_vecis(
    network: NetworkID,
    factor_source_id: FactorSourceID,
    start: int,
    count: nat,
) -> Seq<IdentityVeci> {
    Seq::new(
        count,
        |i: int| IdentityVeci::spec_wrap(
            identity_veci_instance_at(network, factor_source_id, start + i),
        ),
    )
}

/// `count` consecutive account-mfa handles starting at `start`.
pub open spec fn fresh_account_mfas(
    network: NetworkID,
    factor_source_id: FactorSourceID,
    start: int,
    count: nat,
) -> Seq<HDFactorInstance> {
    Seq::new(count, |i: int| account_mfa_instance_at(network, factor_source_id, start + i))
}

/// Whether the group's indices grow strictly along the serving order.
pub open spec fn accounts_strictly_increasing(s: Seq<AccountVeci>) -> bool {
    forall|k1: int, k2: int|
        0 <= k1 < k2 < s.len() ==> (#[trigger] s[k1]).spec_instance(
        ).derivation_path.entity_index.spec_value() < (#[trigger] s[k2]).spec_instance(
        ).derivation_path.entity_index.spec_value()
}

/// Whether every index in the group lies strictly above the given value.
pub open spec fn accounts_above(s: Seq<AccountVeci>, value: int) -> bool {
    forall|k: int|
        0 <= k < s.len() ==> (#[trigger] s[k]).spec_instance(
        ).derivation_path.entity_index.spec_value() > value
}

/// Freshly derived account-veci handles are homogeneous, template-valid,
/// strictly increasing, and pairwise distinct.
pub proof fn lemma_fresh_account_vecis_facts(
    network: NetworkID,
    factor_source_id: FactorSourceID,
    start: int,
    count: nat,
)
    requires
        0 <= start,
        start + count <= u32::MAX + 1,
    ensures
        fresh_account_vecis(network, factor_source_id, start, count).len() == count,
        forall|i: int|
            0 <= i < count ==> (#[trigger] fresh_account_vecis(
                network,
                factor_source_id,
                start,
                count,
            )[i]).spec_instance() == account_veci_instance_at(network, factor_source_id, start + i),
        crate::collections::accounts_on_network(
            fresh_account_vecis(network, factor_source_id, start, count),
            network,
        ),
        crate::collections::accounts_from_factor(
            fresh_account_vecis(network, factor_source_id, start, count),
            factor_source_id,
        ),
        forall|i: int|
            0 <= i < count ==> is_account_veci_path(
                (#[trigger] fresh_account_vecis(network, factor_source_id, start, count)[i]).spec_instance().derivation_path,
            ),
        accounts_strictly_increasing(fresh_account_vecis(network, factor_source_id, start, count)),
        accounts_above(fresh_account_vecis(network, factor_source_id, start, count), start - 1),
        forall|k1: int, k2: int|
            0 <= k1 < k2 < count ==> #[trigger] fresh_account_vecis(
                network,
                factor_source_id,
                start,
                count,
            )[k1] != #[trigger] fresh_account_vecis(network, factor_source_id, start, count)[k2],
{
    broadcast use lemma_account_veci_wrap_instance;

    let s = fresh_account_vecis(network, factor_source_id, start, count);
    assert forall|i: int| 0 <= i < count implies (#[trigger] s[i]).spec_instance()
        == account_veci_instance_at(network, factor_source_id, start + i) by {}
    assert forall|k1: int, k2: int| 0 <= k1 < k2 < count implies #[trigger] s[k1] != #[trigger] s[k2] by {
        assert(s[k1].spec_instance().derivation_path.entity_index.spec_value() == (start
            + k1) as u32);
        assert(s[k2].spec_instance().derivation_path.entity_index.spec_value() == (start
            + k2) as u32);
    }
}

/// Freshly derived identity-veci handles are homogeneous, template-valid, and
/// pairwise distinct.
pub proof fn lemma_fresh_identity_vecis_facts(
    network: NetworkID,
    factor_source_id: FactorSourceID,
    start: int,
    count: nat,
)
    requires
        0 <= start,
        start + count <= u32::MAX + 1,
    ensures
        fresh_identity_vecis(network, factor_source_id, start, count).len() == count,
        forall|i: int|
            0 <= i < count ==> (#[trigger] fresh_identity_vecis(
                network,
                factor_source_id,
                start,
                count,
            )[i]).spec_instance() == identity_veci_instance_at(
                network,
                factor_source_id,
                start + i,
            ),
        crate::collections::identities_on_network(
            fresh_identity_vecis(network, factor_source_id, start, count),
            network,
        ),
        crate::collections::identities_from_factor(
            fresh_identity_vecis(network, factor_source_id, start, count),
            factor_source_id,
        ),
        forall|i: int|
            0 <= i < count ==> is_identity_veci_path(
                (#[trigger] fresh_identity_vecis(network, factor_source_id, start, count)[i]).spec_instance().derivation_path,
            ),
        forall|k1: int, k2: int|
            0 <= k1 < k2 < count ==> #[trigger] fresh_identity_vecis(
                network,
                factor_source_id,
                start,
                count,
            )[k1] != #[trigger] fresh_identity_vecis(network, factor_source_id, start, count)[k2],
{
    broadcast use lemma_identity_veci_wrap_instance;

    let s = fresh_identity_vecis(network, factor_source_id, start, count);
    assert forall|i: int| 0 <= i < count implies (#[trigger] s[i]).spec_instance()
        == identity_veci_instance_at(network, factor_source_id, start + i) by {}
    assert forall|k1: int, k2: int| 0 <= k1 < k2 < count implies #[trigger] s[k1] != #[trigger] s[k2] by {
        assert(s[k1].spec_instance().derivation_path.entity_index.spec_value() == (start
            + k1) as u32);
        assert(s[k2].spec_instance().derivation_path.entity_index.spec_value() == (start
            + k2) as u32);
    }
}

/// Builds `count` consecutive account-veci paths starting at `start`.
#[verifier::loop_isolation(false)]
fn build_account_veci_paths(network: NetworkID, start: u32, count: u32) -> (r: Vec<DerivationPath>)
    requires
        start + count <= u32::MAX + 1,
    ensures
        r@ == account_veci_paths(network, start as int, count as nat),
{
    let mut r: Vec<DerivationPath> = Vec::new();
    let mut i: u32 = 0;
    while i < count
        invariant
            0 <= i <= count,
            r@ == account_veci_paths(network, start as int, i as nat),
        decreases count - i,
    {
        r.push(
            DerivationPath {
                network_id: network,
                entity_kind: CAP26EntityKind::Account,
                key_kind: CAP26KeyKind::TransactionSigning,
                entity_index: CAP26EntityIndex::Unsecurified(start + i),
            },
        );
        proof {
            assert(r@ =~= account_veci_paths(network, start as int, (i + 1) as nat));
        }
        i = i + 1;
    }
    r
}

/// Builds `count` consecutive identity-veci paths starting at `start`.
#[verifier::loop_isolation(false)]
fn build_identity_veci_paths(network: NetworkID, start: u32, count: u32) -> (r: Vec<DerivationPath>)
    requires
        start + count <= u32::MAX + 1,
    ensures
        r@ == identity_veci_paths(network, start as int, count as nat),
{
    let mut r: Vec<DerivationPath> = Vec::new();
    let mut i: u32 = 0;
    while i < count
        invariant
            0 <= i <= count,
            r@ == identity_veci_paths(network, start as int, i as nat),
        decreases count - i,
    {
        r.push(
            DerivationPath {
                network_id: network,
                entity_kind: CAP26EntityKind::Identity,
                key_kind: CAP26KeyKind::TransactionSigning,
                entity_index: CAP26EntityIndex::Unsecurified(start + i),
            },
        );
        proof {
            assert(r@ =~= identity_veci_paths(network, start as int, (i + 1) as nat));
        }
        i = i + 1;
    }
    r
}

/// Builds `count` consecutive account-mfa paths starting at `start`.
#[verifier::loop_isolation(false)]
fn build_account_mfa_paths(network: NetworkID, start: u32, count: u32) -> (r: Vec<DerivationPath>)
    requires
        start + count <= u32::MAX + 1,
    ensures
        r@ == account_mfa_paths(network, start as int, count as nat),
{
    let mut r: Vec<DerivationPath> = Vec::new();
    let mut i: u32 = 0;
    while i < count
        invariant
            0 <= i <= count,
            r@ == account_mfa_paths(network, start as int, i as nat),
        decreases count - i,
    {
        r.push(
            DerivationPath {
                network_id: network,
                entity_kind: CAP26EntityKind::Account,
                key_kind: CAP26KeyKind::TransactionSigning,
                entity_index: CAP26EntityIndex::Securified(start + i),
            },
        );
        proof {
            assert(r@ =~= account_mfa_paths(network, start as int, (i + 1) as nat));
        }
        i = i + 1;
    }
    r
}

/// Validates a slice of freshly derived handles into the two cache groups:
/// positions `[lo, mid)` must hold the consecutive account vecis and
/// `[mid, hi)` the consecutive identity vecis of one batch.
#[verifier::loop_isolation(false)]
fn validate_into_groups(
    network: NetworkID,
    factor_source_id: FactorSourceID,
    instances: &Vec<HDFactorInstance>,
    lo: usize,
    mid: usize,
    hi: usize,
    Ghost(account_start): Ghost<int>,
    Ghost(identity_start): Ghost<int>,
) -> (r: ToCache)
    requires
        0 <= lo <= mid <= hi <= instances@.len(),
        0 <= account_start,
        account_start + (mid - lo) <= u32::MAX + 1,
        0 <= identity_start,
        identity_start + (hi - mid) <= u32::MAX + 1,
        forall|j: int|
            lo <= j < mid ==> instances@[j] == account_veci_instance_at(
                network,
                factor_source_id,
                account_start + (j - lo),
            ),
        forall|j: int|
            mid <= j < hi ==> instances@[j] == identity_veci_instance_at(
                network,
                factor_source_id,
                identity_start + (j - mid),
            ),
    ensures
        r.0.spec_network() == network,
        r.0.spec_factor_source_id() == factor_source_id,
        r.0.accounts() == fresh_account_vecis(
            network,
            factor_source_id,
            account_start,
            (mid - lo) as nat,
        ),
        r.0.identities() == fresh_identity_vecis(
            network,
            factor_source_id,
            identity_start,
            (hi - mid) as nat,
        ),
        r.0.wf(),
{
    proof {
        lemma_fresh_account_vecis_facts(network, factor_source_id, account_start, (mid - lo) as nat);
        lemma_fresh_identity_vecis_facts(
            network,
            factor_source_id,
            identity_start,
            (hi - mid) as nat,
        );
    }
    let mut accounts = account_veci_set_new();
    let mut j: usize = lo;
    while j < mid
        invariant
            lo <= j <= mid,
            account_veci_set_elems(accounts) == fresh_account_vecis(
                network,
                factor_source_id,
                account_start,
                (j - lo) as nat,
            ),
        decreases mid - j,
    {
        let veci = AccountVeci::new(instances[j]).unwrap();
        proof {
            let k = j - lo;
            let prefix = fresh_account_vecis(network, factor_source_id, account_start, k as nat);
            assert(veci == AccountVeci::spec_wrap(
                account_veci_instance_at(network, factor_source_id, account_start + k),
            ));
            assert(!prefix.contains(veci)) by {
                broadcast use lemma_account_veci_wrap_instance;

                if prefix.contains(veci) {
                    let w = choose|w: int| 0 <= w < prefix.len() && prefix[w] == veci;
                    assert(prefix[w].spec_instance().derivation_path.entity_index.spec_value() == (
                    account_start + w) as u32);
                    assert(veci.spec_instance().derivation_path.entity_index.spec_value() == (
                    account_start + k) as u32);
                }
            }
        }
        account_veci_set_insert(&mut accounts, veci);
        proof {
            assert(account_veci_set_elems(accounts) =~= fresh_account_vecis(
                network,
                factor_source_id,
                account_start,
                (j + 1 - lo) as nat,
            ));
        }
        j = j + 1;
    }
    let mut identities = identity_veci_set_new();
    let mut j: usize = mid;
    while j < hi
        invariant
            mid <= j <= hi,
            account_veci_set_elems(accounts) == fresh_account_vecis(
                network,
                factor_source_id,
                account_start,
                (mid - lo) as nat,
            ),
            identity_veci_set_elems(identities) == fresh_identity_vecis(
                network,
                factor_source_id,
                identity_start,
                (j - mid) as nat,
            ),
        decreases hi - j,
    {
        let veci = IdentityVeci::new(instances[j]).unwrap();
        proof {
            let k = j - mid;
            let prefix = fresh_identity_vecis(network, factor_source_id, identity_start, k as nat);
            assert(veci == IdentityVeci::spec_wrap(
                identity_veci_instance_at(network, factor_source_id, identity_start + k),
            ));
            assert(!prefix.contains(veci)) by {
                broadcast use lemma_identity_veci_wrap_instance;

                if prefix.contains(veci) {
                    let w = choose|w: int| 0 <= w < prefix.len() && prefix[w] == veci;
                    assert(prefix[w].spec_instance().derivation_path.entity_index.spec_value() == (
                    identity_start + w) as u32);
                    assert(veci.spec_instance().derivation_path.entity_index.spec_value() == (
                    identity_start + k) as u32);
                }
            }
        }
        identity_veci_set_insert(&mut identities, veci);
        proof {
            assert(identity_veci_set_elems(identities) =~= fresh_identity_vecis(
                network,
                factor_source_id,
                identity_start,
                (j + 1 - mid) as nat,
            ));
        }
        j = j + 1;
    }
    let collection = CollectionsOfFactorInstances::new(
        network,
        factor_source_id,
        accounts,
        identities,
    ).unwrap();
    ToCache(collection)
}


/// The handles a provider call returns: the updated snapshot that the caller
/// MUST commit back to durable cache storage (or the refill is lost), and the
/// handles to use directly.
#[derive(Debug)]
pub struct ProvidedInstances {
    /// The caller of a provide call MUST override their original cache with
    /// this updated one if they want to persist the changes.
    pub cache_to_persist: FactorInstancesForSpecificNetworkCache,
    /// The factor instances that were provided to be used directly. Often this
    /// holds just some of the newly created instances, because the rest went
    /// into `cache_to_persist`.
    pub instances_to_be_used: ToUseDirectly,
}

impl ProvidedInstances {
    pub fn new(
        cache: FactorInstancesForSpecificNetworkCache,
        to_use_directly: ToUseDirectly,
    ) -> (r: Self)
        ensures
            r.cache_to_persist == cache,
            r.instances_to_be_used == to_use_directly,
    {
        Self { cache_to_persist: cache, instances_to_be_used: to_use_directly }
    }

    pub fn for_account_veci(
        cache: FactorInstancesForSpecificNetworkCache,
        instance: HDFactorInstance,
    ) -> (r: Self)
        ensures
            r.cache_to_persist == cache,
            r.instances_to_be_used.instances() == seq![instance],
    {
        Self::new(cache, ToUseDirectly::just(instance))
    }
}

/// What one request asks for: one account-creation handle from one factor
/// source, or a batch of securifying handles per factor source.
pub enum InstancesQuery {
    /// One account-veci handle, served at the next free derivation index.
    /// The network is already known by the provider.
    AccountVeci {
        /// The factor to derive with, typically the main device factor.
        factor_source: HDFactorSource,
    },
    /// `number_of_instances_per_factor_source` securified account handles for
    /// **each** of the factor sources, read as the number of accounts to
    /// securify. The network is already known by the provider.
    AccountMfa {
        number_of_instances_per_factor_source: usize,
        factor_sources: Vec<HDFactorSource>,
    },
}

/// How one successful single-instance call relates the factor source's
/// account-veci group before and after, the assigner base it would draw on a
/// miss, and the handle it serves. This is the step a session is made of.
pub open spec fn veci_serve_step(
    network: NetworkID,
    factor_source_id: FactorSourceID,
    acc: Seq<AccountVeci>,
    base: int,
    served: HDFactorInstance,
    acc_post: Seq<AccountVeci>,
) -> bool {
    let served_value = served.derivation_path.entity_index.spec_value() as int;
    &&& (acc.len() > 0 ==> served == acc[0].spec_instance())
    &&& (acc.len() == 0 ==> served == account_veci_instance_at(network, factor_source_id, base))
    &&& (acc.len() >= 2 ==> acc_post == acc.drop_first())
    &&& (acc.len() == 1 ==> acc_post == fresh_account_vecis(
        network,
        factor_source_id,
        served_value + 1,
        CACHE_SIZE as nat,
    ))
    &&& (acc.len() == 0 ==> acc_post == fresh_account_vecis(
        network,
        factor_source_id,
        base + 1,
        CACHE_SIZE as nat,
    ))
}

/// The machine limits under which a single-instance call cannot overflow the
/// index space: every index the call may mint stays within range.
pub open spec fn account_veci_provide_pre(
    pre_cache: FactorInstancesForSpecificNetworkCache,
    assigner: NextDerivationEntityIndexAssigner,
    factor_source_id: FactorSourceID,
) -> bool {
    let acc = pre_cache.spec_accounts_for(factor_source_id);
    let idn = pre_cache.spec_identities_for(factor_source_id);
    &&& pre_cache.wf()
    &&& (acc.len() == 1 ==> acc[0].spec_instance().derivation_path.entity_index.spec_value()
        + CACHE_SIZE <= u32::MAX)
    &&& (acc.len() == 0 ==> assigner.spec_next_account_veci(factor_source_id) + CACHE_SIZE
        <= u32::MAX)
    &&& (acc.len() <= 1 && idn.len() < CACHE_SIZE ==> assigner.spec_next_identity_veci(
        factor_source_id,
    ) + CACHE_SIZE <= u32::MAX)
}

/// Everything one successful single-instance call guarantees, relative to the
/// cache snapshot and assigner it started from.
///
/// In particular the call always succeeds; the served handle matches the
/// account-veci template and the request's factor source and network; the
/// served group afterwards holds exactly the target size after any refill and
/// exactly one less after a plain hit; and no other factor source's entry is
/// touched.
pub open spec fn account_veci_provide_post(
    pre_cache: FactorInstancesForSpecificNetworkCache,
    assigner: NextDerivationEntityIndexAssigner,
    factor_source_id: FactorSourceID,
    r: Result<ProvidedInstances, CommonError>,
) -> bool {
    let network = pre_cache.spec_network();
    let acc = pre_cache.spec_accounts_for(factor_source_id);
    let idn = pre_cache.spec_identities_for(factor_source_id);
    let base_a = assigner.spec_next_account_veci(factor_source_id);
    let base_i = assigner.spec_next_identity_veci(factor_source_id);
    let idn_fill: nat = if idn.len() >= CACHE_SIZE {
        0nat
    } else {
        (CACHE_SIZE - idn.len()) as nat
    };
    let served = if acc.len() > 0 {
        acc[0].spec_instance()
    } else {
        account_veci_instance_at(network, factor_source_id, base_a)
    };
    &&& r is Ok
    &&& (r matches Ok(p) ==> {
        let post = p.cache_to_persist;
        &&& p.instances_to_be_used.instances() == seq![served]
        &&& is_account_veci_path(served.derivation_path)
        &&& served.factor_source_id == factor_source_id
        &&& served.derivation_path.network_id == network
        &&& post.wf()
        &&& post.spec_network() == network
        &&& veci_serve_step(
            network,
            factor_source_id,
            acc,
            base_a,
            served,
            post.spec_accounts_for(factor_source_id),
        )
        &&& post.spec_accounts_for(factor_source_id).len() == if acc.len() >= 2 {
            acc.len() - 1
        } else {
            CACHE_SIZE as int
        }
        &&& (acc.len() >= 2 ==> post.spec_identities_for(factor_source_id) == idn)
        &&& (acc.len() <= 1 ==> post.spec_identities_for(factor_source_id) == merge_dedup(
            idn,
            fresh_identity_vecis(network, factor_source_id, base_i, idn_fill),
        ))
        &&& (acc.len() <= 1 && idn.len() == 0 ==> post.spec_identities_for(factor_source_id).len()
            == CACHE_SIZE)
        &&& (acc.len() <= 1 && idn.len() < CACHE_SIZE && (forall|k: int|
            0 <= k < idn.len() ==> (#[trigger] idn[k]).spec_instance().derivation_path.entity_index.spec_value()
                < base_i) ==> post.spec_identities_for(factor_source_id).len() == CACHE_SIZE)
        &&& (forall|f2: FactorSourceID|
            f2 != factor_source_id ==> #[trigger] post.spec_get(f2) == pre_cache.spec_get(f2))
    })
}

/// Orchestrates requests against one network's cache snapshot: the caller
/// hands in an owned snapshot, receives the updated one back, and is
/// responsible for serialising read-provide-commit sequences per partition.
pub struct FactorInstancesProvider {
    /// A clone of a cache; the caller MUST commit the changes to the original
    /// cache if they want to persist them.
    cache: FactorInstancesForSpecificNetworkCache,
    query: InstancesQuery,
    next_entity_index_assigner: NextDerivationEntityIndexAssigner,
}

impl FactorInstancesProvider {
    /// The working snapshot, for specifications.
    pub closed spec fn spec_cache(&self) -> FactorInstancesForSpecificNetworkCache {
        self.cache
    }

    /// The query driving this request, for specifications.
    pub closed spec fn spec_query(&self) -> InstancesQuery {
        self.query
    }

    /// The index assigner, for specifications.
    pub closed spec fn spec_assigner(&self) -> NextDerivationEntityIndexAssigner {
        self.next_entity_index_assigner
    }

    fn for_specific_network(
        cache: FactorInstancesForSpecificNetworkCache,
        query: InstancesQuery,
        next_entity_index_assigner: NextDerivationEntityIndexAssigner,
    ) -> (r: Self)
        ensures
            r.spec_cache() == cache,
            r.spec_query() == query,
            r.spec_assigner() == next_entity_index_assigner,
    {
        Self { cache, query, next_entity_index_assigner }
    }

    /// Serves one account-veci request from the snapshot, deriving a combined
    /// request-plus-refill batch when the cache misses or runs dry.
    #[verifier::rlimit(100)]
    fn provide_account_veci(
        cache: FactorInstancesForSpecificNetworkCache,
        assigner: NextDerivationEntityIndexAssigner,
        factor_source: HDFactorSource,
    ) -> (r: Result<ProvidedInstances, CommonError>)
        requires
            account_veci_provide_pre(cache, assigner, factor_source.factor_source_id),
        ensures
            account_veci_provide_post(cache, assigner, factor_source.factor_source_id, r),
    {
        broadcast use lemma_account_veci_wrap_instance;

        let mut cache = cache;
        let mut next_entity_index_assigner = assigner;
        let factor_source_id = factor_source.factor_source_id;
        let network = cache.network();
        let ghost pre_cache = cache;
        let ghost acc = pre_cache.spec_accounts_for(factor_source_id);
        let ghost idn = pre_cache.spec_identities_for(factor_source_id);
        let ghost base_a = assigner.spec_next_account_veci(factor_source_id);
        let ghost base_i = assigner.spec_next_identity_veci(factor_source_id);

        let maybe_cached = cache.consume_account_veci(factor_source_id);

        let mut maybe_next_index_for_derivation: Option<CAP26EntityIndex> = None;
        let mut veci: Option<HDFactorInstance> = None;
        match maybe_cached {
            Some(cached) => {
                veci = Some(cached.instance);
                if cached.was_last_used {
                    // the group just drained: refill from the successor index
                    maybe_next_index_for_derivation = Some(
                        cached.instance.derivation_path.entity_index.next(),
                    );
                }
            },
            None => {
                // cache miss: the request itself needs a fresh index
                maybe_next_index_for_derivation = Some(
                    next_entity_index_assigner.next_account_veci(factor_source_id),
                );
            },
        }

        if let Some(next_index_for_derivation) = maybe_next_index_for_derivation {
            // deriving anyway: size the batch to also top the cache back up
            let fill_cache_maybe_over_estimated = FillCacheQuantitiesForFactor::fill(
                factor_source_id,
            );
            let existing = cache.peek_all_instances_for_factor_source(factor_source_id);
            let fill_cache = fill_cache_maybe_over_estimated.subtracting_existing(existing);
            proof {
                assert(fill_cache.account_vecis == CACHE_SIZE);
                assert(fill_cache.identity_vecis as int == if idn.len() >= CACHE_SIZE {
                    0int
                } else {
                    CACHE_SIZE - idn.len()
                });
            }
            // one more account veci when the request was not served from cache
            let request_extra: u32 = if veci.is_none() {
                1
            } else {
                0
            };
            let start_index = next_index_for_derivation.value();
            let ghost start = start_index as int;
            let veci_count = fill_cache.account_vecis + request_extra;
            let mut all_paths = build_account_veci_paths(network, start_index, veci_count);
            let identity_count = fill_cache.identity_vecis;
            let mut identity_start: u32 = 0;
            if identity_count > 0 {
                let identity_index = next_entity_index_assigner.next_identity_veci(
                    factor_source_id,
                );
                identity_start = identity_index.value();
                let mut identity_paths = build_identity_veci_paths(
                    network,
                    identity_start,
                    identity_count,
                );
                all_paths.append(&mut identity_paths);
            }
            proof {
                assert(identity_count > 0 ==> identity_start as int == base_i);
                assert(all_paths@ =~= account_veci_paths(network, start, veci_count as nat)
                    + identity_veci_paths(network, identity_start as int, identity_count as nat));
            }
            let mut per_factor_source: Vec<(FactorSourceID, Vec<DerivationPath>)> = Vec::new();
            per_factor_source.push((factor_source_id, all_paths));
            let paths = DerivationPathPerFactorSource { per_factor_source };
            let ghost combined = account_veci_paths(network, start, veci_count as nat)
                + identity_veci_paths(network, identity_start as int, identity_count as nat);

            let mut factors: Vec<HDFactorSource> = Vec::new();
            factors.push(factor_source);
            let collector = KeysCollector::new(factors, paths);
            proof {
                assert(collector.spec_paths() =~= seq![(factor_source_id, combined)]);
            }
            let derived = collector.collect_keys();
            proof {
                let entries = seq![(factor_source_id, combined)];
                assert(entries.drop_last() =~= Seq::<(FactorSourceID, Seq<DerivationPath>)>::empty());
                assert(derived_instances(entries.drop_last()) == Seq::<HDFactorInstance>::empty());
                assert(derived.instances@ =~= instances_for_factor(factor_source_id, combined));
                assert forall|j: int| 0 <= j < veci_count implies derived.instances@[j]
                    == account_veci_instance_at(network, factor_source_id, start + j) by {
                    assert(combined[j] == account_veci_paths(network, start, veci_count as nat)[j]);
                }
                assert forall|j: int|
                    veci_count <= j < veci_count + identity_count implies derived.instances@[j]
                    == identity_veci_instance_at(
                    network,
                    factor_source_id,
                    identity_start + (j - veci_count),
                ) by {
                    assert(combined[j] == identity_veci_paths(
                        network,
                        identity_start as int,
                        identity_count as nat,
                    )[j - veci_count]);
                }
            }
            let lo = request_extra as usize;
            let mid = veci_count as usize;
            let hi = derived.instances.len();
            let to_cache = validate_into_groups(
                network,
                factor_source_id,
                &derived.instances,
                lo,
                mid,
                hi,
                Ghost(start + request_extra),
                Ghost(identity_start as int),
            );

            let to_use_directly = match &veci {
                Some(v) => ToUseDirectly::just(*v),
                None => ToUseDirectly::just(derived.instances[0]),
            };
            let validated = to_use_directly.account_veci()?;
            veci = Some(validated.instance());
            cache.append_for_factor(factor_source_id, to_cache)?;
            proof {
                // the drained group was empty, so the refill lands exactly
                let cache_start = start + request_extra;
                let fresh_accounts = fresh_account_vecis(
                    network,
                    factor_source_id,
                    cache_start,
                    (mid - lo) as nat,
                );
                lemma_fresh_account_vecis_facts(
                    network,
                    factor_source_id,
                    cache_start,
                    (mid - lo) as nat,
                );
                if acc.len() == 1 {
                    assert(acc.drop_first() =~= Seq::<AccountVeci>::empty());
                } else {
                    assert(acc =~= Seq::<AccountVeci>::empty());
                }
                crate::collections::lemma_merge_dedup_disjoint(
                    Seq::<AccountVeci>::empty(),
                    fresh_accounts,
                );
                assert(merge_dedup(Seq::<AccountVeci>::empty(), fresh_accounts) =~= fresh_accounts);
                assert(cache.spec_accounts_for(factor_source_id) == fresh_accounts);
                assert((mid - lo) as nat == CACHE_SIZE as nat);
                let idn_fill: nat = if idn.len() >= CACHE_SIZE {
                    0nat
                } else {
                    (CACHE_SIZE - idn.len()) as nat
                };
                assert((hi - mid) as nat == idn_fill);
                if identity_count == 0 {
                    assert(fresh_identity_vecis(network, factor_source_id, identity_start as int, 0)
                        =~= fresh_identity_vecis(network, factor_source_id, base_i, 0));
                }
                assert(cache.spec_identities_for(factor_source_id) == merge_dedup(
                    idn,
                    fresh_identity_vecis(network, factor_source_id, base_i, idn_fill),
                ));
                if idn.len() == 0 {
                    lemma_fresh_identity_vecis_facts(
                        network,
                        factor_source_id,
                        identity_start as int,
                        (hi - mid) as nat,
                    );
                    crate::collections::lemma_merge_dedup_disjoint(
                        Seq::<IdentityVeci>::empty(),
                        fresh_identity_vecis(
                            network,
                            factor_source_id,
                            identity_start as int,
                            (hi - mid) as nat,
                        ),
                    );
                    assert(idn =~= Seq::<IdentityVeci>::empty());
                    assert(merge_dedup(
                        Seq::<IdentityVeci>::empty(),
                        fresh_identity_vecis(
                            network,
                            factor_source_id,
                            identity_start as int,
                            (hi - mid) as nat,
                        ),
                    ) =~= fresh_identity_vecis(
                        network,
                        factor_source_id,
                        identity_start as int,
                        (hi - mid) as nat,
                    ));
                }
                if idn.len() < CACHE_SIZE && (forall|k: int|
                    0 <= k < idn.len()
                        ==> (#[trigger] idn[k]).spec_instance().derivation_path.entity_index.spec_value()
                        < base_i) {
                    crate::laws::lemma_identity_refill_reaches_target(
                        network,
                        factor_source_id,
                        idn,
                        base_i,
                    );
                }
            }
        }
        let veci_out = match veci {
            Some(v) => v,
            None => {
                // unreachable: either the cache served the handle or one was
                // freshly derived for the request
                return Err(CommonError::ExpectedValue);
            },
        };
        Ok(ProvidedInstances::for_account_veci(cache, veci_out))
    }
}

/// The handles a batch request serves: for each factor source in order, the
/// requested number of consecutive account-mfa handles starting at the
/// assigner's next securified index.
pub open spec fn mfa_served_instances(
    network: NetworkID,
    assigner: NextDerivationEntityIndexAssigner,
    factor_sources: Seq<HDFactorSource>,
    count: nat,
) -> Seq<HDFactorInstance>
    decreases factor_sources.len(),
{
    if factor_sources.len() == 0 {
        Seq::empty()
    } else {
        mfa_served_instances(network, assigner, factor_sources.drop_last(), count)
            + fresh_account_mfas(
            network,
            factor_sources.last().factor_source_id,
            assigner.spec_next_account_mfa(factor_sources.last().factor_source_id),
            count,
        )
    }
}

/// The machine limits under which a batch request cannot overflow the index
/// space, plus the requirement that no factor source is named twice.
pub open spec fn accounts_mfa_provide_pre(
    pre_cache: FactorInstancesForSpecificNetworkCache,
    assigner: NextDerivationEntityIndexAssigner,
    count: int,
    factor_sources: Seq<HDFactorSource>,
) -> bool {
    &&& pre_cache.wf()
    &&& 0 <= count <= u32::MAX
    &&& forall|k1: int, k2: int|
        0 <= k1 < k2 < factor_sources.len() ==> (#[trigger] factor_sources[k1]).factor_source_id
            != (#[trigger] factor_sources[k2]).factor_source_id
    &&& forall|k: int|
        0 <= k < factor_sources.len() ==> assigner.spec_next_account_mfa(
            (#[trigger] factor_sources[k]).factor_source_id,
        ) + count <= u32::MAX
    &&& forall|k: int|
        0 <= k < factor_sources.len() ==> (pre_cache.spec_accounts_for(
            (#[trigger] factor_sources[k]).factor_source_id,
        ).len() < CACHE_SIZE ==> assigner.spec_next_account_veci(
            factor_sources[k].factor_source_id,
        ) + CACHE_SIZE <= u32::MAX)
    &&& forall|k: int|
        0 <= k < factor_sources.len() ==> (pre_cache.spec_identities_for(
            (#[trigger] factor_sources[k]).factor_source_id,
        ).len() < CACHE_SIZE ==> assigner.spec_next_identity_veci(
            factor_sources[k].factor_source_id,
        ) + CACHE_SIZE <= u32::MAX)
}

/// Everything one successful batch call guarantees: it serves exactly `count`
/// fresh securified handles per factor source, tops each factor source's veci
/// groups up toward the target while it is deriving anyway, and touches no
/// other factor source's entry.
pub open spec fn accounts_mfa_provide_post(
    pre_cache: FactorInstancesForSpecificNetworkCache,
    assigner: NextDerivationEntityIndexAssigner,
    count: nat,
    factor_sources: Seq<HDFactorSource>,
    r: Result<ProvidedInstances, CommonError>,
) -> bool {
    let network = pre_cache.spec_network();
    &&& r is Ok
    &&& (r matches Ok(p) ==> {
        let post = p.cache_to_persist;
        &&& post.wf()
        &&& post.spec_network() == network
        &&& p.instances_to_be_used.instances() == mfa_served_instances(
            network,
            assigner,
            factor_sources,
            count,
        )
        &&& (forall|k: int|
            0 <= k < factor_sources.len() ==> {
                let f = (#[trigger] factor_sources[k]).factor_source_id;
                let acc = pre_cache.spec_accounts_for(f);
                let idn = pre_cache.spec_identities_for(f);
                let acc_fill: nat = if acc.len() >= CACHE_SIZE {
                    0nat
                } else {
                    (CACHE_SIZE - acc.len()) as nat
                };
                let idn_fill: nat = if idn.len() >= CACHE_SIZE {
                    0nat
                } else {
                    (CACHE_SIZE - idn.len()) as nat
                };
                &&& post.spec_accounts_for(f) == merge_dedup(
                    acc,
                    fresh_account_vecis(
                        network,
                        f,
                        assigner.spec_next_account_veci(f),
                        acc_fill,
                    ),
                )
                &&& post.spec_identities_for(f) == merge_dedup(
                    idn,
                    fresh_identity_vecis(
                        network,
                        f,
                        assigner.spec_next_identity_veci(f),
                        idn_fill,
                    ),
                )
            })
        &&& (forall|f2: FactorSourceID|
            (forall|k: int| 0 <= k < factor_sources.len() ==> (#[trigger] factor_sources[k]).factor_source_id != f2)
                ==> #[trigger] post.spec_get(f2) == pre_cache.spec_get(f2))
    })
}

/// Derives, for one factor source, the requested securified handles plus the
/// veci refills that top its groups back up, and merges the refills into the
/// cache while appending the securified handles to `served`.
#[verifier::rlimit(100)]
#[verifier::loop_isolation(false)]
fn derive_mfa_and_refill_for_factor(
    cache: &mut FactorInstancesForSpecificNetworkCache,
    assigner: &mut NextDerivationEntityIndexAssigner,
    factor_source: HDFactorSource,
    count: u32,
    served: &mut Vec<HDFactorInstance>,
)
    requires
        old(cache).wf(),
        old(assigner).spec_next_account_mfa(factor_source.factor_source_id) + count <= u32::MAX,
        old(cache).spec_accounts_for(factor_source.factor_source_id).len() < CACHE_SIZE ==> old(
            assigner,
        ).spec_next_account_veci(factor_source.factor_source_id) + CACHE_SIZE <= u32::MAX,
        old(cache).spec_identities_for(factor_source.factor_source_id).len() < CACHE_SIZE ==> old(
            assigner,
        ).spec_next_identity_veci(factor_source.factor_source_id) + CACHE_SIZE <= u32::MAX,
    ensures
        ({
            let f = factor_source.factor_source_id;
            let network = old(cache).spec_network();
            let acc = old(cache).spec_accounts_for(f);
            let idn = old(cache).spec_identities_for(f);
            let acc_fill: nat = if acc.len() >= CACHE_SIZE {
                0nat
            } else {
                (CACHE_SIZE - acc.len()) as nat
            };
            let idn_fill: nat = if idn.len() >= CACHE_SIZE {
                0nat
            } else {
                (CACHE_SIZE - idn.len()) as nat
            };
            &&& final(cache).wf()
            &&& final(cache).spec_network() == network
            &&& final(cache).spec_accounts_for(f) == merge_dedup(
                acc,
                fresh_account_vecis(
                    network,
                    f,
                    old(assigner).spec_next_account_veci(f),
                    acc_fill,
                ),
            )
            &&& final(cache).spec_identities_for(f) == merge_dedup(
                idn,
                fresh_identity_vecis(
                    network,
                    f,
                    old(assigner).spec_next_identity_veci(f),
                    idn_fill,
                ),
            )
            &&& (forall|f2: FactorSourceID|
                f2 != f ==> #[trigger] final(cache).spec_get(f2) == old(cache).spec_get(f2))
            &&& final(served)@ == old(served)@ + fresh_account_mfas(
                network,
                f,
                old(assigner).spec_next_account_mfa(f),
                count as nat,
            )
            &&& final(assigner).spec_accounts() == old(assigner).spec_accounts()
            &&& final(assigner).spec_personas() == old(assigner).spec_personas()
            &&& (forall|f2: FactorSourceID, t: crate::instances::DerivationTemplate|
                f2 != f ==> #[trigger] final(assigner).spec_offset(f2, t) == old(
                    assigner,
                ).spec_offset(f2, t))
        }),
{
    let factor_source_id = factor_source.factor_source_id;
    let network = cache.network();
    let ghost acc = cache.spec_accounts_for(factor_source_id);
    let ghost idn = cache.spec_identities_for(factor_source_id);
    let ghost base_a = old(assigner).spec_next_account_veci(factor_source_id);
    let ghost base_i = old(assigner).spec_next_identity_veci(factor_source_id);
    let ghost base_m = old(assigner).spec_next_account_mfa(factor_source_id);

    let existing = cache.peek_all_instances_for_factor_source(factor_source_id);
    let fill_cache = FillCacheQuantitiesForFactor::fill(factor_source_id).subtracting_existing(
        existing,
    );
    let mut mfa_start: u32 = 0;
    let mut all_paths: Vec<DerivationPath> = Vec::new();
    if count > 0 {
        let mfa_index = assigner.next_account_mfa(factor_source_id);
        mfa_start = mfa_index.value();
        let mut mfa_paths = build_account_mfa_paths(network, mfa_start, count);
        all_paths.append(&mut mfa_paths);
    }
    let account_count = fill_cache.account_vecis;
    let mut account_start: u32 = 0;
    if account_count > 0 {
        let account_index = assigner.next_account_veci(factor_source_id);
        account_start = account_index.value();
        let mut account_paths = build_account_veci_paths(network, account_start, account_count);
        all_paths.append(&mut account_paths);
    }
    let identity_count = fill_cache.identity_vecis;
    let mut identity_start: u32 = 0;
    if identity_count > 0 {
        let identity_index = assigner.next_identity_veci(factor_source_id);
        identity_start = identity_index.value();
        let mut identity_paths = build_identity_veci_paths(network, identity_start, identity_count);
        all_paths.append(&mut identity_paths);
    }
    proof {
        assert(count > 0 ==> mfa_start as int == base_m);
        assert(account_count > 0 ==> account_start as int == base_a);
        assert(identity_count > 0 ==> identity_start as int == base_i);
        assert(all_paths@ =~= account_mfa_paths(network, mfa_start as int, count as nat)
            + account_veci_paths(network, account_start as int, account_count as nat)
            + identity_veci_paths(network, identity_start as int, identity_count as nat));
    }
    let ghost combined = all_paths@;
    let mut per_factor_source: Vec<(FactorSourceID, Vec<DerivationPath>)> = Vec::new();
    per_factor_source.push((factor_source_id, all_paths));
    let paths = DerivationPathPerFactorSource { per_factor_source };
    let mut factors: Vec<HDFactorSource> = Vec::new();
    factors.push(factor_source);
    let collector = KeysCollector::new(factors, paths);
    proof {
        assert(collector.spec_paths() =~= seq![(factor_source_id, combined)]);
    }
    let derived = collector.collect_keys();
    proof {
        let entries = seq![(factor_source_id, combined)];
        assert(entries.drop_last() =~= Seq::<(FactorSourceID, Seq<DerivationPath>)>::empty());
        assert(derived_instances(entries.drop_last()) == Seq::<HDFactorInstance>::empty());
        assert(derived.instances@ =~= instances_for_factor(factor_source_id, combined));
        assert forall|j: int| 0 <= j < count implies derived.instances@[j]
            == account_mfa_instance_at(network, factor_source_id, mfa_start + j) by {
            assert(combined[j] == account_mfa_paths(network, mfa_start as int, count as nat)[j]);
        }
        assert forall|j: int| count <= j < count + account_count implies derived.instances@[j]
            == account_veci_instance_at(
            network,
            factor_source_id,
            account_start + (j - count),
        ) by {
            assert(combined[j] == account_veci_paths(
                network,
                account_start as int,
                account_count as nat,
            )[j - count]);
        }
        assert forall|j: int|
            count + account_count <= j < count + account_count
                + identity_count implies derived.instances@[j] == identity_veci_instance_at(
            network,
            factor_source_id,
            identity_start + (j - count - account_count),
        ) by {
            assert(combined[j] == identity_veci_paths(
                network,
                identity_start as int,
                identity_count as nat,
            )[j - count - account_count]);
        }
    }
    let hi = derived.instances.len();
    proof {
        assert(hi == count + account_count + identity_count);
    }
    let lo = count as usize;
    let mid = lo + account_count as usize;
    let to_cache = validate_into_groups(
        network,
        factor_source_id,
        &derived.instances,
        lo,
        mid,
        hi,
        Ghost(account_start as int),
        Ghost(identity_start as int),
    );
    let ghost served0 = served@;
    let mut j: usize = 0;
    while j < count as usize
        invariant
            0 <= j <= count,
            served@ == served0 + fresh_account_mfas(
                network,
                factor_source_id,
                mfa_start as int,
                j as nat,
            ),
        decreases count - j,
    {
        served.push(derived.instances[j]);
        proof {
            assert(served@ =~= served0 + fresh_account_mfas(
                network,
                factor_source_id,
                mfa_start as int,
                (j + 1) as nat,
            ));
        }
        j = j + 1;
    }
    let appended = cache.append_for_factor(factor_source_id, to_cache);
    proof {
        assert(appended is Ok);
        if count == 0 {
            assert(fresh_account_mfas(network, factor_source_id, mfa_start as int, 0)
                =~= fresh_account_mfas(network, factor_source_id, base_m, 0));
        }
        assert(served@ =~= served0 + fresh_account_mfas(
            network,
            factor_source_id,
            base_m,
            count as nat,
        ));
        if account_count == 0 {
            assert(fresh_account_vecis(network, factor_source_id, account_start as int, 0)
                =~= fresh_account_vecis(network, factor_source_id, base_a, 0));
        }
        if identity_count == 0 {
            assert(fresh_identity_vecis(network, factor_source_id, identity_start as int, 0)
                =~= fresh_identity_vecis(network, factor_source_id, base_i, 0));
        }
    }
}

impl FactorInstancesProvider {
    /// Serves one batch request: for each factor source, one derivation trip
    /// yields the requested securified handles and the refill of its groups.
    #[verifier::rlimit(100)]
    #[verifier::loop_isolation(false)]
    fn provide_accounts_mfa(
        cache: FactorInstancesForSpecificNetworkCache,
        assigner: NextDerivationEntityIndexAssigner,
        number_of_instances_per_factor_source: usize,
        factor_sources: Vec<HDFactorSource>,
    ) -> (r: Result<ProvidedInstances, CommonError>)
        requires
            accounts_mfa_provide_pre(
                cache,
                assigner,
                number_of_instances_per_factor_source as int,
                factor_sources@,
            ),
        ensures
            accounts_mfa_provide_post(
                cache,
                assigner,
                number_of_instances_per_factor_source as nat,
                factor_sources@,
                r,
            ),
    {
        let mut cache = cache;
        let mut assigner = assigner;
        let ghost cache0 = cache;
        let ghost assigner0 = assigner;
        let ghost network = cache0.spec_network();
        let count: u32 = number_of_instances_per_factor_source as u32;
        let mut served: Vec<HDFactorInstance> = Vec::new();
        let mut k: usize = 0;
        while k < factor_sources.len()
            invariant
                0 <= k <= factor_sources@.len(),
                cache.wf(),
                cache.spec_network() == network,
                served@ == mfa_served_instances(
                    network,
                    assigner0,
                    factor_sources@.take(k as int),
                    count as nat,
                ),
                forall|j: int|
                    0 <= j < k ==> {
                        let f = (#[trigger] factor_sources@[j]).factor_source_id;
                        let acc = cache0.spec_accounts_for(f);
                        let idn = cache0.spec_identities_for(f);
                        let acc_fill: nat = if acc.len() >= CACHE_SIZE {
                            0nat
                        } else {
                            (CACHE_SIZE - acc.len()) as nat
                        };
                        let idn_fill: nat = if idn.len() >= CACHE_SIZE {
                            0nat
                        } else {
                            (CACHE_SIZE - idn.len()) as nat
                        };
                        &&& cache.spec_accounts_for(f) == merge_dedup(
                            acc,
                            fresh_account_vecis(
                                network,
                                f,
                                assigner0.spec_next_account_veci(f),
                                acc_fill,
                            ),
                        )
                        &&& cache.spec_identities_for(f) == merge_dedup(
                            idn,
                            fresh_identity_vecis(
                                network,
                                f,
                                assigner0.spec_next_identity_veci(f),
                                idn_fill,
                            ),
                        )
                    },
                forall|f2: FactorSourceID|
                    (forall|j: int|
                        0 <= j < k ==> (#[trigger] factor_sources@[j]).factor_source_id != f2)
                        ==> #[trigger] cache.spec_get(f2) == cache0.spec_get(f2),
                assigner.spec_accounts() == assigner0.spec_accounts(),
                assigner.spec_personas() == assigner0.spec_personas(),
                forall|f2: FactorSourceID, t: crate::instances::DerivationTemplate|
                    (forall|j: int|
                        0 <= j < k ==> (#[trigger] factor_sources@[j]).factor_source_id != f2)
                        ==> #[trigger] assigner.spec_offset(f2, t) == assigner0.spec_offset(f2, t),
            decreases factor_sources@.len() - k,
        {
            let factor_source = factor_sources[k];
            let ghost f = factor_source.factor_source_id;
            proof {
                assert(forall|j: int|
                    0 <= j < k ==> (#[trigger] factor_sources@[j]).factor_source_id != f);
                assert(cache.spec_get(f) == cache0.spec_get(f));
                assert(assigner.spec_next_account_veci(f) == assigner0.spec_next_account_veci(f));
                assert(assigner.spec_next_identity_veci(f) == assigner0.spec_next_identity_veci(f));
                assert(assigner.spec_next_account_mfa(f) == assigner0.spec_next_account_mfa(f));
            }
            let ghost cache_before = cache;
            let ghost assigner_before = assigner;
            let ghost served_before = served@;
            derive_mfa_and_refill_for_factor(
                &mut cache,
                &mut assigner,
                factor_source,
                count,
                &mut served,
            );
            proof {
                assert(factor_sources@.take(k as int + 1).drop_last() =~= factor_sources@.take(
                    k as int,
                ));
                assert(factor_sources@.take(k as int + 1).last() == factor_sources@[k as int]);
                assert(served@ =~= mfa_served_instances(
                    network,
                    assigner0,
                    factor_sources@.take(k as int + 1),
                    count as nat,
                ));
            }
            k = k + 1;
        }
        proof {
            assert(factor_sources@.take(factor_sources@.len() as int) =~= factor_sources@);
        }
        Ok(ProvidedInstances::new(cache, ToUseDirectly::new(served)))
    }

    /// What `provide` asks of its inputs: only machine limits on the index
    /// space, and that a batch names no factor source twice.
    pub open spec fn provide_pre(&self) -> bool {
        match self.spec_query() {
            InstancesQuery::AccountVeci { factor_source } => account_veci_provide_pre(
                self.spec_cache(),
                self.spec_assigner(),
                factor_source.factor_source_id,
            ),
            InstancesQuery::AccountMfa {
                number_of_instances_per_factor_source,
                factor_sources,
            } => accounts_mfa_provide_pre(
                self.spec_cache(),
                self.spec_assigner(),
                number_of_instances_per_factor_source as int,
                factor_sources@,
            ),
        }
    }

    /// What `provide` guarantees, by query shape.
    pub open spec fn provide_post(&self, r: Result<ProvidedInstances, CommonError>) -> bool {
        match self.spec_query() {
            InstancesQuery::AccountVeci { factor_source } => account_veci_provide_post(
                self.spec_cache(),
                self.spec_assigner(),
                factor_source.factor_source_id,
                r,
            ),
            InstancesQuery::AccountMfa {
                number_of_instances_per_factor_source,
                factor_sources,
            } => accounts_mfa_provide_post(
                self.spec_cache(),
                self.spec_assigner(),
                number_of_instances_per_factor_source as nat,
                factor_sources@,
                r,
            ),
        }
    }

    /// Builds a provider for one request: extracts the owned per-network
    /// snapshot and a fresh index assigner over the profile. The profile is
    /// optional since there is none during an onboarding recovery scan, and it
    /// is only read, never written.
    pub fn new(
        cache: &FactorInstancesForEachNetworkCache,
        network_id: NetworkID,
        profile: Option<Profile>,
        query: InstancesQuery,
    ) -> (r: Self)
        requires
            cache.wf(),
        ensures
            r.spec_query() == query,
            r.spec_cache().wf(),
            r.spec_cache().spec_network() == network_id,
            match cache.spec_get_network(network_id) {
                Some(c) => forall|f: FactorSourceID|
                    crate::cache::same_collection_views(
                        #[trigger] r.spec_cache().spec_get(f),
                        c.spec_get(f),
                    ),
                None => forall|f: FactorSourceID| #[trigger] r.spec_cache().spec_get(f) is None,
            },
            match profile {
                None => r.spec_assigner().spec_accounts() == Seq::<crate::profile::Account>::empty()
                    && r.spec_assigner().spec_personas() == Seq::<crate::profile::Persona>::empty(),
                Some(p) => match p.spec_on_network(network_id) {
                    None => r.spec_assigner().spec_accounts() == Seq::<
                        crate::profile::Account,
                    >::empty() && r.spec_assigner().spec_personas() == Seq::<
                        crate::profile::Persona,
                    >::empty(),
                    Some(pn) => r.spec_assigner().spec_accounts() == pn.accounts@
                        && r.spec_assigner().spec_personas() == pn.personas@,
                },
            },
            forall|f: FactorSourceID, t: crate::instances::DerivationTemplate|
                #[trigger] r.spec_assigner().spec_offset(f, t) == 0,
    {
        let cache = cache.clone_for_network(network_id);
        Self::for_specific_network(
            cache,
            query,
            NextDerivationEntityIndexAssigner::new(network_id, profile),
        )
    }

    /// Serves the request this provider was built for.
    pub fn provide(self) -> (r: Result<ProvidedInstances, CommonError>)
        requires
            self.provide_pre(),
        ensures
            self.provide_post(r),
    {
        let Self { cache, query, next_entity_index_assigner } = self;
        match query {
            InstancesQuery::AccountMfa {
                number_of_instances_per_factor_source,
                factor_sources,
            } => Self::provide_accounts_mfa(
                cache,
                next_entity_index_assigner,
                number_of_instances_per_factor_source,
                factor_sources,
            ),
            InstancesQuery::AccountVeci { factor_source } => Self::provide_account_veci(
                cache,
                next_entity_index_assigner,
                factor_source,
            ),
        }
    }
}
} // verus!
