use factor_instances_provider::base::{
    CAP26EntityKind, CAP26KeyKind, CommonError, FactorSourceID, NetworkID,
};
use factor_instances_provider::cache::FactorInstancesForSpecificNetworkCache;
use factor_instances_provider::collections::{CollectionsOfFactorInstances, ToCache};
use factor_instances_provider::derivation::{CAP26EntityIndex, DerivationPath, HDFactorInstance};
use factor_instances_provider::fill_cache::{FillCacheQuantitiesForFactor, FillCacheQuantitiesPerFactor, CACHE_SIZE};
use factor_instances_provider::collections::ToUseDirectly;
use factor_instances_provider::instances::{AccountVeci, IdentityVeci, IsHDFactorInstance};
use indexmap::IndexSet;

fn account_veci(network: NetworkID, fsid: FactorSourceID, index: u32) -> AccountVeci {
    AccountVeci::new(HDFactorInstance {
        derivation_path: DerivationPath {
            network_id: network,
            entity_kind: CAP26EntityKind::Account,
            key_kind: CAP26KeyKind::TransactionSigning,
            entity_index: CAP26EntityIndex::Unsecurified(index),
        },
        factor_source_id: fsid,
    })
    .unwrap()
}

fn identity_veci(network: NetworkID, fsid: FactorSourceID, index: u32) -> IdentityVeci {
    IdentityVeci::new(HDFactorInstance {
        derivation_path: DerivationPath {
            network_id: network,
            entity_kind: CAP26EntityKind::Identity,
            key_kind: CAP26KeyKind::TransactionSigning,
            entity_index: CAP26EntityIndex::Unsecurified(index),
        },
        factor_source_id: fsid,
    })
    .unwrap()
}

#[test]
fn collection_new_accepts_homogeneous_handles() {
    let fsid = FactorSourceID::sample();
    let mut accounts = IndexSet::new();
    accounts.insert(account_veci(NetworkID::Mainnet, fsid, 0));
    accounts.insert(account_veci(NetworkID::Mainnet, fsid, 1));
    let mut identities = IndexSet::new();
    identities.insert(identity_veci(NetworkID::Mainnet, fsid, 0));
    let c = CollectionsOfFactorInstances::new(NetworkID::Mainnet, fsid, accounts, identities)
        .unwrap();
    assert_eq!(c.account_count(), 2);
    assert_eq!(c.identity_count(), 1);
    assert!(!c.is_full());
}

#[test]
fn collection_new_rejects_network_discrepancy() {
    let fsid = FactorSourceID::sample();
    let mut accounts = IndexSet::new();
    accounts.insert(account_veci(NetworkID::Testnet, fsid, 0));
    let r = CollectionsOfFactorInstances::new(
        NetworkID::Mainnet,
        fsid,
        accounts,
        IndexSet::new(),
    );
    assert_eq!(r.unwrap_err(), CommonError::NetworkDiscrepancy);
}

#[test]
fn collection_new_rejects_factor_source_discrepancy() {
    let fsid = FactorSourceID::sample();
    let other = FactorSourceID::sample_other();
    let mut identities = IndexSet::new();
    identities.insert(identity_veci(NetworkID::Mainnet, other, 0));
    let r = CollectionsOfFactorInstances::new(
        NetworkID::Mainnet,
        fsid,
        IndexSet::new(),
        identities,
    );
    assert_eq!(r.unwrap_err(), CommonError::FactorSourceDiscrepancy);
}

#[test]
fn consume_on_empty_cache_is_a_miss_not_an_error() {
    let mut cache = FactorInstancesForSpecificNetworkCache::empty(NetworkID::Mainnet);
    assert!(cache.consume_account_veci(FactorSourceID::sample()).is_none());
    assert!(cache.peek_account_veci(FactorSourceID::sample()).is_none());
    assert!(cache
        .peek_all_instances_for_factor_source(FactorSourceID::sample())
        .is_none());
}

#[test]
fn consume_serves_in_insertion_order_and_signals_last() {
    let fsid = FactorSourceID::sample();
    let mut accounts = IndexSet::new();
    accounts.insert(account_veci(NetworkID::Mainnet, fsid, 5));
    accounts.insert(account_veci(NetworkID::Mainnet, fsid, 7));
    let c = CollectionsOfFactorInstances::new(NetworkID::Mainnet, fsid, accounts, IndexSet::new())
        .unwrap();
    let mut cache = FactorInstancesForSpecificNetworkCache::empty(NetworkID::Mainnet);
    cache.append_for_factor(fsid, ToCache(c)).unwrap();

    let first = cache.consume_account_veci(fsid).unwrap();
    assert_eq!(
        first.instance.derivation_path.entity_index,
        CAP26EntityIndex::Unsecurified(5)
    );
    assert!(!first.was_last_used);

    let second = cache.consume_account_veci(fsid).unwrap();
    assert_eq!(
        second.instance.derivation_path.entity_index,
        CAP26EntityIndex::Unsecurified(7)
    );
    assert!(second.was_last_used);

    assert!(cache.consume_account_veci(fsid).is_none());
}

#[test]
fn peek_is_read_only_and_repeatable() {
    let fsid = FactorSourceID::sample();
    let mut accounts = IndexSet::new();
    accounts.insert(account_veci(NetworkID::Mainnet, fsid, 11));
    let c = CollectionsOfFactorInstances::new(NetworkID::Mainnet, fsid, accounts, IndexSet::new())
        .unwrap();
    let mut cache = FactorInstancesForSpecificNetworkCache::empty(NetworkID::Mainnet);
    cache.append_for_factor(fsid, ToCache(c)).unwrap();

    let first_peek = cache.peek_account_veci(fsid);
    let second_peek = cache.peek_account_veci(fsid);
    assert_eq!(first_peek, second_peek);
    assert_eq!(first_peek, Some(account_veci(NetworkID::Mainnet, fsid, 11)));
    let all1 = cache.peek_all_instances_for_factor_source(fsid).unwrap();
    let all2 = cache.peek_all_instances_for_factor_source(fsid).unwrap();
    assert_eq!(all1.account_count(), 1);
    assert_eq!(all2.account_count(), 1);
    assert_eq!(all1.identity_count(), 0);
    // and the handle is still there afterwards
    assert_eq!(cache.peek_account_veci(fsid), Some(account_veci(NetworkID::Mainnet, fsid, 11)));
}

#[test]
fn append_rejects_wrong_partition() {
    let fsid = FactorSourceID::sample();
    let other = FactorSourceID::sample_other();
    let mut cache = FactorInstancesForSpecificNetworkCache::empty(NetworkID::Mainnet);

    let wrong_network =
        CollectionsOfFactorInstances::empty(NetworkID::Testnet, fsid);
    assert_eq!(
        cache.append_for_factor(fsid, ToCache(wrong_network)),
        Err(CommonError::NetworkDiscrepancy)
    );

    let wrong_factor = CollectionsOfFactorInstances::empty(NetworkID::Mainnet, other);
    assert_eq!(
        cache.append_for_factor(fsid, ToCache(wrong_factor)),
        Err(CommonError::FactorSourceDiscrepancy)
    );
}

#[test]
fn append_merges_and_skips_duplicates() {
    let fsid = FactorSourceID::sample();
    let mut cache = FactorInstancesForSpecificNetworkCache::empty(NetworkID::Mainnet);
    let mut accounts = IndexSet::new();
    accounts.insert(account_veci(NetworkID::Mainnet, fsid, 0));
    accounts.insert(account_veci(NetworkID::Mainnet, fsid, 1));
    let c1 = CollectionsOfFactorInstances::new(NetworkID::Mainnet, fsid, accounts, IndexSet::new())
        .unwrap();
    cache.append_for_factor(fsid, ToCache(c1)).unwrap();

    // one duplicate, one new handle
    let mut more = IndexSet::new();
    more.insert(account_veci(NetworkID::Mainnet, fsid, 1));
    more.insert(account_veci(NetworkID::Mainnet, fsid, 2));
    let c2 = CollectionsOfFactorInstances::new(NetworkID::Mainnet, fsid, more, IndexSet::new())
        .unwrap();
    cache.append_for_factor(fsid, ToCache(c2)).unwrap();

    let all = cache.peek_all_instances_for_factor_source(fsid).unwrap();
    assert_eq!(all.account_count(), 3);
}

#[test]
fn subtracting_existing_floors_at_zero() {
    let fsid = FactorSourceID::sample();
    let quantities = FillCacheQuantitiesForFactor::fill(fsid);
    assert_eq!(quantities.account_vecis, CACHE_SIZE);
    assert_eq!(quantities.identity_vecis, CACHE_SIZE);

    assert_eq!(quantities.subtracting_existing(None), quantities);

    let mut accounts = IndexSet::new();
    for i in 0..4 {
        accounts.insert(account_veci(NetworkID::Mainnet, fsid, i));
    }
    let mut identities = IndexSet::new();
    for i in 0..40 {
        identities.insert(identity_veci(NetworkID::Mainnet, fsid, i));
    }
    let c = CollectionsOfFactorInstances::new(NetworkID::Mainnet, fsid, accounts, identities)
        .unwrap();
    let reduced = quantities.subtracting_existing(Some(c));
    assert_eq!(reduced.account_vecis, CACHE_SIZE - 4);
    assert_eq!(reduced.identity_vecis, 0);
}

#[test]
fn fill_cache_quantities_per_factor_just_holds_one_entry() {
    let fsid = FactorSourceID::sample();
    let item = FillCacheQuantitiesForFactor::new(fsid, 3, 4);
    let per_factor = FillCacheQuantitiesPerFactor::just(item);
    assert_eq!(per_factor.per_factor_source.len(), 1);
    assert_eq!(per_factor.per_factor_source[0].0, fsid);
    assert_eq!(per_factor.per_factor_source[0].1, item);
}

#[test]
fn collection_duplicate_preserves_contents() {
    let fsid = FactorSourceID::sample();
    let mut accounts = IndexSet::new();
    accounts.insert(account_veci(NetworkID::Mainnet, fsid, 9));
    let c = CollectionsOfFactorInstances::new(NetworkID::Mainnet, fsid, accounts, IndexSet::new())
        .unwrap();
    let d = c.duplicate();
    assert_eq!(d.network_id(), c.network_id());
    assert_eq!(d.factor_source(), c.factor_source());
    assert_eq!(d.account_count(), 1);
    assert_eq!(d.first_account(), c.first_account());
}

#[test]
fn to_use_directly_account_veci_requires_exactly_one_handle() {
    let empty = ToUseDirectly::new(Vec::new());
    assert_eq!(empty.account_veci(), Err(CommonError::ExpectedValue));

    let one = account_veci(NetworkID::Mainnet, FactorSourceID::sample(), 0);
    let two = account_veci(NetworkID::Mainnet, FactorSourceID::sample(), 1);
    let too_many = ToUseDirectly::new(vec![one.instance(), two.instance()]);
    assert_eq!(too_many.account_veci(), Err(CommonError::ExpectedValue));

    let just_right = ToUseDirectly::just(one.instance());
    assert_eq!(just_right.account_veci(), Ok(one));
}
