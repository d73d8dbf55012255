use factor_instances_provider::base::{
    CAP26EntityKind, CAP26KeyKind, FactorSourceID, NetworkID,
};
use factor_instances_provider::cache::{
    FactorInstancesForEachNetworkCache, FactorInstancesForSpecificNetworkCache,
};
use factor_instances_provider::collections::{CollectionsOfFactorInstances, ToCache};
use factor_instances_provider::instances::{AccountVeci, IdentityVeci};
use indexmap::IndexSet;
use factor_instances_provider::derivation::{
    CAP26EntityIndex, DerivationPath, HDFactorInstance, HDFactorSource,
};
use factor_instances_provider::fill_cache::CACHE_SIZE;
use factor_instances_provider::index_assigner::NextDerivationEntityIndexAssigner;
use factor_instances_provider::profile::{
    Account, EntitySecurityState, Persona, Profile, ProfileOnNetwork,
};
use factor_instances_provider::provider::{FactorInstancesProvider, InstancesQuery, ProvidedInstances};

fn provide_one_account_veci(
    cache: &FactorInstancesForEachNetworkCache,
    profile: Profile,
    factor_source: HDFactorSource,
) -> ProvidedInstances {
    let provider = FactorInstancesProvider::new(
        cache,
        NetworkID::Mainnet,
        Some(profile),
        InstancesQuery::AccountVeci { factor_source },
    );
    provider.provide().unwrap()
}

#[test]
fn cache_is_always_filled_account_veci() {
    let cache = FactorInstancesForEachNetworkCache::default();
    let profile = Profile::default();
    let bdfs = HDFactorSource::sample();
    let sut = FactorInstancesProvider::new(
        &cache,
        NetworkID::Mainnet,
        Some(profile),
        InstancesQuery::AccountVeci { factor_source: bdfs.clone() },
    );
    let outcome = sut.provide().unwrap();
    assert!(outcome
        .cache_to_persist
        .peek_all_instances_for_factor_source(bdfs.factor_source_id)
        .unwrap()
        .is_full());
}

#[test]
fn first_call_misses_derives_and_serves_index_zero_second_call_hits_index_one() {
    let bdfs = HDFactorSource::sample();

    // first call: cache starts empty for (Mainnet, F)
    let outcome = provide_one_account_veci(
        &FactorInstancesForEachNetworkCache::default(),
        Profile::default(),
        bdfs.clone(),
    );
    assert_eq!(outcome.instances_to_be_used.0.len(), 1);
    let served = outcome.instances_to_be_used.0[0];
    assert_eq!(served.factor_source_id, bdfs.factor_source_id);
    assert_eq!(served.derivation_path.entity_kind, CAP26EntityKind::Account);
    assert_eq!(served.derivation_path.key_kind, CAP26KeyKind::TransactionSigning);
    assert_eq!(served.derivation_path.entity_index, CAP26EntityIndex::Unsecurified(0));

    let filled = outcome
        .cache_to_persist
        .peek_all_instances_for_factor_source(bdfs.factor_source_id)
        .unwrap();
    assert_eq!(filled.account_count() as u32, CACHE_SIZE);
    assert_eq!(filled.identity_count() as u32, CACHE_SIZE);

    // commit the snapshot, then a second call is served purely from cache
    let committed =
        FactorInstancesForEachNetworkCache::default().committing(outcome.cache_to_persist);
    let outcome2 = provide_one_account_veci(&committed, Profile::default(), bdfs.clone());
    let served2 = outcome2.instances_to_be_used.0[0];
    assert_eq!(served2.derivation_path.entity_index, CAP26EntityIndex::Unsecurified(1));

    let after = outcome2
        .cache_to_persist
        .peek_all_instances_for_factor_source(bdfs.factor_source_id)
        .unwrap();
    assert_eq!(after.account_count() as u32, CACHE_SIZE - 1);
    assert_eq!(after.identity_count() as u32, CACHE_SIZE);
}

#[test]
fn draining_the_cache_triggers_a_refill_and_never_reuses_an_index() {
    let bdfs = HDFactorSource::sample();
    let mut cache = FactorInstancesForEachNetworkCache::default();
    let mut seen: Vec<u32> = Vec::new();
    // enough calls to drain the first fill and force a second derivation
    for _ in 0..(CACHE_SIZE + 5) {
        let outcome = provide_one_account_veci(&cache, Profile::default(), bdfs.clone());
        let served = outcome.instances_to_be_used.0[0];
        match served.derivation_path.entity_index {
            CAP26EntityIndex::Unsecurified(v) => seen.push(v),
            CAP26EntityIndex::Securified(_) => panic!("a veci must be unsecurified"),
        }
        cache = cache.committing(outcome.cache_to_persist);
    }
    for (k, v) in seen.iter().enumerate() {
        assert_eq!(*v, k as u32);
    }
}

#[test]
fn two_factor_sources_have_independent_partitions() {
    let f1 = HDFactorSource::sample();
    let f2 = HDFactorSource::sample_other();
    let outcome1 = provide_one_account_veci(
        &FactorInstancesForEachNetworkCache::default(),
        Profile::default(),
        f1.clone(),
    );
    let committed =
        FactorInstancesForEachNetworkCache::default().committing(outcome1.cache_to_persist);
    let outcome2 = provide_one_account_veci(&committed, Profile::default(), f2.clone());
    // the second factor source misses and starts at its own index zero
    let served2 = outcome2.instances_to_be_used.0[0];
    assert_eq!(served2.derivation_path.entity_index, CAP26EntityIndex::Unsecurified(0));
    assert_eq!(served2.factor_source_id, f2.factor_source_id);
    // and the first factor source's groups are untouched
    let first = outcome2
        .cache_to_persist
        .peek_all_instances_for_factor_source(f1.factor_source_id)
        .unwrap();
    assert_eq!(first.account_count() as u32, CACHE_SIZE);
}

#[test]
fn assigner_starts_past_profile_occupied_indices() {
    let bdfs = HDFactorSource::sample();
    let account = Account {
        entity_security_state: EntitySecurityState::Unsecurified(HDFactorInstance {
            derivation_path: DerivationPath {
                network_id: NetworkID::Mainnet,
                entity_kind: CAP26EntityKind::Account,
                key_kind: CAP26KeyKind::TransactionSigning,
                entity_index: CAP26EntityIndex::Unsecurified(12),
            },
            factor_source_id: bdfs.factor_source_id,
        }),
    };
    let profile = Profile {
        networks: vec![(
            NetworkID::Mainnet,
            ProfileOnNetwork {
                network_id: NetworkID::Mainnet,
                accounts: vec![account],
                personas: Vec::new(),
            },
        )],
    };

    let mut assigner =
        NextDerivationEntityIndexAssigner::new(NetworkID::Mainnet, Some(profile.clone()));
    assert_eq!(
        assigner.next_account_veci(bdfs.factor_source_id),
        CAP26EntityIndex::Unsecurified(13)
    );
    // the local offset advances, so a second request cannot collide
    assert_eq!(
        assigner.next_account_veci(bdfs.factor_source_id),
        CAP26EntityIndex::Unsecurified(14)
    );
    // other templates and key spaces are unaffected
    assert_eq!(
        assigner.next_identity_veci(bdfs.factor_source_id),
        CAP26EntityIndex::Unsecurified(0)
    );
    assert_eq!(
        assigner.next_account_mfa(bdfs.factor_source_id),
        CAP26EntityIndex::Securified(0)
    );

    // a provide over the same profile serves the first free index
    let outcome = provide_one_account_veci(
        &FactorInstancesForEachNetworkCache::default(),
        profile,
        bdfs.clone(),
    );
    let served = outcome.instances_to_be_used.0[0];
    assert_eq!(served.derivation_path.entity_index, CAP26EntityIndex::Unsecurified(13));
}

#[test]
fn assigner_counts_securified_matrix_members() {
    let bdfs = HDFactorSource::sample();
    let matrix = factor_instances_provider::profile::MatrixOfFactorInstances {
        threshold: 1,
        threshold_factors: vec![HDFactorInstance {
            derivation_path: DerivationPath {
                network_id: NetworkID::Mainnet,
                entity_kind: CAP26EntityKind::Account,
                key_kind: CAP26KeyKind::TransactionSigning,
                entity_index: CAP26EntityIndex::Securified(4),
            },
            factor_source_id: bdfs.factor_source_id,
        }],
        override_factors: Vec::new(),
    };
    let profile = Profile {
        networks: vec![(
            NetworkID::Mainnet,
            ProfileOnNetwork {
                network_id: NetworkID::Mainnet,
                accounts: vec![Account {
                    entity_security_state: EntitySecurityState::Securified(matrix),
                }],
                personas: Vec::new(),
            },
        )],
    };
    let mut assigner =
        NextDerivationEntityIndexAssigner::new(NetworkID::Mainnet, Some(profile));
    assert_eq!(
        assigner.next_account_mfa(bdfs.factor_source_id),
        CAP26EntityIndex::Securified(5)
    );
    // the securified range of an unrelated factor source starts at zero
    assert_eq!(
        assigner.next_account_mfa(FactorSourceID::sample_other()),
        CAP26EntityIndex::Securified(0)
    );
}

#[test]
fn personas_occupy_identity_indices() {
    let bdfs = HDFactorSource::sample();
    let persona = Persona {
        entity_security_state: EntitySecurityState::Unsecurified(HDFactorInstance {
            derivation_path: DerivationPath {
                network_id: NetworkID::Mainnet,
                entity_kind: CAP26EntityKind::Identity,
                key_kind: CAP26KeyKind::TransactionSigning,
                entity_index: CAP26EntityIndex::Unsecurified(2),
            },
            factor_source_id: bdfs.factor_source_id,
        }),
    };
    let profile = Profile {
        networks: vec![(
            NetworkID::Mainnet,
            ProfileOnNetwork {
                network_id: NetworkID::Mainnet,
                accounts: Vec::new(),
                personas: vec![persona],
            },
        )],
    };
    let mut assigner =
        NextDerivationEntityIndexAssigner::new(NetworkID::Mainnet, Some(profile));
    assert_eq!(
        assigner.next_identity_veci(bdfs.factor_source_id),
        CAP26EntityIndex::Unsecurified(3)
    );
    assert_eq!(
        assigner.next_account_veci(bdfs.factor_source_id),
        CAP26EntityIndex::Unsecurified(0)
    );
}

#[test]
fn accounts_mfa_serves_per_factor_and_tops_up_both_groups() {
    let f1 = HDFactorSource::sample();
    let f2 = HDFactorSource::sample_other();
    let provider = FactorInstancesProvider::new(
        &FactorInstancesForEachNetworkCache::default(),
        NetworkID::Mainnet,
        Some(Profile::default()),
        InstancesQuery::AccountMfa {
            number_of_instances_per_factor_source: 2,
            factor_sources: vec![f1.clone(), f2.clone()],
        },
    );
    let outcome = provider.provide().unwrap();
    let served = &outcome.instances_to_be_used.0;
    assert_eq!(served.len(), 4);
    for (k, inst) in served.iter().enumerate() {
        let expected_factor = if k < 2 { f1.factor_source_id } else { f2.factor_source_id };
        assert_eq!(inst.factor_source_id, expected_factor);
        assert_eq!(
            inst.derivation_path.entity_index,
            CAP26EntityIndex::Securified((k % 2) as u32)
        );
        assert_eq!(inst.derivation_path.entity_kind, CAP26EntityKind::Account);
    }
    for f in [f1, f2] {
        let groups = outcome
            .cache_to_persist
            .peek_all_instances_for_factor_source(f.factor_source_id)
            .unwrap();
        assert!(groups.is_full());
    }
}

#[test]
fn refill_tops_up_a_partially_filled_identity_group() {
    let bdfs = HDFactorSource::sample();
    let fsid = bdfs.factor_source_id;

    // five personas already exist at identity indices 0..=4, so the assigner's
    // next identity index is 5
    let personas: Vec<Persona> = (0..5)
        .map(|i| Persona {
            entity_security_state: EntitySecurityState::Unsecurified(HDFactorInstance {
                derivation_path: DerivationPath {
                    network_id: NetworkID::Mainnet,
                    entity_kind: CAP26EntityKind::Identity,
                    key_kind: CAP26KeyKind::TransactionSigning,
                    entity_index: CAP26EntityIndex::Unsecurified(i),
                },
                factor_source_id: fsid,
            }),
        })
        .collect();
    let profile = Profile {
        networks: vec![(
            NetworkID::Mainnet,
            ProfileOnNetwork {
                network_id: NetworkID::Mainnet,
                accounts: Vec::new(),
                personas,
            },
        )],
    };

    // the cache already holds five identity handles below that index, and no
    // account handles, so a veci request must derive and refill both groups
    let mut identities = IndexSet::new();
    for i in 0..5 {
        identities.insert(
            IdentityVeci::new(HDFactorInstance {
                derivation_path: DerivationPath {
                    network_id: NetworkID::Mainnet,
                    entity_kind: CAP26EntityKind::Identity,
                    key_kind: CAP26KeyKind::TransactionSigning,
                    entity_index: CAP26EntityIndex::Unsecurified(i),
                },
                factor_source_id: fsid,
            })
            .unwrap(),
        );
    }
    let collection =
        CollectionsOfFactorInstances::new(NetworkID::Mainnet, fsid, IndexSet::new(), identities)
            .unwrap();
    let mut snapshot = FactorInstancesForSpecificNetworkCache::empty(NetworkID::Mainnet);
    snapshot.append_for_factor(fsid, ToCache(collection)).unwrap();
    let root = FactorInstancesForEachNetworkCache::default().committing(snapshot);

    let outcome = provide_one_account_veci(&root, profile, bdfs);
    let groups = outcome
        .cache_to_persist
        .peek_all_instances_for_factor_source(fsid)
        .unwrap();
    assert_eq!(groups.account_count() as u32, CACHE_SIZE);
    assert_eq!(groups.identity_count() as u32, CACHE_SIZE);
}

#[test]
fn duplicate_handles_cannot_enter_a_group() {
    let fsid = FactorSourceID::sample();
    let veci = AccountVeci::new(HDFactorInstance {
        derivation_path: DerivationPath {
            network_id: NetworkID::Mainnet,
            entity_kind: CAP26EntityKind::Account,
            key_kind: CAP26KeyKind::TransactionSigning,
            entity_index: CAP26EntityIndex::Unsecurified(3),
        },
        factor_source_id: fsid,
    })
    .unwrap();
    let mut accounts = IndexSet::new();
    assert!(accounts.insert(veci));
    assert!(!accounts.insert(veci));
    let c = CollectionsOfFactorInstances::new(NetworkID::Mainnet, fsid, accounts, IndexSet::new())
        .unwrap();
    assert_eq!(c.account_count(), 1);
}
