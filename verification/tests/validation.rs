use factor_instances_provider::base::{
    CAP26EntityKind, CAP26KeyKind, CommonError, FactorSourceID, NetworkID,
};
use factor_instances_provider::derivation::{CAP26EntityIndex, DerivationPath, HDFactorInstance, KeySpace};
use factor_instances_provider::instances::{AccountVeci, IdentityVeci, IsHDFactorInstance};

fn path(
    entity_kind: CAP26EntityKind,
    key_kind: CAP26KeyKind,
    entity_index: CAP26EntityIndex,
) -> DerivationPath {
    DerivationPath { network_id: NetworkID::Mainnet, entity_kind, key_kind, entity_index }
}

fn instance(p: DerivationPath) -> HDFactorInstance {
    HDFactorInstance { derivation_path: p, factor_source_id: FactorSourceID::sample() }
}

#[test]
fn account_veci_new_accepts_matching_template() {
    let p = path(
        CAP26EntityKind::Account,
        CAP26KeyKind::TransactionSigning,
        CAP26EntityIndex::Unsecurified(7),
    );
    let veci = AccountVeci::new(instance(p)).unwrap();
    assert_eq!(veci.instance(), instance(p));
    assert_eq!(veci.network_id(), NetworkID::Mainnet);
    assert_eq!(veci.derivation_entity_index(), CAP26EntityIndex::Unsecurified(7));
}

#[test]
fn account_veci_new_rejects_wrong_entity_kind() {
    let p = path(
        CAP26EntityKind::Identity,
        CAP26KeyKind::TransactionSigning,
        CAP26EntityIndex::Unsecurified(0),
    );
    assert_eq!(AccountVeci::new(instance(p)), Err(CommonError::EntityKindDiscrepancy));
}

#[test]
fn account_veci_new_rejects_wrong_key_space() {
    let p = path(
        CAP26EntityKind::Account,
        CAP26KeyKind::TransactionSigning,
        CAP26EntityIndex::Securified(0),
    );
    assert_eq!(AccountVeci::new(instance(p)), Err(CommonError::KeySpaceDiscrepancy));
}

#[test]
fn account_veci_new_rejects_wrong_key_kind() {
    let p = path(
        CAP26EntityKind::Account,
        CAP26KeyKind::AuthenticationSigning,
        CAP26EntityIndex::Unsecurified(0),
    );
    assert_eq!(AccountVeci::new(instance(p)), Err(CommonError::KeyKindDiscrepancy));
}

#[test]
fn identity_veci_new_accepts_matching_template() {
    let p = path(
        CAP26EntityKind::Identity,
        CAP26KeyKind::TransactionSigning,
        CAP26EntityIndex::Unsecurified(3),
    );
    let veci = IdentityVeci::new(instance(p)).unwrap();
    assert_eq!(veci.instance(), instance(p));
}

#[test]
fn identity_veci_new_rejects_wrong_entity_kind() {
    let p = path(
        CAP26EntityKind::Account,
        CAP26KeyKind::TransactionSigning,
        CAP26EntityIndex::Unsecurified(0),
    );
    assert_eq!(IdentityVeci::new(instance(p)), Err(CommonError::EntityKindDiscrepancy));
}

#[test]
fn identity_veci_new_rejects_wrong_key_space() {
    let p = path(
        CAP26EntityKind::Identity,
        CAP26KeyKind::TransactionSigning,
        CAP26EntityIndex::Securified(9),
    );
    assert_eq!(IdentityVeci::new(instance(p)), Err(CommonError::KeySpaceDiscrepancy));
}

#[test]
fn identity_veci_new_rejects_wrong_key_kind() {
    let p = path(
        CAP26EntityKind::Identity,
        CAP26KeyKind::AuthenticationSigning,
        CAP26EntityIndex::Unsecurified(0),
    );
    assert_eq!(IdentityVeci::new(instance(p)), Err(CommonError::KeyKindDiscrepancy));
}

#[test]
fn entity_index_next_advances_within_key_space() {
    assert_eq!(
        CAP26EntityIndex::Unsecurified(0).next(),
        CAP26EntityIndex::Unsecurified(1)
    );
    assert_eq!(
        CAP26EntityIndex::Securified(41).next(),
        CAP26EntityIndex::Securified(42)
    );
}

#[test]
fn entity_index_key_space_follows_tag() {
    assert_eq!(CAP26EntityIndex::Unsecurified(5).key_space(), KeySpace::Unsecurified);
    assert_eq!(CAP26EntityIndex::Securified(5).key_space(), KeySpace::Securified);
    let p = path(
        CAP26EntityKind::Account,
        CAP26KeyKind::TransactionSigning,
        CAP26EntityIndex::Securified(5),
    );
    assert_eq!(p.key_space(), KeySpace::Securified);
}

#[test]
fn factor_source_ids_compare_by_bytes() {
    assert_eq!(FactorSourceID::new([1; 32]), FactorSourceID::new([1; 32]));
    assert_ne!(FactorSourceID::new([1; 32]), FactorSourceID::new([2; 32]));
    assert_ne!(FactorSourceID::sample(), FactorSourceID::sample_other());
}
