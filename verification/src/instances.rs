//! Validated handle types. Each wraps an [`HDFactorInstance`] and statically
//! guarantees that its derivation path matches one fixed usage template. The
//! checked factory is the sole path to construction, so downstream code can
//! treat a value of these types as unconditionally valid.

use vstd::prelude::*;

use crate::base::{CAP26EntityKind, CAP26KeyKind, CommonError, NetworkID};
use crate::derivation::{CAP26EntityIndex, DerivationPath, HDFactorInstance, KeySpace};

verus! {

/// A private-by-convention field that keeps callers from building the
/// containing struct with a literal, so the checked factory is the only door.
#[derive(Clone, Copy, Default, Debug, PartialEq, Eq, Hash, Structural)]
pub struct HiddenConstructor;

/// One of the five fixed usage patterns a validated handle can match.
#[derive(Clone, Copy, Debug, PartialEq, Eq, Hash, Structural)]
pub enum DerivationTemplate {
    /// Account, Unsecurified, TransactionSigning.
    /// Veci: Virtual Entity Creating (Factor) Instance.
    AccountVeci,
    /// Identity, Unsecurified, TransactionSigning.
    /// Veci: Virtual Entity Creating (Factor) Instance.
    IdentityVeci,
    /// Account, Securified, AuthenticationSigning.
    AccountRola,
    /// Account, Securified, TransactionSigning.
    AccountMfa,
    /// Identity, Securified, TransactionSigning.
    IdentityMfa,
}

/// Whether a path matches the account-veci template:
/// Account, Unsecurified, TransactionSigning.
pub open spec fn is_account_veci_path(path: DerivationPath) -> bool {
    &&& path.entity_kind == CAP26EntityKind::Account
    &&& path.spec_key_space() == KeySpace::Unsecurified
    &&& path.key_kind == CAP26KeyKind::TransactionSigning
}

/// Whether a path matches the identity-veci template:
/// Identity, Unsecurified, TransactionSigning.
pub open spec fn is_identity_veci_path(path: DerivationPath) -> bool {
    &&& path.entity_kind == CAP26EntityKind::Identity
    &&& path.spec_key_space() == KeySpace::Unsecurified
    &&& path.key_kind == CAP26KeyKind::TransactionSigning
}

/// Exactly what `AccountVeci::new` returns on each input.
pub open spec fn account_veci_new_spec(instance: HDFactorInstance) -> Result<
    AccountVeci,
    CommonError,
> {
    if instance.derivation_path.entity_kind != CAP26EntityKind::Account {
        Err(CommonError::EntityKindDiscrepancy)
    } else if instance.derivation_path.spec_key_space() != KeySpace::Unsecurified {
        Err(CommonError::KeySpaceDiscrepancy)
    } else if instance.derivation_path.key_kind != CAP26KeyKind::TransactionSigning {
        Err(CommonError::KeyKindDiscrepancy)
    } else {
        Ok(AccountVeci::spec_wrap(instance))
    }
}

/// Exactly what `IdentityVeci::new` returns on each input.
pub open spec fn identity_veci_new_spec(instance: HDFactorInstance) -> Result<
    IdentityVeci,
    CommonError,
> {
    if instance.derivation_path.entity_kind != CAP26EntityKind::Identity {
        Err(CommonError::EntityKindDiscrepancy)
    } else if instance.derivation_path.spec_key_space() != KeySpace::Unsecurified {
        Err(CommonError::KeySpaceDiscrepancy)
    } else if instance.derivation_path.key_kind != CAP26KeyKind::TransactionSigning {
        Err(CommonError::KeyKindDiscrepancy)
    } else {
        Ok(IdentityVeci::spec_wrap(instance))
    }
}

/// A validated handle whose derivation path is guaranteed to match one
/// template. The trait gives uniform read access to the wrapped instance.
pub trait IsHDFactorInstance: Sized {
    /// The wrapped instance, for specifications.
    spec fn spec_instance(&self) -> HDFactorInstance;

    fn instance(&self) -> (r: HDFactorInstance)
        ensures
            r == self.spec_instance(),
    ;

    fn derivation_path(&self) -> (r: DerivationPath)
        ensures
            r == self.spec_instance().derivation_path,
    {
        self.instance().derivation_path
    }

    fn derivation_entity_index(&self) -> (r: CAP26EntityIndex)
        ensures
            r == self.spec_instance().derivation_path.entity_index,
    {
        self.derivation_path().entity_index
    }

    fn network_id(&self) -> (r: NetworkID)
        ensures
            r == self.spec_instance().derivation_path.network_id,
    {
        self.derivation_path().network_id
    }
}

/// A factor instance whose derivation path is used for
/// Account, Unsecurified, TransactionSigning.
#[derive(Clone, Copy, Debug, PartialEq, Eq, Hash)]
pub struct AccountVeci {
    hidden_constructor: HiddenConstructor,
    instance: HDFactorInstance,
}

impl AccountVeci {
    /// The value `new` returns on a valid instance, for specifications.
    pub closed spec fn spec_wrap(instance: HDFactorInstance) -> AccountVeci {
        AccountVeci { hidden_constructor: HiddenConstructor, instance }
    }

    /// Holds of every value of this type: the factory is the only door.
    #[verifier::type_invariant]
    pub open spec fn wf(&self) -> bool {
        is_account_veci_path(self.spec_instance().derivation_path)
    }

    /// Succeeds exactly when the instance's path matches the account-veci
    /// template; this factory is the single gate that enforces it.
    pub fn new(instance: HDFactorInstance) -> (r: Result<Self, CommonError>)
        ensures
            r is Ok <==> is_account_veci_path(instance.derivation_path),
            r == account_veci_new_spec(instance),
    {
        let derivation_path = &instance.derivation_path;

        if derivation_path.entity_kind != CAP26EntityKind::Account {
            return Err(CommonError::EntityKindDiscrepancy);
        }

        if derivation_path.key_space() != KeySpace::Unsecurified {
            return Err(CommonError::KeySpaceDiscrepancy);
        }

        if derivation_path.key_kind != CAP26KeyKind::TransactionSigning {
            return Err(CommonError::KeyKindDiscrepancy);
        }

        Ok(Self { hidden_constructor: HiddenConstructor, instance })
    }
}

impl IsHDFactorInstance for AccountVeci {
    closed spec fn spec_instance(&self) -> HDFactorInstance {
        self.instance
    }

    fn instance(&self) -> (r: HDFactorInstance)
        ensures
            r == self.spec_instance(),
    {
        self.instance
    }
}

/// The wrapper is determined by, and determines, the instance it wraps.
pub broadcast proof fn lemma_account_veci_wrap_instance(instance: HDFactorInstance)
    ensures
        #![trigger AccountVeci::spec_wrap(instance)]
        AccountVeci::spec_wrap(instance).spec_instance() == instance,
{
}

/// Two validated handles wrapping the same instance are the same handle.
pub proof fn lemma_account_veci_ext(a: AccountVeci, b: AccountVeci)
    requires
        a.spec_instance() == b.spec_instance(),
    ensures
        a == b,
{
}

/// A factor instance whose derivation path is used for
/// Identity, Unsecurified, TransactionSigning.
#[derive(Clone, Copy, Debug, PartialEq, Eq, Hash)]
pub struct IdentityVeci {
    hidden_constructor: HiddenConstructor,
    instance: HDFactorInstance,
}

impl IdentityVeci {
    /// The value `new` returns on a valid instance, for specifications.
    pub closed spec fn spec_wrap(instance: HDFactorInstance) -> IdentityVeci {
        IdentityVeci { hidden_constructor: HiddenConstructor, instance }
    }

    /// Holds of every value of this type: the factory is the only door.
    #[verifier::type_invariant]
    pub open spec fn wf(&self) -> bool {
        is_identity_veci_path(self.spec_instance().derivation_path)
    }

    /// Succeeds exactly when the instance's path matches the identity-veci
    /// template; this factory is the single gate that enforces it.
    pub fn new(instance: HDFactorInstance) -> (r: Result<Self, CommonError>)
        ensures
            r is Ok <==> is_identity_veci_path(instance.derivation_path),
            r == identity_veci_new_spec(instance),
    {
        let derivation_path = &instance.derivation_path;

        if derivation_path.entity_kind != CAP26EntityKind::Identity {
            return Err(CommonError::EntityKindDiscrepancy);
        }

        if derivation_path.key_space() != KeySpace::Unsecurified {
            return Err(CommonError::KeySpaceDiscrepancy);
        }

        if derivation_path.key_kind != CAP26KeyKind::TransactionSigning {
            return Err(CommonError::KeyKindDiscrepancy);
        }

        Ok(Self { hidden_constructor: HiddenConstructor, instance })
    }
}

impl IsHDFactorInstance for IdentityVeci {
    closed spec fn spec_instance(&self) -> HDFactorInstance {
        self.instance
    }

    fn instance(&self) -> (r: HDFactorInstance)
        ensures
            r == self.spec_instance(),
    {
        self.instance
    }
}

/// The wrapper is determined by, and determines, the instance it wraps.
pub broadcast proof fn lemma_identity_veci_wrap_instance(instance: HDFactorInstance)
    ensures
        #![trigger IdentityVeci::spec_wrap(instance)]
        IdentityVeci::spec_wrap(instance).spec_instance() == instance,
{
}

/// Two validated handles wrapping the same instance are the same handle.
pub proof fn lemma_identity_veci_ext(a: IdentityVeci, b: IdentityVeci)
    requires
        a.spec_instance() == b.spec_instance(),
    ensures
        a == b,
{
}

} // verus!
