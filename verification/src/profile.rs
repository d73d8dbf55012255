//! The durable wallet state, read-only for this crate: which accounts and
//! identities already exist per network, and through which factor instances
//! they are controlled. The index assigner consults it so that freshly derived
//! handles never collide with what is already materialised.

use vstd::prelude::*;

use crate::base::NetworkID;
use crate::derivation::HDFactorInstance;

verus! {

/// The factor instances guarding a securified entity: a threshold over some
/// factors, overridable by others.
#[derive(Clone, Debug, PartialEq, Eq)]
pub struct MatrixOfFactorInstances {
    pub threshold: u16,
    pub threshold_factors: Vec<HDFactorInstance>,
    pub override_factors: Vec<HDFactorInstance>,
}

/// How an entity is secured: by a single factor instance, or by a matrix.
#[derive(Clone, Debug, PartialEq, Eq)]
pub enum EntitySecurityState {
    Unsecurified(HDFactorInstance),
    Securified(MatrixOfFactorInstances),
}

/// An already-materialised account.
#[derive(Clone, Debug, PartialEq, Eq)]
pub struct Account {
    pub entity_security_state: EntitySecurityState,
}

/// An already-materialised identity (persona).
#[derive(Clone, Debug, PartialEq, Eq)]
pub struct Persona {
    pub entity_security_state: EntitySecurityState,
}

/// The accounts and personas that exist on one network.
#[derive(Clone, Debug, PartialEq, Eq)]
pub struct ProfileOnNetwork {
    pub network_id: NetworkID,
    pub accounts: Vec<Account>,
    pub personas: Vec<Persona>,
}

/// The whole wallet state, one entry per network.
#[derive(Clone, Debug, PartialEq, Eq)]
pub struct Profile {
    pub networks: Vec<(NetworkID, ProfileOnNetwork)>,
}

impl Profile {
    /// The wallet state for one network, if recorded.
    pub open spec fn spec_on_network(&self, network_id: NetworkID) -> Option<ProfileOnNetwork> {
        crate::assoc::assoc_get(self.networks@, network_id)
    }

    /// Looks up the wallet state for one network.
    pub fn on_network(&self, network_id: NetworkID) -> (r: Option<&ProfileOnNetwork>)
        ensures
            match r {
                Some(pn) => self.spec_on_network(network_id) == Some(*pn),
                None => self.spec_on_network(network_id) is None,
            },
    {
        let mut i: usize = 0;
        while i < self.networks.len()
            invariant
                0 <= i <= self.networks@.len(),
                forall|j: int| 0 <= j < i ==> (#[trigger] self.networks@[j]).0 != network_id,
            decreases self.networks@.len() - i,
        {
            if self.networks[i].0 == network_id {
                proof {
                    crate::assoc::lemma_assoc_get_first_match(
                        self.networks@,
                        i as int,
                        network_id,
                    );
                }
                return Some(&self.networks[i].1);
            }
            i = i + 1;
        }
        proof {
            crate::assoc::lemma_assoc_get_none(self.networks@, network_id);
        }
        None
    }
}

impl Default for Profile {
    /// A wallet with no recorded state on any network.
    fn default() -> (r: Self)
        ensures
            r.networks@ == Seq::<(NetworkID, ProfileOnNetwork)>::empty(),
    {
        Self { networks: Vec::new() }
    }
}

} // verus!
