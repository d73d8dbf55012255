//! Hands out fresh derivation indices: the next index for a factor source and
//! template is the first one past everything the profile already occupies,
//! plus a session-local offset that counts the indices already handed out, so
//! that two requests within one provider call can never collide.

use vstd::prelude::*;

use crate::assoc::{
    assoc_get, lemma_assoc_get_first_match, lemma_assoc_get_none, lemma_assoc_get_push,
    lemma_assoc_get_update,
};
use crate::base::FactorSourceID;
use crate::base::NetworkID;
use crate::derivation::CAP26EntityIndex;
use crate::derivation::HDFactorInstance;
use crate::instances::DerivationTemplate;
use crate::profile::{Account, EntitySecurityState, Persona, Profile, ProfileOnNetwork};

verus! {

/// The unsecurified index an account occupies for the factor source, if any.
pub open spec fn account_occupied_unsecurified(a: Account, factor_source_id: FactorSourceID) -> Option<
    u32,
> {
    match a.entity_security_state {
        EntitySecurityState::Unsecurified(inst) => {
            if inst.factor_source_id == factor_source_id {
                match inst.derivation_path.entity_index {
                    CAP26EntityIndex::Unsecurified(v) => Some(v),
                    CAP26EntityIndex::Securified(_) => None,
                }
            } else {
                None
            }
        },
        EntitySecurityState::Securified(_) => None,
    }
}

/// The unsecurified index a persona occupies for the factor source, if any.
pub open spec fn persona_occupied_unsecurified(p: Persona, factor_source_id: FactorSourceID) -> Option<
    u32,
> {
    match p.entity_security_state {
        EntitySecurityState::Unsecurified(inst) => {
            if inst.factor_source_id == factor_source_id {
                match inst.derivation_path.entity_index {
                    CAP26EntityIndex::Unsecurified(v) => Some(v),
                    CAP26EntityIndex::Securified(_) => None,
                }
            } else {
                None
            }
        },
        EntitySecurityState::Securified(_) => None,
    }
}

/// The securified index a matrix member occupies for the factor source.
pub open spec fn instance_occupied_securified(
    inst: HDFactorInstance,
    factor_source_id: FactorSourceID,
) -> Option<u32> {
    if inst.factor_source_id == factor_source_id {
        match inst.derivation_path.entity_index {
            CAP26EntityIndex::Securified(v) => Some(v),
            CAP26EntityIndex::Unsecurified(_) => None,
        }
    } else {
        None
    }
}

/// The highest unsecurified index any of the accounts occupies, or -1.
pub open spec fn highest_account_unsecurified(
    accounts: Seq<Account>,
    factor_source_id: FactorSourceID,
) -> int
    decreases accounts.len(),
{
    if accounts.len() == 0 {
        -1
    } else {
        let rest = highest_account_unsecurified(accounts.drop_last(), factor_source_id);
        match account_occupied_unsecurified(accounts.last(), factor_source_id) {
            Some(v) => if v > rest {
                v as int
            } else {
                rest
            },
            None => rest,
        }
    }
}

/// The highest unsecurified index any of the personas occupies, or -1.
pub open spec fn highest_persona_unsecurified(
    personas: Seq<Persona>,
    factor_source_id: FactorSourceID,
) -> int
    decreases personas.len(),
{
    if personas.len() == 0 {
        -1
    } else {
        let rest = highest_persona_unsecurified(personas.drop_last(), factor_source_id);
        match persona_occupied_unsecurified(personas.last(), factor_source_id) {
            Some(v) => if v > rest {
                v as int
            } else {
                rest
            },
            None => rest,
        }
    }
}

/// The highest securified index any of the matrix members occupies, or -1.
pub open spec fn highest_instance_securified(
    factors: Seq<HDFactorInstance>,
    factor_source_id: FactorSourceID,
) -> int
    decreases factors.len(),
{
    if factors.len() == 0 {
        -1
    } else {
        let rest = highest_instance_securified(factors.drop_last(), factor_source_id);
        match instance_occupied_securified(factors.last(), factor_source_id) {
            Some(v) => if v > rest {
                v as int
            } else {
                rest
            },
            None => rest,
        }
    }
}

/// The highest securified index an account's matrix occupies, or -1.
pub open spec fn account_highest_securified(a: Account, factor_source_id: FactorSourceID) -> int {
    match a.entity_security_state {
        EntitySecurityState::Unsecurified(_) => -1,
        EntitySecurityState::Securified(m) => {
            let t = highest_instance_securified(m.threshold_factors@, factor_source_id);
            let o = highest_instance_securified(m.override_factors@, factor_source_id);
            if t > o {
                t
            } else {
                o
            }
        },
    }
}

/// The highest securified index any of the accounts occupies, or -1.
pub open spec fn highest_account_securified(
    accounts: Seq<Account>,
    factor_source_id: FactorSourceID,
) -> int
    decreases accounts.len(),
{
    if accounts.len() == 0 {
        -1
    } else {
        let rest = highest_account_securified(accounts.drop_last(), factor_source_id);
        let h = account_highest_securified(accounts.last(), factor_source_id);
        if h > rest {
            h
        } else {
            rest
        }
    }
}

/// Analyses the profile: which indices the already-materialised entities of
/// one network occupy. Holds a read-only snapshot taken at construction.
pub struct NextDerivationEntityIndexProfileAnalyzingAssigner {
    accounts_on_network: Vec<Account>,
    personas_on_network: Vec<Persona>,
}

impl NextDerivationEntityIndexProfileAnalyzingAssigner {
    /// The accounts snapshot, for specifications.
    pub closed spec fn spec_accounts(&self) -> Seq<Account> {
        self.accounts_on_network@
    }

    /// The personas snapshot, for specifications.
    pub closed spec fn spec_personas(&self) -> Seq<Persona> {
        self.personas_on_network@
    }

    /// Takes the entities of the given network out of the profile; with no
    /// profile (onboarding recovery scan) or no entry for the network, every
    /// index space starts at its minimum.
    pub fn new(network_id: NetworkID, profile: Option<Profile>) -> (r: Self)
        ensures
            match profile {
                None => r.spec_accounts() == Seq::<Account>::empty() && r.spec_personas()
                    == Seq::<Persona>::empty(),
                Some(p) => match p.spec_on_network(network_id) {
                    None => r.spec_accounts() == Seq::<Account>::empty() && r.spec_personas()
                        == Seq::<Persona>::empty(),
                    Some(pn) => r.spec_accounts() == pn.accounts@ && r.spec_personas()
                        == pn.personas@,
                },
            },
    {
        match profile {
            None => Self { accounts_on_network: Vec::new(), personas_on_network: Vec::new() },
            Some(p) => {
                match take_on_network(p, network_id) {
                    None => Self {
                        accounts_on_network: Vec::new(),
                        personas_on_network: Vec::new(),
                    },
                    Some(pn) => Self {
                        accounts_on_network: pn.accounts,
                        personas_on_network: pn.personas,
                    },
                }
            },
        }
    }
}

/// Moves the entry for one network out of the profile, if recorded.
#[verifier::loop_isolation(false)]
fn take_on_network(profile: Profile, network_id: NetworkID) -> (r: Option<ProfileOnNetwork>)
    ensures
        r == profile.spec_on_network(network_id),
{
    let ghost all = profile.networks@;
    let mut networks = profile.networks;
    let mut i: usize = 0;
    while i < networks.len()
        invariant
            networks@ == all,
            0 <= i <= all.len(),
            forall|j: int| 0 <= j < i ==> (#[trigger] all[j]).0 != network_id,
        decreases all.len() - i,
    {
        if networks[i].0 == network_id {
            proof {
                lemma_assoc_get_first_match(all, i as int, network_id);
            }
            let entry = networks.remove(i);
            return Some(entry.1);
        }
        i = i + 1;
    }
    proof {
        lemma_assoc_get_none(all, network_id);
    }
    None
}

/// Computes the highest unsecurified account index, or -1.
fn exec_highest_account_unsecurified(accounts: &Vec<Account>, factor_source_id: FactorSourceID) -> (r:
    i64)
    ensures
        r as int == highest_account_unsecurified(accounts@, factor_source_id),
        -1 <= r <= u32::MAX,
{
    let mut h: i64 = -1;
    let mut i: usize = 0;
    while i < accounts.len()
        invariant
            0 <= i <= accounts@.len(),
            -1 <= h <= u32::MAX,
            h as int == highest_account_unsecurified(accounts@.take(i as int), factor_source_id),
        decreases accounts@.len() - i,
    {
        let a = &accounts[i];
        match &a.entity_security_state {
            EntitySecurityState::Unsecurified(inst) => {
                if inst.factor_source_id == factor_source_id {
                    match inst.derivation_path.entity_index {
                        CAP26EntityIndex::Unsecurified(v) => {
                            if (v as i64) > h {
                                h = v as i64;
                            }
                        },
                        CAP26EntityIndex::Securified(_) => {},
                    }
                }
            },
            EntitySecurityState::Securified(_) => {},
        }
        proof {
            assert(accounts@.take(i as int + 1).drop_last() =~= accounts@.take(i as int));
            assert(accounts@.take(i as int + 1).last() == accounts@[i as int]);
        }
        i = i + 1;
    }
    proof {
        assert(accounts@.take(accounts@.len() as int) =~= accounts@);
    }
    h
}

/// Computes the highest unsecurified persona index, or -1.
fn exec_highest_persona_unsecurified(personas: &Vec<Persona>, factor_source_id: FactorSourceID) -> (r:
    i64)
    ensures
        r as int == highest_persona_unsecurified(personas@, factor_source_id),
        -1 <= r <= u32::MAX,
{
    let mut h: i64 = -1;
    let mut i: usize = 0;
    while i < personas.len()
        invariant
            0 <= i <= personas@.len(),
            -1 <= h <= u32::MAX,
            h as int == highest_persona_unsecurified(personas@.take(i as int), factor_source_id),
        decreases personas@.len() - i,
    {
        let p = &personas[i];
        match &p.entity_security_state {
            EntitySecurityState::Unsecurified(inst) => {
                if inst.factor_source_id == factor_source_id {
                    match inst.derivation_path.entity_index {
                        CAP26EntityIndex::Unsecurified(v) => {
                            if (v as i64) > h {
                                h = v as i64;
                            }
                        },
                        CAP26EntityIndex::Securified(_) => {},
                    }
                }
            },
            EntitySecurityState::Securified(_) => {},
        }
        proof {
            assert(personas@.take(i as int + 1).drop_last() =~= personas@.take(i as int));
            assert(personas@.take(i as int + 1).last() == personas@[i as int]);
        }
        i = i + 1;
    }
    proof {
        assert(personas@.take(personas@.len() as int) =~= personas@);
    }
    h
}

/// Computes the highest securified index among a matrix's members, or -1.
fn exec_highest_instance_securified(
    factors: &Vec<HDFactorInstance>,
    factor_source_id: FactorSourceID,
) -> (r: i64)
    ensures
        r as int == highest_instance_securified(factors@, factor_source_id),
        -1 <= r <= u32::MAX,
{
    let mut h: i64 = -1;
    let mut i: usize = 0;
    while i < factors.len()
        invariant
            0 <= i <= factors@.len(),
            -1 <= h <= u32::MAX,
            h as int == highest_instance_securified(factors@.take(i as int), factor_source_id),
        decreases factors@.len() - i,
    {
        let inst = &factors[i];
        if inst.factor_source_id == factor_source_id {
            match inst.derivation_path.entity_index {
                CAP26EntityIndex::Securified(v) => {
                    if (v as i64) > h {
                        h = v as i64;
                    }
                },
                CAP26EntityIndex::Unsecurified(_) => {},
            }
        }
        proof {
            assert(factors@.take(i as int + 1).drop_last() =~= factors@.take(i as int));
            assert(factors@.take(i as int + 1).last() == factors@[i as int]);
        }
        i = i + 1;
    }
    proof {
        assert(factors@.take(factors@.len() as int) =~= factors@);
    }
    h
}

/// Computes the highest securified account index, or -1.
fn exec_highest_account_securified(accounts: &Vec<Account>, factor_source_id: FactorSourceID) -> (r:
    i64)
    ensures
        r as int == highest_account_securified(accounts@, factor_source_id),
        -1 <= r <= u32::MAX,
{
    let mut h: i64 = -1;
    let mut i: usize = 0;
    while i < accounts.len()
        invariant
            0 <= i <= accounts@.len(),
            -1 <= h <= u32::MAX,
            h as int == highest_account_securified(accounts@.take(i as int), factor_source_id),
        decreases accounts@.len() - i,
    {
        let a = &accounts[i];
        match &a.entity_security_state {
            EntitySecurityState::Securified(m) => {
                let t = exec_highest_instance_securified(&m.threshold_factors, factor_source_id);
                let o = exec_highest_instance_securified(&m.override_factors, factor_source_id);
                let ah = if t > o {
                    t
                } else {
                    o
                };
                if ah > h {
                    h = ah;
                }
            },
            EntitySecurityState::Unsecurified(_) => {},
        }
        proof {
            assert(accounts@.take(i as int + 1).drop_last() =~= accounts@.take(i as int));
            assert(accounts@.take(i as int + 1).last() == accounts@[i as int]);
        }
        i = i + 1;
    }
    proof {
        assert(accounts@.take(accounts@.len() as int) =~= accounts@);
    }
    h
}

/// The session-local bookkeeping: how many indices have already been handed
/// out per factor source and template, so a second request within the same
/// session cannot re-issue an index the profile does not yet reflect.
#[derive(Debug)]
pub struct NextDerivationEntityIndexWithLocalOffsets {
    local_offsets: Vec<((FactorSourceID, DerivationTemplate), u32)>,
}

impl NextDerivationEntityIndexWithLocalOffsets {
    /// The offset already handed out for a factor source and template.
    pub closed spec fn spec_offset(
        &self,
        factor_source_id: FactorSourceID,
        template: DerivationTemplate,
    ) -> u32 {
        match assoc_get(self.local_offsets@, (factor_source_id, template)) {
            Some(v) => v,
            None => 0,
        }
    }

    /// Returns the current offset and advances it by one.
    #[verifier::loop_isolation(false)]
    pub fn reserve(
        &mut self,
        factor_source_id: FactorSourceID,
        template: DerivationTemplate,
    ) -> (r: u32)
        requires
            old(self).spec_offset(factor_source_id, template) < u32::MAX,
        ensures
            r == old(self).spec_offset(factor_source_id, template),
            final(self).spec_offset(factor_source_id, template) == r + 1,
            forall|f2: FactorSourceID, t2: DerivationTemplate|
                !(f2 == factor_source_id && t2 == template) ==> #[trigger] final(self).spec_offset(
                    f2,
                    t2,
                ) == old(self).spec_offset(f2, t2),
    {
        let ghost key = (factor_source_id, template);
        let mut i: usize = 0;
        while i < self.local_offsets.len()
            invariant
                0 <= i <= self.local_offsets@.len(),
                self == old(self),
                forall|j: int| 0 <= j < i ==> (#[trigger] self.local_offsets@[j]).0 != key,
            decreases self.local_offsets@.len() - i,
        {
            let entry_fsid = self.local_offsets[i].0.0;
            let entry_template = self.local_offsets[i].0.1;
            if entry_fsid == factor_source_id && entry_template == template {
                proof {
                    assert(self.local_offsets@[i as int].0 =~= key);
                    lemma_assoc_get_first_match(self.local_offsets@, i as int, key);
                }
                let v = self.local_offsets[i].1;
                self.local_offsets.set(i, ((factor_source_id, template), v + 1));
                proof {
                    lemma_assoc_get_update(old(self).local_offsets@, i as int, (v + 1) as u32, key);
                }
                return v;
            }
            i = i + 1;
        }
        proof {
            lemma_assoc_get_none(self.local_offsets@, key);
            lemma_assoc_get_push(self.local_offsets@, key, 1u32);
        }
        self.local_offsets.push(((factor_source_id, template), 1));
        0
    }
}

impl Default for NextDerivationEntityIndexWithLocalOffsets {
    /// No index has been handed out yet.
    fn default() -> (r: Self)
        ensures
            forall|f: FactorSourceID, t: DerivationTemplate|
                #[trigger] r.spec_offset(f, t) == 0,
    {
        let r = Self { local_offsets: Vec::new() };
        proof {
            assert forall|f: FactorSourceID, t: DerivationTemplate| #[trigger] r.spec_offset(f, t)
                == 0 by {
                assert(assoc_get(r.local_offsets@, (f, t)) is None);
            }
        }
        r
    }
}

/// Produces, per factor source and template, the next derivation index that is
/// free both against the profile and within this session.
pub struct NextDerivationEntityIndexAssigner {
    profile_analyzing: NextDerivationEntityIndexProfileAnalyzingAssigner,
    local_offsets: NextDerivationEntityIndexWithLocalOffsets,
}

impl NextDerivationEntityIndexAssigner {
    /// The accounts snapshot, for specifications.
    pub closed spec fn spec_accounts(&self) -> Seq<Account> {
        self.profile_analyzing.spec_accounts()
    }

    /// The personas snapshot, for specifications.
    pub closed spec fn spec_personas(&self) -> Seq<Persona> {
        self.profile_analyzing.spec_personas()
    }

    /// The session-local offset for a factor source and template.
    pub closed spec fn spec_offset(
        &self,
        factor_source_id: FactorSourceID,
        template: DerivationTemplate,
    ) -> u32 {
        self.local_offsets.spec_offset(factor_source_id, template)
    }

    /// The account-veci index the next call will hand out: one past the
    /// highest occupied index, plus what this session has already issued.
    pub open spec fn spec_next_account_veci(&self, factor_source_id: FactorSourceID) -> int {
        highest_account_unsecurified(self.spec_accounts(), factor_source_id) + 1
            + self.spec_offset(factor_source_id, DerivationTemplate::AccountVeci)
    }

    /// The identity-veci index the next call will hand out.
    pub open spec fn spec_next_identity_veci(&self, factor_source_id: FactorSourceID) -> int {
        highest_persona_unsecurified(self.spec_personas(), factor_source_id) + 1
            + self.spec_offset(factor_source_id, DerivationTemplate::IdentityVeci)
    }

    /// The account-mfa index the next call will hand out.
    pub open spec fn spec_next_account_mfa(&self, factor_source_id: FactorSourceID) -> int {
        highest_account_securified(self.spec_accounts(), factor_source_id) + 1 + self.spec_offset(
            factor_source_id,
            DerivationTemplate::AccountMfa,
        )
    }

    /// A fresh assigner over the given profile; no offsets issued yet.
    pub fn new(network_id: NetworkID, profile: Option<Profile>) -> (r: Self)
        ensures
            match profile {
                None => r.spec_accounts() == Seq::<Account>::empty() && r.spec_personas()
                    == Seq::<Persona>::empty(),
                Some(p) => match p.spec_on_network(network_id) {
                    None => r.spec_accounts() == Seq::<Account>::empty() && r.spec_personas()
                        == Seq::<Persona>::empty(),
                    Some(pn) => r.spec_accounts() == pn.accounts@ && r.spec_personas()
                        == pn.personas@,
                },
            },
            forall|f: FactorSourceID, t: DerivationTemplate| #[trigger] r.spec_offset(f, t) == 0,
    {
        let profile_analyzing = NextDerivationEntityIndexProfileAnalyzingAssigner::new(
            network_id,
            profile,
        );
        Self { profile_analyzing, local_offsets: Default::default() }
    }

    /// The next free account-veci index for the factor source; issuing it
    /// advances this session's bookkeeping so it is never handed out twice.
    pub fn next_account_veci(&mut self, factor_source_id: FactorSourceID) -> (r: CAP26EntityIndex)
        requires
            old(self).spec_next_account_veci(factor_source_id) < u32::MAX,
        ensures
            0 <= old(self).spec_next_account_veci(factor_source_id),
            r == CAP26EntityIndex::Unsecurified(
                old(self).spec_next_account_veci(factor_source_id) as u32,
            ),
            final(self).spec_accounts() == old(self).spec_accounts(),
            final(self).spec_personas() == old(self).spec_personas(),
            final(self).spec_offset(factor_source_id, DerivationTemplate::AccountVeci) == old(
                self,
            ).spec_offset(factor_source_id, DerivationTemplate::AccountVeci) + 1,
            forall|f2: FactorSourceID, t2: DerivationTemplate|
                !(f2 == factor_source_id && t2 == DerivationTemplate::AccountVeci)
                    ==> #[trigger] final(self).spec_offset(f2, t2) == old(self).spec_offset(f2, t2),
    {
        let h = exec_highest_account_unsecurified(
            &self.profile_analyzing.accounts_on_network,
            factor_source_id,
        );
        let offset = self.local_offsets.reserve(factor_source_id, DerivationTemplate::AccountVeci);
        let value = h + 1 + (offset as i64);
        CAP26EntityIndex::Unsecurified(value as u32)
    }

    /// The next free identity-veci index for the factor source.
    pub fn next_identity_veci(&mut self, factor_source_id: FactorSourceID) -> (r: CAP26EntityIndex)
        requires
            old(self).spec_next_identity_veci(factor_source_id) < u32::MAX,
        ensures
            0 <= old(self).spec_next_identity_veci(factor_source_id),
            r == CAP26EntityIndex::Unsecurified(
                old(self).spec_next_identity_veci(factor_source_id) as u32,
            ),
            final(self).spec_accounts() == old(self).spec_accounts(),
            final(self).spec_personas() == old(self).spec_personas(),
            final(self).spec_offset(factor_source_id, DerivationTemplate::IdentityVeci) == old(
                self,
            ).spec_offset(factor_source_id, DerivationTemplate::IdentityVeci) + 1,
            forall|f2: FactorSourceID, t2: DerivationTemplate|
                !(f2 == factor_source_id && t2 == DerivationTemplate::IdentityVeci)
                    ==> #[trigger] final(self).spec_offset(f2, t2) == old(self).spec_offset(f2, t2),
    {
        let h = exec_highest_persona_unsecurified(
            &self.profile_analyzing.personas_on_network,
            factor_source_id,
        );
        let offset = self.local_offsets.reserve(factor_source_id, DerivationTemplate::IdentityVeci);
        let value = h + 1 + (offset as i64);
        CAP26EntityIndex::Unsecurified(value as u32)
    }

    /// The next free account-mfa (securified) index for the factor source.
    pub fn next_account_mfa(&mut self, factor_source_id: FactorSourceID) -> (r: CAP26EntityIndex)
        requires
            old(self).spec_next_account_mfa(factor_source_id) < u32::MAX,
        ensures
            0 <= old(self).spec_next_account_mfa(factor_source_id),
            r == CAP26EntityIndex::Securified(
                old(self).spec_next_account_mfa(factor_source_id) as u32,
            ),
            final(self).spec_accounts() == old(self).spec_accounts(),
            final(self).spec_personas() == old(self).spec_personas(),
            final(self).spec_offset(factor_source_id, DerivationTemplate::AccountMfa) == old(
                self,
            ).spec_offset(factor_source_id, DerivationTemplate::AccountMfa) + 1,
            forall|f2: FactorSourceID, t2: DerivationTemplate|
                !(f2 == factor_source_id && t2 == DerivationTemplate::AccountMfa)
                    ==> #[trigger] final(self).spec_offset(f2, t2) == old(self).spec_offset(f2, t2),
    {
        let h = exec_highest_account_securified(
            &self.profile_analyzing.accounts_on_network,
            factor_source_id,
        );
        let offset = self.local_offsets.reserve(factor_source_id, DerivationTemplate::AccountMfa);
        let value = h + 1 + (offset as i64);
        CAP26EntityIndex::Securified(value as u32)
    }
}

} // verus!
