//! The replenishment policy: how many additional handles of each template a
//! derivation batch should produce to bring a factor source's groups back to
//! the target pool size.

use vstd::prelude::*;

use crate::base::FactorSourceID;
use crate::collections::CollectionsOfFactorInstances;
use crate::instances::HiddenConstructor;

verus! {

/// The target pool size per template and factor source.
pub const CACHE_SIZE: u32 = 30;

/// How many more handles of each template to derive for one factor source.
/// Counts are "target minus existing", floored at zero.
#[derive(Clone, Copy, Debug, PartialEq, Eq)]
pub struct FillCacheQuantitiesForFactor {
    pub factor_source_id: FactorSourceID,
    /// Number of account-veci handles to derive with `factor_source_id`.
    pub account_vecis: u32,
    /// Number of identity-veci handles to derive with `factor_source_id`.
    pub identity_vecis: u32,
}

impl FillCacheQuantitiesForFactor {
    /// The quantities for a factor source with nothing cached at all.
    pub fn fill(factor_source_id: FactorSourceID) -> (r: Self)
        ensures
            r == (Self { factor_source_id, account_vecis: CACHE_SIZE, identity_vecis: CACHE_SIZE }),
    {
        Self::new(factor_source_id, CACHE_SIZE, CACHE_SIZE)
    }

    pub fn new(factor_source_id: FactorSourceID, account_vecis: u32, identity_vecis: u32) -> (r:
        Self)
        ensures
            r == (Self { factor_source_id, account_vecis, identity_vecis }),
    {
        Self { factor_source_id, account_vecis, identity_vecis }
    }

    /// Lowers each count by what is already cached, floored at zero: deriving
    /// is only for the part of the pool that is actually missing.
    pub fn subtracting_existing(self, existing: Option<CollectionsOfFactorInstances>) -> (r: Self)
        ensures
            r.factor_source_id == self.factor_source_id,
            existing is None ==> r == self,
            existing matches Some(c) ==> {
                &&& r.account_vecis == if c.accounts().len() >= self.account_vecis {
                    0int
                } else {
                    self.account_vecis - c.accounts().len()
                }
                &&& r.identity_vecis == if c.identities().len() >= self.identity_vecis {
                    0int
                } else {
                    self.identity_vecis - c.identities().len()
                }
            },
    {
        match existing {
            None => self,
            Some(c) => {
                let have_accounts = c.account_count();
                let have_identities = c.identity_count();
                let account_vecis: u32 = if have_accounts >= self.account_vecis as usize {
                    0
                } else {
                    self.account_vecis - (have_accounts as u32)
                };
                let identity_vecis: u32 = if have_identities >= self.identity_vecis as usize {
                    0
                } else {
                    self.identity_vecis - (have_identities as u32)
                };
                Self::new(self.factor_source_id, account_vecis, identity_vecis)
            },
        }
    }
}

/// Replenishment quantities for several factor sources at once.
#[derive(Debug)]
pub struct FillCacheQuantitiesPerFactor {
    hidden_constructor: HiddenConstructor,
    pub per_factor_source: Vec<(FactorSourceID, FillCacheQuantitiesForFactor)>,
}

impl FillCacheQuantitiesPerFactor {
    /// The per-factor entries, for specifications.
    pub closed spec fn entries(&self) -> Seq<(FactorSourceID, FillCacheQuantitiesForFactor)> {
        self.per_factor_source@
    }

    /// Quantities for a single factor source.
    pub fn just(item: FillCacheQuantitiesForFactor) -> (r: Self)
        ensures
            r.entries() == seq![(item.factor_source_id, item)],
    {
        let mut per_factor_source: Vec<(FactorSourceID, FillCacheQuantitiesForFactor)> = Vec::new();
        per_factor_source.push((item.factor_source_id, item));
        let r = Self { hidden_constructor: HiddenConstructor, per_factor_source };
        proof {
            assert(r.entries() =~= seq![(item.factor_source_id, item)]);
        }
        r
    }
}

} // verus!
