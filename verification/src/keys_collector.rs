//! The batch derivation step: turns a set of requested derivation paths into
//! derived-key handles, one batch per request. In this model a handle carries
//! no key material — it is exactly its derivation path paired with the factor
//! source it belongs to — so the whole batch is a pure function of the request
//! and either succeeds for every path or not at all.

use vstd::prelude::*;

use crate::base::FactorSourceID;
use crate::collections::DerivationPathPerFactorSource;
use crate::derivation::{DerivationPath, HDFactorInstance, HDFactorSource};

verus! {

/// The handles one factor source's paths derive to, in path order.
pub open spec fn instances_for_factor(
    factor_source_id: FactorSourceID,
    paths: Seq<DerivationPath>,
) -> Seq<HDFactorInstance> {
    Seq::new(
        paths.len(),
        |i: int| HDFactorInstance { derivation_path: paths[i], factor_source_id },
    )
}

/// The handles a whole batch derives to: each factor source's handles in the
/// batch's order, concatenated.
pub open spec fn derived_instances(
    entries: Seq<(FactorSourceID, Seq<DerivationPath>)>,
) -> Seq<HDFactorInstance>
    decreases entries.len(),
{
    if entries.len() == 0 {
        Seq::empty()
    } else {
        derived_instances(entries.drop_last()) + instances_for_factor(
            entries.last().0,
            entries.last().1,
        )
    }
}

/// One derivation batch: the factor sources involved and the paths to derive
/// with each of them.
pub struct KeysCollector {
    factors: Vec<HDFactorSource>,
    derivation_paths: DerivationPathPerFactorSource,
}

impl KeysCollector {
    /// The requested batch, for specifications.
    pub closed spec fn spec_paths(&self) -> Seq<(FactorSourceID, Seq<DerivationPath>)> {
        self.derivation_paths.entries()
    }

    pub fn new(
        factors: Vec<HDFactorSource>,
        derivation_paths: DerivationPathPerFactorSource,
    ) -> (r: Self)
        ensures
            r.spec_paths() == derivation_paths.entries(),
    {
        Self { factors, derivation_paths }
    }

    /// Derives every requested path with its factor source. The full batch
    /// succeeds as one: there is no per-path failure.
    #[verifier::loop_isolation(false)]
    pub fn collect_keys(self) -> (r: KeyDerivationOutcome)
        ensures
            r.instances@ == derived_instances(self.spec_paths()),
    {
        let mut instances: Vec<HDFactorInstance> = Vec::new();
        let entries = self.derivation_paths.per_factor_source;
        let ghost all = entries@;
        let mut i: usize = 0;
        while i < entries.len()
            invariant
                entries@ == all,
                0 <= i <= all.len(),
                instances@ == derived_instances(self.spec_paths().take(i as int)),
            decreases all.len() - i,
        {
            let factor_source_id = entries[i].0;
            let paths = &entries[i].1;
            let mut k: usize = 0;
            while k < paths.len()
                invariant
                    entries@ == all,
                    0 <= i < all.len(),
                    0 <= k <= paths@.len(),
                    paths@ == all[i as int].1@,
                    instances@ == derived_instances(self.spec_paths().take(i as int))
                        + instances_for_factor(all[i as int].0, paths@.take(k as int)),
                    factor_source_id == all[i as int].0,
                decreases paths@.len() - k,
            {
                instances.push(
                    HDFactorInstance { derivation_path: paths[k], factor_source_id },
                );
                proof {
                    assert(instances@ =~= derived_instances(self.spec_paths().take(i as int))
                        + instances_for_factor(all[i as int].0, paths@.take(k as int + 1)));
                }
                k = k + 1;
            }
            proof {
                assert(paths@.take(paths@.len() as int) =~= paths@);
                assert(self.spec_paths().take(i as int + 1).drop_last() =~= self.spec_paths().take(
                    i as int,
                ));
                assert(self.spec_paths().take(i as int + 1).last() == self.spec_paths()[i as int]);
                assert(self.spec_paths()[i as int].0 == all[i as int].0);
                assert(self.spec_paths()[i as int].1 == all[i as int].1@);
                assert(instances@ =~= derived_instances(self.spec_paths().take(i as int + 1)));
            }
            i = i + 1;
        }
        proof {
            assert(self.spec_paths().take(all.len() as int) =~= self.spec_paths());
        }
        KeyDerivationOutcome { instances }
    }
}

/// What one derivation batch produced.
#[derive(Debug)]
pub struct KeyDerivationOutcome {
    pub instances: Vec<HDFactorInstance>,
}

} // verus!
