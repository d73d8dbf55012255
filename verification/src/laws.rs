//! The properties that relate several operations, stated and proved once over
//! the same specification vocabulary the operations' own contracts use.

use vstd::prelude::*;

use crate::base::{FactorSourceID, NetworkID};
use crate::cache::FactorInstancesForSpecificNetworkCache;
use crate::collections::{lemma_merge_dedup_disjoint, merge_dedup};
use crate::derivation::HDFactorInstance;
use crate::fill_cache::CACHE_SIZE;
use crate::instances::{
    lemma_account_veci_wrap_instance, lemma_identity_veci_wrap_instance, AccountVeci,
    IdentityVeci, IsHDFactorInstance,
};
use crate::provider::{
    account_veci_instance_at, accounts_above, accounts_strictly_increasing, fresh_account_vecis,
    fresh_identity_vecis, lemma_fresh_account_vecis_facts, lemma_fresh_identity_vecis_facts,
    veci_serve_step,
};

verus! {

/// Law: the cache is always topped up. After any single-instance call that
/// satisfies the provider's step relation, the served template's group holds
/// exactly the target size if the call had to derive (a miss, or the last
/// handle was drawn), and exactly one handle fewer after a plain hit — monotone
/// non-decreasing toward the target.
pub proof fn lemma_cache_always_topped_up(
    network: NetworkID,
    factor_source_id: FactorSourceID,
    acc: Seq<AccountVeci>,
    base: int,
    served: HDFactorInstance,
    acc_post: Seq<AccountVeci>,
)
    requires
        veci_serve_step(network, factor_source_id, acc, base, served, acc_post),
    ensures
        acc_post.len() == if acc.len() >= 2 {
            acc.len() - 1
        } else {
            CACHE_SIZE as int
        },
{
}

/// One step keeps the group ordered, nonempty, and strictly beyond the served
/// index: nothing left in the cache can ever be served at an old index again.
pub proof fn lemma_veci_step_monotone(
    network: NetworkID,
    factor_source_id: FactorSourceID,
    acc: Seq<AccountVeci>,
    base: int,
    served: HDFactorInstance,
    acc_post: Seq<AccountVeci>,
)
    requires
        veci_serve_step(network, factor_source_id, acc, base, served, acc_post),
        accounts_strictly_increasing(acc),
        served.derivation_path.entity_index.spec_value() + CACHE_SIZE <= u32::MAX,
        0 <= base <= u32::MAX,
    ensures
        accounts_strictly_increasing(acc_post),
        accounts_above(acc_post, served.derivation_path.entity_index.spec_value() as int),
        acc_post.len() >= 1,
{
    broadcast use lemma_account_veci_wrap_instance;

    let served_value = served.derivation_path.entity_index.spec_value() as int;
    if acc.len() >= 2 {
        assert(served == acc[0].spec_instance());
        assert forall|k: int| 0 <= k < acc_post.len() implies (#[trigger] acc_post[k]).spec_instance().derivation_path.entity_index.spec_value()
            > served_value by {
            assert(acc_post[k] == acc[k + 1]);
        }
    } else if acc.len() == 1 {
        lemma_fresh_account_vecis_facts(
            network,
            factor_source_id,
            served_value + 1,
            CACHE_SIZE as nat,
        );
        assert forall|k: int| 0 <= k < acc_post.len() implies (#[trigger] acc_post[k]).spec_instance().derivation_path.entity_index.spec_value()
            > served_value by {
            assert(acc_post[k].spec_instance().derivation_path.entity_index.spec_value() == (
            served_value + 1 + k) as u32);
        }
    } else {
        lemma_fresh_account_vecis_facts(network, factor_source_id, base + 1, CACHE_SIZE as nat);
        assert forall|k: int| 0 <= k < acc_post.len() implies (#[trigger] acc_post[k]).spec_instance().derivation_path.entity_index.spec_value()
            > served_value by {
            assert(acc_post[k].spec_instance().derivation_path.entity_index.spec_value() == (base
                + 1 + k) as u32);
        }
    }
}

/// The step-by-step invariant of a session: after each call the group is
/// ordered, nonempty, and beyond the served index, and each served index
/// strictly exceeds the one before it.
proof fn lemma_session_chain(
    network: NetworkID,
    factor_source_id: FactorSourceID,
    groups: Seq<Seq<AccountVeci>>,
    bases: Seq<int>,
    served: Seq<HDFactorInstance>,
    k: int,
)
    requires
        groups.len() == served.len() + 1,
        bases.len() == served.len(),
        accounts_strictly_increasing(groups[0]),
        forall|j: int|
            0 <= j < served.len() ==> veci_serve_step(
                network,
                factor_source_id,
                #[trigger] groups[j],
                bases[j],
                served[j],
                groups[j + 1],
            ),
        forall|j: int|
            0 <= j < served.len() ==> (#[trigger] served[j]).derivation_path.entity_index.spec_value()
                + CACHE_SIZE <= u32::MAX,
        forall|j: int| 0 <= j < bases.len() ==> 0 <= #[trigger] bases[j] <= u32::MAX,
        0 <= k < served.len(),
    ensures
        accounts_strictly_increasing(groups[k + 1]),
        accounts_above(
            groups[k + 1],
            served[k].derivation_path.entity_index.spec_value() as int,
        ),
        groups[k + 1].len() >= 1,
        k >= 1 ==> served[k - 1].derivation_path.entity_index.spec_value() < served[k].derivation_path.entity_index.spec_value(),
    decreases k,
{
    if k == 0 {
        lemma_veci_step_monotone(
            network,
            factor_source_id,
            groups[0],
            bases[0],
            served[0],
            groups[1],
        );
    } else {
        lemma_session_chain(network, factor_source_id, groups, bases, served, k - 1);
        // the group is nonempty after the previous step, so this step is a hit
        assert(groups[k].len() >= 1);
        assert(served[k] == groups[k][0].spec_instance());
        assert(groups[k][0].spec_instance().derivation_path.entity_index.spec_value() as int
            > served[k - 1].derivation_path.entity_index.spec_value() as int);
        lemma_veci_step_monotone(
            network,
            factor_source_id,
            groups[k],
            bases[k],
            served[k],
            groups[k + 1],
        );
    }
}

/// Law: no index reuse. Across any sequence of single-instance calls against
/// the same factor source with the cache threaded from call to call — even
/// without intervening profile commits — the served handles carry strictly
/// increasing derivation indices, so no two ever share one. The hypotheses are
/// exactly what each call's contract provides: the step relation between the
/// group before and after, starting from an ordered (for example empty) group.
pub proof fn lemma_no_index_reuse(
    network: NetworkID,
    factor_source_id: FactorSourceID,
    groups: Seq<Seq<AccountVeci>>,
    bases: Seq<int>,
    served: Seq<HDFactorInstance>,
)
    requires
        groups.len() == served.len() + 1,
        bases.len() == served.len(),
        accounts_strictly_increasing(groups[0]),
        forall|j: int|
            0 <= j < served.len() ==> veci_serve_step(
                network,
                factor_source_id,
                #[trigger] groups[j],
                bases[j],
                served[j],
                groups[j + 1],
            ),
        forall|j: int|
            0 <= j < served.len() ==> (#[trigger] served[j]).derivation_path.entity_index.spec_value()
                + CACHE_SIZE <= u32::MAX,
        forall|j: int| 0 <= j < bases.len() ==> 0 <= #[trigger] bases[j] <= u32::MAX,
    ensures
        forall|k1: int, k2: int|
            0 <= k1 < k2 < served.len() ==> (#[trigger] served[k1]).derivation_path.entity_index.spec_value()
                < (#[trigger] served[k2]).derivation_path.entity_index.spec_value(),
        forall|k1: int, k2: int|
            0 <= k1 < k2 < served.len() ==> (#[trigger] served[k1]).derivation_path.entity_index
                != (#[trigger] served[k2]).derivation_path.entity_index,
{
    assert forall|k1: int, k2: int| 0 <= k1 < k2 < served.len() implies (
    #[trigger] served[k1]).derivation_path.entity_index.spec_value() < (
    #[trigger] served[k2]).derivation_path.entity_index.spec_value() by {
        lemma_session_order(network, factor_source_id, groups, bases, served, k1, k2);
    }
}

/// Served indices grow along the session, pairwise.
proof fn lemma_session_order(
    network: NetworkID,
    factor_source_id: FactorSourceID,
    groups: Seq<Seq<AccountVeci>>,
    bases: Seq<int>,
    served: Seq<HDFactorInstance>,
    k1: int,
    k2: int,
)
    requires
        groups.len() == served.len() + 1,
        bases.len() == served.len(),
        accounts_strictly_increasing(groups[0]),
        forall|j: int|
            0 <= j < served.len() ==> veci_serve_step(
                network,
                factor_source_id,
                #[trigger] groups[j],
                bases[j],
                served[j],
                groups[j + 1],
            ),
        forall|j: int|
            0 <= j < served.len() ==> (#[trigger] served[j]).derivation_path.entity_index.spec_value()
                + CACHE_SIZE <= u32::MAX,
        forall|j: int| 0 <= j < bases.len() ==> 0 <= #[trigger] bases[j] <= u32::MAX,
        0 <= k1 < k2 < served.len(),
    ensures
        served[k1].derivation_path.entity_index.spec_value() < served[k2].derivation_path.entity_index.spec_value(),
    decreases k2 - k1,
{
    lemma_session_chain(network, factor_source_id, groups, bases, served, k2);
    if k1 < k2 - 1 {
        lemma_session_order(network, factor_source_id, groups, bases, served, k1, k2 - 1);
    }
}

/// Law: peek is idempotent. Peeking borrows the cache immutably, so it cannot
/// mutate it, and its contract determines the result from the cache alone:
/// any two results that satisfy it are the same.
pub proof fn lemma_peek_deterministic(
    cache: FactorInstancesForSpecificNetworkCache,
    factor_source_id: FactorSourceID,
    r1: Option<AccountVeci>,
    r2: Option<AccountVeci>,
)
    requires
        cache.spec_accounts_for(factor_source_id).len() == 0 ==> r1 is None,
        cache.spec_accounts_for(factor_source_id).len() > 0 ==> r1 == Some(
            cache.spec_accounts_for(factor_source_id)[0],
        ),
        cache.spec_accounts_for(factor_source_id).len() == 0 ==> r2 is None,
        cache.spec_accounts_for(factor_source_id).len() > 0 ==> r2 == Some(
            cache.spec_accounts_for(factor_source_id)[0],
        ),
    ensures
        r1 == r2,
{
}


/// Law: a refill tops a partially filled identity group up to exactly the
/// target. The deduplicating merge can only lose handles when a fresh index
/// collides with a cached one; when every cached handle's index lies below the
/// fresh range — as it does in every state the provider itself produces — the
/// group ends at exactly the target size.
pub proof fn lemma_identity_refill_reaches_target(
    network: NetworkID,
    factor_source_id: FactorSourceID,
    idn: Seq<IdentityVeci>,
    base: int,
)
    requires
        idn.len() < CACHE_SIZE,
        forall|k: int|
            0 <= k < idn.len() ==> (#[trigger] idn[k]).spec_instance().derivation_path.entity_index.spec_value()
                < base,
        0 <= base,
        base + CACHE_SIZE <= u32::MAX + 1,
    ensures
        merge_dedup(
            idn,
            fresh_identity_vecis(network, factor_source_id, base, (CACHE_SIZE - idn.len()) as nat),
        ).len() == CACHE_SIZE,
{
    broadcast use lemma_identity_veci_wrap_instance;

    let count = (CACHE_SIZE - idn.len()) as nat;
    let fresh = fresh_identity_vecis(network, factor_source_id, base, count);
    lemma_fresh_identity_vecis_facts(network, factor_source_id, base, count);
    assert forall|k: int| 0 <= k < fresh.len() implies !idn.contains(#[trigger] fresh[k]) by {
        if idn.contains(fresh[k]) {
            let w = choose|w: int| 0 <= w < idn.len() && idn[w] == fresh[k];
            assert(idn[w].spec_instance().derivation_path.entity_index.spec_value() < base);
            assert(fresh[k].spec_instance().derivation_path.entity_index.spec_value() == (base
                + k) as u32);
        }
    }
    lemma_merge_dedup_disjoint(idn, fresh);
    assert(merge_dedup(idn, fresh).len() == idn.len() + count);
}

/// Law: a refill tops a partially filled account group up to exactly the
/// target, under the same no-collision hypothesis as the identity twin.
pub proof fn lemma_account_refill_reaches_target(
    network: NetworkID,
    factor_source_id: FactorSourceID,
    acc: Seq<AccountVeci>,
    base: int,
)
    requires
        acc.len() < CACHE_SIZE,
        forall|k: int|
            0 <= k < acc.len() ==> (#[trigger] acc[k]).spec_instance().derivation_path.entity_index.spec_value()
                < base,
        0 <= base,
        base + CACHE_SIZE <= u32::MAX + 1,
    ensures
        merge_dedup(
            acc,
            fresh_account_vecis(network, factor_source_id, base, (CACHE_SIZE - acc.len()) as nat),
        ).len() == CACHE_SIZE,
{
    broadcast use lemma_account_veci_wrap_instance;

    let count = (CACHE_SIZE - acc.len()) as nat;
    let fresh = fresh_account_vecis(network, factor_source_id, base, count);
    lemma_fresh_account_vecis_facts(network, factor_source_id, base, count);
    assert forall|k: int| 0 <= k < fresh.len() implies !acc.contains(#[trigger] fresh[k]) by {
        if acc.contains(fresh[k]) {
            let w = choose|w: int| 0 <= w < acc.len() && acc[w] == fresh[k];
            assert(acc[w].spec_instance().derivation_path.entity_index.spec_value() < base);
            assert(fresh[k].spec_instance().derivation_path.entity_index.spec_value() == (base
                + k) as u32);
        }
    }
    lemma_merge_dedup_disjoint(acc, fresh);
    assert(merge_dedup(acc, fresh).len() == acc.len() + count);
}

/// The full shape of a session that starts with an empty group: after the
/// first call the group is always exactly the next run of consecutive
/// indices, ending one target-size past the last derivation.
proof fn lemma_empty_session_shape(
    network: NetworkID,
    factor_source_id: FactorSourceID,
    groups: Seq<Seq<AccountVeci>>,
    bases: Seq<int>,
    served: Seq<HDFactorInstance>,
    k: int,
)
    requires
        groups.len() == served.len() + 1,
        bases.len() == served.len(),
        groups[0] == Seq::<AccountVeci>::empty(),
        forall|j: int|
            0 <= j < served.len() ==> veci_serve_step(
                network,
                factor_source_id,
                #[trigger] groups[j],
                bases[j],
                served[j],
                groups[j + 1],
            ),
        0 <= bases[0] <= u32::MAX,
        bases[0] + served.len() + CACHE_SIZE <= u32::MAX + 1,
        0 <= k < served.len(),
    ensures
        served[k].derivation_path.entity_index.spec_value() == bases[0] + k,
        groups[k + 1] == fresh_account_vecis(
            network,
            factor_source_id,
            bases[0] + k + 1,
            groups[k + 1].len() as nat,
        ),
        1 <= groups[k + 1].len() <= CACHE_SIZE,
    decreases k,
{
    broadcast use lemma_account_veci_wrap_instance;

    let b0 = bases[0];
    if k == 0 {
        assert(served[0] == account_veci_instance_at(network, factor_source_id, b0));
        assert(served[0].derivation_path.entity_index.spec_value() == (b0 as u32));
        assert(groups[1] == fresh_account_vecis(
            network,
            factor_source_id,
            b0 + 1,
            CACHE_SIZE as nat,
        ));
    } else {
        lemma_empty_session_shape(network, factor_source_id, groups, bases, served, k - 1);
        let len_k = groups[k].len();
        assert(groups[k] == fresh_account_vecis(network, factor_source_id, b0 + k, len_k as nat));
        assert(groups[k][0] == AccountVeci::spec_wrap(
            account_veci_instance_at(network, factor_source_id, b0 + k),
        ));
        assert(served[k] == groups[k][0].spec_instance());
        assert(served[k].derivation_path.entity_index.spec_value() == ((b0 + k) as u32));
        if len_k >= 2 {
            assert(groups[k + 1] =~= fresh_account_vecis(
                network,
                factor_source_id,
                b0 + k + 1,
                (len_k - 1) as nat,
            ));
        } else {
            assert(groups[k + 1] == fresh_account_vecis(
                network,
                factor_source_id,
                b0 + k + 1,
                CACHE_SIZE as nat,
            ));
        }
    }
}

/// Law: in a session that starts with an empty group — the onboarding case —
/// the calls serve exactly the consecutive indices from the assigner's base,
/// one each: every index the session ever derives is issued exactly once, and
/// each refill mints precisely the next target-size run of indices.
pub proof fn lemma_empty_session_serves_consecutively(
    network: NetworkID,
    factor_source_id: FactorSourceID,
    groups: Seq<Seq<AccountVeci>>,
    bases: Seq<int>,
    served: Seq<HDFactorInstance>,
)
    requires
        groups.len() == served.len() + 1,
        bases.len() == served.len(),
        groups[0] == Seq::<AccountVeci>::empty(),
        forall|j: int|
            0 <= j < served.len() ==> veci_serve_step(
                network,
                factor_source_id,
                #[trigger] groups[j],
                bases[j],
                served[j],
                groups[j + 1],
            ),
        0 <= bases[0] <= u32::MAX,
        bases[0] + served.len() + CACHE_SIZE <= u32::MAX + 1,
    ensures
        forall|k: int|
            0 <= k < served.len() ==> (#[trigger] served[k]).derivation_path.entity_index.spec_value()
                == bases[0] + k,
        forall|k1: int, k2: int|
            0 <= k1 < k2 < served.len() ==> (#[trigger] served[k1]).derivation_path.entity_index
                != (#[trigger] served[k2]).derivation_path.entity_index,
{
    assert forall|k: int| 0 <= k < served.len() implies (
    #[trigger] served[k]).derivation_path.entity_index.spec_value() == bases[0] + k by {
        lemma_empty_session_shape(network, factor_source_id, groups, bases, served, k);
    }
}
} // verus!
