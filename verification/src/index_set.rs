//! The contracts this crate assumes of indexmap's `IndexSet`, which backs the
//! per-template groups of unused validated handles. An `IndexSet` keeps its
//! elements in insertion order and holds no duplicates (two elements are
//! duplicates when they are equal under `Eq`, which for the element types used
//! here is field-wise equality). Each group's contents are modelled as the
//! sequence of its elements in that order.

use vstd::prelude::*;

use crate::instances::{AccountVeci, IdentityVeci};

verus! {

/// indexmap's insertion-ordered set, declared so that it can stand in fields
/// and signatures. Values of it are read and written only through the
/// functions below.
#[verifier::external_type_specification]
#[verifier::external_body]
#[verifier::reject_recursive_types(T)]
#[verifier::reject_recursive_types(S)]
pub struct ExIndexSet<T, S>(indexmap::IndexSet<T, S>);

/// The elements of an account-veci set, in insertion order.
pub uninterp spec fn account_veci_set_elems(s: indexmap::IndexSet<AccountVeci>) -> Seq<
    AccountVeci,
>;

/// The elements of an identity-veci set, in insertion order.
pub uninterp spec fn identity_veci_set_elems(s: indexmap::IndexSet<IdentityVeci>) -> Seq<
    IdentityVeci,
>;

/// Relies on IndexSet::new: the new set is empty.
#[verifier::external_body]
pub(crate) fn account_veci_set_new() -> (s: indexmap::IndexSet<AccountVeci>)
    ensures
        account_veci_set_elems(s) == Seq::<AccountVeci>::empty(),
{
    indexmap::IndexSet::new()
}

/// Relies on IndexSet::len: the number of elements.
#[verifier::external_body]
pub(crate) fn account_veci_set_len(s: &indexmap::IndexSet<AccountVeci>) -> (n: usize)
    ensures
        n == account_veci_set_elems(*s).len(),
{
    s.len()
}

/// Relies on IndexSet::insert: appends the value, unless an equal element is
/// already present, in which case the set is left as it is.
#[verifier::external_body]
pub(crate) fn account_veci_set_insert(
    s: &mut indexmap::IndexSet<AccountVeci>,
    v: AccountVeci,
) -> (r: bool)
    ensures
        account_veci_set_elems(*old(s)).contains(v) ==> account_veci_set_elems(*final(s))
            == account_veci_set_elems(*old(s)) && r == false,
        !account_veci_set_elems(*old(s)).contains(v) ==> account_veci_set_elems(*final(s))
            == account_veci_set_elems(*old(s)).push(v) && r == true,
{
    s.insert(v)
}

/// Relies on IndexSet::first: the element at index 0, if any.
#[verifier::external_body]
pub(crate) fn account_veci_set_first(s: &indexmap::IndexSet<AccountVeci>) -> (r: Option<
    AccountVeci,
>)
    ensures
        account_veci_set_elems(*s).len() == 0 ==> r is None,
        account_veci_set_elems(*s).len() > 0 ==> r == Some(account_veci_set_elems(*s)[0]),
{
    s.first().copied()
}

/// Relies on IndexSet::shift_remove_index: removes and returns the element at
/// index 0, shifting the rest and preserving their relative order; on an empty
/// set it returns nothing and changes nothing.
#[verifier::external_body]
pub(crate) fn account_veci_set_shift_remove_first(s: &mut indexmap::IndexSet<AccountVeci>) -> (r:
    Option<AccountVeci>)
    ensures
        account_veci_set_elems(*old(s)).len() == 0 ==> account_veci_set_elems(*final(s))
            == account_veci_set_elems(*old(s)) && r is None,
        account_veci_set_elems(*old(s)).len() > 0 ==> account_veci_set_elems(*final(s))
            == account_veci_set_elems(*old(s)).drop_first() && r == Some(
            account_veci_set_elems(*old(s))[0],
        ),
{
    s.shift_remove_index(0)
}

/// Relies on IndexSet::iter: the elements in their order; a set holds no
/// duplicates, so the elements are pairwise distinct.
#[verifier::external_body]
pub(crate) fn account_veci_set_to_vec(s: &indexmap::IndexSet<AccountVeci>) -> (v: Vec<AccountVeci>)
    ensures
        v@ == account_veci_set_elems(*s),
        forall|k1: int, k2: int| 0 <= k1 < k2 < v@.len() ==> v@[k1] != v@[k2],
{
    s.iter().copied().collect()
}

/// Relies on IndexSet's Clone: the clone has the same elements in the same
/// order.
#[verifier::external_body]
pub(crate) fn account_veci_set_clone(s: &indexmap::IndexSet<AccountVeci>) -> (r:
    indexmap::IndexSet<AccountVeci>)
    ensures
        account_veci_set_elems(r) == account_veci_set_elems(*s),
{
    s.clone()
}

/// Relies on IndexSet::new: the new set is empty.
#[verifier::external_body]
pub(crate) fn identity_veci_set_new() -> (s: indexmap::IndexSet<IdentityVeci>)
    ensures
        identity_veci_set_elems(s) == Seq::<IdentityVeci>::empty(),
{
    indexmap::IndexSet::new()
}

/// Relies on IndexSet::len: the number of elements.
#[verifier::external_body]
pub(crate) fn identity_veci_set_len(s: &indexmap::IndexSet<IdentityVeci>) -> (n: usize)
    ensures
        n == identity_veci_set_elems(*s).len(),
{
    s.len()
}

/// Relies on IndexSet::insert: appends the value, unless an equal element is
/// already present, in which case the set is left as it is.
#[verifier::external_body]
pub(crate) fn identity_veci_set_insert(
    s: &mut indexmap::IndexSet<IdentityVeci>,
    v: IdentityVeci,
) -> (r: bool)
    ensures
        identity_veci_set_elems(*old(s)).contains(v) ==> identity_veci_set_elems(*final(s))
            == identity_veci_set_elems(*old(s)) && r == false,
        !identity_veci_set_elems(*old(s)).contains(v) ==> identity_veci_set_elems(*final(s))
            == identity_veci_set_elems(*old(s)).push(v) && r == true,
{
    s.insert(v)
}

/// Relies on IndexSet::iter: the elements in their order; a set holds no
/// duplicates, so the elements are pairwise distinct.
#[verifier::external_body]
pub(crate) fn identity_veci_set_to_vec(s: &indexmap::IndexSet<IdentityVeci>) -> (v: Vec<
    IdentityVeci,
>)
    ensures
        v@ == identity_veci_set_elems(*s),
        forall|k1: int, k2: int| 0 <= k1 < k2 < v@.len() ==> v@[k1] != v@[k2],
{
    s.iter().copied().collect()
}

/// Relies on IndexSet's Clone: the clone has the same elements in the same
/// order.
#[verifier::external_body]
pub(crate) fn identity_veci_set_clone(s: &indexmap::IndexSet<IdentityVeci>) -> (r:
    indexmap::IndexSet<IdentityVeci>)
    ensures
        identity_veci_set_elems(r) == identity_veci_set_elems(*s),
{
    s.clone()
}

} // verus!
