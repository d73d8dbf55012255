//! First-match lookup over a sequence of key/value pairs, with the lemmas that
//! relate lookup to the updates the crate performs. The executable containers
//! that use this model keep their keys unique, so first match is the match.

use vstd::prelude::*;

verus! {

/// The value of the first pair with the given key, if any.
pub open spec fn assoc_get<K, V>(entries: Seq<(K, V)>, key: K) -> Option<V>
    decreases entries.len(),
{
    if entries.len() == 0 {
        None
    } else if entries[0].0 == key {
        Some(entries[0].1)
    } else {
        assoc_get(entries.drop_first(), key)
    }
}

/// Whether some pair has the given key.
pub open spec fn assoc_has<K, V>(entries: Seq<(K, V)>, key: K) -> bool {
    exists|j: int| 0 <= j < entries.len() && (#[trigger] entries[j]).0 == key
}

/// A lookup finds a value exactly when some pair has the key.
pub proof fn lemma_assoc_get_some_iff_has<K, V>(entries: Seq<(K, V)>, key: K)
    ensures
        assoc_get(entries, key) is Some <==> assoc_has(entries, key),
    decreases entries.len(),
{
    if entries.len() > 0 {
        if entries[0].0 == key {
            assert(entries[0].0 == key);
        } else {
            lemma_assoc_get_some_iff_has(entries.drop_first(), key);
            assert forall|j: int| 0 <= j < entries.len() && (#[trigger] entries[j]).0 == key implies
                assoc_has(entries.drop_first(), key) by {
                assert(entries.drop_first()[j - 1] == entries[j]);
            }
            if assoc_has(entries.drop_first(), key) {
                let j = choose|j: int|
                    0 <= j < entries.drop_first().len() && (#[trigger] entries.drop_first()[j]).0
                        == key;
                assert(entries[j + 1] == entries.drop_first()[j]);
            }
        }
    }
}

/// The first match determines the lookup.
pub proof fn lemma_assoc_get_first_match<K, V>(entries: Seq<(K, V)>, i: int, key: K)
    requires
        0 <= i < entries.len(),
        entries[i].0 == key,
        forall|j: int| 0 <= j < i ==> (#[trigger] entries[j]).0 != key,
    ensures
        assoc_get(entries, key) == Some(entries[i].1),
    decreases i,
{
    if i > 0 {
        assert(entries[0].0 != key);
        assert(entries.drop_first()[i - 1] == entries[i]);
        assert forall|j: int| 0 <= j < i - 1 implies (#[trigger] entries.drop_first()[j]).0 != key by {
            assert(entries.drop_first()[j] == entries[j + 1]);
        }
        lemma_assoc_get_first_match(entries.drop_first(), i - 1, key);
    }
}

/// With no match anywhere, the lookup finds nothing.
pub proof fn lemma_assoc_get_none<K, V>(entries: Seq<(K, V)>, key: K)
    requires
        forall|j: int| 0 <= j < entries.len() ==> (#[trigger] entries[j]).0 != key,
    ensures
        assoc_get(entries, key) is None,
    decreases entries.len(),
{
    if entries.len() > 0 {
        assert forall|j: int| 0 <= j < entries.drop_first().len() implies (#[trigger] entries.drop_first()[j]).0
            != key by {
            assert(entries.drop_first()[j] == entries[j + 1]);
        }
        lemma_assoc_get_none(entries.drop_first(), key);
    }
}

/// Replacing the value of the first pair with the key changes that key's
/// lookup and no other key's.
pub proof fn lemma_assoc_get_update<K, V>(entries: Seq<(K, V)>, i: int, value: V, key: K)
    requires
        0 <= i < entries.len(),
        entries[i].0 == key,
        forall|j: int| 0 <= j < i ==> (#[trigger] entries[j]).0 != key,
    ensures
        assoc_get(entries.update(i, (key, value)), key) == Some(value),
        forall|k2: K|
            k2 != key ==> #[trigger] assoc_get(entries.update(i, (key, value)), k2) == assoc_get(
                entries,
                k2,
            ),
    decreases i,
{
    let updated = entries.update(i, (key, value));
    if i == 0 {
        assert(updated[0] == (key, value));
        assert(assoc_get(updated, key) == Some(value));
        assert forall|k2: K| k2 != key implies #[trigger] assoc_get(updated, k2) == assoc_get(
            entries,
            k2,
        ) by {
            assert(updated.drop_first() =~= entries.drop_first());
            assert(assoc_get(updated, k2) == assoc_get(entries.drop_first(), k2));
            assert(assoc_get(entries, k2) == assoc_get(entries.drop_first(), k2));
        }
    } else {
        assert(updated[0] == entries[0]);
        assert(updated.drop_first() =~= entries.drop_first().update(i - 1, (key, value)));
        assert(entries.drop_first()[i - 1] == entries[i]);
        assert forall|j: int| 0 <= j < i - 1 implies (#[trigger] entries.drop_first()[j]).0 != key by {
            assert(entries.drop_first()[j] == entries[j + 1]);
        }
        lemma_assoc_get_update(entries.drop_first(), i - 1, value, key);
        let dfu = entries.drop_first().update(i - 1, (key, value));
        assert(entries[0].0 != key);
        assert(assoc_get(updated, key) == assoc_get(dfu, key));
        assert forall|k2: K| k2 != key implies #[trigger] assoc_get(updated, k2) == assoc_get(
            entries,
            k2,
        ) by {
            if updated[0].0 == k2 {
            } else {
                assert(assoc_get(updated, k2) == assoc_get(dfu, k2));
                assert(assoc_get(dfu, k2) == assoc_get(entries.drop_first(), k2));
                assert(assoc_get(entries, k2) == assoc_get(entries.drop_first(), k2));
            }
        }
    }
}

/// Appending a pair gives its key a lookup if it had none, and leaves every
/// other key's lookup as it was.
pub proof fn lemma_assoc_get_push<K, V>(entries: Seq<(K, V)>, key: K, value: V)
    ensures
        forall|k2: K|
            #[trigger] assoc_get(entries.push((key, value)), k2) == (if assoc_get(
                entries,
                k2,
            ) is Some {
                assoc_get(entries, k2)
            } else if k2 == key {
                Some(value)
            } else {
                None
            }),
    decreases entries.len(),
{
    let pushed = entries.push((key, value));
    if entries.len() == 0 {
        assert forall|k2: K| #[trigger] assoc_get(pushed, k2) == (if assoc_get(
            entries,
            k2,
        ) is Some {
            assoc_get(entries, k2)
        } else if k2 == key {
            Some(value)
        } else {
            None
        }) by {
            assert(pushed[0] == (key, value));
            assert(pushed.drop_first() =~= Seq::<(K, V)>::empty());
            assert(assoc_get(Seq::<(K, V)>::empty(), k2) is None);
            assert(assoc_get(entries, k2) is None);
            if k2 != key {
                assert(assoc_get(pushed, k2) == assoc_get(pushed.drop_first(), k2));
                assert(assoc_get(pushed.drop_first(), k2) == assoc_get(
                    Seq::<(K, V)>::empty(),
                    k2,
                ));
            }
        }
    } else {
        assert(pushed[0] == entries[0]);
        assert(pushed.drop_first() =~= entries.drop_first().push((key, value)));
        lemma_assoc_get_push(entries.drop_first(), key, value);
        let dfp = entries.drop_first().push((key, value));
        assert forall|k2: K| #[trigger] assoc_get(pushed, k2) == (if assoc_get(
            entries,
            k2,
        ) is Some {
            assoc_get(entries, k2)
        } else if k2 == key {
            Some(value)
        } else {
            None
        }) by {
            if pushed[0].0 == k2 {
            } else {
                assert(assoc_get(pushed, k2) == assoc_get(dfp, k2));
                assert(assoc_get(entries, k2) == assoc_get(entries.drop_first(), k2));
                assert(assoc_get(dfp, k2) == (if assoc_get(entries.drop_first(), k2) is Some {
                    assoc_get(entries.drop_first(), k2)
                } else if k2 == key {
                    Some(value)
                } else {
                    None
                }));
            }
        }
    }
}

} // verus!
