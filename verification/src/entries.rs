//! Lists of entries in the order of their keys: what an ordered map holds,
//! as the proofs see it.

use vstd::prelude::*;

verus! {

/// The value stored under `key` in a list of entries, if there is one.
pub open spec fn lookup<K, V>(entries: Seq<(K, V)>, key: K) -> Option<V>
    decreases entries.len(),
{
    if entries.len() == 0 {
        None
    } else if entries[0].0 == key {
        Some(entries[0].1)
    } else {
        lookup(entries.drop_first(), key)
    }
}

/// The entries after `value` is written under `key`: the entry of that key
/// is replaced where there is one; else the new entry stands in front of the
/// first key that comes after it in the order `before`.
pub open spec fn put<K, V>(
    entries: Seq<(K, V)>,
    before: spec_fn(K, K) -> bool,
    key: K,
    value: V,
) -> Seq<(K, V)>
    decreases entries.len(),
{
    if entries.len() == 0 {
        seq![(key, value)]
    } else if entries[0].0 == key {
        seq![(key, value)] + entries.drop_first()
    } else if before(key, entries[0].0) {
        seq![(key, value)] + entries
    } else {
        seq![entries[0]] + put(entries.drop_first(), before, key, value)
    }
}

/// The entries without the entry of `key`.
pub open spec fn without<K, V>(entries: Seq<(K, V)>, key: K) -> Seq<(K, V)>
    decreases entries.len(),
{
    if entries.len() == 0 {
        entries
    } else if entries[0].0 == key {
        entries.drop_first()
    } else {
        seq![entries[0]] + without(entries.drop_first(), key)
    }
}

/// Where the scan of the entries for `key` stops at position `at`: no entry
/// in front of it has the key, or a key that comes after it.
pub open spec fn scan_stops<K, V>(
    entries: Seq<(K, V)>,
    before: spec_fn(K, K) -> bool,
    key: K,
    at: int,
) -> bool {
    &&& 0 <= at <= entries.len()
    &&& forall|j: int| 0 <= j < at ==> (#[trigger] entries[j]).0 != key && !before(key, entries[j].0)
    &&& at < entries.len() ==> entries[at].0 == key || before(key, entries[at].0)
}

/// Writing a key replaces the entry at which the scan for it stops, where
/// that entry has the key, and else puts the new entry there.
pub proof fn lemma_put_at<K, V>(
    entries: Seq<(K, V)>,
    before: spec_fn(K, K) -> bool,
    key: K,
    value: V,
    at: int,
)
    requires
        scan_stops(entries, before, key, at),
    ensures
        put(entries, before, key, value) == if at < entries.len() && entries[at].0 == key {
            entries.update(at, (key, value))
        } else {
            entries.insert(at, (key, value))
        },
    decreases entries.len(),
{
    let after = put(entries, before, key, value);
    if entries.len() == 0 {
        assert(after =~= entries.insert(at, (key, value)));
    } else if at == 0 {
        if entries[0].0 == key {
            assert(after =~= entries.update(0, (key, value)));
        } else {
            assert(after =~= entries.insert(0, (key, value)));
        }
    } else {
        let rest = entries.drop_first();
        assert(entries[0].0 != key && !before(key, entries[0].0));
        assert forall|j: int| 0 <= j < at - 1 implies (#[trigger] rest[j]).0 != key && !before(
            key,
            rest[j].0,
        ) by {
            assert(rest[j] == entries[j + 1]);
        }
        lemma_put_at(rest, before, key, value, at - 1);
        if at < entries.len() && entries[at].0 == key {
            assert(after =~= entries.update(at, (key, value)));
        } else {
            assert(after =~= entries.insert(at, (key, value)));
        }
    }
}

/// Reading a key finds the first entry that has it.
pub proof fn lemma_lookup_at<K, V>(entries: Seq<(K, V)>, key: K, at: int)
    requires
        0 <= at <= entries.len(),
        forall|j: int| 0 <= j < at ==> (#[trigger] entries[j]).0 != key,
        at < entries.len() ==> entries[at].0 == key,
    ensures
        lookup(entries, key) == if at < entries.len() {
            Some(entries[at].1)
        } else {
            None
        },
    decreases entries.len(),
{
    if entries.len() > 0 && at > 0 {
        let rest = entries.drop_first();
        assert forall|j: int| 0 <= j < at - 1 implies (#[trigger] rest[j]).0 != key by {
            assert(rest[j] == entries[j + 1]);
        }
        lemma_lookup_at(rest, key, at - 1);
    }
}

/// Dropping a key takes out the first entry that has it.
pub proof fn lemma_without_at<K, V>(entries: Seq<(K, V)>, key: K, at: int)
    requires
        0 <= at < entries.len(),
        forall|j: int| 0 <= j < at ==> (#[trigger] entries[j]).0 != key,
        entries[at].0 == key,
    ensures
        without(entries, key) == entries.remove(at),
    decreases entries.len(),
{
    if at == 0 {
        assert(without(entries, key) =~= entries.remove(0));
    } else {
        let rest = entries.drop_first();
        assert forall|j: int| 0 <= j < at - 1 implies (#[trigger] rest[j]).0 != key by {
            assert(rest[j] == entries[j + 1]);
        }
        lemma_without_at(rest, key, at - 1);
        assert(without(entries, key) =~= entries.remove(at));
    }
}

/// Every entry of an index after a write is the written one or one that the
/// index held.
pub proof fn lemma_put_entries<K, V>(
    entries: Seq<(K, V)>,
    before: spec_fn(K, K) -> bool,
    key: K,
    value: V,
    i: int,
)
    requires
        0 <= i < put(entries, before, key, value).len(),
    ensures
        put(entries, before, key, value)[i] == (key, value) || entries.contains(
            put(entries, before, key, value)[i],
        ),
    decreases entries.len(),
{
    let after = put(entries, before, key, value);
    if entries.len() == 0 {
    } else if entries[0].0 == key {
        if i > 0 {
            assert(after[i] == entries[i]);
        }
    } else if before(key, entries[0].0) {
        if i > 0 {
            assert(after[i] == entries[i - 1]);
        }
    } else {
        if i == 0 {
            assert(after[0] == entries[0]);
        } else {
            let rest = entries.drop_first();
            lemma_put_entries(rest, before, key, value, i - 1);
            assert(after[i] == put(rest, before, key, value)[i - 1]);
            if after[i] != (key, value) {
                let j = choose|j: int| 0 <= j < rest.len() && rest[j] == after[i];
                assert(entries[j + 1] == after[i]);
            }
        }
    }
}

/// Reading after writing: the written key holds the new value, every other
/// key holds what it held.
pub proof fn lemma_read_after_write<K, V>(
    entries: Seq<(K, V)>,
    before: spec_fn(K, K) -> bool,
    key: K,
    value: V,
    other: K,
)
    ensures
        lookup(put(entries, before, key, value), other) == if other == key {
            Some(value)
        } else {
            lookup(entries, other)
        },
    decreases entries.len(),
{
    let after = put(entries, before, key, value);
    if entries.len() == 0 {
        assert(after[0] == (key, value));
        assert(after.drop_first() =~= entries);
    } else if entries[0].0 == key {
        assert(after[0] == (key, value));
        assert(after.drop_first() =~= entries.drop_first());
    } else if before(key, entries[0].0) {
        assert(after[0] == (key, value));
        assert(after.drop_first() =~= entries);
    } else {
        lemma_read_after_write(entries.drop_first(), before, key, value, other);
        assert(after[0] == entries[0]);
        assert(after.drop_first() =~= put(entries.drop_first(), before, key, value));
    }
}

} // verus!
