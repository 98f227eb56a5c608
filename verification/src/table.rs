//! Association tables keyed by session identifier: the spec-level view of
//! both shared maps (the config registry and the live-process map), and the
//! verified lookup they share.

use vstd::prelude::*;

verus! {

/// Whether some entry carries the key `id`.
pub open spec fn has_key<V>(entries: Seq<(String, V)>, id: Seq<char>) -> bool {
    exists|k: int| 0 <= k < entries.len() && entries[k].0@ == id
}

/// The value stored under `id`: of several entries with the key, the one
/// added last.
pub open spec fn lookup<V>(entries: Seq<(String, V)>, id: Seq<char>) -> Option<V>
    decreases entries.len(),
{
    if entries.len() == 0 {
        None
    } else if entries.last().0@ == id {
        Some(entries.last().1)
    } else {
        lookup(entries.drop_last(), id)
    }
}

/// No two entries carry the same key.
pub open spec fn unique_keys<V>(entries: Seq<(String, V)>) -> bool {
    forall|k1: int, k2: int|
        0 <= k1 < k2 < entries.len() ==> entries[k1].0@ != entries[k2].0@
}

/// A key is found if and only if some entry carries it.
pub proof fn lemma_lookup_has_key<V>(entries: Seq<(String, V)>, id: Seq<char>)
    ensures
        lookup(entries, id) is Some <==> has_key(entries, id),
    decreases entries.len(),
{
    if entries.len() > 0 {
        if entries.last().0@ == id {
            assert(entries[entries.len() - 1].0@ == id);
        } else {
            lemma_lookup_has_key(entries.drop_last(), id);
            if has_key(entries, id) {
                let k = choose|k: int| 0 <= k < entries.len() && entries[k].0@ == id;
                assert(entries.drop_last()[k].0@ == id);
            }
        }
    }
}

/// Appending an entry leaves every other key's value alone and stores the
/// new value under the new key.
pub proof fn lemma_lookup_push<V>(entries: Seq<(String, V)>, entry: (String, V), id: Seq<char>)
    ensures
        lookup(entries.push(entry), id) == if entry.0@ == id {
            Some(entry.1)
        } else {
            lookup(entries, id)
        },
{
    assert(entries.push(entry).last() == entry);
    assert(entries.push(entry).drop_last() =~= entries);
}

/// Removing the one entry that carries `id` removes the key entirely and
/// keeps the remaining keys distinct.
pub proof fn lemma_remove_key<V>(entries: Seq<(String, V)>, k: int, id: Seq<char>)
    requires
        unique_keys(entries),
        0 <= k < entries.len(),
        entries[k].0@ == id,
    ensures
        !has_key(entries.remove(k), id),
        unique_keys(entries.remove(k)),
{
    let rest = entries.remove(k);
    assert forall|j: int| 0 <= j < rest.len() implies rest[j].0@ != id by {
        if j < k {
            assert(rest[j] == entries[j]);
        } else {
            assert(rest[j] == entries[j + 1]);
        }
    }
    assert forall|j1: int, j2: int| 0 <= j1 < j2 < rest.len() implies rest[j1].0@ != rest[j2].0@ by {
        let i1 = if j1 < k { j1 } else { j1 + 1 };
        let i2 = if j2 < k { j2 } else { j2 + 1 };
        assert(rest[j1] == entries[i1]);
        assert(rest[j2] == entries[i2]);
    }
}

/// Finds the entry carrying `id`, scanning from the end, and returns its
/// position.
pub fn find_key<V>(entries: &Vec<(String, V)>, id: &String) -> (r: Option<usize>)
    ensures
        match r {
            Some(k) => k < entries@.len() && entries@[k as int].0@ == id@ && lookup(
                entries@,
                id@,
            ) == Some(entries@[k as int].1) && has_key(entries@, id@),
            None => !has_key(entries@, id@) && lookup(entries@, id@) is None,
        },
{
    let ghost all = entries@;
    let mut i = entries.len();
    proof {
        assert(all.take(all.len() as int) =~= all);
    }
    while i > 0
        invariant
            i <= entries@.len(),
            entries@ == all,
            lookup(all, id@) == lookup(all.take(i as int), id@),
            forall|k: int| i <= k < all.len() ==> all[k].0@ != id@,
        decreases i,
    {
        i = i - 1;
        let hit = entries[i].0 == *id;
        proof {
            let prefix = all.take(i as int + 1);
            assert(prefix.last() == all[i as int]);
            assert(prefix.drop_last() =~= all.take(i as int));
        }
        if hit {
            proof {
                lemma_lookup_has_key(all, id@);
            }
            return Some(i);
        }
    }
    proof {
        assert(all.take(0) =~= Seq::<(String, V)>::empty());
        lemma_lookup_has_key(all, id@);
    }
    None
}

} // verus!
