//! Key-sorted entry sequences and the maps they represent.
use vstd::prelude::*;
use vstd::map::*;
use crate::text::{lemma_seq_lt_irreflexive, lemma_seq_lt_transitive, seq_lt};

verus! {

/// The keys strictly increase along the sequence.
pub open spec fn sorted_keys<V>(s: Seq<(Seq<char>, V)>) -> bool {
    forall|i: int, j: int| 0 <= i < j < s.len() ==> seq_lt(#[trigger] s[i].0, #[trigger] s[j].0)
}

/// Some entry of the sequence has key `k`.
pub open spec fn has_key<V>(s: Seq<(Seq<char>, V)>, k: Seq<char>) -> bool {
    exists|i: int| 0 <= i < s.len() && (#[trigger] s[i]).0 == k
}

/// An index at which the sequence holds key `k`, if there is one.
pub open spec fn key_index<V>(s: Seq<(Seq<char>, V)>, k: Seq<char>) -> int {
    choose|i: int| 0 <= i < s.len() && (#[trigger] s[i]).0 == k
}

/// The map from each key of the sequence to the value beside it.
pub open spec fn entries_map<V>(s: Seq<(Seq<char>, V)>) -> Map<Seq<char>, V> {
    Map::new(|k: Seq<char>| has_key(s, k), |k: Seq<char>| s[key_index(s, k)].1)
}

/// The keys of the sequence, in order.
pub open spec fn keys_of<V>(s: Seq<(Seq<char>, V)>) -> Seq<Seq<char>> {
    s.map_values(|e: (Seq<char>, V)| e.0)
}

/// In a key-sorted sequence the entry at `i` is the one the map holds for
/// its key.
pub proof fn lemma_entries_map_index<V>(s: Seq<(Seq<char>, V)>, n: int)
    requires
        sorted_keys(s),
        0 <= n < s.len(),
    ensures
        entries_map(s).contains_key(s[n].0),
        entries_map(s)[s[n].0] == s[n].1,
{
    let k = s[n].0;
    assert(has_key(s, k));
    let j = key_index(s, k);
    assert(0 <= j < s.len() && s[j].0 == k);
    if j != n {
        lemma_sorted_unique(s, j, n);
    }
    assert(entries_map(s)[k] == s[j].1);
}

/// In a key-sorted sequence, a key below the key at position `i` sits at a
/// position before `i`.
pub proof fn lemma_sorted_before<V>(s: Seq<(Seq<char>, V)>, i: int, k: Seq<char>) -> (j: int)
    requires
        sorted_keys(s),
        0 <= i < s.len(),
        entries_map(s).contains_key(k),
        seq_lt(k, s[i].0),
    ensures
        0 <= j < i,
        s[j].0 == k,
        entries_map(s)[k] == s[j].1,
{
    let j = choose|j: int| 0 <= j < s.len() && (#[trigger] s[j]).0 == k;
    lemma_entries_map_index(s, j);
    if j == i {
        lemma_seq_lt_irreflexive(k);
    } else if j > i {
        lemma_seq_lt_transitive(k, s[i].0, k);
        lemma_seq_lt_irreflexive(k);
    }
    j
}

/// Every key of a key-sorted sequence is found at exactly one index.
pub proof fn lemma_sorted_unique<V>(s: Seq<(Seq<char>, V)>, i: int, j: int)
    requires
        sorted_keys(s),
        0 <= i < s.len(),
        0 <= j < s.len(),
        s[i].0 == s[j].0,
    ensures
        i == j,
{
    lemma_seq_lt_irreflexive(s[i].0);
    if i < j {
        assert(seq_lt(s[i].0, s[j].0));
    } else if j < i {
        assert(seq_lt(s[j].0, s[i].0));
    }
}

/// The map's domain is the set of keys, and it has one key per entry.
pub proof fn lemma_entries_map_len<V>(s: Seq<(Seq<char>, V)>)
    requires
        sorted_keys(s),
    ensures
        entries_map(s).dom() =~= keys_of(s).to_set(),
        entries_map(s).dom().finite(),
        entries_map(s).len() == s.len(),
{
    let ks = keys_of(s);
    assert forall|k: Seq<char>| entries_map(s).dom().contains(k) <==> ks.to_set().contains(k) by {
        if entries_map(s).dom().contains(k) {
            let i = choose|i: int| 0 <= i < s.len() && (#[trigger] s[i]).0 == k;
            assert(ks[i] == k);
        }
        if ks.to_set().contains(k) {
            assert(ks.contains(k));
            let i = choose|i: int| 0 <= i < ks.len() && ks[i] == k;
            assert(s[i].0 == k);
        }
    }
    assert(ks.no_duplicates()) by {
        assert forall|i: int, j: int| 0 <= i < ks.len() && 0 <= j < ks.len() && i != j implies ks[i]
            != ks[j] by {
            if ks[i] == ks[j] {
                lemma_sorted_unique(s, i, j);
            }
        }
    }
    ks.unique_seq_to_set();
    vstd::seq_lib::seq_to_set_is_finite(ks);
}

/// Inserting a new key at its sorted position keeps the keys sorted and adds
/// the entry to the map.
pub proof fn lemma_entries_insert<V>(s: Seq<(Seq<char>, V)>, i: int, k: Seq<char>, v: V)
    requires
        sorted_keys(s),
        0 <= i <= s.len(),
        forall|j: int| 0 <= j < i ==> seq_lt(#[trigger] s[j].0, k),
        forall|j: int| i <= j < s.len() ==> seq_lt(k, #[trigger] s[j].0),
    ensures
        sorted_keys(s.insert(i, (k, v))),
        entries_map(s.insert(i, (k, v))) =~= entries_map(s).insert(k, v),
        !entries_map(s).contains_key(k),
{
    let t = s.insert(i, (k, v));
    assert forall|a: int, b: int| 0 <= a < b < t.len() implies seq_lt(
        #[trigger] t[a].0,
        #[trigger] t[b].0,
    ) by {
        if b < i {
        } else if b == i {
        } else if a < i {
            lemma_seq_lt_transitive(s[a].0, k, s[b - 1].0);
        } else if a == i {
        } else {
        }
    }
    lemma_seq_lt_irreflexive(k);
    if has_key(s, k) {
        let j = choose|j: int| 0 <= j < s.len() && (#[trigger] s[j]).0 == k;
        if j < i {
            assert(seq_lt(s[j].0, k));
        } else {
            assert(seq_lt(k, s[j].0));
        }
    }
    assert forall|x: Seq<char>| #[trigger] entries_map(t).contains_key(x) <==> entries_map(
        s,
    ).insert(k, v).contains_key(x) by {
        if has_key(t, x) {
            let j = choose|j: int| 0 <= j < t.len() && (#[trigger] t[j]).0 == x;
            if j < i {
                assert(s[j].0 == x);
            } else if j > i {
                assert(s[j - 1].0 == x);
            }
        }
        if has_key(s, x) {
            let j = choose|j: int| 0 <= j < s.len() && (#[trigger] s[j]).0 == x;
            if j < i {
                assert(t[j].0 == x);
            } else {
                assert(t[j + 1].0 == x);
            }
        }
        if x == k {
            assert(t[i].0 == x);
        }
    }
    assert forall|x: Seq<char>| #[trigger] entries_map(t).contains_key(x) implies entries_map(t)[x]
        == entries_map(s).insert(k, v)[x] by {
        let j = choose|j: int| 0 <= j < t.len() && (#[trigger] t[j]).0 == x;
        lemma_entries_map_index(t, j);
        if j < i {
            lemma_entries_map_index(s, j);
        } else if j > i {
            lemma_entries_map_index(s, j - 1);
        }
    }
}

/// Replacing the value of an existing key keeps the keys and updates the map.
pub proof fn lemma_entries_update<V>(s: Seq<(Seq<char>, V)>, i: int, v: V)
    requires
        sorted_keys(s),
        0 <= i < s.len(),
    ensures
        sorted_keys(s.update(i, (s[i].0, v))),
        entries_map(s.update(i, (s[i].0, v))) =~= entries_map(s).insert(s[i].0, v),
{
    let k = s[i].0;
    let t = s.update(i, (k, v));
    assert(keys_of(t) =~= keys_of(s));
    assert forall|a: int, b: int| 0 <= a < b < t.len() implies seq_lt(
        #[trigger] t[a].0,
        #[trigger] t[b].0,
    ) by {
        assert(t[a].0 == s[a].0);
        assert(t[b].0 == s[b].0);
    }
    assert forall|x: Seq<char>| #[trigger] entries_map(t).contains_key(x) <==> entries_map(
        s,
    ).insert(k, v).contains_key(x) by {
        if has_key(t, x) {
            let j = choose|j: int| 0 <= j < t.len() && (#[trigger] t[j]).0 == x;
            assert(s[j].0 == x);
        }
        if has_key(s, x) {
            let j = choose|j: int| 0 <= j < s.len() && (#[trigger] s[j]).0 == x;
            assert(t[j].0 == x);
        }
        if x == k {
            assert(t[i].0 == x);
        }
    }
    assert forall|x: Seq<char>| #[trigger] entries_map(t).contains_key(x) implies entries_map(t)[x]
        == entries_map(s).insert(k, v)[x] by {
        let j = choose|j: int| 0 <= j < t.len() && (#[trigger] t[j]).0 == x;
        lemma_entries_map_index(t, j);
        if j != i {
            lemma_entries_map_index(s, j);
            if x == k {
                lemma_sorted_unique(s, i, j);
            }
        }
    }
}

/// Removing the entry at `i` keeps the keys sorted and removes its key from
/// the map.
pub proof fn lemma_entries_remove<V>(s: Seq<(Seq<char>, V)>, i: int)
    requires
        sorted_keys(s),
        0 <= i < s.len(),
    ensures
        sorted_keys(s.remove(i)),
        entries_map(s.remove(i)) =~= entries_map(s).remove(s[i].0),
{
    let k = s[i].0;
    let t = s.remove(i);
    assert forall|a: int, b: int| 0 <= a < b < t.len() implies seq_lt(
        #[trigger] t[a].0,
        #[trigger] t[b].0,
    ) by {
        if b < i {
        } else if a < i {
            assert(t[b].0 == s[b + 1].0);
        } else {
            assert(t[a].0 == s[a + 1].0);
            assert(t[b].0 == s[b + 1].0);
        }
    }
    assert forall|x: Seq<char>| #[trigger] entries_map(t).contains_key(x) <==> entries_map(
        s,
    ).remove(k).contains_key(x) by {
        if has_key(t, x) {
            let j = choose|j: int| 0 <= j < t.len() && (#[trigger] t[j]).0 == x;
            if j < i {
                assert(s[j].0 == x);
                if x == k {
                    lemma_sorted_unique(s, i, j);
                }
            } else {
                assert(s[j + 1].0 == x);
                if x == k {
                    lemma_sorted_unique(s, i, j + 1);
                }
            }
        }
        if has_key(s, x) && x != k {
            let j = choose|j: int| 0 <= j < s.len() && (#[trigger] s[j]).0 == x;
            if j < i {
                assert(t[j].0 == x);
            } else {
                assert(j != i);
                assert(t[j - 1].0 == x);
            }
        }
    }
    assert forall|x: Seq<char>| #[trigger] entries_map(t).contains_key(x) implies entries_map(t)[x]
        == entries_map(s).remove(k)[x] by {
        let j = choose|j: int| 0 <= j < t.len() && (#[trigger] t[j]).0 == x;
        lemma_entries_map_index(t, j);
        if j < i {
            lemma_entries_map_index(s, j);
        } else {
            lemma_entries_map_index(s, j + 1);
        }
    }
}

} // verus!
