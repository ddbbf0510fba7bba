//! Lists of (key, value) pairs with distinct integer keys, read as maps:
//! what a keyed table of the drivers holds, and how finding, replacing and
//! removing a pair changes that map.
use vstd::prelude::*;

verus! {

/// The map that a list of (key, value) pairs stands for; a later pair wins.
pub open spec fn pairs_map<V>(s: Seq<(u64, V)>) -> Map<u64, V>
    decreases s.len(),
{
    if s.len() == 0 {
        Map::empty()
    } else {
        pairs_map(s.drop_last()).insert(s.last().0, s.last().1)
    }
}

/// No key occurs twice.
pub open spec fn keys_unique<V>(s: Seq<(u64, V)>) -> bool {
    forall|i: int, j: int| 0 <= i < j < s.len() ==> s[i].0 != s[j].0
}

/// A key is in the map exactly when some pair has it.
pub proof fn lemma_pairs_contains<V>(s: Seq<(u64, V)>, k: u64)
    ensures
        pairs_map(s).dom().contains(k) <==> exists|i: int| 0 <= i < s.len() && s[i].0 == k,
    decreases s.len(),
{
    if s.len() > 0 {
        lemma_pairs_contains(s.drop_last(), k);
        if pairs_map(s).dom().contains(k) && s.last().0 != k {
            let i = choose|i: int| 0 <= i < s.drop_last().len() && s.drop_last()[i].0 == k;
            assert(s[i].0 == k);
        }
        if exists|i: int| 0 <= i < s.len() && s[i].0 == k {
            let i = choose|i: int| 0 <= i < s.len() && s[i].0 == k;
            if i < s.len() - 1 {
                assert(s.drop_last()[i].0 == k);
            }
        }
    }
}

/// With distinct keys, each pair's value is what the map gives for its key.
pub proof fn lemma_pairs_value<V>(s: Seq<(u64, V)>, i: int)
    requires
        keys_unique(s),
        0 <= i < s.len(),
    ensures
        pairs_map(s).dom().contains(s[i].0),
        pairs_map(s)[s[i].0] == s[i].1,
    decreases s.len(),
{
    if i < s.len() - 1 {
        lemma_pairs_value(s.drop_last(), i);
    }
}

/// Replacing the value of one pair is inserting it into the map.
pub proof fn lemma_pairs_update<V>(s: Seq<(u64, V)>, i: int, v: V)
    requires
        keys_unique(s),
        0 <= i < s.len(),
    ensures
        pairs_map(s.update(i, (s[i].0, v))) == pairs_map(s).insert(s[i].0, v),
    decreases s.len(),
{
    let t = s.update(i, (s[i].0, v));
    if i == s.len() - 1 {
        assert(t.drop_last() =~= s.drop_last());
        assert(pairs_map(t) =~= pairs_map(s).insert(s[i].0, v));
    } else {
        assert(t.drop_last() =~= s.drop_last().update(i, (s[i].0, v)));
        lemma_pairs_update(s.drop_last(), i, v);
        assert(pairs_map(t) =~= pairs_map(s).insert(s[i].0, v));
    }
}

/// Removing one pair removes its key from the map, and keeps keys distinct.
pub proof fn lemma_pairs_remove<V>(s: Seq<(u64, V)>, i: int)
    requires
        keys_unique(s),
        0 <= i < s.len(),
    ensures
        pairs_map(s.remove(i)) == pairs_map(s).remove(s[i].0),
        keys_unique(s.remove(i)),
    decreases s.len(),
{
    let t = s.remove(i);
    if i == s.len() - 1 {
        assert(t =~= s.drop_last());
        lemma_pairs_contains(s.drop_last(), s[i].0);
        assert(pairs_map(t) =~= pairs_map(s).remove(s[i].0));
    } else {
        assert(t.drop_last() =~= s.drop_last().remove(i));
        assert(t.last() == s.last());
        lemma_pairs_remove(s.drop_last(), i);
        assert(pairs_map(t) =~= pairs_map(s).remove(s[i].0));
    }
}

/// A list of pairs without repeated keys stands for a finite map with as
/// many keys as the list has pairs.
pub proof fn lemma_pairs_len<V>(s: Seq<(u64, V)>)
    requires
        keys_unique(s),
    ensures
        pairs_map(s).dom().finite(),
        pairs_map(s).dom().len() == s.len(),
    decreases s.len(),
{
    if s.len() > 0 {
        lemma_pairs_len(s.drop_last());
        lemma_pairs_contains(s.drop_last(), s.last().0);
    }
}

} // verus!
