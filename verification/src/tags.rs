//! String-to-string maps held as vectors of pairs with distinct keys
//! (freeform tags and instance metadata).

use vstd::prelude::*;

verus! {

/// Keys of the pairs are pairwise distinct.
pub open spec fn keys_distinct(v: Seq<(String, String)>) -> bool {
    forall|i: int, j: int|
        0 <= i < v.len() && 0 <= j < v.len() && i != j ==> (#[trigger] v[i]).0@ != (
        #[trigger] v[j]).0@
}

/// The map that a vector of pairs stands for.
pub open spec fn pairs_map(v: Seq<(String, String)>) -> Map<Seq<char>, Seq<char>>
    decreases v.len(),
{
    if v.len() == 0 {
        Map::empty()
    } else {
        pairs_map(v.drop_last()).insert(v.last().0@, v.last().1@)
    }
}

/// A key is in the map exactly when some pair has it.
pub proof fn lemma_pairs_map_dom(v: Seq<(String, String)>, k: Seq<char>)
    ensures
        pairs_map(v).contains_key(k) <==> exists|i: int| 0 <= i < v.len() && (#[trigger] v[i]).0@
            == k,
    decreases v.len(),
{
    if v.len() > 0 {
        lemma_pairs_map_dom(v.drop_last(), k);
        if pairs_map(v).contains_key(k) {
            if v.last().0@ != k {
                let i = choose|i: int|
                    0 <= i < v.drop_last().len() && (#[trigger] v.drop_last()[i]).0@ == k;
                assert(v[i] == v.drop_last()[i]);
            } else {
                assert(v[v.len() - 1].0@ == k);
            }
        }
        if exists|i: int| 0 <= i < v.len() && (#[trigger] v[i]).0@ == k {
            let i = choose|i: int| 0 <= i < v.len() && (#[trigger] v[i]).0@ == k;
            if i < v.len() - 1 {
                assert(v.drop_last()[i] == v[i]);
            }
        }
    }
}

/// With distinct keys, the map gives each pair's value for its key.
pub proof fn lemma_pairs_map_value(v: Seq<(String, String)>, i: int)
    requires
        keys_distinct(v),
        0 <= i < v.len(),
    ensures
        pairs_map(v).contains_key(v[i].0@),
        pairs_map(v)[v[i].0@] == v[i].1@,
    decreases v.len(),
{
    if i < v.len() - 1 {
        let w = v.drop_last();
        assert(w[i] == v[i]);
        assert(keys_distinct(w)) by {
            assert forall|a: int, b: int|
                0 <= a < w.len() && 0 <= b < w.len() && a != b implies (#[trigger] w[a]).0@ != (
            #[trigger] w[b]).0@ by {
                assert(w[a] == v[a] && w[b] == v[b]);
            }
        }
        lemma_pairs_map_value(w, i);
        assert(v[v.len() - 1].0@ != v[i].0@);
    }
}

/// Pushing a pair inserts its key.
pub proof fn lemma_pairs_map_push(v: Seq<(String, String)>, p: (String, String))
    ensures
        pairs_map(v.push(p)) == pairs_map(v).insert(p.0@, p.1@),
{
    assert(v.push(p).drop_last() =~= v);
}

/// Replacing the value of pair `i` (same key) updates that key.
pub proof fn lemma_pairs_map_update(v: Seq<(String, String)>, i: int, p: (String, String))
    requires
        keys_distinct(v),
        0 <= i < v.len(),
        p.0@ == v[i].0@,
    ensures
        pairs_map(v.update(i, p)) == pairs_map(v).insert(p.0@, p.1@),
    decreases v.len(),
{
    let u = v.update(i, p);
    if i == v.len() - 1 {
        assert(u.drop_last() =~= v.drop_last());
        let w = v.drop_last();
        lemma_pairs_map_dom(w, p.0@);
        assert(!pairs_map(w).contains_key(p.0@)) by {
            if pairs_map(w).contains_key(p.0@) {
                let j = choose|j: int| 0 <= j < w.len() && (#[trigger] w[j]).0@ == p.0@;
                assert(w[j] == v[j]);
            }
        }
        assert(pairs_map(u) =~= pairs_map(v).insert(p.0@, p.1@));
    } else {
        let w = v.drop_last();
        assert(keys_distinct(w)) by {
            assert forall|a: int, b: int|
                0 <= a < w.len() && 0 <= b < w.len() && a != b implies (#[trigger] w[a]).0@ != (
            #[trigger] w[b]).0@ by {
                assert(w[a] == v[a] && w[b] == v[b]);
            }
        }
        assert(w[i] == v[i]);
        lemma_pairs_map_update(w, i, p);
        assert(u.drop_last() =~= w.update(i, p));
        assert(u.last() == v.last());
        assert(v.last().0@ != p.0@) by {
            assert(v[v.len() - 1] == v.last());
        }
        assert(pairs_map(u) =~= pairs_map(v).insert(p.0@, p.1@));
    }
}

/// Sets `key` to `value`: replaces the value of an existing pair with that
/// key, or appends a new pair.
pub fn insert_pair(v: &mut Vec<(String, String)>, key: String, value: String)
    requires
        keys_distinct(old(v)@),
    ensures
        keys_distinct(final(v)@),
        pairs_map(final(v)@) == pairs_map(old(v)@).insert(key@, value@),
{
    let n = v.len();
    let mut i: usize = 0;
    while i < n
        invariant
            n == v@.len(),
            v@ == old(v)@,
            keys_distinct(v@),
            i <= n,
            forall|k: int| 0 <= k < i ==> (#[trigger] v@[k]).0@ != key@,
        decreases n - i,
    {
        if v[i].0 == key {
            let ghost old_v = v@;
            proof {
                lemma_pairs_map_update(old_v, i as int, (key, value));
            }
            v.set(i, (key, value));
            proof {
                assert(v@ == old_v.update(i as int, (key, value)));
                assert forall|a: int, b: int|
                    0 <= a < v@.len() && 0 <= b < v@.len() && a != b implies (#[trigger] v@[a]).0@
                    != (#[trigger] v@[b]).0@ by {
                    assert(old_v[a].0@ == v@[a].0@);
                    assert(old_v[b].0@ == v@[b].0@);
                }
            }
            return;
        }
        i = i + 1;
    }
    let ghost old_v = v@;
    proof {
        lemma_pairs_map_push(old_v, (key, value));
    }
    v.push((key, value));
    proof {
        assert(v@ == old_v.push((key, value)));
        assert forall|a: int, b: int|
            0 <= a < v@.len() && 0 <= b < v@.len() && a != b implies (#[trigger] v@[a]).0@ != (
        #[trigger] v@[b]).0@ by {
            if a < n && b < n {
                assert(v@[a] == old_v[a] && v@[b] == old_v[b]);
            } else if a == n {
                assert(v@[b] == old_v[b]);
            } else {
                assert(v@[a] == old_v[a]);
            }
        }
    }
}

/// Copies a vector of pairs.
pub fn copy_pairs(v: &Vec<(String, String)>) -> (r: Vec<(String, String)>)
    ensures
        r@.len() == v@.len(),
        forall|i: int| 0 <= i < v@.len() ==> (#[trigger] r@[i]).0@ == v@[i].0@ && r@[i].1@
            == v@[i].1@,
{
    let mut r: Vec<(String, String)> = Vec::new();
    let n = v.len();
    let mut i: usize = 0;
    while i < n
        invariant
            n == v@.len(),
            i <= n,
            r@.len() == i,
            forall|k: int| 0 <= k < i ==> (#[trigger] r@[k]).0@ == v@[k].0@ && r@[k].1@
                == v@[k].1@,
        decreases n - i,
    {
        r.push((v[i].0.clone(), v[i].1.clone()));
        i = i + 1;
    }
    r
}

} // verus!
