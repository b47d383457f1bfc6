use vstd::prelude::*;

verus! {

/// No key occurs twice in a list of key/value pairs.
pub open spec fn keys_unique<K, V>(s: Seq<(K, V)>) -> bool {
    forall|i: int, j: int| 0 <= i < s.len() && 0 <= j < s.len() && i != j ==> s[i].0 != s[j].0
}

/// Some pair of the list carries key `k`.
pub open spec fn has_key<K, V>(s: Seq<(K, V)>, k: K) -> bool {
    exists|i: int| 0 <= i < s.len() && s[i].0 == k
}

/// The map that a list of key/value pairs stands for; a later pair wins.
pub open spec fn to_map<K, V>(s: Seq<(K, V)>) -> Map<K, V>
    decreases s.len(),
{
    if s.len() == 0 {
        Map::empty()
    } else {
        to_map(s.drop_last()).insert(s.last().0, s.last().1)
    }
}

pub proof fn lemma_to_map_dom<K, V>(s: Seq<(K, V)>)
    ensures
        forall|k: K| #[trigger] to_map(s).dom().contains(k) <==> has_key(s, k),
    decreases s.len(),
{
    if s.len() > 0 {
        lemma_to_map_dom(s.drop_last());
        assert forall|k: K| #[trigger] to_map(s).dom().contains(k) <==> has_key(s, k) by {
            if has_key(s, k) {
                let i = choose|i: int| 0 <= i < s.len() && s[i].0 == k;
                if i < s.len() - 1 {
                    assert(s.drop_last()[i].0 == k);
                }
            }
            let t = s.drop_last();
            assert(to_map(s) == to_map(t).insert(s.last().0, s.last().1));
            if to_map(s).dom().contains(k) && k != s.last().0 {
                assert(to_map(t).dom().contains(k));
                assert(has_key(t, k));
                let i = choose|i: int| 0 <= i < t.len() && t[i].0 == k;
                assert(s[i].0 == k);
            }
            if k == s.last().0 {
                assert(s[s.len() - 1].0 == k);
            }
        }
    }
}

/// A list without repeated keys has as many pairs as its map has keys.
pub proof fn lemma_to_map_len<K, V>(s: Seq<(K, V)>)
    requires
        keys_unique(s),
    ensures
        to_map(s).dom().finite(),
        to_map(s).dom().len() == s.len(),
    decreases s.len(),
{
    if s.len() == 0 {
        assert(to_map(s).dom() =~= Set::<K>::empty());
    } else {
        let t = s.drop_last();
        assert(keys_unique(t)) by {
            assert forall|a: int, b: int| 0 <= a < t.len() && 0 <= b < t.len() && a != b implies t[a].0
                != t[b].0 by {
                assert(t[a] == s[a] && t[b] == s[b]);
            }
        }
        lemma_to_map_len(t);
        lemma_to_map_dom(t);
        let k = s.last().0;
        if has_key(t, k) {
            let i = choose|i: int| 0 <= i < t.len() && t[i].0 == k;
            assert(t[i] == s[i]);
            assert(s[i].0 != s[s.len() - 1].0);
        }
        assert(!to_map(t).dom().contains(k));
        assert(to_map(s).dom() =~= to_map(t).dom().insert(k));
    }
}

pub proof fn lemma_to_map_index<K, V>(s: Seq<(K, V)>, i: int)
    requires
        keys_unique(s),
        0 <= i < s.len(),
    ensures
        to_map(s).dom().contains(s[i].0),
        to_map(s)[s[i].0] == s[i].1,
    decreases s.len(),
{
    if i < s.len() - 1 {
        let t = s.drop_last();
        assert(keys_unique(t));
        assert(t[i] == s[i]);
        lemma_to_map_index(t, i);
        assert(s[i].0 != s.last().0);
    }
}

pub proof fn lemma_to_map_push<K, V>(s: Seq<(K, V)>, k: K, v: V)
    ensures
        to_map(s.push((k, v))) == to_map(s).insert(k, v),
{
    assert(s.push((k, v)).drop_last() == s);
}

pub proof fn lemma_unique_push<K, V>(s: Seq<(K, V)>, k: K, v: V)
    requires
        keys_unique(s),
        !has_key(s, k),
    ensures
        keys_unique(s.push((k, v))),
{
    let t = s.push((k, v));
    assert forall|i: int, j: int| 0 <= i < t.len() && 0 <= j < t.len() && i != j implies t[i].0
        != t[j].0 by {
        if i < s.len() && j < s.len() {
            assert(t[i] == s[i] && t[j] == s[j]);
        } else if i < s.len() {
            assert(t[i] == s[i]);
        } else {
            assert(t[j] == s[j]);
        }
    }
}

pub proof fn lemma_push_contains<A>(s: Seq<A>, x: A, p: A)
    ensures
        s.push(x).contains(p) <==> (s.contains(p) || p == x),
{
    if s.contains(p) {
        let i = choose|i: int| 0 <= i < s.len() && s[i] == p;
        assert(s.push(x)[i] == p);
    }
    if p == x {
        assert(s.push(x)[s.len() as int] == p);
    }
    if s.push(x).contains(p) && p != x {
        let i = choose|i: int| 0 <= i < s.len() + 1 && s.push(x)[i] == p;
        assert(s[i] == p);
    }
}

pub proof fn lemma_to_map_update<K, V>(s: Seq<(K, V)>, i: int, v: V)
    requires
        keys_unique(s),
        0 <= i < s.len(),
    ensures
        keys_unique(s.update(i, (s[i].0, v))),
        to_map(s.update(i, (s[i].0, v))) == to_map(s).insert(s[i].0, v),
{
    let t = s.update(i, (s[i].0, v));
    assert(keys_unique(t)) by {
        assert forall|a: int, b: int| 0 <= a < t.len() && 0 <= b < t.len() && a != b implies t[a].0
            != t[b].0 by {
            assert(t[a].0 == s[a].0 && t[b].0 == s[b].0);
        }
    }
    lemma_to_map_dom(s);
    lemma_to_map_dom(t);
    let m = to_map(s).insert(s[i].0, v);
    assert forall|k: K| #[trigger] to_map(t).dom().contains(k) == m.dom().contains(k) by {
        if has_key(t, k) {
            let a = choose|a: int| 0 <= a < t.len() && t[a].0 == k;
            assert(s[a].0 == k);
        }
        if has_key(s, k) {
            let a = choose|a: int| 0 <= a < s.len() && s[a].0 == k;
            assert(t[a].0 == k);
        }
    }
    assert forall|k: K| #[trigger] to_map(t).dom().contains(k) implies to_map(t)[k] == m[k] by {
        let a = choose|a: int| 0 <= a < t.len() && t[a].0 == k;
        lemma_to_map_index(t, a);
        if a != i {
            lemma_to_map_index(s, a);
        }
    }
    assert(to_map(t) =~= m);
}

pub proof fn lemma_to_map_remove<K, V>(s: Seq<(K, V)>, i: int)
    requires
        keys_unique(s),
        0 <= i < s.len(),
    ensures
        keys_unique(s.remove(i)),
        to_map(s.remove(i)) == to_map(s).remove(s[i].0),
{
    let t = s.remove(i);
    assert(keys_unique(t)) by {
        assert forall|a: int, b: int| 0 <= a < t.len() && 0 <= b < t.len() && a != b implies t[a].0
            != t[b].0 by {
            let a2 = if a < i { a } else { a + 1 };
            let b2 = if b < i { b } else { b + 1 };
            assert(t[a] == s[a2] && t[b] == s[b2]);
        }
    }
    lemma_to_map_dom(s);
    lemma_to_map_dom(t);
    let m = to_map(s).remove(s[i].0);
    assert forall|k: K| #[trigger] to_map(t).dom().contains(k) == m.dom().contains(k) by {
        if has_key(t, k) {
            let a = choose|a: int| 0 <= a < t.len() && t[a].0 == k;
            let a2 = if a < i { a } else { a + 1 };
            assert(t[a] == s[a2]);
            assert(a2 != i);
        }
        if m.dom().contains(k) {
            let a = choose|a: int| 0 <= a < s.len() && s[a].0 == k;
            assert(a != i);
            if a < i {
                assert(t[a] == s[a]);
            } else {
                assert(t[a - 1] == s[a]);
            }
        }
    }
    assert forall|k: K| #[trigger] to_map(t).dom().contains(k) implies to_map(t)[k] == m[k] by {
        let a = choose|a: int| 0 <= a < t.len() && t[a].0 == k;
        let a2 = if a < i { a } else { a + 1 };
        assert(t[a] == s[a2]);
        lemma_to_map_index(t, a);
        lemma_to_map_index(s, a2);
    }
    assert(to_map(t) =~= m);
}

} // verus!

verus! {

/// The entries of `m` whose value satisfies `keep`.
pub open spec fn filter_map<K, V>(m: Map<K, V>, keep: spec_fn(V) -> bool) -> Map<K, V> {
    Map::new(|k: K| m.dom().contains(k) && keep(m[k]), |k: K| m[k])
}

pub proof fn lemma_to_map_filtered<K, V>(s: Seq<(K, V)>, t: Seq<(K, V)>, keep: spec_fn(V) -> bool)
    requires
        keys_unique(s),
        keys_unique(t),
        forall|p: (K, V)| t.contains(p) <==> (s.contains(p) && keep(p.1)),
    ensures
        to_map(t) == filter_map(to_map(s), keep),
{
    lemma_to_map_dom(s);
    lemma_to_map_dom(t);
    let f = filter_map(to_map(s), keep);
    assert forall|k: K| #[trigger] to_map(t).dom().contains(k) == f.dom().contains(k) by {
        if has_key(t, k) {
            let b = choose|b: int| 0 <= b < t.len() && t[b].0 == k;
            assert(t.contains(t[b]));
            let a = choose|a: int| 0 <= a < s.len() && s[a] == t[b];
            lemma_to_map_index(s, a);
        }
        if f.dom().contains(k) {
            let a = choose|a: int| 0 <= a < s.len() && s[a].0 == k;
            lemma_to_map_index(s, a);
            assert(s.contains(s[a]));
            assert(t.contains(s[a]));
        }
    }
    assert forall|k: K| #[trigger] to_map(t).dom().contains(k) implies to_map(t)[k] == f[k] by {
        let b = choose|b: int| 0 <= b < t.len() && t[b].0 == k;
        lemma_to_map_index(t, b);
        assert(t.contains(t[b]));
        let a = choose|a: int| 0 <= a < s.len() && s[a] == t[b];
        lemma_to_map_index(s, a);
    }
    assert(to_map(t) =~= f);
}

} // verus!
