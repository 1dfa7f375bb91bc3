//! String-keyed association lists: a `Vec<(String, V)>` whose keys are
//! distinct, read as the finite map from each key's chars to its value.
use vstd::prelude::*;

verus! {

/// The map described by the entries, later entries winning.
pub open spec fn assoc_map<V>(e: Seq<(String, V)>) -> Map<Seq<char>, V>
    decreases e.len(),
{
    if e.len() == 0 {
        Map::empty()
    } else {
        assoc_map(e.drop_last()).insert(e.last().0@, e.last().1)
    }
}

/// No key occurs twice.
pub open spec fn keys_distinct<V>(e: Seq<(String, V)>) -> bool {
    forall|i: int, j: int| 0 <= i < j < e.len() ==> #[trigger] e[i].0@ != #[trigger] e[j].0@
}

/// The value stored under `k`, or `dflt` when `k` is absent.
pub open spec fn get_or<V>(m: Map<Seq<char>, V>, k: Seq<char>, dflt: V) -> V {
    if m.dom().contains(k) {
        m[k]
    } else {
        dflt
    }
}

pub proof fn lemma_assoc<V>(e: Seq<(String, V)>)
    requires
        keys_distinct(e),
    ensures
        assoc_map(e).dom().finite(),
        assoc_map(e).dom().len() == e.len(),
        forall|k: Seq<char>| #[trigger]
            assoc_map(e).dom().contains(k) <==> exists|i: int| 0 <= i < e.len() && e[i].0@ == k,
        forall|i: int| 0 <= i < e.len() ==> assoc_map(e)[#[trigger] e[i].0@] == e[i].1,
    decreases e.len(),
{
    if e.len() > 0 {
        let d = e.drop_last();
        assert(keys_distinct(d)) by {
            assert forall|i: int, j: int| 0 <= i < j < d.len() implies #[trigger] d[i].0@
                != #[trigger] d[j].0@ by {
                assert(d[i] == e[i] && d[j] == e[j]);
            }
        }
        lemma_assoc(d);
        let x = e.last();
        assert(!assoc_map(d).dom().contains(x.0@)) by {
            if assoc_map(d).dom().contains(x.0@) {
                let i = choose|i: int| 0 <= i < d.len() && d[i].0@ == x.0@;
                assert(e[i].0@ == e[e.len() - 1].0@);
            }
        }
        assert forall|k: Seq<char>| #[trigger]
            assoc_map(e).dom().contains(k) <==> exists|i: int| 0 <= i < e.len() && e[i].0@ == k by {
            if assoc_map(e).dom().contains(k) {
                if k == x.0@ {
                    assert(e[e.len() - 1].0@ == k);
                } else {
                    let i = choose|i: int| 0 <= i < d.len() && d[i].0@ == k;
                    assert(e[i].0@ == k);
                }
            }
            if exists|i: int| 0 <= i < e.len() && e[i].0@ == k {
                let i = choose|i: int| 0 <= i < e.len() && e[i].0@ == k;
                if i < d.len() {
                    assert(d[i].0@ == k);
                }
            }
        }
        assert forall|i: int| 0 <= i < e.len() implies assoc_map(e)[#[trigger] e[i].0@] == e[i].1 by {
            if i < d.len() {
                assert(d[i] == e[i]);
                assert(e[i].0@ != x.0@);
            }
        }
    }
}

/// Appending an entry under a new key keeps keys distinct and adds it to
/// the map.
pub proof fn lemma_assoc_push<V>(e: Seq<(String, V)>, x: (String, V))
    requires
        keys_distinct(e),
        !assoc_map(e).dom().contains(x.0@),
    ensures
        keys_distinct(e.push(x)),
        assoc_map(e.push(x)) == assoc_map(e).insert(x.0@, x.1),
{
    lemma_assoc(e);
    let f = e.push(x);
    assert forall|i: int, j: int| 0 <= i < j < f.len() implies #[trigger] f[i].0@
        != #[trigger] f[j].0@ by {
        assert(f[i] == e[i]);
        if j < e.len() {
            assert(f[j] == e[j]);
        } else {
            assert(assoc_map(e).dom().contains(e[i].0@));
        }
    }
    assert(f.drop_last() =~= e);
}

/// Replacing the entry at `j` by one with the same key rebinds that key.
pub proof fn lemma_assoc_update<V>(e: Seq<(String, V)>, j: int, x: (String, V))
    requires
        keys_distinct(e),
        0 <= j < e.len(),
        e[j].0@ == x.0@,
    ensures
        keys_distinct(e.update(j, x)),
        assoc_map(e.update(j, x)) == assoc_map(e).insert(x.0@, x.1),
{
    let f = e.update(j, x);
    lemma_assoc(e);
    assert(keys_distinct(f)) by {
        assert forall|a: int, b: int| 0 <= a < b < f.len() implies #[trigger] f[a].0@
            != #[trigger] f[b].0@ by {
            assert(e[a].0@ != e[b].0@);
        }
    }
    lemma_assoc(f);
    let m = assoc_map(e).insert(x.0@, x.1);
    assert forall|k: Seq<char>| assoc_map(f).dom().contains(k) <==> m.dom().contains(k) by {
        if assoc_map(f).dom().contains(k) {
            let a = choose|a: int| 0 <= a < f.len() && f[a].0@ == k;
            if a != j {
                assert(e[a] == f[a]);
            }
        }
        if assoc_map(e).dom().contains(k) {
            let a = choose|a: int| 0 <= a < e.len() && e[a].0@ == k;
            assert(f[a].0@ == k);
        }
        if k == x.0@ {
            assert(f[j].0@ == k);
        }
    }
    assert forall|k: Seq<char>| assoc_map(f).dom().contains(k) implies assoc_map(f)[k] == m[k] by {
        let a = choose|a: int| 0 <= a < f.len() && f[a].0@ == k;
        assert(assoc_map(f)[f[a].0@] == f[a].1);
        if a != j {
            assert(e[a] == f[a]);
            assert(assoc_map(e)[e[a].0@] == e[a].1);
        }
    }
    assert(assoc_map(f) =~= m);
}

/// Removing the entry at `j` unbinds its key.
pub proof fn lemma_assoc_remove<V>(e: Seq<(String, V)>, j: int)
    requires
        keys_distinct(e),
        0 <= j < e.len(),
    ensures
        keys_distinct(e.remove(j)),
        assoc_map(e.remove(j)) == assoc_map(e).remove(e[j].0@),
{
    let f = e.remove(j);
    let k0 = e[j].0@;
    lemma_assoc(e);
    assert(keys_distinct(f)) by {
        assert forall|a: int, b: int| 0 <= a < b < f.len() implies #[trigger] f[a].0@
            != #[trigger] f[b].0@ by {
            let a1 = if a < j { a } else { a + 1 };
            let b1 = if b < j { b } else { b + 1 };
            assert(f[a] == e[a1] && f[b] == e[b1]);
            assert(e[a1].0@ != e[b1].0@);
        }
    }
    lemma_assoc(f);
    let m = assoc_map(e).remove(k0);
    assert forall|k: Seq<char>| assoc_map(f).dom().contains(k) <==> m.dom().contains(k) by {
        if assoc_map(f).dom().contains(k) {
            let a = choose|a: int| 0 <= a < f.len() && f[a].0@ == k;
            let a1 = if a < j { a } else { a + 1 };
            assert(f[a] == e[a1]);
            assert(e[a1].0@ != e[j].0@);
        }
        if m.dom().contains(k) {
            let a = choose|a: int| 0 <= a < e.len() && e[a].0@ == k;
            assert(a != j);
            let a2 = if a < j { a } else { a - 1 };
            assert(f[a2] == e[a]);
        }
    }
    assert forall|k: Seq<char>| assoc_map(f).dom().contains(k) implies assoc_map(f)[k] == m[k] by {
        let a = choose|a: int| 0 <= a < f.len() && f[a].0@ == k;
        let a1 = if a < j { a } else { a + 1 };
        assert(f[a] == e[a1]);
        assert(assoc_map(f)[f[a].0@] == f[a].1);
        assert(assoc_map(e)[e[a1].0@] == e[a1].1);
    }
    assert(assoc_map(f) =~= m);
}

/// Position of the entry whose key is `k`, if any.
pub fn find_key<V>(e: &Vec<(String, V)>, k: &String) -> (r: Option<usize>)
    requires
        keys_distinct(e@),
    ensures
        r matches Some(j) ==> j < e@.len() && e@[j as int].0@ == k@,
        r is None ==> !assoc_map(e@).dom().contains(k@),
{
    proof {
        lemma_assoc(e@);
    }
    let mut i: usize = 0;
    while i < e.len()
        invariant
            i <= e@.len(),
            forall|j: int| 0 <= j < i ==> e@[j].0@ != k@,
        decreases e@.len() - i,
    {
        if e[i].0.eq(k) {
            return Some(i);
        }
        i = i + 1;
    }
    None
}

} // verus!
