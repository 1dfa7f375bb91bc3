//! Keymap: bound key sequences and the prefix lookup that distinguishes
//! *pending* sequences (like `g` in `gg`) from *unambiguous* matches
//! (like `j`).
use vstd::prelude::*;
use crate::error::Error;
use super::action::{Action, ActionView};
use super::key::{Key, KeyView};
use super::keyseq::{KeySeq, keys_view};

verus! {

/// A set of bindings from key sequences to actions. Binding a sequence
/// that is already bound replaces its action.
#[derive(Debug)]
pub struct Keymap {
    bindings: Vec<(KeySeq, Action)>,
}

#[derive(Debug, PartialEq, Eq)]
pub enum Lookup {
    /// Prefix is a binding and no longer binding extends it.
    /// Caller should fire the action immediately.
    Match(Action),
    /// Prefix is a binding *and* a longer binding could still extend
    /// it. Caller should wait for more keys (or commit on timeout).
    AmbiguousMatch(Action),
    /// Prefix is the start of one or more bindings — wait for more.
    Pending,
    /// No binding starts with this prefix — clear pending and abort.
    NoMatch,
}

pub enum LookupView {
    Match(ActionView),
    AmbiguousMatch(ActionView),
    Pending,
    NoMatch,
}

impl View for Lookup {
    type V = LookupView;

    open spec fn view(&self) -> LookupView {
        match self {
            Lookup::Match(a) => LookupView::Match(a@),
            Lookup::AmbiguousMatch(a) => LookupView::AmbiguousMatch(a@),
            Lookup::Pending => LookupView::Pending,
            Lookup::NoMatch => LookupView::NoMatch,
        }
    }
}

/// `p` is a proper prefix of `q`.
pub open spec fn strict_prefix(p: Seq<KeyView>, q: Seq<KeyView>) -> bool {
    p.len() < q.len() && q.subrange(0, p.len() as int) == p
}

/// Some binding is strictly longer than `p` and starts with it.
pub open spec fn extended(m: Map<Seq<KeyView>, ActionView>, p: Seq<KeyView>) -> bool {
    exists|q: Seq<KeyView>| #[trigger] m.dom().contains(q) && strict_prefix(p, q)
}

/// Classification of a typed prefix against a keymap.
pub open spec fn lookup_in(m: Map<Seq<KeyView>, ActionView>, p: Seq<KeyView>) -> LookupView {
    if m.dom().contains(p) {
        if extended(m, p) {
            LookupView::AmbiguousMatch(m[p])
        } else {
            LookupView::Match(m[p])
        }
    } else if extended(m, p) {
        LookupView::Pending
    } else {
        LookupView::NoMatch
    }
}

/// The map described by a list of bindings, later entries winning.
pub open spec fn map_of(e: Seq<(KeySeq, Action)>) -> Map<Seq<KeyView>, ActionView>
    decreases e.len(),
{
    if e.len() == 0 {
        Map::empty()
    } else {
        map_of(e.drop_last()).insert(e.last().0@, e.last().1@)
    }
}

pub open spec fn distinct_keys(e: Seq<(KeySeq, Action)>) -> bool {
    forall|i: int, j: int| 0 <= i < j < e.len() ==> #[trigger] e[i].0@ != #[trigger] e[j].0@
}

proof fn lemma_map_of_finite(e: Seq<(KeySeq, Action)>)
    ensures
        map_of(e).dom().finite(),
    decreases e.len(),
{
    if e.len() > 0 {
        lemma_map_of_finite(e.drop_last());
    }
}

proof fn lemma_map_of(e: Seq<(KeySeq, Action)>)
    requires
        distinct_keys(e),
    ensures
        map_of(e).dom().finite(),
        map_of(e).dom().len() == e.len(),
        forall|k: Seq<KeyView>| #[trigger]
            map_of(e).dom().contains(k) <==> exists|i: int| 0 <= i < e.len() && e[i].0@ == k,
        forall|i: int| 0 <= i < e.len() ==> map_of(e)[#[trigger] e[i].0@] == e[i].1@,
    decreases e.len(),
{
    if e.len() > 0 {
        let d = e.drop_last();
        assert(distinct_keys(d)) by {
            assert forall|i: int, j: int| 0 <= i < j < d.len() implies #[trigger] d[i].0@
                != #[trigger] d[j].0@ by {
                assert(d[i] == e[i] && d[j] == e[j]);
            }
        }
        lemma_map_of(d);
        let x = e.last();
        assert(!map_of(d).dom().contains(x.0@)) by {
            if map_of(d).dom().contains(x.0@) {
                let i = choose|i: int| 0 <= i < d.len() && d[i].0@ == x.0@;
                assert(e[i].0@ == e[e.len() - 1].0@);
            }
        }
        assert forall|k: Seq<KeyView>| #[trigger]
            map_of(e).dom().contains(k) <==> exists|i: int| 0 <= i < e.len() && e[i].0@ == k by {
            if map_of(e).dom().contains(k) {
                if k == x.0@ {
                    assert(e[e.len() - 1].0@ == k);
                } else {
                    let i = choose|i: int| 0 <= i < d.len() && d[i].0@ == k;
                    assert(e[i].0@ == k);
                }
            }
            if exists|i: int| 0 <= i < e.len() && e[i].0@ == k {
                let i = choose|i: int| 0 <= i < e.len() && e[i].0@ == k;
                if i < d.len() {
                    assert(d[i].0@ == k);
                }
            }
        }
        assert forall|i: int| 0 <= i < e.len() implies map_of(e)[#[trigger] e[i].0@] == e[i].1@ by {
            if i < d.len() {
                assert(d[i] == e[i]);
                assert(e[i].0@ != x.0@);
            }
        }
    }
}

impl Keymap {
    #[verifier::type_invariant]
    spec fn wf(self) -> bool {
        distinct_keys(self.bindings@)
    }

    pub closed spec fn view(&self) -> Map<Seq<KeyView>, ActionView> {
        map_of(self.bindings@)
    }

    /// A keymap binds finitely many sequences.
    pub proof fn lemma_finite(&self)
        ensures
            self.view().dom().finite(),
    {
        lemma_map_of_finite(self.bindings@);
    }

    /// An empty keymap.
    pub fn new() -> (m: Keymap)
        ensures
            m.view() == Map::<Seq<KeyView>, ActionView>::empty(),
            m.view().dom().finite(),
    {
        Keymap { bindings: Vec::new() }
    }

    /// Insert a binding. Replacing an existing binding at the same
    /// sequence is allowed — silently overwrites.
    pub fn bind(&mut self, seq: KeySeq, action: Action) -> (r: Result<(), Error>)
        ensures
            r is Ok,
            final(self).view() == old(self).view().insert(seq@, action@),
            final(self).view().dom().finite(),
            final(self).view().dom().len() == old(self).view().dom().len() + (if old(
                self,
            ).view().dom().contains(seq@) {
                0int
            } else {
                1int
            }),
    {
        proof {
            use_type_invariant(&*self);
            lemma_map_of(self.bindings@);
        }
        let ghost old_b = self.bindings@;
        let mut found: Option<usize> = Option::None;
        let mut i: usize = 0;
        while i < self.bindings.len()
            invariant
                old_b == self.bindings@,
                i <= self.bindings@.len(),
                found matches Some(j) ==> j < self.bindings@.len() && self.bindings@[j as int].0@
                    == seq@,
                found is None ==> forall|j: int| 0 <= j < i ==> self.bindings@[j].0@ != seq@,
            decreases self.bindings@.len() - i,
        {
            if found.is_none() && seq_eq(&self.bindings[i].0.0, &seq.0) {
                found = Some(i);
            }
            i = i + 1;
        }
        let ghost sv = seq@;
        let ghost av = action@;
        let mut b: Vec<(KeySeq, Action)> = Vec::new();
        core::mem::swap(&mut b, &mut self.bindings);
        match found {
            Some(j) => {
                b.set(j, (seq, action));
                proof {
                    assert(distinct_keys(b@)) by {
                        assert forall|x: int, y: int| 0 <= x < y < b@.len() implies #[trigger] b@[x].0@
                            != #[trigger] b@[y].0@ by {
                            if x != j as int && y != j as int {
                                assert(b@[x] == old_b[x] && b@[y] == old_b[y]);
                            } else if x == j as int {
                                assert(b@[y] == old_b[y]);
                                assert(old_b[x].0@ != old_b[y].0@);
                            } else {
                                assert(b@[x] == old_b[x]);
                                assert(old_b[x].0@ != old_b[y].0@);
                            }
                        }
                    }
                    lemma_map_of(b@);
                    assert(map_of(b@) =~= map_of(old_b).insert(sv, av)) by {
                        assert forall|k: Seq<KeyView>| map_of(b@).dom().contains(k)
                            <==> map_of(old_b).insert(sv, av).dom().contains(k) by {
                            if map_of(b@).dom().contains(k) {
                                let x = choose|x: int| 0 <= x < b@.len() && b@[x].0@ == k;
                                if x != j as int {
                                    assert(old_b[x] == b@[x]);
                                }
                            }
                            if map_of(old_b).dom().contains(k) {
                                let x = choose|x: int| 0 <= x < old_b.len() && old_b[x].0@ == k;
                                if x != j as int {
                                    assert(old_b[x] == b@[x]);
                                } else {
                                    assert(b@[x].0@ == k);
                                }
                            }
                            if k == sv {
                                assert(b@[j as int].0@ == k);
                            }
                        }
                        assert forall|k: Seq<KeyView>| map_of(b@).dom().contains(k) implies map_of(
                            b@,
                        )[k] == map_of(old_b).insert(sv, av)[k] by {
                            let x = choose|x: int| 0 <= x < b@.len() && b@[x].0@ == k;
                            if x != j as int {
                                assert(old_b[x] == b@[x]);
                                assert(map_of(b@)[b@[x].0@] == b@[x].1@);
                                assert(map_of(old_b)[old_b[x].0@] == old_b[x].1@);
                            } else {
                                assert(map_of(b@)[b@[x].0@] == b@[x].1@);
                            }
                        }
                    }
                }
            },
            Option::None => {
                b.push((seq, action));
                proof {
                    assert(distinct_keys(b@)) by {
                        assert forall|x: int, y: int| 0 <= x < y < b@.len() implies #[trigger] b@[x].0@
                            != #[trigger] b@[y].0@ by {
                            assert(b@[x] == old_b[x]);
                            if y < old_b.len() {
                                assert(b@[y] == old_b[y]);
                            }
                        }
                    }
                    assert(b@.drop_last() =~= old_b);
                }
            },
        }
        self.bindings = b;
        Ok(())
    }

    /// Classify a typed prefix (see [`lookup_in`]).
    pub fn lookup(&self, prefix: &[Key]) -> (r: Lookup)
        ensures
            r@ == lookup_in(self.view(), keys_view(prefix@)),
    {
        proof {
            use_type_invariant(self);
            lemma_map_of(self.bindings@);
        }
        let ghost p = keys_view(prefix@);
        let ghost e = self.bindings@;
        let mut found: Option<usize> = Option::None;
        let mut ext = false;
        let mut i: usize = 0;
        while i < self.bindings.len()
            invariant
                e == self.bindings@,
                p == keys_view(prefix@),
                i <= e.len(),
                found matches Some(j) ==> j < e.len() && e[j as int].0@ == p,
                found is None ==> forall|j: int| 0 <= j < i ==> e[j].0@ != p,
                ext <==> exists|j: int| 0 <= j < i && strict_prefix(p, #[trigger] e[j].0@),
            decreases e.len() - i,
        {
            let k = &self.bindings[i].0.0;
            if found.is_none() && seq_eq(k, prefix) {
                found = Some(i);
            }
            if !ext && prefix.len() < k.len() {
                let head = prefix_eq(prefix, k);
                if head {
                    ext = true;
                    assert(strict_prefix(p, e[i as int].0@));
                }
            }
            proof {
                if !ext {
                    assert forall|j: int| 0 <= j < i + 1 implies !strict_prefix(p, #[trigger] e[j].0@) by {
                        if j == i {
                        }
                    }
                }
            }
            i = i + 1;
        }
        proof {
            let m = map_of(e);
            if ext {
                let j = choose|j: int| 0 <= j < e.len() && strict_prefix(p, #[trigger] e[j].0@);
                assert(m.dom().contains(e[j].0@));
            } else {
                assert forall|q: Seq<KeyView>| #[trigger] m.dom().contains(q) implies !strict_prefix(p, q) by {
                    let j = choose|j: int| 0 <= j < e.len() && e[j].0@ == q;
                    assert(!strict_prefix(p, e[j].0@));
                }
            }
        }
        match found {
            Some(j) => {
                let a = self.bindings[j].1.clone();
                if ext {
                    Lookup::AmbiguousMatch(a)
                } else {
                    Lookup::Match(a)
                }
            },
            Option::None => {
                if ext {
                    Lookup::Pending
                } else {
                    Lookup::NoMatch
                }
            },
        }
    }

    /// Number of bound sequences.
    pub fn len(&self) -> (n: usize)
        ensures
            n == self.view().dom().len(),
    {
        proof {
            use_type_invariant(self);
            lemma_map_of(self.bindings@);
        }
        self.bindings.len()
    }

    pub fn is_empty(&self) -> (b: bool)
        ensures
            b == (self.view().dom().len() == 0),
    {
        self.len() == 0
    }
}

/// Whether two key lists are the same keys.
pub fn seq_eq(a: &[Key], b: &[Key]) -> (r: bool)
    ensures
        r == (keys_view(a@) == keys_view(b@)),
{
    if a.len() != b.len() {
        assert(keys_view(a@).len() != keys_view(b@).len());
        return false;
    }
    let mut i: usize = 0;
    while i < a.len()
        invariant
            a@.len() == b@.len(),
            i <= a@.len(),
            forall|j: int| 0 <= j < i ==> a@[j]@ == b@[j]@,
        decreases a@.len() - i,
    {
        if !a[i].same(&b[i]) {
            assert(keys_view(a@)[i as int] != keys_view(b@)[i as int]);
            return false;
        }
        i = i + 1;
    }
    assert(keys_view(a@) =~= keys_view(b@));
    true
}

/// Whether `b` starts with the keys of `a` (`a` no longer than `b`).
fn prefix_eq(a: &[Key], b: &[Key]) -> (r: bool)
    requires
        a@.len() <= b@.len(),
    ensures
        r == (keys_view(b@).subrange(0, a@.len() as int) == keys_view(a@)),
{
    let mut i: usize = 0;
    while i < a.len()
        invariant
            a@.len() <= b@.len(),
            i <= a@.len(),
            forall|j: int| 0 <= j < i ==> a@[j]@ == b@[j]@,
        decreases a@.len() - i,
    {
        if !a[i].same(&b[i]) {
            assert(keys_view(b@).subrange(0, a@.len() as int)[i as int] != keys_view(a@)[i as int]);
            return false;
        }
        i = i + 1;
    }
    assert(keys_view(b@).subrange(0, a@.len() as int) =~= keys_view(a@));
    true
}

} // verus!
