//! In-app unread badge tracking.
//!
//! Pure data: per-conversation unread counters and their aggregate. All
//! counters saturate, so a wedged backend can pump increments forever
//! without wrapping.
use vstd::prelude::*;
use crate::assoc::{assoc_map, find_key, get_or, keys_distinct, lemma_assoc, lemma_assoc_push, lemma_assoc_remove, lemma_assoc_update};

verus! {

/// Sum of the counters of a finite map.
pub open spec fn map_sum(m: Map<Seq<char>, u32>) -> nat
    decreases m.dom().len(),
{
    if m.dom().finite() && m.dom().len() > 0 {
        let k = m.dom().choose();
        proof {
            vstd::set::axiom_set_choose_len(m.dom());
        }
        (m[k] + map_sum(m.remove(k))) as nat
    } else {
        0
    }
}

/// `u32::saturating_add(1)`.
pub open spec fn sat_inc(c: u32) -> u32 {
    if c == u32::MAX {
        c
    } else {
        (c + 1) as u32
    }
}

/// `min(n, u32::MAX)`.
pub open spec fn sat_u32(n: nat) -> u32 {
    if n > u32::MAX {
        u32::MAX
    } else {
        n as u32
    }
}

/// Taking out any tracked counter leaves the rest of the sum.
pub proof fn lemma_map_sum_remove(m: Map<Seq<char>, u32>, k: Seq<char>)
    requires
        m.dom().finite(),
        m.dom().contains(k),
    ensures
        map_sum(m) == m[k] + map_sum(m.remove(k)),
    decreases m.dom().len(),
{
    vstd::set::axiom_set_choose_len(m.dom());
    let c = m.dom().choose();
    if c != k {
        let mc = m.remove(c);
        let mk = m.remove(k);
        assert(mc.dom() =~= m.dom().remove(c));
        assert(mk.dom() =~= m.dom().remove(k));
        lemma_map_sum_remove(mc, k);
        lemma_map_sum_remove(mk, c);
        assert(mc.remove(k) =~= mk.remove(c));
    }
}

proof fn lemma_map_sum_insert(m: Map<Seq<char>, u32>, k: Seq<char>, v: u32)
    requires
        m.dom().finite(),
        !m.dom().contains(k),
    ensures
        map_sum(m.insert(k, v)) == v + map_sum(m),
{
    let n = m.insert(k, v);
    lemma_map_sum_remove(n, k);
    assert(n.remove(k) =~= m);
}

/// Sum of the counters of the entries.
spec fn sum_counts(e: Seq<(String, u32)>) -> nat
    decreases e.len(),
{
    if e.len() == 0 {
        0
    } else {
        (sum_counts(e.drop_last()) + e.last().1) as nat
    }
}

proof fn lemma_sum_counts(e: Seq<(String, u32)>)
    requires
        keys_distinct(e),
    ensures
        sum_counts(e) == map_sum(assoc_map(e)),
    decreases e.len(),
{
    if e.len() > 0 {
        let d = e.drop_last();
        assert(keys_distinct(d)) by {
            assert forall|i: int, j: int| 0 <= i < j < d.len() implies #[trigger] d[i].0@
                != #[trigger] d[j].0@ by {
                assert(d[i] == e[i] && d[j] == e[j]);
            }
        }
        lemma_sum_counts(d);
        lemma_assoc(d);
        let x = e.last();
        assert(!assoc_map(d).dom().contains(x.0@)) by {
            if assoc_map(d).dom().contains(x.0@) {
                let i = choose|i: int| 0 <= i < d.len() && d[i].0@ == x.0@;
                assert(e[i].0@ == e[e.len() - 1].0@);
            }
        }
        lemma_map_sum_insert(assoc_map(d), x.0@, x.1);
    }
}

/// Per-conversation unread counters with a saturating aggregate.
#[derive(Debug)]
pub struct BadgeState {
    unread: Vec<(String, u32)>,
}

impl BadgeState {
    #[verifier::type_invariant]
    spec fn wf(self) -> bool {
        keys_distinct(self.unread@)
    }

    /// Counter per tracked conversation.
    pub closed spec fn view(&self) -> Map<Seq<char>, u32> {
        assoc_map(self.unread@)
    }

    /// Empty badge state.
    pub fn new() -> (b: BadgeState)
        ensures
            b@ == Map::<Seq<char>, u32>::empty(),
            b@.dom().finite(),
    {
        BadgeState { unread: Vec::new() }
    }

    /// Sets the counter of `conv` to `n`.
    fn put(&mut self, conv: &str, n: u32)
        ensures
            final(self)@ == old(self)@.insert(conv@, n),
            final(self)@.dom().finite(),
    {
        proof {
            use_type_invariant(&*self);
        }
        let key = conv.to_owned();
        let found = find_key(&self.unread, &key);
        let mut e: Vec<(String, u32)> = Vec::new();
        core::mem::swap(&mut e, &mut self.unread);
        let ghost old_e = e@;
        match found {
            Some(j) => {
                proof {
                    lemma_assoc_update(old_e, j as int, (key, n));
                }
                e.set(j, (key, n));
            },
            None => {
                proof {
                    lemma_assoc_push(old_e, (key, n));
                }
                e.push((key, n));
            },
        }
        proof {
            lemma_assoc(e@);
        }
        self.unread = e;
    }

    /// Restores a persisted counter: `conv` is set to `n`.
    pub fn set_count(&mut self, conv: &str, n: u32)
        ensures
            final(self)@ == old(self)@.insert(conv@, n),
            final(self)@.dom().finite(),
    {
        self.put(conv, n);
    }

    /// Increment the counter for `conv`, saturating at `u32::MAX`.
    pub fn increment(&mut self, conv: &str)
        ensures
            final(self)@ == old(self)@.insert(conv@, sat_inc(get_or(old(self)@, conv@, 0u32))),
            final(self)@.dom().finite(),
    {
        let c = self.for_conv(conv);
        let n = if c == u32::MAX {
            c
        } else {
            c + 1
        };
        self.put(conv, n);
    }

    /// Remove `conv`'s counter entirely (count becomes zero).
    pub fn clear(&mut self, conv: &str)
        ensures
            final(self)@ == old(self)@.remove(conv@),
            final(self)@.dom().finite(),
    {
        proof {
            use_type_invariant(&*self);
            lemma_assoc(self.unread@);
        }
        let key = conv.to_owned();
        let found = find_key(&self.unread, &key);
        match found {
            Some(j) => {
                let mut e: Vec<(String, u32)> = Vec::new();
                core::mem::swap(&mut e, &mut self.unread);
                let ghost old_e = e@;
                proof {
                    lemma_assoc_remove(old_e, j as int);
                }
                e.remove(j);
                proof {
                    lemma_assoc(e@);
                }
                self.unread = e;
            },
            None => {
                assert(self@.remove(conv@) =~= self@);
            },
        }
    }

    /// Current unread count for `conv`; zero when not tracked.
    pub fn for_conv(&self, conv: &str) -> (n: u32)
        ensures
            n == get_or(self@, conv@, 0u32),
    {
        proof {
            use_type_invariant(self);
            lemma_assoc(self.unread@);
        }
        let key = conv.to_owned();
        match find_key(&self.unread, &key) {
            Some(j) => self.unread[j].1,
            None => 0,
        }
    }

    /// Sum of all per-conversation counters, saturating at `u32::MAX`.
    pub fn total(&self) -> (n: u32)
        ensures
            n == sat_u32(map_sum(self@)),
    {
        proof {
            use_type_invariant(self);
            lemma_sum_counts(self.unread@);
        }
        let mut acc: u32 = 0;
        let mut i: usize = 0;
        while i < self.unread.len()
            invariant
                i <= self.unread@.len(),
                acc == sat_u32(sum_counts(self.unread@.subrange(0, i as int))),
            decreases self.unread@.len() - i,
        {
            proof {
                assert(self.unread@.subrange(0, i + 1).drop_last() =~= self.unread@.subrange(
                    0,
                    i as int,
                ));
            }
            let c = self.unread[i].1;
            acc = if acc > u32::MAX - c {
                u32::MAX
            } else {
                acc + c
            };
            i = i + 1;
        }
        assert(self.unread@.subrange(0, self.unread@.len() as int) =~= self.unread@);
        acc
    }
}

} // verus!
