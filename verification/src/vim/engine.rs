//! The modal state machine. Holds per-mode keymaps and the pending key
//! sequence, dispatches actions on unambiguous matches, and offers an
//! escape hatch (`commit_pending`) for callers that implement
//! timeout-based commit on ambiguous matches.
use vstd::prelude::*;
use crate::config::Config;
use crate::error::Error;
use super::action::{Action, ActionView, action_from_name};
use super::key::{Key, KeyView, is_leader_key, parse_key};
use super::keymap::{Keymap, Lookup, LookupView, lookup_in};
use super::keyseq::{KeySeq, keys_view, parse_keyseq};
use super::mode::Mode;

verus! {

/// One keymap per mode family.
#[derive(Debug)]
pub struct KeymapSet {
    pub normal: Keymap,
    pub insert: Keymap,
    pub command: Keymap,
}

impl Default for Keymap {
    fn default() -> (m: Keymap)
        ensures
            m.view() == Map::<Seq<KeyView>, ActionView>::empty(),
    {
        Keymap::new()
    }
}

impl Default for KeymapSet {
    fn default() -> (s: KeymapSet)
        ensures
            s.normal.view() == Map::<Seq<KeyView>, ActionView>::empty(),
            s.insert.view() == Map::<Seq<KeyView>, ActionView>::empty(),
            s.command.view() == Map::<Seq<KeyView>, ActionView>::empty(),
    {
        KeymapSet { normal: Keymap::new(), insert: Keymap::new(), command: Keymap::new() }
    }
}

/// Replaces every `<leader>` placeholder by the configured leader key.
pub open spec fn expand_leader(ks: Seq<KeyView>, leader: KeyView) -> Seq<KeyView> {
    ks.map_values(|k: KeyView| if is_leader_key(k) { leader } else { k })
}

/// A binding's key sequence: the parsed notation with the leader expanded.
pub open spec fn binding_seq(raw: Seq<char>, leader: KeyView) -> Result<Seq<KeyView>, Seq<char>> {
    match parse_keyseq(raw) {
        Ok(ks) => Ok(expand_leader(ks, leader)),
        Err(m) => Err(m),
    }
}

/// Binds every `(sequence, action name)` pair in order into `m`; the
/// first sequence that does not parse aborts with its message.
pub open spec fn bind_all(
    m: Map<Seq<KeyView>, ActionView>,
    pairs: Seq<(Seq<char>, Seq<char>)>,
    leader: KeyView,
) -> Result<Map<Seq<KeyView>, ActionView>, Seq<char>>
    decreases pairs.len(),
{
    if pairs.len() == 0 {
        Ok(m)
    } else {
        match binding_seq(pairs[0].0, leader) {
            Err(msg) => Err(msg),
            Ok(s) => bind_all(m.insert(s, action_from_name(pairs[0].1)), pairs.drop_first(), leader),
        }
    }
}

pub open spec fn pairs_view(p: Seq<(String, String)>) -> Seq<(Seq<char>, Seq<char>)> {
    p.map_values(|x: (String, String)| (x.0@, x.1@))
}

/// The three keymaps a configuration describes, or the first error.
pub open spec fn keymaps_of(cfg: Config) -> Result<
    (Map<Seq<KeyView>, ActionView>, Map<Seq<KeyView>, ActionView>, Map<Seq<KeyView>, ActionView>),
    Seq<char>,
> {
    match parse_key(cfg.general.leader_key@) {
        Err(m) => Err(m),
        Ok(l) => match bind_all(Map::empty(), pairs_view(cfg.keymap.normal@), l) {
            Err(m) => Err(m),
            Ok(n) => match bind_all(Map::empty(), pairs_view(cfg.keymap.insert@), l) {
                Err(m) => Err(m),
                Ok(i) => match bind_all(Map::empty(), pairs_view(cfg.keymap.command@), l) {
                    Err(m) => Err(m),
                    Ok(c) => Ok((n, i, c)),
                },
            },
        },
    }
}

/// Parses a binding's sequence and expands `<leader>`.
pub fn parse_seq(raw: &str, leader: &Key) -> (r: Result<KeySeq, Error>)
    ensures
        match binding_seq(raw@, leader@) {
            Ok(ks) => r matches Ok(s) && s@ == ks,
            Err(m) => r matches Err(e) && e.msg() == m,
        },
{
    let parsed = KeySeq::parse(raw)?;
    let mut out: Vec<Key> = Vec::new();
    let mut i: usize = 0;
    let ghost src = parsed@;
    while i < parsed.0.len()
        invariant
            i <= parsed.0@.len(),
            src == parsed@,
            keys_view(out@) == expand_leader(src.subrange(0, i as int), leader@),
            out@.len() == i,
        decreases parsed.0@.len() - i,
    {
        let k = &parsed.0[i];
        let ghost before = out@;
        if k.is_leader() {
            out.push(leader.clone());
        } else {
            out.push(k.clone());
        }
        i = i + 1;
        proof {
            let a = keys_view(out@);
            let b = expand_leader(src.subrange(0, i as int), leader@);
            let b0 = expand_leader(src.subrange(0, i - 1), leader@);
            assert(src[i - 1] == parsed.0@[i - 1]@);
            assert(a.len() == b.len());
            assert forall|j: int| 0 <= j < a.len() implies a[j] == b[j] by {
                if j < i - 1 {
                    assert(a[j] == keys_view(before)[j]);
                    assert(b[j] == b0[j]);
                }
            }
            assert(a =~= b);
        }
    }
    assert(src.subrange(0, src.len() as int) =~= src);
    Ok(KeySeq(out))
}

fn bind_pairs(map: &mut Keymap, pairs: &Vec<(String, String)>, leader: &Key) -> (r: Result<(), Error>)
    ensures
        match bind_all(old(map).view(), pairs_view(pairs@), leader@) {
            Ok(m) => r is Ok && final(map).view() == m,
            Err(msg) => r matches Err(e) && e.msg() == msg,
        },
{
    let ghost m0 = map.view();
    let ghost pv = pairs_view(pairs@);
    assert(pv.subrange(0, pv.len() as int) =~= pv);
    let mut i: usize = 0;
    while i < pairs.len()
        invariant
            i <= pairs@.len(),
            pv == pairs_view(pairs@),
            m0 == old(map).view(),
            bind_all(m0, pv, leader@) == bind_all(map.view(), pv.subrange(i as int, pv.len() as int), leader@),
        decreases pairs@.len() - i,
    {
        let ghost rest = pv.subrange(i as int, pv.len() as int);
        assert(rest.drop_first() =~= pv.subrange(i + 1, pv.len() as int));
        assert(rest[0] == (pairs@[i as int].0@, pairs@[i as int].1@));
        assert(pv.len() == pairs@.len());
        assert(rest.len() > 0);
        let seq = match parse_seq(pairs[i].0.as_str(), leader) {
            Ok(q) => q,
            Err(e) => {
                assert(binding_seq(rest[0].0, leader@) is Err);
                assert(bind_all(map.view(), rest, leader@) matches Err(m) && m == e.msg());
                return Err(e);
            },
        };
        let action = Action::from_name(pairs[i].1.as_str());
        let _ = map.bind(seq, action);
        i = i + 1;
    }
    assert(pv.subrange(pv.len() as int, pv.len() as int) =~= Seq::<(Seq<char>, Seq<char>)>::empty());
    Ok(())
}

impl KeymapSet {
    /// Build the keymaps a configuration describes. Every `<leader>` in
    /// a sequence is replaced by the configured `general.leader_key`.
    pub fn from_config(cfg: &Config) -> (r: Result<KeymapSet, Error>)
        ensures
            match keymaps_of(*cfg) {
                Ok((n, i, c)) => r matches Ok(s) && s.normal.view() == n && s.insert.view() == i
                    && s.command.view() == c,
                Err(m) => r matches Err(e) && e.msg() == m,
            },
    {
        let leader = Key::parse(cfg.general.leader_key.as_str())?;
        let mut s = KeymapSet::default();
        bind_pairs(&mut s.normal, &cfg.keymap.normal, &leader)?;
        bind_pairs(&mut s.insert, &cfg.keymap.insert, &leader)?;
        bind_pairs(&mut s.command, &cfg.keymap.command, &leader)?;
        Ok(s)
    }
}

#[derive(Debug, PartialEq, Eq)]
pub enum Outcome {
    /// Wait for more keys.
    Pending,
    /// A binding fired.
    Action(Action),
    /// A key arrived that doesn't continue any binding; pending cleared.
    Cancelled,
}

pub enum OutcomeView {
    Pending,
    Action(ActionView),
    Cancelled,
}

impl View for Outcome {
    type V = OutcomeView;

    open spec fn view(&self) -> OutcomeView {
        match self {
            Outcome::Pending => OutcomeView::Pending,
            Outcome::Action(a) => OutcomeView::Action(a@),
            Outcome::Cancelled => OutcomeView::Cancelled,
        }
    }
}

/// One key fed to a keymap with `pending` typed so far: the new pending
/// sequence and the outcome.
pub open spec fn feed_step(m: Map<Seq<KeyView>, ActionView>, pending: Seq<KeyView>, key: KeyView) -> (
    Seq<KeyView>,
    OutcomeView,
) {
    let p = pending.push(key);
    match lookup_in(m, p) {
        LookupView::Match(a) => (Seq::empty(), OutcomeView::Action(a)),
        LookupView::AmbiguousMatch(_) => (p, OutcomeView::Pending),
        LookupView::Pending => (p, OutcomeView::Pending),
        LookupView::NoMatch => (Seq::empty(), OutcomeView::Cancelled),
    }
}

/// What committing `pending` fires: its action when it is bound.
pub open spec fn commit_result(m: Map<Seq<KeyView>, ActionView>, pending: Seq<KeyView>) -> Option<
    ActionView,
> {
    if m.dom().contains(pending) {
        Some(m[pending])
    } else {
        None
    }
}

#[derive(Debug)]
pub struct Engine {
    mode: Mode,
    pending: Vec<Key>,
    maps: KeymapSet,
}

impl Engine {
    pub closed spec fn spec_mode(&self) -> Mode {
        self.mode
    }

    pub closed spec fn spec_pending(&self) -> Seq<KeyView> {
        keys_view(self.pending@)
    }

    pub closed spec fn normal_map(&self) -> Map<Seq<KeyView>, ActionView> {
        self.maps.normal.view()
    }

    pub closed spec fn insert_map(&self) -> Map<Seq<KeyView>, ActionView> {
        self.maps.insert.view()
    }

    pub closed spec fn command_map(&self) -> Map<Seq<KeyView>, ActionView> {
        self.maps.command.view()
    }

    /// The keymap the current mode consults: Search shares Command's.
    pub open spec fn active_map(&self) -> Map<Seq<KeyView>, ActionView> {
        match self.spec_mode() {
            Mode::Normal => self.normal_map(),
            Mode::Insert => self.insert_map(),
            Mode::Command | Mode::Search => self.command_map(),
        }
    }

    /// Keymaps unchanged between two engine states.
    pub open spec fn same_maps(&self, other: &Engine) -> bool {
        &&& self.normal_map() == other.normal_map()
        &&& self.insert_map() == other.insert_map()
        &&& self.command_map() == other.command_map()
    }

    pub fn new(maps: KeymapSet) -> (e: Engine)
        ensures
            e.spec_mode() == Mode::Normal,
            e.spec_pending().len() == 0,
            e.normal_map() == maps.normal.view(),
            e.insert_map() == maps.insert.view(),
            e.command_map() == maps.command.view(),
    {
        Engine { mode: Mode::Normal, pending: Vec::new(), maps }
    }

    pub fn mode(&self) -> (m: Mode)
        ensures
            m == self.spec_mode(),
    {
        self.mode
    }

    /// Switch mode; the pending sequence is dropped.
    pub fn set_mode(&mut self, mode: Mode)
        ensures
            final(self).spec_mode() == mode,
            final(self).spec_pending().len() == 0,
            final(self).same_maps(old(self)),
    {
        self.mode = mode;
        self.pending.clear();
    }

    pub fn pending(&self) -> (p: &[Key])
        ensures
            keys_view(p@) == self.spec_pending(),
    {
        self.pending.as_slice()
    }

    fn current_map(&self) -> (m: &Keymap)
        ensures
            m.view() == self.active_map(),
    {
        match self.mode {
            Mode::Normal => &self.maps.normal,
            Mode::Insert => &self.maps.insert,
            Mode::Command | Mode::Search => &self.maps.command,
        }
    }

    /// Process one key (see [`feed_step`]).
    pub fn feed(&mut self, key: Key) -> (o: Outcome)
        ensures
            (final(self).spec_pending(), o@) == feed_step(
                old(self).active_map(),
                old(self).spec_pending(),
                key@,
            ),
            final(self).spec_mode() == old(self).spec_mode(),
            final(self).same_maps(old(self)),
    {
        let ghost kv = key@;
        let ghost p0 = self.spec_pending();
        self.pending.push(key);
        assert(keys_view(self.pending@) =~= p0.push(kv));
        let l = self.current_map().lookup(self.pending.as_slice());
        match l {
            Lookup::Match(a) => {
                self.pending.clear();
                assert(keys_view(self.pending@) =~= Seq::<KeyView>::empty());
                Outcome::Action(a)
            },
            Lookup::AmbiguousMatch(_) | Lookup::Pending => Outcome::Pending,
            Lookup::NoMatch => {
                self.pending.clear();
                assert(keys_view(self.pending@) =~= Seq::<KeyView>::empty());
                Outcome::Cancelled
            },
        }
    }

    /// Commit whatever is pending: the bound action of the pending
    /// prefix, if any. Pending is cleared either way.
    pub fn commit_pending(&mut self) -> (r: Option<Action>)
        ensures
            r matches Some(a) ==> commit_result(old(self).active_map(), old(self).spec_pending()) == Some(a@),
            r is None ==> commit_result(old(self).active_map(), old(self).spec_pending()) is None,
            final(self).spec_pending().len() == 0,
            final(self).spec_mode() == old(self).spec_mode(),
            final(self).same_maps(old(self)),
    {
        let l = self.current_map().lookup(self.pending.as_slice());
        let result = match l {
            Lookup::Match(a) => Some(a),
            Lookup::AmbiguousMatch(a) => Some(a),
            _ => None,
        };
        self.pending.clear();
        result
    }
}

} // verus!
