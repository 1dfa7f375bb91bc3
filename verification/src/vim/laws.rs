//! Properties of the key engine that span several operations.
use vstd::prelude::*;
use super::action::{ActionView, action_from_name, action_name, is_known_name};
use super::engine::{Engine, OutcomeView, bind_all, binding_seq, feed_step, keymaps_of, pairs_view};
use crate::config::Config;
use super::mode::Mode;
use super::keymap::{LookupView, extended, lookup_in, strict_prefix};
use super::key::{
    KeySymView, KeyView, Modifiers, canon_name, first_bad_mod, is_mod_name, key_display,
    lemma_display_shape, lemma_mod_lits, mod_flags, mods_of, no_mods, parse_key, parses_as_u8,
};
use crate::text::{is_digit, is_ws, lead_ws, lower, lower_seq, lemma_split_join, lemma_split_no_sep, split_seq, trail_ws, trim};

verus! {

/// Feeds `keys` one by one starting from `pending`: the final pending
/// sequence and every outcome in order.
pub open spec fn feed_keys(
    m: Map<Seq<KeyView>, ActionView>,
    pending: Seq<KeyView>,
    keys: Seq<KeyView>,
) -> (Seq<KeyView>, Seq<OutcomeView>)
    decreases keys.len(),
{
    if keys.len() == 0 {
        (pending, Seq::empty())
    } else {
        let (p, outs) = feed_keys(m, pending, keys.drop_last());
        let (p2, o) = feed_step(m, p, keys.last());
        (p2, outs.push(o))
    }
}

/// A sequence that is bound stays resolvable after binding it: looking it
/// up yields the action just bound (ambiguous exactly when some longer
/// binding extends it).
pub proof fn law_bind_then_lookup(m: Map<Seq<KeyView>, ActionView>, s: Seq<KeyView>, a: ActionView)
    ensures
        lookup_in(m.insert(s, a), s) == if extended(m.insert(s, a), s) {
            LookupView::AmbiguousMatch(a)
        } else {
            LookupView::Match(a)
        },
{
}

/// Typing a bound sequence that no longer binding extends, from an empty
/// pending state, waits on every key but the last and fires the bound
/// action on the last, leaving nothing pending.
pub proof fn law_complete_sequence_fires(m: Map<Seq<KeyView>, ActionView>, s: Seq<KeyView>)
    requires
        m.dom().contains(s),
        s.len() > 0,
        !extended(m, s),
    ensures
        feed_keys(m, Seq::empty(), s).0 == Seq::<KeyView>::empty(),
        feed_keys(m, Seq::empty(), s).1.len() == s.len(),
        forall|i: int|
            0 <= i < s.len() - 1 ==> #[trigger] feed_keys(m, Seq::empty(), s).1[i]
                == OutcomeView::Pending,
        feed_keys(m, Seq::empty(), s).1[s.len() - 1] == OutcomeView::Action(m[s]),
{
    lemma_prefix_feeds(m, s, (s.len() - 1) as nat);
    let pre = s.subrange(0, s.len() - 1);
    assert(s.drop_last() =~= pre);
    assert(pre.push(s.last()) =~= s);
}

/// Every proper prefix of a bound sequence just waits.
proof fn lemma_prefix_feeds(m: Map<Seq<KeyView>, ActionView>, s: Seq<KeyView>, k: nat)
    requires
        m.dom().contains(s),
        k < s.len(),
    ensures
        feed_keys(m, Seq::empty(), s.subrange(0, k as int)).0 == s.subrange(0, k as int),
        feed_keys(m, Seq::empty(), s.subrange(0, k as int)).1.len() == k,
        forall|i: int|
            0 <= i < k ==> #[trigger] feed_keys(m, Seq::empty(), s.subrange(0, k as int)).1[i]
                == OutcomeView::Pending,
    decreases k,
{
    if k > 0 {
        lemma_prefix_feeds(m, s, (k - 1) as nat);
        let p = s.subrange(0, k as int);
        let q = s.subrange(0, k - 1);
        assert(p.drop_last() =~= q);
        assert(q.push(p.last()) =~= p);
        assert(strict_prefix(p, s)) by {
            assert(s.subrange(0, p.len() as int) =~= p);
        }
        assert(extended(m, p));
    }
}

/// A well-known action survives the trip through its config name; a
/// custom action does too unless it is spelled like a well-known one.
pub proof fn law_action_name_round_trip(a: ActionView)
    requires
        !(a is Custom && is_known_name(a->Custom_0)),
    ensures
        action_from_name(action_name(a)) == a,
{
    reveal_strlit("navigate_down");
    reveal_strlit("navigate_up");
    reveal_strlit("sidebar_focus");
    reveal_strlit("messages_focus");
    reveal_strlit("scroll_top");
    reveal_strlit("scroll_bottom");
    reveal_strlit("compose_new");
    reveal_strlit("reply");
    reveal_strlit("send_message");
    reveal_strlit("leave_insert");
    reveal_strlit("archive_chat");
    reveal_strlit("copy_message");
    reveal_strlit("delete_message");
    reveal_strlit("search");
    reveal_strlit("command_palette");
    reveal_strlit("quit");
    reveal_strlit("set_theme");
    reveal_strlit("reload_config");
    match a {
        ActionView::NavigateDown => {
            assert("navigate_down"@.len() == 13);
        },
        ActionView::NavigateUp => {
            assert("navigate_up"@.len() == 11);
            assert("navigate_down"@.len() == 13);
        },
        ActionView::SidebarFocus => {
            assert("sidebar_focus"@.len() == 13);
            assert("navigate_down"@.len() == 13);
            assert("sidebar_focus"@[0] != "navigate_down"@[0]);
            assert("navigate_up"@.len() == 11);
        },
        ActionView::MessagesFocus => {
            assert("messages_focus"@.len() == 14);
            assert("navigate_down"@.len() == 13);
            assert("navigate_up"@.len() == 11);
            assert("sidebar_focus"@.len() == 13);
        },
        ActionView::ScrollTop => {
            assert("scroll_top"@.len() == 10);
            assert("navigate_down"@.len() == 13);
            assert("navigate_up"@.len() == 11);
            assert("sidebar_focus"@.len() == 13);
            assert("messages_focus"@.len() == 14);
        },
        ActionView::ScrollBottom => {
            assert("scroll_bottom"@.len() == 13);
            assert("navigate_down"@.len() == 13);
            assert("scroll_bottom"@[0] != "navigate_down"@[0]);
            assert("navigate_up"@.len() == 11);
            assert("sidebar_focus"@.len() == 13);
            assert("scroll_bottom"@[1] != "sidebar_focus"@[1]);
            assert("messages_focus"@.len() == 14);
            assert("scroll_top"@.len() == 10);
        },
        ActionView::ComposeNew => {
            assert("compose_new"@.len() == 11);
            assert("navigate_down"@.len() == 13);
            assert("navigate_up"@.len() == 11);
            assert("compose_new"@[0] != "navigate_up"@[0]);
            assert("sidebar_focus"@.len() == 13);
            assert("messages_focus"@.len() == 14);
            assert("scroll_top"@.len() == 10);
            assert("scroll_bottom"@.len() == 13);
        },
        ActionView::Reply => {
            assert("reply"@.len() == 5);
            assert("navigate_down"@.len() == 13);
            assert("navigate_up"@.len() == 11);
            assert("sidebar_focus"@.len() == 13);
            assert("messages_focus"@.len() == 14);
            assert("scroll_top"@.len() == 10);
            assert("scroll_bottom"@.len() == 13);
            assert("compose_new"@.len() == 11);
        },
        ActionView::SendMessage => {
            assert("send_message"@.len() == 12);
            assert("navigate_down"@.len() == 13);
            assert("navigate_up"@.len() == 11);
            assert("sidebar_focus"@.len() == 13);
            assert("messages_focus"@.len() == 14);
            assert("scroll_top"@.len() == 10);
            assert("scroll_bottom"@.len() == 13);
            assert("compose_new"@.len() == 11);
            assert("reply"@.len() == 5);
        },
        ActionView::LeaveInsert => {
            assert("leave_insert"@.len() == 12);
            assert("navigate_down"@.len() == 13);
            assert("navigate_up"@.len() == 11);
            assert("sidebar_focus"@.len() == 13);
            assert("messages_focus"@.len() == 14);
            assert("scroll_top"@.len() == 10);
            assert("scroll_bottom"@.len() == 13);
            assert("compose_new"@.len() == 11);
            assert("reply"@.len() == 5);
            assert("send_message"@.len() == 12);
            assert("leave_insert"@[0] != "send_message"@[0]);
        },
        ActionView::ArchiveChat => {
            assert("archive_chat"@.len() == 12);
            assert("navigate_down"@.len() == 13);
            assert("navigate_up"@.len() == 11);
            assert("sidebar_focus"@.len() == 13);
            assert("messages_focus"@.len() == 14);
            assert("scroll_top"@.len() == 10);
            assert("scroll_bottom"@.len() == 13);
            assert("compose_new"@.len() == 11);
            assert("reply"@.len() == 5);
            assert("send_message"@.len() == 12);
            assert("archive_chat"@[0] != "send_message"@[0]);
            assert("leave_insert"@.len() == 12);
            assert("archive_chat"@[0] != "leave_insert"@[0]);
        },
        ActionView::CopyMessage => {
            assert("copy_message"@.len() == 12);
            assert("navigate_down"@.len() == 13);
            assert("navigate_up"@.len() == 11);
            assert("sidebar_focus"@.len() == 13);
            assert("messages_focus"@.len() == 14);
            assert("scroll_top"@.len() == 10);
            assert("scroll_bottom"@.len() == 13);
            assert("compose_new"@.len() == 11);
            assert("reply"@.len() == 5);
            assert("send_message"@.len() == 12);
            assert("copy_message"@[0] != "send_message"@[0]);
            assert("leave_insert"@.len() == 12);
            assert("copy_message"@[0] != "leave_insert"@[0]);
            assert("archive_chat"@.len() == 12);
            assert("copy_message"@[0] != "archive_chat"@[0]);
        },
        ActionView::DeleteMessage => {
            assert("delete_message"@.len() == 14);
            assert("navigate_down"@.len() == 13);
            assert("navigate_up"@.len() == 11);
            assert("sidebar_focus"@.len() == 13);
            assert("messages_focus"@.len() == 14);
            assert("delete_message"@[0] != "messages_focus"@[0]);
            assert("scroll_top"@.len() == 10);
            assert("scroll_bottom"@.len() == 13);
            assert("compose_new"@.len() == 11);
            assert("reply"@.len() == 5);
            assert("send_message"@.len() == 12);
            assert("leave_insert"@.len() == 12);
            assert("archive_chat"@.len() == 12);
            assert("copy_message"@.len() == 12);
        },
        ActionView::Search => {
            assert("search"@.len() == 6);
            assert("navigate_down"@.len() == 13);
            assert("navigate_up"@.len() == 11);
            assert("sidebar_focus"@.len() == 13);
            assert("messages_focus"@.len() == 14);
            assert("scroll_top"@.len() == 10);
            assert("scroll_bottom"@.len() == 13);
            assert("compose_new"@.len() == 11);
            assert("reply"@.len() == 5);
            assert("send_message"@.len() == 12);
            assert("leave_insert"@.len() == 12);
            assert("archive_chat"@.len() == 12);
            assert("copy_message"@.len() == 12);
            assert("delete_message"@.len() == 14);
        },
        ActionView::CommandPalette => {
            assert("command_palette"@.len() == 15);
            assert("navigate_down"@.len() == 13);
            assert("navigate_up"@.len() == 11);
            assert("sidebar_focus"@.len() == 13);
            assert("messages_focus"@.len() == 14);
            assert("scroll_top"@.len() == 10);
            assert("scroll_bottom"@.len() == 13);
            assert("compose_new"@.len() == 11);
            assert("reply"@.len() == 5);
            assert("send_message"@.len() == 12);
            assert("leave_insert"@.len() == 12);
            assert("archive_chat"@.len() == 12);
            assert("copy_message"@.len() == 12);
            assert("delete_message"@.len() == 14);
            assert("search"@.len() == 6);
        },
        ActionView::Quit => {
            assert("quit"@.len() == 4);
            assert("navigate_down"@.len() == 13);
            assert("navigate_up"@.len() == 11);
            assert("sidebar_focus"@.len() == 13);
            assert("messages_focus"@.len() == 14);
            assert("scroll_top"@.len() == 10);
            assert("scroll_bottom"@.len() == 13);
            assert("compose_new"@.len() == 11);
            assert("reply"@.len() == 5);
            assert("send_message"@.len() == 12);
            assert("leave_insert"@.len() == 12);
            assert("archive_chat"@.len() == 12);
            assert("copy_message"@.len() == 12);
            assert("delete_message"@.len() == 14);
            assert("search"@.len() == 6);
            assert("command_palette"@.len() == 15);
        },
        ActionView::SetTheme => {
            assert("set_theme"@.len() == 9);
            assert("navigate_down"@.len() == 13);
            assert("navigate_up"@.len() == 11);
            assert("sidebar_focus"@.len() == 13);
            assert("messages_focus"@.len() == 14);
            assert("scroll_top"@.len() == 10);
            assert("scroll_bottom"@.len() == 13);
            assert("compose_new"@.len() == 11);
            assert("reply"@.len() == 5);
            assert("send_message"@.len() == 12);
            assert("leave_insert"@.len() == 12);
            assert("archive_chat"@.len() == 12);
            assert("copy_message"@.len() == 12);
            assert("delete_message"@.len() == 14);
            assert("search"@.len() == 6);
            assert("command_palette"@.len() == 15);
            assert("quit"@.len() == 4);
        },
        ActionView::ReloadConfig => {
            assert("reload_config"@.len() == 13);
            assert("navigate_down"@.len() == 13);
            assert("reload_config"@[0] != "navigate_down"@[0]);
            assert("navigate_up"@.len() == 11);
            assert("sidebar_focus"@.len() == 13);
            assert("reload_config"@[0] != "sidebar_focus"@[0]);
            assert("messages_focus"@.len() == 14);
            assert("scroll_top"@.len() == 10);
            assert("scroll_bottom"@.len() == 13);
            assert("reload_config"@[0] != "scroll_bottom"@[0]);
            assert("compose_new"@.len() == 11);
            assert("reply"@.len() == 5);
            assert("send_message"@.len() == 12);
            assert("leave_insert"@.len() == 12);
            assert("archive_chat"@.len() == 12);
            assert("copy_message"@.len() == 12);
            assert("delete_message"@.len() == 14);
            assert("search"@.len() == 6);
            assert("command_palette"@.len() == 15);
            assert("quit"@.len() == 4);
            assert("set_theme"@.len() == 9);
        },
        ActionView::Custom(_) => {},
    }
}

/// Keys whose rendered form reads back as the same key: an unmodified
/// char must not be blank or `<`; a modified char must not be `-`; a
/// name must be canonical, at least two chars long and free of `-`.
pub open spec fn display_parses_back(k: KeyView) -> bool {
    match k.sym {
        KeySymView::Char(c) => if k.mods == no_mods() {
            !is_ws(c) && c != '<'
        } else {
            c != '-'
        },
        KeySymView::Named(n) => n.len() >= 2 && !n.contains('-') && canon_name(n) == n,
    }
}

/// The modifier tokens of a modifier set, in `C`, `A`, `S`, `M` order.
pub open spec fn mod_tokens(m: Modifiers) -> Seq<Seq<char>> {
    (if m.ctrl {
        seq!["C"@]
    } else {
        Seq::empty()
    }) + (if m.alt {
        seq!["A"@]
    } else {
        Seq::empty()
    }) + (if m.shift {
        seq!["S"@]
    } else {
        Seq::empty()
    }) + (if m.meta {
        seq!["M"@]
    } else {
        Seq::empty()
    })
}

/// Tokens each followed by `-`.
pub open spec fn join_dash(ms: Seq<Seq<char>>) -> Seq<char>
    decreases ms.len(),
{
    if ms.len() == 0 {
        Seq::empty()
    } else {
        ms[0] + seq!['-'] + join_dash(ms.drop_first())
    }
}

proof fn lemma_join_cons(x: Seq<char>, ms: Seq<Seq<char>>)
    ensures
        join_dash(seq![x] + ms) == x + seq!['-'] + join_dash(ms),
{
    assert((seq![x] + ms).drop_first() =~= ms);
}

proof fn lemma_flag_lits()
    ensures
        "C-"@ == "C"@ + seq!['-'],
        "A-"@ == "A"@ + seq!['-'],
        "S-"@ == "S"@ + seq!['-'],
        "M-"@ == "M"@ + seq!['-'],
{
    lemma_mod_lits();
    reveal_strlit("C-");
    reveal_strlit("A-");
    reveal_strlit("S-");
    reveal_strlit("M-");
    assert("C-"@ =~= "C"@ + seq!['-']);
    assert("A-"@ =~= "A"@ + seq!['-']);
    assert("S-"@ =~= "S"@ + seq!['-']);
    assert("M-"@ =~= "M"@ + seq!['-']);
}

proof fn lemma_flags_join(m: Modifiers)
    ensures
        mod_flags(m) == join_dash(mod_tokens(m)),
{
    lemma_flag_lits();
    let a: Seq<Seq<char>> = if m.ctrl { seq!["C"@] } else { Seq::empty() };
    let b: Seq<Seq<char>> = if m.alt { seq!["A"@] } else { Seq::empty() };
    let c: Seq<Seq<char>> = if m.shift { seq!["S"@] } else { Seq::empty() };
    let d: Seq<Seq<char>> = if m.meta { seq!["M"@] } else { Seq::empty() };
    let ja = if m.ctrl { "C-"@ } else { Seq::<char>::empty() };
    let jb = if m.alt { "A-"@ } else { Seq::<char>::empty() };
    let jc = if m.shift { "S-"@ } else { Seq::<char>::empty() };
    let jd = if m.meta { "M-"@ } else { Seq::<char>::empty() };
    lemma_join_prefix(d, Seq::empty());
    assert(join_dash(d) == jd) by {
        assert(d + Seq::<Seq<char>>::empty() =~= d);
        assert(join_dash(Seq::<Seq<char>>::empty()) =~= Seq::<char>::empty());
        assert(jd + Seq::<char>::empty() =~= jd);
    }
    lemma_join_prefix(c, d);
    lemma_join_prefix(b, c + d);
    lemma_join_prefix(a, b + (c + d));
    assert(a + b + c + d =~= a + (b + (c + d)));
    assert(ja + jb + jc + jd =~= ja + (jb + (jc + jd)));
}

/// Prefixing at most one token.
proof fn lemma_join_prefix(a: Seq<Seq<char>>, rest: Seq<Seq<char>>)
    requires
        a.len() <= 1,
    ensures
        join_dash(a + rest) == (if a.len() == 1 {
            a[0] + seq!['-']
        } else {
            Seq::<char>::empty()
        }) + join_dash(rest),
{
    if a.len() == 1 {
        assert(a =~= seq![a[0]]);
        lemma_join_cons(a[0], rest);
    } else {
        assert(a + rest =~= rest);
        assert(Seq::<char>::empty() + join_dash(rest) =~= join_dash(rest));
    }
}

proof fn lemma_split_tokens(ms: Seq<Seq<char>>, sym: Seq<char>)
    requires
        forall|i: int| 0 <= i < ms.len() ==> !(#[trigger] ms[i]).contains('-'),
        !sym.contains('-'),
    ensures
        split_seq(join_dash(ms) + sym, '-') == ms.push(sym),
    decreases ms.len(),
{
    if ms.len() == 0 {
        assert(join_dash(ms) + sym =~= sym);
        lemma_split_no_sep(sym, '-');
        assert(ms.push(sym) =~= seq![sym]);
    } else {
        let rest = ms.drop_first();
        assert forall|i: int| 0 <= i < rest.len() implies !(#[trigger] rest[i]).contains('-') by {
            assert(rest[i] == ms[i + 1]);
        }
        lemma_split_tokens(rest, sym);
        assert(join_dash(ms) + sym =~= ms[0] + seq!['-'] + (join_dash(rest) + sym));
        lemma_split_join(ms[0], join_dash(rest) + sym, '-');
        assert(!ms[0].contains('-'));
        lemma_split_no_sep(ms[0], '-');
        assert(seq![ms[0]] + rest.push(sym) =~= ms.push(sym));
    }
}

proof fn lemma_tokens_valid(m: Modifiers)
    ensures
        first_bad_mod(mod_tokens(m)) is None,
        mods_of(mod_tokens(m)) == m,
        forall|i: int| 0 <= i < mod_tokens(m).len() ==> !(#[trigger] mod_tokens(m)[i]).contains('-'),
{
    lemma_mod_lits();
    let t = mod_tokens(m);
    assert forall|i: int| 0 <= i < t.len() implies is_mod_name(#[trigger] t[i]) && !t[i].contains('-') by {
        assert(t[i] == "C"@ || t[i] == "A"@ || t[i] == "S"@ || t[i] == "M"@);
        if t[i].contains('-') {
            let j = choose|j: int| 0 <= j < t[i].len() && t[i][j] == '-';
        }
    }
    lemma_no_bad(t);
    lemma_mods_of_tokens(m);
}

proof fn lemma_no_bad(ms: Seq<Seq<char>>)
    requires
        forall|i: int| 0 <= i < ms.len() ==> is_mod_name(#[trigger] ms[i]),
    ensures
        first_bad_mod(ms) is None,
    decreases ms.len(),
{
    if ms.len() > 0 {
        let t = ms.drop_first();
        assert forall|i: int| 0 <= i < t.len() implies is_mod_name(#[trigger] t[i]) by {
            assert(t[i] == ms[i + 1]);
        }
        assert(is_mod_name(ms[0]));
        lemma_no_bad(t);
    }
}

proof fn lemma_mods_of_tokens(m: Modifiers)
    ensures
        mods_of(mod_tokens(m)) == m,
{
    lemma_mod_lits();
    let a: Seq<Seq<char>> = if m.ctrl { seq!["C"@] } else { Seq::empty() };
    let b: Seq<Seq<char>> = if m.alt { seq!["A"@] } else { Seq::empty() };
    let c: Seq<Seq<char>> = if m.shift { seq!["S"@] } else { Seq::empty() };
    let d: Seq<Seq<char>> = if m.meta { seq!["M"@] } else { Seq::empty() };
    let ab = a + b;
    let abc = ab + c;
    let abcd = abc + d;
    assert(mods_of(Seq::<Seq<char>>::empty()) == no_mods());
    lemma_mods_snoc(Seq::empty(), a);
    assert(Seq::<Seq<char>>::empty() + a =~= a);
    lemma_mods_snoc(a, b);
    lemma_mods_snoc(ab, c);
    lemma_mods_snoc(abc, d);
}

proof fn lemma_mods_snoc(p: Seq<Seq<char>>, x: Seq<Seq<char>>)
    requires
        x.len() <= 1,
    ensures
        mods_of(p + x) == if x.len() == 0 {
            mods_of(p)
        } else {
            Modifiers {
                ctrl: mods_of(p).ctrl || x[0] == "C"@,
                alt: mods_of(p).alt || x[0] == "A"@,
                shift: mods_of(p).shift || x[0] == "S"@,
                meta: mods_of(p).meta || x[0] == "M"@,
            }
        },
{
    if x.len() == 0 {
        assert(p + x =~= p);
    } else {
        assert((p + x).drop_last() =~= p);
        assert((p + x).last() == x[0]);
    }
}

proof fn lemma_trim_identity(t: Seq<char>)
    requires
        t.len() > 0,
        !is_ws(t[0]),
        !is_ws(t.last()),
    ensures
        trim(t) == t,
{
    assert(lead_ws(t) == 0);
    assert(trail_ws(t) == 0);
    assert(t.subrange(0, t.len() as int) =~= t);
}

/// Rendering a key and reading the rendering back gives the same key,
/// for every key whose rendering is unambiguous (see
/// [`display_parses_back`]).
pub proof fn law_key_display_parse(k: KeyView)
    requires
        display_parses_back(k),
    ensures
        parse_key(key_display(k)) == Ok::<KeyView, Seq<char>>(k),
{
    if k.mods == no_mods() && k.sym is Char {
        let t = key_display(k);
        lemma_trim_identity(t);
        assert(k == KeyView { sym: KeySymView::Char(k.sym->Char_0), mods: no_mods() });
    } else {
        lemma_bracketed_parse(k);
    }
}

proof fn lemma_bracket_facts(k: KeyView) -> (sym_s: Seq<char>)
    requires
        display_parses_back(k),
        !(k.mods == no_mods() && k.sym is Char),
    ensures
        sym_s == match k.sym {
            KeySymView::Char(c) => seq![c],
            KeySymView::Named(n) => n,
        },
        trim(key_display(k)) == key_display(k),
        key_display(k).len() >= 3,
        key_display(k)[0] == '<',
        key_display(k).last() == '>',
        split_seq(key_display(k).subrange(1, key_display(k).len() - 1), '-') == mod_tokens(
            k.mods,
        ).push(sym_s),
        first_bad_mod(mod_tokens(k.mods)) is None,
        mods_of(mod_tokens(k.mods)) == k.mods,
        sym_s.len() >= 1,
{
    let t = key_display(k);
    lemma_display_shape(k);
    let sym_s = match k.sym {
        KeySymView::Char(c) => seq![c],
        KeySymView::Named(n) => n,
    };
    let flags = mod_flags(k.mods);
    lemma_trim_identity(t);
    assert(t.subrange(1, t.len() - 1) =~= flags + sym_s);
    lemma_flags_join(k.mods);
    lemma_tokens_valid(k.mods);
    assert(!sym_s.contains('-')) by {
        if sym_s.contains('-') {
            let j = choose|j: int| 0 <= j < sym_s.len() && sym_s[j] == '-';
        }
    }
    lemma_split_tokens(mod_tokens(k.mods), sym_s);
    sym_s
}

#[verifier::rlimit(50)]
proof fn lemma_bracketed_parse(k: KeyView)
    requires
        display_parses_back(k),
        !(k.mods == no_mods() && k.sym is Char),
    ensures
        parse_key(key_display(k)) == Ok::<KeyView, Seq<char>>(k),
{
    let sym_s = lemma_bracket_facts(k);
    let t = key_display(k);
    let parts = split_seq(t.subrange(1, t.len() - 1), '-');
    assert(parts.last() == sym_s);
    assert(parts.drop_last() =~= mod_tokens(k.mods));
    assert(super::key::sym_of(sym_s) == k.sym);
}


proof fn lemma_canon_esc_fixed()
    ensures
        canon_name("Esc"@) == "Esc"@,
{
    reveal_strlit("BS");
    reveal_strlit("Del");
    reveal_strlit("Down");
    reveal_strlit("End");
    reveal_strlit("Enter");
    reveal_strlit("Esc");
    reveal_strlit("Home");
    reveal_strlit("Insert");
    reveal_strlit("Left");
    reveal_strlit("PageDown");
    reveal_strlit("PageUp");
    reveal_strlit("Right");
    reveal_strlit("Space");
    reveal_strlit("Tab");
    reveal_strlit("Up");
    reveal_strlit("backspace");
    reveal_strlit("bs");
    reveal_strlit("cr");
    reveal_strlit("del");
    reveal_strlit("delete");
    reveal_strlit("down");
    reveal_strlit("end");
    reveal_strlit("enter");
    reveal_strlit("esc");
    reveal_strlit("escape");
    reveal_strlit("home");
    reveal_strlit("ins");
    reveal_strlit("insert");
    reveal_strlit("leader");
    reveal_strlit("left");
    reveal_strlit("pagedown");
    reveal_strlit("pageup");
    reveal_strlit("pgdn");
    reveal_strlit("pgdown");
    reveal_strlit("pgup");
    reveal_strlit("return");
    reveal_strlit("right");
    reveal_strlit("space");
    reveal_strlit("spc");
    reveal_strlit("tab");
    reveal_strlit("up");
    assert("esc"@.len() != "escape"@.len());
    assert("esc"@.len() != "cr"@.len());
    assert("esc"@.len() != "enter"@.len());
    assert("esc"@.len() != "return"@.len());
    assert("esc"@.len() != "space"@.len());
    assert("esc"@[0] != "spc"@[0]);
    assert("esc"@[0] != "tab"@[0]);
    assert("esc"@.len() != "bs"@.len());
    assert("esc"@.len() != "backspace"@.len());
    assert("esc"@[0] != "del"@[0]);
    assert("esc"@.len() != "delete"@.len());
    assert("esc"@[0] != "ins"@[0]);
    assert("esc"@.len() != "insert"@.len());
    assert("esc"@.len() != "up"@.len());
    assert("esc"@.len() != "down"@.len());
    assert("esc"@.len() != "left"@.len());
    assert("esc"@.len() != "right"@.len());
    assert("esc"@.len() != "home"@.len());
    assert("esc"@[1] != "end"@[1]);
    assert("esc"@.len() != "pageup"@.len());
    assert("esc"@.len() != "pgup"@.len());
    assert("esc"@.len() != "pagedown"@.len());
    assert("esc"@.len() != "pgdn"@.len());
    assert("esc"@.len() != "pgdown"@.len());
    assert("esc"@.len() != "leader"@.len());
    assert(lower_seq("Esc"@) =~= "esc"@);
}

proof fn lemma_canon_enter_fixed()
    ensures
        canon_name("Enter"@) == "Enter"@,
{
    reveal_strlit("BS");
    reveal_strlit("Del");
    reveal_strlit("Down");
    reveal_strlit("End");
    reveal_strlit("Enter");
    reveal_strlit("Esc");
    reveal_strlit("Home");
    reveal_strlit("Insert");
    reveal_strlit("Left");
    reveal_strlit("PageDown");
    reveal_strlit("PageUp");
    reveal_strlit("Right");
    reveal_strlit("Space");
    reveal_strlit("Tab");
    reveal_strlit("Up");
    reveal_strlit("backspace");
    reveal_strlit("bs");
    reveal_strlit("cr");
    reveal_strlit("del");
    reveal_strlit("delete");
    reveal_strlit("down");
    reveal_strlit("end");
    reveal_strlit("enter");
    reveal_strlit("esc");
    reveal_strlit("escape");
    reveal_strlit("home");
    reveal_strlit("ins");
    reveal_strlit("insert");
    reveal_strlit("leader");
    reveal_strlit("left");
    reveal_strlit("pagedown");
    reveal_strlit("pageup");
    reveal_strlit("pgdn");
    reveal_strlit("pgdown");
    reveal_strlit("pgup");
    reveal_strlit("return");
    reveal_strlit("right");
    reveal_strlit("space");
    reveal_strlit("spc");
    reveal_strlit("tab");
    reveal_strlit("up");
    assert("enter"@.len() != "esc"@.len());
    assert("enter"@.len() != "escape"@.len());
    assert("enter"@.len() != "cr"@.len());
    assert("enter"@.len() != "return"@.len());
    assert("enter"@[0] != "space"@[0]);
    assert("enter"@.len() != "spc"@.len());
    assert("enter"@.len() != "tab"@.len());
    assert("enter"@.len() != "bs"@.len());
    assert("enter"@.len() != "backspace"@.len());
    assert("enter"@.len() != "del"@.len());
    assert("enter"@.len() != "delete"@.len());
    assert("enter"@.len() != "ins"@.len());
    assert("enter"@.len() != "insert"@.len());
    assert("enter"@.len() != "up"@.len());
    assert("enter"@.len() != "down"@.len());
    assert("enter"@.len() != "left"@.len());
    assert("enter"@[0] != "right"@[0]);
    assert("enter"@.len() != "home"@.len());
    assert("enter"@.len() != "end"@.len());
    assert("enter"@.len() != "pageup"@.len());
    assert("enter"@.len() != "pgup"@.len());
    assert("enter"@.len() != "pagedown"@.len());
    assert("enter"@.len() != "pgdn"@.len());
    assert("enter"@.len() != "pgdown"@.len());
    assert("enter"@.len() != "leader"@.len());
    assert(lower_seq("Enter"@) =~= "enter"@);
}

proof fn lemma_canon_space_fixed()
    ensures
        canon_name("Space"@) == "Space"@,
{
    reveal_strlit("BS");
    reveal_strlit("Del");
    reveal_strlit("Down");
    reveal_strlit("End");
    reveal_strlit("Enter");
    reveal_strlit("Esc");
    reveal_strlit("Home");
    reveal_strlit("Insert");
    reveal_strlit("Left");
    reveal_strlit("PageDown");
    reveal_strlit("PageUp");
    reveal_strlit("Right");
    reveal_strlit("Space");
    reveal_strlit("Tab");
    reveal_strlit("Up");
    reveal_strlit("backspace");
    reveal_strlit("bs");
    reveal_strlit("cr");
    reveal_strlit("del");
    reveal_strlit("delete");
    reveal_strlit("down");
    reveal_strlit("end");
    reveal_strlit("enter");
    reveal_strlit("esc");
    reveal_strlit("escape");
    reveal_strlit("home");
    reveal_strlit("ins");
    reveal_strlit("insert");
    reveal_strlit("leader");
    reveal_strlit("left");
    reveal_strlit("pagedown");
    reveal_strlit("pageup");
    reveal_strlit("pgdn");
    reveal_strlit("pgdown");
    reveal_strlit("pgup");
    reveal_strlit("return");
    reveal_strlit("right");
    reveal_strlit("space");
    reveal_strlit("spc");
    reveal_strlit("tab");
    reveal_strlit("up");
    assert("space"@.len() != "esc"@.len());
    assert("space"@.len() != "escape"@.len());
    assert("space"@.len() != "cr"@.len());
    assert("space"@[0] != "enter"@[0]);
    assert("space"@.len() != "return"@.len());
    assert("space"@.len() != "spc"@.len());
    assert("space"@.len() != "tab"@.len());
    assert("space"@.len() != "bs"@.len());
    assert("space"@.len() != "backspace"@.len());
    assert("space"@.len() != "del"@.len());
    assert("space"@.len() != "delete"@.len());
    assert("space"@.len() != "ins"@.len());
    assert("space"@.len() != "insert"@.len());
    assert("space"@.len() != "up"@.len());
    assert("space"@.len() != "down"@.len());
    assert("space"@.len() != "left"@.len());
    assert("space"@[0] != "right"@[0]);
    assert("space"@.len() != "home"@.len());
    assert("space"@.len() != "end"@.len());
    assert("space"@.len() != "pageup"@.len());
    assert("space"@.len() != "pgup"@.len());
    assert("space"@.len() != "pagedown"@.len());
    assert("space"@.len() != "pgdn"@.len());
    assert("space"@.len() != "pgdown"@.len());
    assert("space"@.len() != "leader"@.len());
    assert(lower_seq("Space"@) =~= "space"@);
}

proof fn lemma_canon_tab_fixed()
    ensures
        canon_name("Tab"@) == "Tab"@,
{
    reveal_strlit("BS");
    reveal_strlit("Del");
    reveal_strlit("Down");
    reveal_strlit("End");
    reveal_strlit("Enter");
    reveal_strlit("Esc");
    reveal_strlit("Home");
    reveal_strlit("Insert");
    reveal_strlit("Left");
    reveal_strlit("PageDown");
    reveal_strlit("PageUp");
    reveal_strlit("Right");
    reveal_strlit("Space");
    reveal_strlit("Tab");
    reveal_strlit("Up");
    reveal_strlit("backspace");
    reveal_strlit("bs");
    reveal_strlit("cr");
    reveal_strlit("del");
    reveal_strlit("delete");
    reveal_strlit("down");
    reveal_strlit("end");
    reveal_strlit("enter");
    reveal_strlit("esc");
    reveal_strlit("escape");
    reveal_strlit("home");
    reveal_strlit("ins");
    reveal_strlit("insert");
    reveal_strlit("leader");
    reveal_strlit("left");
    reveal_strlit("pagedown");
    reveal_strlit("pageup");
    reveal_strlit("pgdn");
    reveal_strlit("pgdown");
    reveal_strlit("pgup");
    reveal_strlit("return");
    reveal_strlit("right");
    reveal_strlit("space");
    reveal_strlit("spc");
    reveal_strlit("tab");
    reveal_strlit("up");
    assert("tab"@[0] != "esc"@[0]);
    assert("tab"@.len() != "escape"@.len());
    assert("tab"@.len() != "cr"@.len());
    assert("tab"@.len() != "enter"@.len());
    assert("tab"@.len() != "return"@.len());
    assert("tab"@.len() != "space"@.len());
    assert("tab"@[0] != "spc"@[0]);
    assert("tab"@.len() != "bs"@.len());
    assert("tab"@.len() != "backspace"@.len());
    assert("tab"@[0] != "del"@[0]);
    assert("tab"@.len() != "delete"@.len());
    assert("tab"@[0] != "ins"@[0]);
    assert("tab"@.len() != "insert"@.len());
    assert("tab"@.len() != "up"@.len());
    assert("tab"@.len() != "down"@.len());
    assert("tab"@.len() != "left"@.len());
    assert("tab"@.len() != "right"@.len());
    assert("tab"@.len() != "home"@.len());
    assert("tab"@[0] != "end"@[0]);
    assert("tab"@.len() != "pageup"@.len());
    assert("tab"@.len() != "pgup"@.len());
    assert("tab"@.len() != "pagedown"@.len());
    assert("tab"@.len() != "pgdn"@.len());
    assert("tab"@.len() != "pgdown"@.len());
    assert("tab"@.len() != "leader"@.len());
    assert(lower_seq("Tab"@) =~= "tab"@);
}

proof fn lemma_canon_bs_fixed()
    ensures
        canon_name("BS"@) == "BS"@,
{
    reveal_strlit("BS");
    reveal_strlit("Del");
    reveal_strlit("Down");
    reveal_strlit("End");
    reveal_strlit("Enter");
    reveal_strlit("Esc");
    reveal_strlit("Home");
    reveal_strlit("Insert");
    reveal_strlit("Left");
    reveal_strlit("PageDown");
    reveal_strlit("PageUp");
    reveal_strlit("Right");
    reveal_strlit("Space");
    reveal_strlit("Tab");
    reveal_strlit("Up");
    reveal_strlit("backspace");
    reveal_strlit("bs");
    reveal_strlit("cr");
    reveal_strlit("del");
    reveal_strlit("delete");
    reveal_strlit("down");
    reveal_strlit("end");
    reveal_strlit("enter");
    reveal_strlit("esc");
    reveal_strlit("escape");
    reveal_strlit("home");
    reveal_strlit("ins");
    reveal_strlit("insert");
    reveal_strlit("leader");
    reveal_strlit("left");
    reveal_strlit("pagedown");
    reveal_strlit("pageup");
    reveal_strlit("pgdn");
    reveal_strlit("pgdown");
    reveal_strlit("pgup");
    reveal_strlit("return");
    reveal_strlit("right");
    reveal_strlit("space");
    reveal_strlit("spc");
    reveal_strlit("tab");
    reveal_strlit("up");
    assert("bs"@.len() != "esc"@.len());
    assert("bs"@.len() != "escape"@.len());
    assert("bs"@[0] != "cr"@[0]);
    assert("bs"@.len() != "enter"@.len());
    assert("bs"@.len() != "return"@.len());
    assert("bs"@.len() != "space"@.len());
    assert("bs"@.len() != "spc"@.len());
    assert("bs"@.len() != "tab"@.len());
    assert("bs"@.len() != "backspace"@.len());
    assert("bs"@.len() != "del"@.len());
    assert("bs"@.len() != "delete"@.len());
    assert("bs"@.len() != "ins"@.len());
    assert("bs"@.len() != "insert"@.len());
    assert("bs"@[0] != "up"@[0]);
    assert("bs"@.len() != "down"@.len());
    assert("bs"@.len() != "left"@.len());
    assert("bs"@.len() != "right"@.len());
    assert("bs"@.len() != "home"@.len());
    assert("bs"@.len() != "end"@.len());
    assert("bs"@.len() != "pageup"@.len());
    assert("bs"@.len() != "pgup"@.len());
    assert("bs"@.len() != "pagedown"@.len());
    assert("bs"@.len() != "pgdn"@.len());
    assert("bs"@.len() != "pgdown"@.len());
    assert("bs"@.len() != "leader"@.len());
    assert(lower_seq("BS"@) =~= "bs"@);
}

proof fn lemma_canon_del_fixed()
    ensures
        canon_name("Del"@) == "Del"@,
{
    reveal_strlit("BS");
    reveal_strlit("Del");
    reveal_strlit("Down");
    reveal_strlit("End");
    reveal_strlit("Enter");
    reveal_strlit("Esc");
    reveal_strlit("Home");
    reveal_strlit("Insert");
    reveal_strlit("Left");
    reveal_strlit("PageDown");
    reveal_strlit("PageUp");
    reveal_strlit("Right");
    reveal_strlit("Space");
    reveal_strlit("Tab");
    reveal_strlit("Up");
    reveal_strlit("backspace");
    reveal_strlit("bs");
    reveal_strlit("cr");
    reveal_strlit("del");
    reveal_strlit("delete");
    reveal_strlit("down");
    reveal_strlit("end");
    reveal_strlit("enter");
    reveal_strlit("esc");
    reveal_strlit("escape");
    reveal_strlit("home");
    reveal_strlit("ins");
    reveal_strlit("insert");
    reveal_strlit("leader");
    reveal_strlit("left");
    reveal_strlit("pagedown");
    reveal_strlit("pageup");
    reveal_strlit("pgdn");
    reveal_strlit("pgdown");
    reveal_strlit("pgup");
    reveal_strlit("return");
    reveal_strlit("right");
    reveal_strlit("space");
    reveal_strlit("spc");
    reveal_strlit("tab");
    reveal_strlit("up");
    assert("del"@[0] != "esc"@[0]);
    assert("del"@.len() != "escape"@.len());
    assert("del"@.len() != "cr"@.len());
    assert("del"@.len() != "enter"@.len());
    assert("del"@.len() != "return"@.len());
    assert("del"@.len() != "space"@.len());
    assert("del"@[0] != "spc"@[0]);
    assert("del"@[0] != "tab"@[0]);
    assert("del"@.len() != "bs"@.len());
    assert("del"@.len() != "backspace"@.len());
    assert("del"@.len() != "delete"@.len());
    assert("del"@[0] != "ins"@[0]);
    assert("del"@.len() != "insert"@.len());
    assert("del"@.len() != "up"@.len());
    assert("del"@.len() != "down"@.len());
    assert("del"@.len() != "left"@.len());
    assert("del"@.len() != "right"@.len());
    assert("del"@.len() != "home"@.len());
    assert("del"@[0] != "end"@[0]);
    assert("del"@.len() != "pageup"@.len());
    assert("del"@.len() != "pgup"@.len());
    assert("del"@.len() != "pagedown"@.len());
    assert("del"@.len() != "pgdn"@.len());
    assert("del"@.len() != "pgdown"@.len());
    assert("del"@.len() != "leader"@.len());
    assert(lower_seq("Del"@) =~= "del"@);
}

proof fn lemma_canon_insert_fixed()
    ensures
        canon_name("Insert"@) == "Insert"@,
{
    reveal_strlit("BS");
    reveal_strlit("Del");
    reveal_strlit("Down");
    reveal_strlit("End");
    reveal_strlit("Enter");
    reveal_strlit("Esc");
    reveal_strlit("Home");
    reveal_strlit("Insert");
    reveal_strlit("Left");
    reveal_strlit("PageDown");
    reveal_strlit("PageUp");
    reveal_strlit("Right");
    reveal_strlit("Space");
    reveal_strlit("Tab");
    reveal_strlit("Up");
    reveal_strlit("backspace");
    reveal_strlit("bs");
    reveal_strlit("cr");
    reveal_strlit("del");
    reveal_strlit("delete");
    reveal_strlit("down");
    reveal_strlit("end");
    reveal_strlit("enter");
    reveal_strlit("esc");
    reveal_strlit("escape");
    reveal_strlit("home");
    reveal_strlit("ins");
    reveal_strlit("insert");
    reveal_strlit("leader");
    reveal_strlit("left");
    reveal_strlit("pagedown");
    reveal_strlit("pageup");
    reveal_strlit("pgdn");
    reveal_strlit("pgdown");
    reveal_strlit("pgup");
    reveal_strlit("return");
    reveal_strlit("right");
    reveal_strlit("space");
    reveal_strlit("spc");
    reveal_strlit("tab");
    reveal_strlit("up");
    assert("insert"@.len() != "esc"@.len());
    assert("insert"@[0] != "escape"@[0]);
    assert("insert"@.len() != "cr"@.len());
    assert("insert"@.len() != "enter"@.len());
    assert("insert"@[0] != "return"@[0]);
    assert("insert"@.len() != "space"@.len());
    assert("insert"@.len() != "spc"@.len());
    assert("insert"@.len() != "tab"@.len());
    assert("insert"@.len() != "bs"@.len());
    assert("insert"@.len() != "backspace"@.len());
    assert("insert"@.len() != "del"@.len());
    assert("insert"@[0] != "delete"@[0]);
    assert("insert"@.len() != "ins"@.len());
    assert("insert"@.len() != "up"@.len());
    assert("insert"@.len() != "down"@.len());
    assert("insert"@.len() != "left"@.len());
    assert("insert"@.len() != "right"@.len());
    assert("insert"@.len() != "home"@.len());
    assert("insert"@.len() != "end"@.len());
    assert("insert"@[0] != "pageup"@[0]);
    assert("insert"@.len() != "pgup"@.len());
    assert("insert"@.len() != "pagedown"@.len());
    assert("insert"@.len() != "pgdn"@.len());
    assert("insert"@[0] != "pgdown"@[0]);
    assert("insert"@[0] != "leader"@[0]);
    assert(lower_seq("Insert"@) =~= "insert"@);
}

proof fn lemma_canon_up_fixed()
    ensures
        canon_name("Up"@) == "Up"@,
{
    reveal_strlit("BS");
    reveal_strlit("Del");
    reveal_strlit("Down");
    reveal_strlit("End");
    reveal_strlit("Enter");
    reveal_strlit("Esc");
    reveal_strlit("Home");
    reveal_strlit("Insert");
    reveal_strlit("Left");
    reveal_strlit("PageDown");
    reveal_strlit("PageUp");
    reveal_strlit("Right");
    reveal_strlit("Space");
    reveal_strlit("Tab");
    reveal_strlit("Up");
    reveal_strlit("backspace");
    reveal_strlit("bs");
    reveal_strlit("cr");
    reveal_strlit("del");
    reveal_strlit("delete");
    reveal_strlit("down");
    reveal_strlit("end");
    reveal_strlit("enter");
    reveal_strlit("esc");
    reveal_strlit("escape");
    reveal_strlit("home");
    reveal_strlit("ins");
    reveal_strlit("insert");
    reveal_strlit("leader");
    reveal_strlit("left");
    reveal_strlit("pagedown");
    reveal_strlit("pageup");
    reveal_strlit("pgdn");
    reveal_strlit("pgdown");
    reveal_strlit("pgup");
    reveal_strlit("return");
    reveal_strlit("right");
    reveal_strlit("space");
    reveal_strlit("spc");
    reveal_strlit("tab");
    reveal_strlit("up");
    assert("up"@.len() != "esc"@.len());
    assert("up"@.len() != "escape"@.len());
    assert("up"@[0] != "cr"@[0]);
    assert("up"@.len() != "enter"@.len());
    assert("up"@.len() != "return"@.len());
    assert("up"@.len() != "space"@.len());
    assert("up"@.len() != "spc"@.len());
    assert("up"@.len() != "tab"@.len());
    assert("up"@[0] != "bs"@[0]);
    assert("up"@.len() != "backspace"@.len());
    assert("up"@.len() != "del"@.len());
    assert("up"@.len() != "delete"@.len());
    assert("up"@.len() != "ins"@.len());
    assert("up"@.len() != "insert"@.len());
    assert("up"@.len() != "down"@.len());
    assert("up"@.len() != "left"@.len());
    assert("up"@.len() != "right"@.len());
    assert("up"@.len() != "home"@.len());
    assert("up"@.len() != "end"@.len());
    assert("up"@.len() != "pageup"@.len());
    assert("up"@.len() != "pgup"@.len());
    assert("up"@.len() != "pagedown"@.len());
    assert("up"@.len() != "pgdn"@.len());
    assert("up"@.len() != "pgdown"@.len());
    assert("up"@.len() != "leader"@.len());
    assert(lower_seq("Up"@) =~= "up"@);
}

proof fn lemma_canon_down_fixed()
    ensures
        canon_name("Down"@) == "Down"@,
{
    reveal_strlit("BS");
    reveal_strlit("Del");
    reveal_strlit("Down");
    reveal_strlit("End");
    reveal_strlit("Enter");
    reveal_strlit("Esc");
    reveal_strlit("Home");
    reveal_strlit("Insert");
    reveal_strlit("Left");
    reveal_strlit("PageDown");
    reveal_strlit("PageUp");
    reveal_strlit("Right");
    reveal_strlit("Space");
    reveal_strlit("Tab");
    reveal_strlit("Up");
    reveal_strlit("backspace");
    reveal_strlit("bs");
    reveal_strlit("cr");
    reveal_strlit("del");
    reveal_strlit("delete");
    reveal_strlit("down");
    reveal_strlit("end");
    reveal_strlit("enter");
    reveal_strlit("esc");
    reveal_strlit("escape");
    reveal_strlit("home");
    reveal_strlit("ins");
    reveal_strlit("insert");
    reveal_strlit("leader");
    reveal_strlit("left");
    reveal_strlit("pagedown");
    reveal_strlit("pageup");
    reveal_strlit("pgdn");
    reveal_strlit("pgdown");
    reveal_strlit("pgup");
    reveal_strlit("return");
    reveal_strlit("right");
    reveal_strlit("space");
    reveal_strlit("spc");
    reveal_strlit("tab");
    reveal_strlit("up");
    assert("down"@.len() != "esc"@.len());
    assert("down"@.len() != "escape"@.len());
    assert("down"@.len() != "cr"@.len());
    assert("down"@.len() != "enter"@.len());
    assert("down"@.len() != "return"@.len());
    assert("down"@.len() != "space"@.len());
    assert("down"@.len() != "spc"@.len());
    assert("down"@.len() != "tab"@.len());
    assert("down"@.len() != "bs"@.len());
    assert("down"@.len() != "backspace"@.len());
    assert("down"@.len() != "del"@.len());
    assert("down"@.len() != "delete"@.len());
    assert("down"@.len() != "ins"@.len());
    assert("down"@.len() != "insert"@.len());
    assert("down"@.len() != "up"@.len());
    assert("down"@[0] != "left"@[0]);
    assert("down"@.len() != "right"@.len());
    assert("down"@[0] != "home"@[0]);
    assert("down"@.len() != "end"@.len());
    assert("down"@.len() != "pageup"@.len());
    assert("down"@[0] != "pgup"@[0]);
    assert("down"@.len() != "pagedown"@.len());
    assert("down"@[0] != "pgdn"@[0]);
    assert("down"@.len() != "pgdown"@.len());
    assert("down"@.len() != "leader"@.len());
    assert(lower_seq("Down"@) =~= "down"@);
}

proof fn lemma_canon_left_fixed()
    ensures
        canon_name("Left"@) == "Left"@,
{
    reveal_strlit("BS");
    reveal_strlit("Del");
    reveal_strlit("Down");
    reveal_strlit("End");
    reveal_strlit("Enter");
    reveal_strlit("Esc");
    reveal_strlit("Home");
    reveal_strlit("Insert");
    reveal_strlit("Left");
    reveal_strlit("PageDown");
    reveal_strlit("PageUp");
    reveal_strlit("Right");
    reveal_strlit("Space");
    reveal_strlit("Tab");
    reveal_strlit("Up");
    reveal_strlit("backspace");
    reveal_strlit("bs");
    reveal_strlit("cr");
    reveal_strlit("del");
    reveal_strlit("delete");
    reveal_strlit("down");
    reveal_strlit("end");
    reveal_strlit("enter");
    reveal_strlit("esc");
    reveal_strlit("escape");
    reveal_strlit("home");
    reveal_strlit("ins");
    reveal_strlit("insert");
    reveal_strlit("leader");
    reveal_strlit("left");
    reveal_strlit("pagedown");
    reveal_strlit("pageup");
    reveal_strlit("pgdn");
    reveal_strlit("pgdown");
    reveal_strlit("pgup");
    reveal_strlit("return");
    reveal_strlit("right");
    reveal_strlit("space");
    reveal_strlit("spc");
    reveal_strlit("tab");
    reveal_strlit("up");
    assert("left"@.len() != "esc"@.len());
    assert("left"@.len() != "escape"@.len());
    assert("left"@.len() != "cr"@.len());
    assert("left"@.len() != "enter"@.len());
    assert("left"@.len() != "return"@.len());
    assert("left"@.len() != "space"@.len());
    assert("left"@.len() != "spc"@.len());
    assert("left"@.len() != "tab"@.len());
    assert("left"@.len() != "bs"@.len());
    assert("left"@.len() != "backspace"@.len());
    assert("left"@.len() != "del"@.len());
    assert("left"@.len() != "delete"@.len());
    assert("left"@.len() != "ins"@.len());
    assert("left"@.len() != "insert"@.len());
    assert("left"@.len() != "up"@.len());
    assert("left"@[0] != "down"@[0]);
    assert("left"@.len() != "right"@.len());
    assert("left"@[0] != "home"@[0]);
    assert("left"@.len() != "end"@.len());
    assert("left"@.len() != "pageup"@.len());
    assert("left"@[0] != "pgup"@[0]);
    assert("left"@.len() != "pagedown"@.len());
    assert("left"@[0] != "pgdn"@[0]);
    assert("left"@.len() != "pgdown"@.len());
    assert("left"@.len() != "leader"@.len());
    assert(lower_seq("Left"@) =~= "left"@);
}

proof fn lemma_canon_right_fixed()
    ensures
        canon_name("Right"@) == "Right"@,
{
    reveal_strlit("BS");
    reveal_strlit("Del");
    reveal_strlit("Down");
    reveal_strlit("End");
    reveal_strlit("Enter");
    reveal_strlit("Esc");
    reveal_strlit("Home");
    reveal_strlit("Insert");
    reveal_strlit("Left");
    reveal_strlit("PageDown");
    reveal_strlit("PageUp");
    reveal_strlit("Right");
    reveal_strlit("Space");
    reveal_strlit("Tab");
    reveal_strlit("Up");
    reveal_strlit("backspace");
    reveal_strlit("bs");
    reveal_strlit("cr");
    reveal_strlit("del");
    reveal_strlit("delete");
    reveal_strlit("down");
    reveal_strlit("end");
    reveal_strlit("enter");
    reveal_strlit("esc");
    reveal_strlit("escape");
    reveal_strlit("home");
    reveal_strlit("ins");
    reveal_strlit("insert");
    reveal_strlit("leader");
    reveal_strlit("left");
    reveal_strlit("pagedown");
    reveal_strlit("pageup");
    reveal_strlit("pgdn");
    reveal_strlit("pgdown");
    reveal_strlit("pgup");
    reveal_strlit("return");
    reveal_strlit("right");
    reveal_strlit("space");
    reveal_strlit("spc");
    reveal_strlit("tab");
    reveal_strlit("up");
    assert("right"@.len() != "esc"@.len());
    assert("right"@.len() != "escape"@.len());
    assert("right"@.len() != "cr"@.len());
    assert("right"@[0] != "enter"@[0]);
    assert("right"@.len() != "return"@.len());
    assert("right"@[0] != "space"@[0]);
    assert("right"@.len() != "spc"@.len());
    assert("right"@.len() != "tab"@.len());
    assert("right"@.len() != "bs"@.len());
    assert("right"@.len() != "backspace"@.len());
    assert("right"@.len() != "del"@.len());
    assert("right"@.len() != "delete"@.len());
    assert("right"@.len() != "ins"@.len());
    assert("right"@.len() != "insert"@.len());
    assert("right"@.len() != "up"@.len());
    assert("right"@.len() != "down"@.len());
    assert("right"@.len() != "left"@.len());
    assert("right"@.len() != "home"@.len());
    assert("right"@.len() != "end"@.len());
    assert("right"@.len() != "pageup"@.len());
    assert("right"@.len() != "pgup"@.len());
    assert("right"@.len() != "pagedown"@.len());
    assert("right"@.len() != "pgdn"@.len());
    assert("right"@.len() != "pgdown"@.len());
    assert("right"@.len() != "leader"@.len());
    assert(lower_seq("Right"@) =~= "right"@);
}

proof fn lemma_canon_home_fixed()
    ensures
        canon_name("Home"@) == "Home"@,
{
    reveal_strlit("BS");
    reveal_strlit("Del");
    reveal_strlit("Down");
    reveal_strlit("End");
    reveal_strlit("Enter");
    reveal_strlit("Esc");
    reveal_strlit("Home");
    reveal_strlit("Insert");
    reveal_strlit("Left");
    reveal_strlit("PageDown");
    reveal_strlit("PageUp");
    reveal_strlit("Right");
    reveal_strlit("Space");
    reveal_strlit("Tab");
    reveal_strlit("Up");
    reveal_strlit("backspace");
    reveal_strlit("bs");
    reveal_strlit("cr");
    reveal_strlit("del");
    reveal_strlit("delete");
    reveal_strlit("down");
    reveal_strlit("end");
    reveal_strlit("enter");
    reveal_strlit("esc");
    reveal_strlit("escape");
    reveal_strlit("home");
    reveal_strlit("ins");
    reveal_strlit("insert");
    reveal_strlit("leader");
    reveal_strlit("left");
    reveal_strlit("pagedown");
    reveal_strlit("pageup");
    reveal_strlit("pgdn");
    reveal_strlit("pgdown");
    reveal_strlit("pgup");
    reveal_strlit("return");
    reveal_strlit("right");
    reveal_strlit("space");
    reveal_strlit("spc");
    reveal_strlit("tab");
    reveal_strlit("up");
    assert("home"@.len() != "esc"@.len());
    assert("home"@.len() != "escape"@.len());
    assert("home"@.len() != "cr"@.len());
    assert("home"@.len() != "enter"@.len());
    assert("home"@.len() != "return"@.len());
    assert("home"@.len() != "space"@.len());
    assert("home"@.len() != "spc"@.len());
    assert("home"@.len() != "tab"@.len());
    assert("home"@.len() != "bs"@.len());
    assert("home"@.len() != "backspace"@.len());
    assert("home"@.len() != "del"@.len());
    assert("home"@.len() != "delete"@.len());
    assert("home"@.len() != "ins"@.len());
    assert("home"@.len() != "insert"@.len());
    assert("home"@.len() != "up"@.len());
    assert("home"@[0] != "down"@[0]);
    assert("home"@[0] != "left"@[0]);
    assert("home"@.len() != "right"@.len());
    assert("home"@.len() != "end"@.len());
    assert("home"@.len() != "pageup"@.len());
    assert("home"@[0] != "pgup"@[0]);
    assert("home"@.len() != "pagedown"@.len());
    assert("home"@[0] != "pgdn"@[0]);
    assert("home"@.len() != "pgdown"@.len());
    assert("home"@.len() != "leader"@.len());
    assert(lower_seq("Home"@) =~= "home"@);
}

proof fn lemma_canon_end_fixed()
    ensures
        canon_name("End"@) == "End"@,
{
    reveal_strlit("BS");
    reveal_strlit("Del");
    reveal_strlit("Down");
    reveal_strlit("End");
    reveal_strlit("Enter");
    reveal_strlit("Esc");
    reveal_strlit("Home");
    reveal_strlit("Insert");
    reveal_strlit("Left");
    reveal_strlit("PageDown");
    reveal_strlit("PageUp");
    reveal_strlit("Right");
    reveal_strlit("Space");
    reveal_strlit("Tab");
    reveal_strlit("Up");
    reveal_strlit("backspace");
    reveal_strlit("bs");
    reveal_strlit("cr");
    reveal_strlit("del");
    reveal_strlit("delete");
    reveal_strlit("down");
    reveal_strlit("end");
    reveal_strlit("enter");
    reveal_strlit("esc");
    reveal_strlit("escape");
    reveal_strlit("home");
    reveal_strlit("ins");
    reveal_strlit("insert");
    reveal_strlit("leader");
    reveal_strlit("left");
    reveal_strlit("pagedown");
    reveal_strlit("pageup");
    reveal_strlit("pgdn");
    reveal_strlit("pgdown");
    reveal_strlit("pgup");
    reveal_strlit("return");
    reveal_strlit("right");
    reveal_strlit("space");
    reveal_strlit("spc");
    reveal_strlit("tab");
    reveal_strlit("up");
    assert("end"@[1] != "esc"@[1]);
    assert("end"@.len() != "escape"@.len());
    assert("end"@.len() != "cr"@.len());
    assert("end"@.len() != "enter"@.len());
    assert("end"@.len() != "return"@.len());
    assert("end"@.len() != "space"@.len());
    assert("end"@[0] != "spc"@[0]);
    assert("end"@[0] != "tab"@[0]);
    assert("end"@.len() != "bs"@.len());
    assert("end"@.len() != "backspace"@.len());
    assert("end"@[0] != "del"@[0]);
    assert("end"@.len() != "delete"@.len());
    assert("end"@[0] != "ins"@[0]);
    assert("end"@.len() != "insert"@.len());
    assert("end"@.len() != "up"@.len());
    assert("end"@.len() != "down"@.len());
    assert("end"@.len() != "left"@.len());
    assert("end"@.len() != "right"@.len());
    assert("end"@.len() != "home"@.len());
    assert("end"@.len() != "pageup"@.len());
    assert("end"@.len() != "pgup"@.len());
    assert("end"@.len() != "pagedown"@.len());
    assert("end"@.len() != "pgdn"@.len());
    assert("end"@.len() != "pgdown"@.len());
    assert("end"@.len() != "leader"@.len());
    assert(lower_seq("End"@) =~= "end"@);
}

proof fn lemma_canon_pageup_fixed()
    ensures
        canon_name("PageUp"@) == "PageUp"@,
{
    reveal_strlit("BS");
    reveal_strlit("Del");
    reveal_strlit("Down");
    reveal_strlit("End");
    reveal_strlit("Enter");
    reveal_strlit("Esc");
    reveal_strlit("Home");
    reveal_strlit("Insert");
    reveal_strlit("Left");
    reveal_strlit("PageDown");
    reveal_strlit("PageUp");
    reveal_strlit("Right");
    reveal_strlit("Space");
    reveal_strlit("Tab");
    reveal_strlit("Up");
    reveal_strlit("backspace");
    reveal_strlit("bs");
    reveal_strlit("cr");
    reveal_strlit("del");
    reveal_strlit("delete");
    reveal_strlit("down");
    reveal_strlit("end");
    reveal_strlit("enter");
    reveal_strlit("esc");
    reveal_strlit("escape");
    reveal_strlit("home");
    reveal_strlit("ins");
    reveal_strlit("insert");
    reveal_strlit("leader");
    reveal_strlit("left");
    reveal_strlit("pagedown");
    reveal_strlit("pageup");
    reveal_strlit("pgdn");
    reveal_strlit("pgdown");
    reveal_strlit("pgup");
    reveal_strlit("return");
    reveal_strlit("right");
    reveal_strlit("space");
    reveal_strlit("spc");
    reveal_strlit("tab");
    reveal_strlit("up");
    assert("pageup"@.len() != "esc"@.len());
    assert("pageup"@[0] != "escape"@[0]);
    assert("pageup"@.len() != "cr"@.len());
    assert("pageup"@.len() != "enter"@.len());
    assert("pageup"@[0] != "return"@[0]);
    assert("pageup"@.len() != "space"@.len());
    assert("pageup"@.len() != "spc"@.len());
    assert("pageup"@.len() != "tab"@.len());
    assert("pageup"@.len() != "bs"@.len());
    assert("pageup"@.len() != "backspace"@.len());
    assert("pageup"@.len() != "del"@.len());
    assert("pageup"@[0] != "delete"@[0]);
    assert("pageup"@.len() != "ins"@.len());
    assert("pageup"@[0] != "insert"@[0]);
    assert("pageup"@.len() != "up"@.len());
    assert("pageup"@.len() != "down"@.len());
    assert("pageup"@.len() != "left"@.len());
    assert("pageup"@.len() != "right"@.len());
    assert("pageup"@.len() != "home"@.len());
    assert("pageup"@.len() != "end"@.len());
    assert("pageup"@.len() != "pgup"@.len());
    assert("pageup"@.len() != "pagedown"@.len());
    assert("pageup"@.len() != "pgdn"@.len());
    assert("pageup"@[1] != "pgdown"@[1]);
    assert("pageup"@[0] != "leader"@[0]);
    assert(lower_seq("PageUp"@) =~= "pageup"@);
}

proof fn lemma_canon_pagedown_fixed()
    ensures
        canon_name("PageDown"@) == "PageDown"@,
{
    reveal_strlit("BS");
    reveal_strlit("Del");
    reveal_strlit("Down");
    reveal_strlit("End");
    reveal_strlit("Enter");
    reveal_strlit("Esc");
    reveal_strlit("Home");
    reveal_strlit("Insert");
    reveal_strlit("Left");
    reveal_strlit("PageDown");
    reveal_strlit("PageUp");
    reveal_strlit("Right");
    reveal_strlit("Space");
    reveal_strlit("Tab");
    reveal_strlit("Up");
    reveal_strlit("backspace");
    reveal_strlit("bs");
    reveal_strlit("cr");
    reveal_strlit("del");
    reveal_strlit("delete");
    reveal_strlit("down");
    reveal_strlit("end");
    reveal_strlit("enter");
    reveal_strlit("esc");
    reveal_strlit("escape");
    reveal_strlit("home");
    reveal_strlit("ins");
    reveal_strlit("insert");
    reveal_strlit("leader");
    reveal_strlit("left");
    reveal_strlit("pagedown");
    reveal_strlit("pageup");
    reveal_strlit("pgdn");
    reveal_strlit("pgdown");
    reveal_strlit("pgup");
    reveal_strlit("return");
    reveal_strlit("right");
    reveal_strlit("space");
    reveal_strlit("spc");
    reveal_strlit("tab");
    reveal_strlit("up");
    assert("pagedown"@.len() != "esc"@.len());
    assert("pagedown"@.len() != "escape"@.len());
    assert("pagedown"@.len() != "cr"@.len());
    assert("pagedown"@.len() != "enter"@.len());
    assert("pagedown"@.len() != "return"@.len());
    assert("pagedown"@.len() != "space"@.len());
    assert("pagedown"@.len() != "spc"@.len());
    assert("pagedown"@.len() != "tab"@.len());
    assert("pagedown"@.len() != "bs"@.len());
    assert("pagedown"@.len() != "backspace"@.len());
    assert("pagedown"@.len() != "del"@.len());
    assert("pagedown"@.len() != "delete"@.len());
    assert("pagedown"@.len() != "ins"@.len());
    assert("pagedown"@.len() != "insert"@.len());
    assert("pagedown"@.len() != "up"@.len());
    assert("pagedown"@.len() != "down"@.len());
    assert("pagedown"@.len() != "left"@.len());
    assert("pagedown"@.len() != "right"@.len());
    assert("pagedown"@.len() != "home"@.len());
    assert("pagedown"@.len() != "end"@.len());
    assert("pagedown"@.len() != "pageup"@.len());
    assert("pagedown"@.len() != "pgup"@.len());
    assert("pagedown"@.len() != "pgdn"@.len());
    assert("pagedown"@.len() != "pgdown"@.len());
    assert("pagedown"@.len() != "leader"@.len());
    assert(lower_seq("PageDown"@) =~= "pagedown"@);
}

proof fn lemma_canon_leader_fixed()
    ensures
        canon_name("leader"@) == "leader"@,
{
    reveal_strlit("BS");
    reveal_strlit("Del");
    reveal_strlit("Down");
    reveal_strlit("End");
    reveal_strlit("Enter");
    reveal_strlit("Esc");
    reveal_strlit("Home");
    reveal_strlit("Insert");
    reveal_strlit("Left");
    reveal_strlit("PageDown");
    reveal_strlit("PageUp");
    reveal_strlit("Right");
    reveal_strlit("Space");
    reveal_strlit("Tab");
    reveal_strlit("Up");
    reveal_strlit("backspace");
    reveal_strlit("bs");
    reveal_strlit("cr");
    reveal_strlit("del");
    reveal_strlit("delete");
    reveal_strlit("down");
    reveal_strlit("end");
    reveal_strlit("enter");
    reveal_strlit("esc");
    reveal_strlit("escape");
    reveal_strlit("home");
    reveal_strlit("ins");
    reveal_strlit("insert");
    reveal_strlit("leader");
    reveal_strlit("left");
    reveal_strlit("pagedown");
    reveal_strlit("pageup");
    reveal_strlit("pgdn");
    reveal_strlit("pgdown");
    reveal_strlit("pgup");
    reveal_strlit("return");
    reveal_strlit("right");
    reveal_strlit("space");
    reveal_strlit("spc");
    reveal_strlit("tab");
    reveal_strlit("up");
    assert("leader"@.len() != "esc"@.len());
    assert("leader"@[0] != "escape"@[0]);
    assert("leader"@.len() != "cr"@.len());
    assert("leader"@.len() != "enter"@.len());
    assert("leader"@[0] != "return"@[0]);
    assert("leader"@.len() != "space"@.len());
    assert("leader"@.len() != "spc"@.len());
    assert("leader"@.len() != "tab"@.len());
    assert("leader"@.len() != "bs"@.len());
    assert("leader"@.len() != "backspace"@.len());
    assert("leader"@.len() != "del"@.len());
    assert("leader"@[0] != "delete"@[0]);
    assert("leader"@.len() != "ins"@.len());
    assert("leader"@[0] != "insert"@[0]);
    assert("leader"@.len() != "up"@.len());
    assert("leader"@.len() != "down"@.len());
    assert("leader"@.len() != "left"@.len());
    assert("leader"@.len() != "right"@.len());
    assert("leader"@.len() != "home"@.len());
    assert("leader"@.len() != "end"@.len());
    assert("leader"@[0] != "pageup"@[0]);
    assert("leader"@.len() != "pgup"@.len());
    assert("leader"@.len() != "pagedown"@.len());
    assert("leader"@.len() != "pgdn"@.len());
    assert("leader"@[0] != "pgdown"@[0]);
    assert(lower_seq("leader"@) =~= "leader"@);
}

/// The canonical spellings of the named keys are canonical.
proof fn lemma_canon_literals_fixed()
    ensures
        canon_name("Esc"@) == "Esc"@,
        canon_name("Enter"@) == "Enter"@,
        canon_name("Space"@) == "Space"@,
        canon_name("Tab"@) == "Tab"@,
        canon_name("BS"@) == "BS"@,
        canon_name("Del"@) == "Del"@,
        canon_name("Insert"@) == "Insert"@,
        canon_name("Up"@) == "Up"@,
        canon_name("Down"@) == "Down"@,
        canon_name("Left"@) == "Left"@,
        canon_name("Right"@) == "Right"@,
        canon_name("Home"@) == "Home"@,
        canon_name("End"@) == "End"@,
        canon_name("PageUp"@) == "PageUp"@,
        canon_name("PageDown"@) == "PageDown"@,
        canon_name("leader"@) == "leader"@,
{
    lemma_canon_esc_fixed();
    lemma_canon_enter_fixed();
    lemma_canon_space_fixed();
    lemma_canon_tab_fixed();
    lemma_canon_bs_fixed();
    lemma_canon_del_fixed();
    lemma_canon_insert_fixed();
    lemma_canon_up_fixed();
    lemma_canon_down_fixed();
    lemma_canon_left_fixed();
    lemma_canon_right_fixed();
    lemma_canon_home_fixed();
    lemma_canon_end_fixed();
    lemma_canon_pageup_fixed();
    lemma_canon_pagedown_fixed();
    lemma_canon_leader_fixed();
}

/// `F` and a function-key number is its own canonical spelling.
proof fn lemma_canon_fkey_fixed(d: Seq<char>)
    requires
        parses_as_u8(d),
    ensures
        canon_name(seq!['F'] + d) == seq!['F'] + d,
{
    reveal_strlit("BS");
    reveal_strlit("Del");
    reveal_strlit("Down");
    reveal_strlit("End");
    reveal_strlit("Enter");
    reveal_strlit("Esc");
    reveal_strlit("Home");
    reveal_strlit("Insert");
    reveal_strlit("Left");
    reveal_strlit("PageDown");
    reveal_strlit("PageUp");
    reveal_strlit("Right");
    reveal_strlit("Space");
    reveal_strlit("Tab");
    reveal_strlit("Up");
    reveal_strlit("backspace");
    reveal_strlit("bs");
    reveal_strlit("cr");
    reveal_strlit("del");
    reveal_strlit("delete");
    reveal_strlit("down");
    reveal_strlit("end");
    reveal_strlit("enter");
    reveal_strlit("esc");
    reveal_strlit("escape");
    reveal_strlit("home");
    reveal_strlit("ins");
    reveal_strlit("insert");
    reveal_strlit("leader");
    reveal_strlit("left");
    reveal_strlit("pagedown");
    reveal_strlit("pageup");
    reveal_strlit("pgdn");
    reveal_strlit("pgdown");
    reveal_strlit("pgup");
    reveal_strlit("return");
    reveal_strlit("right");
    reveal_strlit("space");
    reveal_strlit("spc");
    reveal_strlit("tab");
    reveal_strlit("up");
    let c = seq!['F'] + d;
    let dd = if d.len() > 0 && d[0] == '+' { d.drop_first() } else { d };
    assert forall|i: int| 0 <= i < d.len() implies lower(#[trigger] d[i]) == d[i] by {
        if d[0] == '+' && i > 0 {
            assert(d[i] == dd[i - 1]);
            assert(is_digit(dd[i - 1]));
        } else if d[0] != '+' {
            assert(d[i] == dd[i]);
            assert(is_digit(dd[i]));
        }
    }
    let l = lower_seq(c);
    assert(l =~= seq!['f'] + d) by {
        assert forall|i: int| 0 <= i < l.len() implies l[i] == (seq!['f'] + d)[i] by {
            if i > 0 {
                assert(c[i] == d[i - 1]);
            }
        }
    }
    assert(l[0] == 'f');
    assert(l.drop_first() =~= d);
}

/// Canonicalising a key name twice changes nothing: a name that has been
/// canonicalised (as every `Named` key symbol is on construction) is
/// already canonical.
pub proof fn law_canon_name_idempotent(s: Seq<char>)
    ensures
        canon_name(canon_name(s)) == canon_name(s),
{
    reveal_strlit("BS");
    reveal_strlit("Del");
    reveal_strlit("Down");
    reveal_strlit("End");
    reveal_strlit("Enter");
    reveal_strlit("Esc");
    reveal_strlit("Home");
    reveal_strlit("Insert");
    reveal_strlit("Left");
    reveal_strlit("PageDown");
    reveal_strlit("PageUp");
    reveal_strlit("Right");
    reveal_strlit("Space");
    reveal_strlit("Tab");
    reveal_strlit("Up");
    reveal_strlit("backspace");
    reveal_strlit("bs");
    reveal_strlit("cr");
    reveal_strlit("del");
    reveal_strlit("delete");
    reveal_strlit("down");
    reveal_strlit("end");
    reveal_strlit("enter");
    reveal_strlit("esc");
    reveal_strlit("escape");
    reveal_strlit("home");
    reveal_strlit("ins");
    reveal_strlit("insert");
    reveal_strlit("leader");
    reveal_strlit("left");
    reveal_strlit("pagedown");
    reveal_strlit("pageup");
    reveal_strlit("pgdn");
    reveal_strlit("pgdown");
    reveal_strlit("pgup");
    reveal_strlit("return");
    reveal_strlit("right");
    reveal_strlit("space");
    reveal_strlit("spc");
    reveal_strlit("tab");
    reveal_strlit("up");
    lemma_canon_literals_fixed();
    let l = lower_seq(s);
    if l.len() > 0 && l[0] == 'f' && parses_as_u8(l.drop_first()) {
        lemma_canon_fkey_fixed(l.drop_first());
    }
}

/// No later pair of `pairs` binds the same sequence as pair `k`.
pub open spec fn last_binding(pairs: Seq<(Seq<char>, Seq<char>)>, k: int, l: KeyView) -> bool {
    forall|j: int| k < j < pairs.len() ==> #[trigger] binding_seq(pairs[j].0, l) != binding_seq(pairs[k].0, l)
}

/// `m` is the table that the `(sequence, action name)` pairs describe:
/// every sequence parses, the last pair that names a sequence decides its
/// action, and nothing else is bound.
pub open spec fn binds_table(
    m: Map<Seq<KeyView>, ActionView>,
    pairs: Seq<(Seq<char>, Seq<char>)>,
    l: KeyView,
) -> bool {
    &&& forall|k: int| 0 <= k < pairs.len() ==> (#[trigger] binding_seq(pairs[k].0, l)) is Ok
    &&& forall|k: int|
        0 <= k < pairs.len() && last_binding(pairs, k, l) ==> {
            let s = (#[trigger] binding_seq(pairs[k].0, l))->Ok_0;
            m.dom().contains(s) && m[s] == action_from_name(pairs[k].1)
        }
    &&& forall|s: Seq<KeyView>|
        #[trigger] m.dom().contains(s) ==> exists|k: int|
            0 <= k < pairs.len() && #[trigger] binding_seq(pairs[k].0, l) == Ok::<Seq<KeyView>, Seq<char>>(s)
}

proof fn lemma_bind_all_table(
    m0: Map<Seq<KeyView>, ActionView>,
    pairs: Seq<(Seq<char>, Seq<char>)>,
    l: KeyView,
)
    requires
        bind_all(m0, pairs, l) is Ok,
    ensures
        ({
            let r = bind_all(m0, pairs, l)->Ok_0;
            &&& forall|k: int| 0 <= k < pairs.len() ==> (#[trigger] binding_seq(pairs[k].0, l)) is Ok
            &&& forall|k: int|
                0 <= k < pairs.len() && last_binding(pairs, k, l) ==> {
                    let s = (#[trigger] binding_seq(pairs[k].0, l))->Ok_0;
                    r.dom().contains(s) && r[s] == action_from_name(pairs[k].1)
                }
            &&& forall|s: Seq<KeyView>|
                #[trigger] r.dom().contains(s) ==> m0.dom().contains(s) || exists|k: int|
                    0 <= k < pairs.len() && #[trigger] binding_seq(pairs[k].0, l)
                        == Ok::<Seq<KeyView>, Seq<char>>(s)
            &&& forall|s: Seq<KeyView>|
                #[trigger] m0.dom().contains(s) && (forall|k: int|
                    0 <= k < pairs.len() ==> #[trigger] binding_seq(pairs[k].0, l)
                        != Ok::<Seq<KeyView>, Seq<char>>(s)) ==> r.dom().contains(s) && r[s] == m0[s]
        }),
    decreases pairs.len(),
{
    if pairs.len() > 0 {
        let s0 = binding_seq(pairs[0].0, l)->Ok_0;
        let a0 = action_from_name(pairs[0].1);
        let m1 = m0.insert(s0, a0);
        let rest = pairs.drop_first();
        lemma_bind_all_table(m1, rest, l);
        let r = bind_all(m0, pairs, l)->Ok_0;
        assert(r == bind_all(m1, rest, l)->Ok_0);
        assert forall|k: int| 0 <= k < pairs.len() implies (#[trigger] binding_seq(pairs[k].0, l)) is Ok by {
            if k > 0 {
                assert(rest[k - 1] == pairs[k]);
                assert(binding_seq(rest[k - 1].0, l) is Ok);
            }
        }
        assert forall|k: int| 0 <= k < pairs.len() && last_binding(pairs, k, l) implies {
            let s = (#[trigger] binding_seq(pairs[k].0, l))->Ok_0;
            r.dom().contains(s) && r[s] == action_from_name(pairs[k].1)
        } by {
            if k > 0 {
                assert(rest[k - 1] == pairs[k]);
                assert forall|j: int| k - 1 < j < rest.len() implies #[trigger] binding_seq(rest[j].0, l)
                    != binding_seq(rest[k - 1].0, l) by {
                    assert(rest[j] == pairs[j + 1]);
                    assert(binding_seq(pairs[j + 1].0, l) != binding_seq(pairs[k].0, l));
                }
                assert(last_binding(rest, k - 1, l));
                assert(binding_seq(rest[k - 1].0, l) is Ok);
            } else {
                assert forall|j: int| 0 <= j < rest.len() implies #[trigger] binding_seq(rest[j].0, l)
                    != Ok::<Seq<KeyView>, Seq<char>>(s0) by {
                    assert(rest[j] == pairs[j + 1]);
                    assert(binding_seq(pairs[j + 1].0, l) != binding_seq(pairs[0].0, l));
                }
                assert(m1.dom().contains(s0));
            }
        }
        assert forall|s: Seq<KeyView>| #[trigger] r.dom().contains(s) implies m0.dom().contains(s)
            || exists|k: int| 0 <= k < pairs.len() && #[trigger] binding_seq(pairs[k].0, l)
                == Ok::<Seq<KeyView>, Seq<char>>(s) by {
            if !m0.dom().contains(s) {
                if s == s0 {
                    assert(binding_seq(pairs[0].0, l) == Ok::<Seq<KeyView>, Seq<char>>(s));
                } else {
                    assert(!m1.dom().contains(s));
                    let k = choose|k: int| 0 <= k < rest.len() && #[trigger] binding_seq(rest[k].0, l)
                        == Ok::<Seq<KeyView>, Seq<char>>(s);
                    assert(rest[k] == pairs[k + 1]);
                    assert(binding_seq(pairs[k + 1].0, l) == Ok::<Seq<KeyView>, Seq<char>>(s));
                }
            }
        }
        assert forall|s: Seq<KeyView>|
            #[trigger] m0.dom().contains(s) && (forall|k: int|
                0 <= k < pairs.len() ==> #[trigger] binding_seq(pairs[k].0, l)
                    != Ok::<Seq<KeyView>, Seq<char>>(s)) implies r.dom().contains(s) && r[s] == m0[s] by {
            assert(binding_seq(pairs[0].0, l) != Ok::<Seq<KeyView>, Seq<char>>(s));
            assert(s != s0);
            assert forall|k: int| 0 <= k < rest.len() implies #[trigger] binding_seq(rest[k].0, l)
                != Ok::<Seq<KeyView>, Seq<char>>(s) by {
                assert(rest[k] == pairs[k + 1]);
                assert(binding_seq(pairs[k + 1].0, l) != Ok::<Seq<KeyView>, Seq<char>>(s));
            }
            assert(m1.dom().contains(s) && m1[s] == m0[s]);
        }
    }
}

/// Each mode's keymap is built from that mode's own table and no other:
/// for a configuration that builds, the Normal, Insert and Command keymaps
/// bind exactly the parsed, leader-expanded sequences of `keymap.normal`,
/// `keymap.insert` and `keymap.command` respectively, each to the action
/// its last binding names.
pub proof fn law_modes_bind_their_own_tables(cfg: Config)
    requires
        keymaps_of(cfg) is Ok,
    ensures
        parse_key(cfg.general.leader_key@) is Ok,
        binds_table(keymaps_of(cfg)->Ok_0.0, pairs_view(cfg.keymap.normal@), parse_key(cfg.general.leader_key@)->Ok_0),
        binds_table(keymaps_of(cfg)->Ok_0.1, pairs_view(cfg.keymap.insert@), parse_key(cfg.general.leader_key@)->Ok_0),
        binds_table(keymaps_of(cfg)->Ok_0.2, pairs_view(cfg.keymap.command@), parse_key(cfg.general.leader_key@)->Ok_0),
{
    let l = parse_key(cfg.general.leader_key@)->Ok_0;
    let e = Map::<Seq<KeyView>, ActionView>::empty();
    lemma_bind_all_table(e, pairs_view(cfg.keymap.normal@), l);
    lemma_bind_all_table(e, pairs_view(cfg.keymap.insert@), l);
    lemma_bind_all_table(e, pairs_view(cfg.keymap.command@), l);
}

/// Each mode consults its own keymap: Normal the normal keymap, Insert the
/// insert keymap, and Command and Search the command keymap.
pub proof fn law_mode_selects_its_keymap(e: Engine)
    ensures
        e.spec_mode() == Mode::Normal ==> e.active_map() == e.normal_map(),
        e.spec_mode() == Mode::Insert ==> e.active_map() == e.insert_map(),
        e.spec_mode() == Mode::Command ==> e.active_map() == e.command_map(),
        e.spec_mode() == Mode::Search ==> e.active_map() == e.command_map(),
{
}

} // verus!
