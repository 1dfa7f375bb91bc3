//! Abstract keyboard key representation, decoupled from any toolkit.
//!
//! The UI layer translates toolkit key events into [`Key`] values; the
//! engine operates only on these.
use vstd::prelude::*;
use crate::error::Error;
use crate::text::{
    chars_eq_str, chars_of, char_is_digit, debug_quoted, is_digit, lemma_split_nonempty, lower_chars, lower_seq, push_all, push_debug, push_str, slice_chars, split_chars, split_seq, str_eq, string_of, trim, trim_chars,
};

verus! {

#[derive(Debug, Clone, Copy, PartialEq, Eq, Hash, Structural)]
pub struct Modifiers {
    pub ctrl: bool,
    pub alt: bool,
    pub shift: bool,
    pub meta: bool,
}

pub open spec fn no_mods() -> Modifiers {
    Modifiers { ctrl: false, alt: false, shift: false, meta: false }
}

impl Modifiers {
    /// No modifier held.
    pub fn none() -> (m: Modifiers)
        ensures
            m == no_mods(),
    {
        Modifiers { ctrl: false, alt: false, shift: false, meta: false }
    }

    pub fn is_empty(&self) -> (b: bool)
        ensures
            b == (*self == no_mods()),
    {
        !self.ctrl && !self.alt && !self.shift && !self.meta
    }
}

#[derive(Debug, PartialEq, Eq, Hash)]
pub enum KeySym {
    /// Printable single character (post-shift, e.g. 'A' if Shift+a).
    Char(char),
    /// Named non-printable key (e.g. "Esc", "Enter", "F1").
    /// Names are canonicalised on construction.
    Named(String),
}

pub enum KeySymView {
    Char(char),
    Named(Seq<char>),
}

impl View for KeySym {
    type V = KeySymView;

    open spec fn view(&self) -> KeySymView {
        match self {
            KeySym::Char(c) => KeySymView::Char(*c),
            KeySym::Named(s) => KeySymView::Named(s@),
        }
    }
}

#[derive(Debug, PartialEq, Eq, Hash)]
pub struct Key {
    pub sym: KeySym,
    pub mods: Modifiers,
}

pub struct KeyView {
    pub sym: KeySymView,
    pub mods: Modifiers,
}

impl View for Key {
    type V = KeyView;

    open spec fn view(&self) -> KeyView {
        KeyView { sym: self.sym@, mods: self.mods }
    }
}

/// Value of a decimal digit string.
pub open spec fn digits_value(d: Seq<char>) -> nat
    decreases d.len(),
{
    if d.len() == 0 {
        0
    } else {
        digits_value(d.drop_last()) * 10 + ((d.last() as u32) - ('0' as u32)) as nat
    }
}

pub open spec fn all_digits(d: Seq<char>) -> bool {
    forall|i: int| 0 <= i < d.len() ==> is_digit(#[trigger] d[i])
}

/// Whether `u8::from_str` accepts the string: an optional `+`, then at
/// least one decimal digit, with a value of at most 255.
pub open spec fn parses_as_u8(t: Seq<char>) -> bool {
    let d = if t.len() > 0 && t[0] == '+' {
        t.drop_first()
    } else {
        t
    };
    d.len() > 0 && all_digits(d) && digits_value(d) <= 255
}

/// Canonical spelling of a key name: aliases collapse case-insensitively
/// to one spelling (`cr`/`return` to `Enter`, `f5` to `F5`, ...); other
/// names are kept as written.
pub open spec fn canon_name(s: Seq<char>) -> Seq<char> {
    let l = lower_seq(s);
    if l == "esc"@ || l == "escape"@ {
        "Esc"@
    } else if l == "cr"@ || l == "enter"@ || l == "return"@ {
        "Enter"@
    } else if l == "space"@ || l == "spc"@ {
        "Space"@
    } else if l == "tab"@ {
        "Tab"@
    } else if l == "bs"@ || l == "backspace"@ {
        "BS"@
    } else if l == "del"@ || l == "delete"@ {
        "Del"@
    } else if l == "ins"@ || l == "insert"@ {
        "Insert"@
    } else if l == "up"@ {
        "Up"@
    } else if l == "down"@ {
        "Down"@
    } else if l == "left"@ {
        "Left"@
    } else if l == "right"@ {
        "Right"@
    } else if l == "home"@ {
        "Home"@
    } else if l == "end"@ {
        "End"@
    } else if l == "pageup"@ || l == "pgup"@ {
        "PageUp"@
    } else if l == "pagedown"@ || l == "pgdn"@ || l == "pgdown"@ {
        "PageDown"@
    } else if l == "leader"@ {
        "leader"@
    } else if l.len() > 0 && l[0] == 'f' && parses_as_u8(l.drop_first()) {
        seq!['F'] + l.drop_first()
    } else {
        s
    }
}

/// The `C-A-S-M-` style prefix for a set of modifiers.
pub open spec fn mod_flags(m: Modifiers) -> Seq<char> {
    (if m.ctrl {
        "C-"@
    } else {
        Seq::empty()
    }) + (if m.alt {
        "A-"@
    } else {
        Seq::empty()
    }) + (if m.shift {
        "S-"@
    } else {
        Seq::empty()
    }) + (if m.meta {
        "M-"@
    } else {
        Seq::empty()
    })
}

/// Rendered form of a key: a bare char for unmodified chars, otherwise
/// `<` modifier prefixes (`C-`, `A-`, `S-`, `M-`), the symbol and `>`.
pub open spec fn key_display(k: KeyView) -> Seq<char> {
    if k.mods == no_mods() && k.sym is Char {
        seq![k.sym->Char_0]
    } else {
        seq!['<'] + (if k.mods.ctrl {
            "C-"@
        } else {
            Seq::empty()
        }) + (if k.mods.alt {
            "A-"@
        } else {
            Seq::empty()
        }) + (if k.mods.shift {
            "S-"@
        } else {
            Seq::empty()
        }) + (if k.mods.meta {
            "M-"@
        } else {
            Seq::empty()
        }) + match k.sym {
            KeySymView::Char(c) => seq![c],
            KeySymView::Named(n) => n,
        } + seq!['>']
    }
}

pub open spec fn is_mod_name(m: Seq<char>) -> bool {
    m == "C"@ || m == "A"@ || m == "S"@ || m == "M"@
}

/// Index of the first modifier token that is not one of `C`, `A`, `S`, `M`.
pub open spec fn first_bad_mod(ms: Seq<Seq<char>>) -> Option<int>
    decreases ms.len(),
{
    if ms.len() == 0 {
        None
    } else if !is_mod_name(ms[0]) {
        Some(0)
    } else {
        match first_bad_mod(ms.drop_first()) {
            Some(i) => Some(i + 1),
            None => None,
        }
    }
}

/// Modifier flags named by a list of modifier tokens, left to right.
pub open spec fn mods_of(ms: Seq<Seq<char>>) -> Modifiers
    decreases ms.len(),
{
    if ms.len() == 0 {
        no_mods()
    } else {
        let m = mods_of(ms.drop_last());
        let x = ms.last();
        Modifiers {
            ctrl: m.ctrl || x == "C"@,
            alt: m.alt || x == "A"@,
            shift: m.shift || x == "S"@,
            meta: m.meta || x == "M"@,
        }
    }
}

/// The key denoted by a symbol token (one char, or a canonicalised name).
pub open spec fn sym_of(s: Seq<char>) -> KeySymView {
    if s.len() == 1 {
        KeySymView::Char(s[0])
    } else {
        KeySymView::Named(canon_name(s))
    }
}

/// Key notation: after trimming, either a single char, or `<`...`>`
/// holding `-`-separated modifier tokens followed by a symbol.
pub open spec fn parse_key(s: Seq<char>) -> Result<KeyView, Seq<char>> {
    let t = trim(s);
    if t.len() == 0 {
        Err("empty key"@)
    } else if t[0] != '<' {
        if t.len() == 1 {
            Ok(KeyView { sym: KeySymView::Char(t[0]), mods: no_mods() })
        } else {
            Err("multi-char key without <…>: "@ + debug_quoted(t))
        }
    } else if t.len() < 2 || t.last() != '>' {
        Err("malformed key: "@ + debug_quoted(t))
    } else if t.len() == 2 {
        Err("empty <…>: "@ + debug_quoted(t))
    } else {
        let parts = split_seq(t.subrange(1, t.len() - 1), '-');
        let sym = parts.last();
        let ms = parts.drop_last();
        if sym.len() == 0 {
            Err("missing keysym in "@ + debug_quoted(t))
        } else {
            match first_bad_mod(ms) {
                Some(i) => Err(
                    "unknown modifier "@ + debug_quoted(ms[i]) + " in "@ + debug_quoted(t),
                ),
                None => Ok(KeyView { sym: sym_of(sym), mods: mods_of(ms) }),
            }
        }
    }
}

pub proof fn lemma_mod_lits()
    ensures
        "C"@ != "A"@,
        "C"@ != "S"@,
        "C"@ != "M"@,
        "A"@ != "S"@,
        "A"@ != "M"@,
        "S"@ != "M"@,
        "C"@ == seq!['C'],
        "A"@ == seq!['A'],
        "S"@ == seq!['S'],
        "M"@ == seq!['M'],
{
    reveal_strlit("C");
    reveal_strlit("A");
    reveal_strlit("S");
    reveal_strlit("M");
    assert("C"@[0] != "A"@[0]);
    assert("C"@[0] != "S"@[0]);
    assert("C"@[0] != "M"@[0]);
    assert("A"@[0] != "S"@[0]);
    assert("A"@[0] != "M"@[0]);
    assert("S"@[0] != "M"@[0]);
}

pub proof fn lemma_display_shape(k: KeyView)
    requires
        !(k.mods == no_mods() && k.sym is Char),
    ensures
        key_display(k) == seq!['<'] + mod_flags(k.mods) + match k.sym {
            KeySymView::Char(c) => seq![c],
            KeySymView::Named(n) => n,
        } + seq!['>'],
{
    let sym_s = match k.sym {
        KeySymView::Char(c) => seq![c],
        KeySymView::Named(n) => n,
    };
    let a = if k.mods.ctrl { "C-"@ } else { Seq::empty() };
    let b = if k.mods.alt { "A-"@ } else { Seq::empty() };
    let c = if k.mods.shift { "S-"@ } else { Seq::empty() };
    let d = if k.mods.meta { "M-"@ } else { Seq::empty() };
    assert(seq!['<'] + a + b + c + d + sym_s + seq!['>'] =~= seq!['<'] + (a + b + c + d) + sym_s
        + seq!['>']);
}

fn push_mod_flags(v: &mut Vec<char>, m: Modifiers)
    ensures
        final(v)@ == old(v)@ + mod_flags(m),
{
    let ghost v0 = v@;
    if m.ctrl {
        push_str(v, "C-");
    }
    let ghost v1 = v@;
    if m.alt {
        push_str(v, "A-");
    }
    let ghost v2 = v@;
    if m.shift {
        push_str(v, "S-");
    }
    let ghost v3 = v@;
    if m.meta {
        push_str(v, "M-");
    }
    proof {
        let a = if m.ctrl { "C-"@ } else { Seq::empty() };
        let b = if m.alt { "A-"@ } else { Seq::empty() };
        let c = if m.shift { "S-"@ } else { Seq::empty() };
        let d = if m.meta { "M-"@ } else { Seq::empty() };
        assert(v1 =~= v0 + a);
        assert(v2 =~= v0 + a + b);
        assert(v3 =~= v0 + a + b + c);
        assert(v@ =~= v0 + (a + b + c + d));
    }
}

/// Whether a key is the `<leader>` placeholder.
pub open spec fn is_leader_key(k: KeyView) -> bool {
    k.mods == no_mods() && k.sym == KeySymView::Named("leader"@)
}

/// Decimal parse of a digit run (0..=255 fits, larger saturates at 256).
fn u8_parse_ok(d: &[char]) -> (ok: bool)
    ensures
        ok == (d@.len() > 0 && all_digits(d@) && digits_value(d@) <= 255),
{
    if d.len() == 0 {
        return false;
    }
    let mut acc: u32 = 0;
    let mut i: usize = 0;
    while i < d.len()
        invariant
            i <= d.len(),
            all_digits(d@.subrange(0, i as int)),
            acc <= 255,
            acc == digits_value(d@.subrange(0, i as int)),
        decreases d.len() - i,
    {
        assert(d@.subrange(0, i + 1).drop_last() =~= d@.subrange(0, i as int));
        if !char_is_digit(d[i]) {
            assert(!is_digit(d@[i as int]));
            return false;
        }
        let dv = (d[i] as u32) - ('0' as u32);
        let next = acc * 10 + dv;
        if next > 255 {
            proof {
                lemma_digits_monotone(d@, i as nat + 1);
            }
            return false;
        }
        acc = next;
        i = i + 1;
    }
    assert(d@.subrange(0, d@.len() as int) =~= d@);
    true
}

pub proof fn lemma_digits_monotone(d: Seq<char>, k: nat)
    requires
        k <= d.len(),
        all_digits(d.subrange(0, k as int)),
    ensures
        all_digits(d) ==> digits_value(d) >= digits_value(d.subrange(0, k as int)),
    decreases d.len(),
{
    if all_digits(d) && d.len() > k {
        let e = d.drop_last();
        assert(e.subrange(0, k as int) =~= d.subrange(0, k as int));
        assert(all_digits(e));
        lemma_digits_monotone(e, k);
    }
    if d.len() == k {
        assert(d.subrange(0, k as int) =~= d);
    }
}

fn parses_as_u8_exec(t: &[char]) -> (ok: bool)
    ensures
        ok == parses_as_u8(t@),
{
    if t.len() > 0 && t[0] == '+' {
        let d = slice_chars(t, 1, t.len());
        assert(d@ =~= t@.drop_first());
        u8_parse_ok(d.as_slice())
    } else {
        u8_parse_ok(t)
    }
}

fn lit_eq(v: &[char], s: &str) -> (b: bool)
    ensures
        b == (v@ == s@),
{
    chars_eq_str(v, s)
}

/// Canonicalises a key name (see [`canon_name`]).
pub fn canonicalize_named(s: &str) -> (r: String)
    ensures
        r@ == canon_name(s@),
{
    let v = chars_of(s);
    let l = lower_chars(v.as_slice());
    let l = l.as_slice();
    if lit_eq(l, "esc") || lit_eq(l, "escape") {
        String::from_str("Esc")
    } else if lit_eq(l, "cr") || lit_eq(l, "enter") || lit_eq(l, "return") {
        String::from_str("Enter")
    } else if lit_eq(l, "space") || lit_eq(l, "spc") {
        String::from_str("Space")
    } else if lit_eq(l, "tab") {
        String::from_str("Tab")
    } else if lit_eq(l, "bs") || lit_eq(l, "backspace") {
        String::from_str("BS")
    } else if lit_eq(l, "del") || lit_eq(l, "delete") {
        String::from_str("Del")
    } else if lit_eq(l, "ins") || lit_eq(l, "insert") {
        String::from_str("Insert")
    } else if lit_eq(l, "up") {
        String::from_str("Up")
    } else if lit_eq(l, "down") {
        String::from_str("Down")
    } else if lit_eq(l, "left") {
        String::from_str("Left")
    } else if lit_eq(l, "right") {
        String::from_str("Right")
    } else if lit_eq(l, "home") {
        String::from_str("Home")
    } else if lit_eq(l, "end") {
        String::from_str("End")
    } else if lit_eq(l, "pageup") || lit_eq(l, "pgup") {
        String::from_str("PageUp")
    } else if lit_eq(l, "pagedown") || lit_eq(l, "pgdn") || lit_eq(l, "pgdown") {
        String::from_str("PageDown")
    } else if lit_eq(l, "leader") {
        String::from_str("leader")
    } else if l.len() > 0 && l[0] == 'f' && {
        let rest = slice_chars(l, 1, l.len());
        assert(rest@ =~= l@.drop_first());
        parses_as_u8_exec(rest.as_slice())
    } {
        let mut out = vec!['F'];
        let rest = slice_chars(l, 1, l.len());
        assert(rest@ =~= l@.drop_first());
        push_all(&mut out, rest.as_slice());
        assert(out@ =~= seq!['F'] + l@.drop_first());
        string_of(out.as_slice())
    } else {
        String::from_str(s)
    }
}

impl Clone for KeySym {
    fn clone(&self) -> (r: KeySym)
        ensures
            r == *self,
    {
        match self {
            KeySym::Char(c) => KeySym::Char(*c),
            KeySym::Named(s) => KeySym::Named(s.clone()),
        }
    }
}

impl Clone for Key {
    fn clone(&self) -> (r: Key)
        ensures
            r == *self,
    {
        Key { sym: self.sym.clone(), mods: self.mods }
    }
}

impl KeySym {
    /// A named key, with the name canonicalised.
    pub fn named(s: &str) -> (k: KeySym)
        ensures
            k@ == KeySymView::Named(canon_name(s@)),
    {
        KeySym::Named(canonicalize_named(s))
    }

    /// Whether two symbols are the same.
    pub fn same(&self, other: &KeySym) -> (b: bool)
        ensures
            b == (self@ == other@),
    {
        match (self, other) {
            (KeySym::Char(a), KeySym::Char(b)) => *a == *b,
            (KeySym::Named(a), KeySym::Named(b)) => str_eq(a.as_str(), b.as_str()),
            _ => false,
        }
    }
}

impl Key {
    pub fn raw(sym: KeySym, mods: Modifiers) -> (k: Key)
        ensures
            k.sym == sym,
            k.mods == mods,
    {
        Key { sym, mods }
    }

    /// An unmodified printable char.
    pub fn char(c: char) -> (k: Key)
        ensures
            k@ == (KeyView { sym: KeySymView::Char(c), mods: no_mods() }),
    {
        Key { sym: KeySym::Char(c), mods: Modifiers::none() }
    }

    /// An unmodified named key, with the name canonicalised.
    pub fn named(name: &str) -> (k: Key)
        ensures
            k@ == (KeyView { sym: KeySymView::Named(canon_name(name@)), mods: no_mods() }),
    {
        Key { sym: KeySym::named(name), mods: Modifiers::none() }
    }

    pub fn with_mods(self, mods: Modifiers) -> (k: Key)
        ensures
            k@ == (KeyView { sym: self@.sym, mods }),
    {
        let mut s = self;
        s.mods = mods;
        s
    }

    /// Placeholder for the user's configured leader key. The engine
    /// substitutes the real leader at bind time.
    pub fn leader() -> (k: Key)
        ensures
            k@ == (KeyView { sym: KeySymView::Named("leader"@), mods: no_mods() }),
            is_leader_key(k@),
    {
        Key { sym: KeySym::Named(String::from_str("leader")), mods: Modifiers::none() }
    }

    pub fn is_leader(&self) -> (b: bool)
        ensures
            b == is_leader_key(self@),
    {
        if !self.mods.is_empty() {
            return false;
        }
        match &self.sym {
            KeySym::Named(s) => str_eq(s.as_str(), "leader"),
            KeySym::Char(_) => false,
        }
    }

    /// Whether two keys are the same key.
    pub fn same(&self, other: &Key) -> (b: bool)
        ensures
            b == (self@ == other@),
    {
        self.mods == other.mods && self.sym.same(&other.sym)
    }

    /// Appends the rendered form of this key to `out`.
    pub fn push_display(&self, out: &mut Vec<char>)
        ensures
            final(out)@ == old(out)@ + key_display(self@),
    {
        let ghost before = out@;
        if self.mods.is_empty() {
            if let KeySym::Char(c) = self.sym {
                out.push(c);
                assert(out@ =~= before + key_display(self@));
                return;
            }
        }
        let mut v: Vec<char> = vec!['<'];
        push_mod_flags(&mut v, self.mods);
        match &self.sym {
            KeySym::Char(c) => v.push(*c),
            KeySym::Named(n) => push_str(&mut v, n.as_str()),
        }
        v.push('>');
        proof {
            let sym_s = match self@.sym {
                KeySymView::Char(c) => seq![c],
                KeySymView::Named(n) => n,
            };
            assert(v@ =~= seq!['<'] + mod_flags(self.mods) + sym_s + seq!['>']);
            lemma_display_shape(self@);
        }
        push_all(out, v.as_slice());
    }

    /// Rendered form, e.g. `j`, `<Esc>`, `<C-S-x>`.
    pub fn to_string(&self) -> (s: String)
        ensures
            s@ == key_display(self@),
    {
        let mut v: Vec<char> = Vec::new();
        self.push_display(&mut v);
        assert(v@ =~= key_display(self@));
        string_of(v.as_slice())
    }

    /// Parses key notation (see [`parse_key`]).
    pub fn parse(s: &str) -> (r: Result<Key, Error>)
        ensures
            match parse_key(s@) {
                Ok(k) => r matches Ok(key) && key@ == k,
                Err(m) => r matches Err(e) && e.msg() == m,
            },
    {
        let v = chars_of(s);
        let t = trim_chars(v.as_slice());
        let t = t.as_slice();
        if t.len() == 0 {
            return Err(Error::config(chars_of("empty key").as_slice()));
        }
        if t[0] != '<' {
            if t.len() == 1 {
                return Ok(Key::char(t[0]));
            }
            let mut m = chars_of("multi-char key without <…>: ");
            push_debug(&mut m, t);
            return Err(Error::config(m.as_slice()));
        }
        if t.len() < 2 || t[t.len() - 1] != '>' {
            let mut m = chars_of("malformed key: ");
            push_debug(&mut m, t);
            return Err(Error::config(m.as_slice()));
        }
        if t.len() == 2 {
            let mut m = chars_of("empty <…>: ");
            push_debug(&mut m, t);
            return Err(Error::config(m.as_slice()));
        }
        let inner = slice_chars(t, 1, t.len() - 1);
        let parts = split_chars(inner.as_slice(), '-');
        let ghost sp = split_seq(t@.subrange(1, t@.len() - 1), '-');
        proof {
            lemma_split_nonempty(t@.subrange(1, t@.len() - 1), '-');
        }
        let last = parts.len() - 1;
        let sym = &parts[last];
        if sym.len() == 0 {
            let mut m = chars_of("missing keysym in ");
            push_debug(&mut m, t);
            return Err(Error::config(m.as_slice()));
        }
        let ghost ms = sp.drop_last();
        proof {
            lemma_first_bad_range(ms);
        }
        let mut mods = Modifiers::none();
        let mut i: usize = 0;
        while i < last
            invariant
                last + 1 == parts@.len(),
                parts@.len() == sp.len(),
                forall|j: int| 0 <= j < parts@.len() ==> #[trigger] parts@[j]@ == sp[j],
                ms == sp.drop_last(),
                i <= last,
                first_bad_mod(ms) is None || first_bad_mod(ms)->0 >= i,
                forall|j: int| 0 <= j < i ==> is_mod_name(#[trigger] ms[j]),
                mods == mods_of(ms.subrange(0, i as int)),
                t@ == trim(s@),
                t@.len() > 2,
                t@[0] == '<',
                t@.last() == '>',
                sp == split_seq(t@.subrange(1, t@.len() - 1), '-'),
                sp.last().len() > 0,
            decreases last - i,
        {
            let m = parts[i].as_slice();
            assert(m@ == ms[i as int]);
            proof {
                lemma_first_bad_at(ms, i as int);
                lemma_mod_lits();
            }
            if lit_eq(m, "C") {
                mods.ctrl = true;
            } else if lit_eq(m, "A") {
                mods.alt = true;
            } else if lit_eq(m, "S") {
                mods.shift = true;
            } else if lit_eq(m, "M") {
                mods.meta = true;
            } else {
                let mut msg = chars_of("unknown modifier ");
                push_debug(&mut msg, m);
                push_str(&mut msg, " in ");
                push_debug(&mut msg, t);
                assert(first_bad_mod(ms) == Some(i as int));
                assert(msg@ == "unknown modifier "@ + debug_quoted(ms[i as int]) + " in "@ + debug_quoted(t@));
                return Err(Error::config(msg.as_slice()));
            }
            proof {
                let b = ms.subrange(0, i + 1);
                assert(b.drop_last() =~= ms.subrange(0, i as int));
                assert(b.last() == ms[i as int]);
                assert(mods_of(b) == Modifiers {
                    ctrl: mods_of(b.drop_last()).ctrl || ms[i as int] == "C"@,
                    alt: mods_of(b.drop_last()).alt || ms[i as int] == "A"@,
                    shift: mods_of(b.drop_last()).shift || ms[i as int] == "S"@,
                    meta: mods_of(b.drop_last()).meta || ms[i as int] == "M"@,
                });
            }
            i = i + 1;
        }
        proof {
            assert(ms.subrange(0, last as int) =~= ms);
            lemma_first_bad_none(ms);
        }
        let k = if sym.len() == 1 {
            KeySym::Char(sym[0])
        } else {
            let name = string_of(sym.as_slice());
            KeySym::named(name.as_str())
        };
        Ok(Key { sym: k, mods })
    }
}

proof fn lemma_first_bad_at(ms: Seq<Seq<char>>, i: int)
    requires
        0 <= i < ms.len(),
        forall|j: int| 0 <= j < i ==> is_mod_name(#[trigger] ms[j]),
    ensures
        !is_mod_name(ms[i]) ==> first_bad_mod(ms) == Some(i),
        is_mod_name(ms[i]) ==> (first_bad_mod(ms) is None || first_bad_mod(ms)->0 > i),
    decreases ms.len(),
{
    if i > 0 {
        let t = ms.drop_first();
        assert forall|j: int| 0 <= j < i - 1 implies is_mod_name(#[trigger] t[j]) by {
            assert(t[j] == ms[j + 1]);
        }
        assert(is_mod_name(ms[0]));
        assert(ms[i] == t[i - 1]);
        lemma_first_bad_at(t, i - 1);
    } else {
        lemma_first_bad_range(ms.drop_first());
    }
}

proof fn lemma_first_bad_range(ms: Seq<Seq<char>>)
    ensures
        first_bad_mod(ms) matches Some(i) ==> 0 <= i < ms.len(),
    decreases ms.len(),
{
    if ms.len() > 0 {
        lemma_first_bad_range(ms.drop_first());
    }
}

proof fn lemma_first_bad_none(ms: Seq<Seq<char>>)
    requires
        forall|j: int| 0 <= j < ms.len() ==> is_mod_name(#[trigger] ms[j]),
    ensures
        first_bad_mod(ms) is None,
    decreases ms.len(),
{
    if ms.len() > 0 {
        let t = ms.drop_first();
        assert forall|j: int| 0 <= j < t.len() implies is_mod_name(#[trigger] t[j]) by {
            assert(t[j] == ms[j + 1]);
        }
        assert(is_mod_name(ms[0]));
        lemma_first_bad_none(t);
    }
}

impl core::str::FromStr for Key {
    type Err = Error;

    /// Parses key notation, as [`Key::parse`].
    fn from_str(s: &str) -> (r: core::result::Result<Key, Error>)
        ensures
            match parse_key(s@) {
                Ok(k) => r matches Ok(key) && key@ == k,
                Err(m) => r matches Err(e) && e.msg() == m,
            },
    {
        Key::parse(s)
    }
}

} // verus!
