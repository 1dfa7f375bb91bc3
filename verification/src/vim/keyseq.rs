//! Sequences of [`Key`] values, parsed from concise vim-style strings
//! such as `"gg"`, `"<Space>c"`, or `"<C-Enter>"`.
use vstd::prelude::*;
use crate::error::Error;
use crate::text::{chars_of, debug_quoted, push_debug, slice_chars};
use super::key::{Key, KeyView, KeySymView, no_mods, parse_key, key_display};

verus! {

#[derive(Debug, PartialEq, Eq, Hash)]
pub struct KeySeq(pub Vec<Key>);

/// Views of a list of keys.
pub open spec fn keys_view(ks: Seq<Key>) -> Seq<KeyView> {
    ks.map_values(|k: Key| k@)
}

impl View for KeySeq {
    type V = Seq<KeyView>;

    open spec fn view(&self) -> Seq<KeyView> {
        keys_view(self.0@)
    }
}

/// Index of the first `>` at or after `i`.
pub open spec fn find_close(s: Seq<char>, i: int) -> Option<int>
    decreases s.len() - i,
{
    if i < 0 || i >= s.len() {
        None
    } else if s[i] == '>' {
        Some(i)
    } else {
        find_close(s, i + 1)
    }
}

pub open spec fn prepend(p: Seq<KeyView>, r: Result<Seq<KeyView>, Seq<char>>) -> Result<
    Seq<KeyView>,
    Seq<char>,
> {
    match r {
        Ok(x) => Ok(p + x),
        Err(m) => Err(m),
    }
}

/// Keys of `s` from position `i` on: a `<`...`>` group is one key in key
/// notation, any other char is that char unmodified. The first failure
/// wins.
pub open spec fn seq_tokens(s: Seq<char>, i: int) -> Result<Seq<KeyView>, Seq<char>>
    decreases s.len() - i,
{
    if i < 0 || i >= s.len() {
        Ok(Seq::empty())
    } else if s[i] == '<' {
        match find_close(s, i + 1) {
            None => Err("unterminated <…> in key sequence "@ + debug_quoted(s)),
            Some(j) => if j < i + 1 || j >= s.len() {
                Ok(Seq::empty())
            } else {
                match parse_key(s.subrange(i, j + 1)) {
                    Err(m) => Err(m),
                    Ok(k) => prepend(seq![k], seq_tokens(s, j + 1)),
                }
            },
        }
    } else {
        prepend(seq![KeyView { sym: KeySymView::Char(s[i]), mods: no_mods() }], seq_tokens(s, i + 1))
    }
}

/// Key-sequence notation: the keys of the string, which must be at least one.
pub open spec fn parse_keyseq(s: Seq<char>) -> Result<Seq<KeyView>, Seq<char>> {
    match seq_tokens(s, 0) {
        Ok(ks) => if ks.len() == 0 {
            Err("empty key sequence "@ + debug_quoted(s))
        } else {
            Ok(ks)
        },
        Err(m) => Err(m),
    }
}

/// Rendered form of a key sequence: the keys' forms, concatenated.
pub open spec fn keyseq_display(ks: Seq<KeyView>) -> Seq<char>
    decreases ks.len(),
{
    if ks.len() == 0 {
        Seq::empty()
    } else {
        keyseq_display(ks.drop_last()) + key_display(ks.last())
    }
}

proof fn lemma_find_close_range(s: Seq<char>, i: int)
    ensures
        find_close(s, i) matches Some(j) ==> i <= j < s.len() && s[j] == '>',
    decreases s.len() - i,
{
    if 0 <= i < s.len() && s[i] != '>' {
        lemma_find_close_range(s, i + 1);
    }
}

proof fn lemma_prepend_assoc(a: Seq<KeyView>, b: Seq<KeyView>, r: Result<Seq<KeyView>, Seq<char>>)
    ensures
        prepend(a, prepend(b, r)) == prepend(a + b, r),
{
    match r {
        Ok(x) => {
            assert(a + (b + x) =~= (a + b) + x);
        },
        Err(_) => {},
    }
}

impl Clone for KeySeq {
    fn clone(&self) -> (r: KeySeq)
        ensures
            r@ == self@,
    {
        let mut v: Vec<Key> = Vec::new();
        let mut i: usize = 0;
        while i < self.0.len()
            invariant
                i <= self.0@.len(),
                v@ == self.0@.subrange(0, i as int),
            decreases self.0@.len() - i,
        {
            v.push(self.0[i].clone());
            i = i + 1;
            assert(v@ =~= self.0@.subrange(0, i as int));
        }
        assert(self.0@.subrange(0, self.0@.len() as int) =~= self.0@);
        KeySeq(v)
    }
}

impl KeySeq {
    pub fn new(keys: Vec<Key>) -> (s: KeySeq)
        ensures
            s@ == keys_view(keys@),
    {
        KeySeq(keys)
    }

    pub fn len(&self) -> (n: usize)
        ensures
            n == self@.len(),
    {
        self.0.len()
    }

    pub fn is_empty(&self) -> (b: bool)
        ensures
            b == (self@.len() == 0),
    {
        self.0.len() == 0
    }

    /// Rendered form, e.g. `<Space>c`.
    pub fn to_string(&self) -> (s: String)
        ensures
            s@ == keyseq_display(self@),
    {
        let mut out: Vec<char> = Vec::new();
        let mut i: usize = 0;
        while i < self.0.len()
            invariant
                i <= self.0@.len(),
                out@ == keyseq_display(keys_view(self.0@.subrange(0, i as int))),
            decreases self.0@.len() - i,
        {
            self.0[i].push_display(&mut out);
            i = i + 1;
            proof {
                let ks = keys_view(self.0@.subrange(0, i as int));
                assert(ks.drop_last() =~= keys_view(self.0@.subrange(0, i - 1)));
            }
        }
        assert(self.0@.subrange(0, self.0@.len() as int) =~= self.0@);
        crate::text::string_of(out.as_slice())
    }

    /// Parses key-sequence notation (see [`parse_keyseq`]).
    pub fn parse(s: &str) -> (r: Result<KeySeq, Error>)
        ensures
            match parse_keyseq(s@) {
                Ok(ks) => r matches Ok(seq) && seq@ == ks,
                Err(m) => r matches Err(e) && e.msg() == m,
            },
    {
        let v = chars_of(s);
        let n = v.len();
        let mut keys: Vec<Key> = Vec::new();
        let mut i: usize = 0;
        while i < n
            invariant
                n == v@.len(),
                v@ == s@,
                i <= n,
                seq_tokens(v@, 0) == prepend(keys_view(keys@), seq_tokens(v@, i as int)),
            decreases n - i,
        {
            let c = v[i];
            if c == '<' {
                let mut j = i + 1;
                while j < n && v[j] != '>'
                    invariant
                        n == v@.len(),
                        i + 1 <= j <= n,
                        find_close(v@, i + 1) == find_close(v@, j as int),
                    decreases n - j,
                {
                    j = j + 1;
                }
                proof {
                    lemma_find_close_range(v@, i + 1);
                }
                if j == n {
                    let mut m = chars_of("unterminated <…> in key sequence ");
                    push_debug(&mut m, v.as_slice());
                    return Err(Error::config(m.as_slice()));
                }
                let buf = slice_chars(v.as_slice(), i, j + 1);
                let bs = crate::text::string_of(buf.as_slice());
                match Key::parse(bs.as_str()) {
                    Err(e) => {
                        return Err(e);
                    },
                    Ok(k) => {
                        proof {
                            lemma_prepend_assoc(keys_view(keys@), seq![k@], seq_tokens(v@, j + 1));
                        }
                        let ghost before = keys@;
                        keys.push(k);
                        assert(keys_view(keys@) =~= keys_view(before) + seq![k@]);
                    },
                }
                i = j + 1;
            } else {
                let k = Key::char(c);
                proof {
                    lemma_prepend_assoc(keys_view(keys@), seq![k@], seq_tokens(v@, i + 1));
                }
                let ghost before = keys@;
                keys.push(k);
                assert(keys_view(keys@) =~= keys_view(before) + seq![k@]);
                i = i + 1;
            }
        }
        if keys.len() == 0 {
            let mut m = chars_of("empty key sequence ");
            push_debug(&mut m, v.as_slice());
            return Err(Error::config(m.as_slice()));
        }
        Ok(KeySeq(keys))
    }
}

impl core::str::FromStr for KeySeq {
    type Err = Error;

    /// Parses key-sequence notation, as [`KeySeq::parse`].
    fn from_str(s: &str) -> (r: core::result::Result<KeySeq, Error>)
        ensures
            match parse_keyseq(s@) {
                Ok(ks) => r matches Ok(seq) && seq@ == ks,
                Err(m) => r matches Err(e) && e.msg() == m,
            },
    {
        KeySeq::parse(s)
    }
}

} // verus!
