//! Boundary checks applied before any signal-cli D-Bus call, and the
//! per-account object path.
use vstd::prelude::*;
use crate::error::{Error, Result};
use crate::text::{chars_of, is_digit, push_debug, push_str, string_of, trim, trim_chars};

verus! {

/// Digits of `s`, in order.
pub open spec fn digits_of(s: Seq<char>) -> Seq<char>
    decreases s.len(),
{
    if s.len() == 0 {
        Seq::<char>::empty()
    } else if is_digit(s.last()) {
        digits_of(s.drop_last()).push(s.last())
    } else {
        digits_of(s.drop_last())
    }
}

/// The digits of a buffer.
pub fn digits_chars(v: &[char]) -> (r: Vec<char>)
    ensures
        r@ == digits_of(v@),
{
    let mut r: Vec<char> = Vec::new();
    let mut i: usize = 0;
    while i < v.len()
        invariant
            i <= v.len(),
            r@ == digits_of(v@.subrange(0, i as int)),
        decreases v.len() - i,
    {
        proof {
            assert(v@.subrange(0, i + 1).drop_last() =~= v@.subrange(0, i as int));
        }
        if crate::text::char_is_digit(v[i]) {
            r.push(v[i]);
        }
        i = i + 1;
    }
    assert(v@.subrange(0, v@.len() as int) =~= v@);
    r
}

/// Object path of an account: signal-cli strips the leading `+` and any
/// formatting from the E.164 number and prefixes `_`.
pub open spec fn object_path(account: Seq<char>) -> Seq<char> {
    "/org/asamk/Signal/_"@ + digits_of(account)
}

pub fn account_object_path(account: &str) -> (p: String)
    ensures
        p@ == object_path(account@),
{
    let a = chars_of(account);
    let d = digits_chars(a.as_slice());
    let mut v = chars_of("/org/asamk/Signal/_");
    crate::text::push_all(&mut v, d.as_slice());
    string_of(v.as_slice())
}

/// Bytes of the UTF-8 encoding of one char.
pub open spec fn utf8_width(c: char) -> nat {
    let u = c as u32;
    if u < 0x80 {
        1
    } else if u < 0x800 {
        2
    } else if u < 0x10000 {
        3
    } else {
        4
    }
}

/// Length in bytes of the UTF-8 encoding of a string (`str::len`).
pub open spec fn utf8_len(s: Seq<char>) -> nat
    decreases s.len(),
{
    if s.len() == 0 {
        0
    } else {
        utf8_len(s.drop_last()) + utf8_width(s.last())
    }
}

proof fn lemma_utf8_len_prefix(s: Seq<char>, i: int)
    requires
        0 <= i <= s.len(),
    ensures
        utf8_len(s.subrange(0, i)) <= utf8_len(s),
    decreases s.len() - i,
{
    if i < s.len() {
        lemma_utf8_len_prefix(s, i + 1);
        assert(s.subrange(0, i + 1).drop_last() =~= s.subrange(0, i));
    } else {
        assert(s.subrange(0, i) =~= s);
    }
}

fn char_width(c: char) -> (w: usize)
    ensures
        w == utf8_width(c),
{
    let u = c as u32;
    if u < 0x80 {
        1
    } else if u < 0x800 {
        2
    } else if u < 0x10000 {
        3
    } else {
        4
    }
}

/// Whether the UTF-8 encoding of the buffer is longer than `bound` bytes.
pub fn utf8_len_exceeds(v: &[char], bound: usize) -> (r: bool)
    requires
        bound < 0x1000_0000,
    ensures
        r == (utf8_len(v@) > bound),
{
    let mut acc: usize = 0;
    let mut i: usize = 0;
    while i < v.len()
        invariant
            i <= v.len(),
            bound < 0x1000_0000,
            acc == utf8_len(v@.subrange(0, i as int)),
            acc <= bound,
        decreases v.len() - i,
    {
        proof {
            assert(v@.subrange(0, i + 1).drop_last() =~= v@.subrange(0, i as int));
        }
        acc = acc + char_width(v[i]);
        i = i + 1;
        if acc > bound {
            proof {
                lemma_utf8_len_prefix(v@, i as int);
            }
            return true;
        }
    }
    assert(v@.subrange(0, v@.len() as int) =~= v@);
    false
}

/// E.164 shape: a leading `+`, 8 to 20 bytes in all.
pub open spec fn phone_shape_ok(t: Seq<char>) -> bool {
    t.len() > 0 && t[0] == '+' && 8 <= utf8_len(t) && utf8_len(t) <= 20
}

/// Only ASCII digits after the leading `+`.
pub open spec fn phone_digits_ok(t: Seq<char>) -> bool {
    forall|i: int| 1 <= i < t.len() ==> is_digit(#[trigger] t[i])
}

/// The error message for a phone number that is not E.164.
pub open spec fn phone_shape_msg(t: Seq<char>) -> Seq<char> {
    "invalid phone number "@ + crate::text::debug_quoted(t) + ": must be E.164 like +14155552671"@
}

/// The error message for a phone number with non-digits after the `+`.
pub open spec fn phone_digits_msg(t: Seq<char>) -> Seq<char> {
    "invalid phone number "@ + crate::text::debug_quoted(t) + ": only digits allowed after +"@
}

fn all_digits_from(v: &[char], start: usize) -> (r: bool)
    ensures
        r == (forall|i: int| start <= i < v@.len() ==> is_digit(#[trigger] v@[i])),
{
    let mut i: usize = start;
    while i < v.len()
        invariant
            start <= i,
            forall|k: int| start <= k < i ==> is_digit(#[trigger] v@[k]),
        decreases v.len() - i,
    {
        if !crate::text::char_is_digit(v[i]) {
            return false;
        }
        i = i + 1;
    }
    true
}

/// An E.164 phone number after trimming surrounding whitespace: `+`
/// followed by digits only, 8 to 20 bytes long.
pub fn validate_phone_number(s: &str) -> (r: Result<()>)
    ensures
        !phone_shape_ok(trim(s@)) ==> (r matches Err(e) && e.msg() == phone_shape_msg(trim(s@))),
        phone_shape_ok(trim(s@)) && !phone_digits_ok(trim(s@)) ==> (r matches Err(e) && e.msg()
            == phone_digits_msg(trim(s@))),
        phone_shape_ok(trim(s@)) && phone_digits_ok(trim(s@)) ==> r is Ok,
{
    let sv = chars_of(s);
    let t = trim_chars(sv.as_slice());
    let ok_shape = t.len() > 0 && t[0] == '+' && !utf8_len_exceeds(t.as_slice(), 20)
        && utf8_len_exceeds(t.as_slice(), 7);
    if !ok_shape {
        let mut m = chars_of("invalid phone number ");
        push_debug(&mut m, t.as_slice());
        push_str(&mut m, ": must be E.164 like +14155552671");
        return Err(Error::config(m.as_slice()));
    }
    if !all_digits_from(t.as_slice(), 1) {
        let mut m = chars_of("invalid phone number ");
        push_debug(&mut m, t.as_slice());
        push_str(&mut m, ": only digits allowed after +");
        return Err(Error::config(m.as_slice()));
    }
    Ok(())
}

/// The number to hand to signal-cli: the input with surrounding
/// whitespace trimmed, once it passes [`validate_phone_number`] (whose
/// errors it returns unchanged).
pub fn checked_phone_number(s: &str) -> (r: Result<String>)
    ensures
        !phone_shape_ok(trim(s@)) ==> (r matches Err(e) && e.msg() == phone_shape_msg(trim(s@))),
        phone_shape_ok(trim(s@)) && !phone_digits_ok(trim(s@)) ==> (r matches Err(e) && e.msg()
            == phone_digits_msg(trim(s@))),
        phone_shape_ok(trim(s@)) && phone_digits_ok(trim(s@)) ==> (r matches Ok(t) && t@ == trim(
            s@,
        )),
{
    match validate_phone_number(s) {
        Err(e) => Err(e),
        Ok(()) => {
            let v = chars_of(s);
            let t = trim_chars(v.as_slice());
            Ok(string_of(t.as_slice()))
        },
    }
}

/// ASCII whitespace as `char::is_ascii_whitespace` defines it.
pub open spec fn is_ascii_ws(c: char) -> bool {
    c == ' ' || c == '\t' || c == '\n' || c == '\x0C' || c == '\r'
}

/// Number of chars that are neither ASCII whitespace nor `-`.
pub open spec fn count_significant(s: Seq<char>) -> nat
    decreases s.len(),
{
    if s.len() == 0 {
        0
    } else if is_ascii_ws(s.last()) || s.last() == '-' {
        count_significant(s.drop_last())
    } else {
        count_significant(s.drop_last()) + 1
    }
}

fn count_significant_chars(v: &[char]) -> (n: usize)
    ensures
        n == count_significant(v@),
{
    let mut n: usize = 0;
    let mut i: usize = 0;
    while i < v.len()
        invariant
            i <= v.len(),
            n == count_significant(v@.subrange(0, i as int)),
            n <= i,
        decreases v.len() - i,
    {
        proof {
            assert(v@.subrange(0, i + 1).drop_last() =~= v@.subrange(0, i as int));
        }
        let c = v[i];
        if !(c == ' ' || c == '\t' || c == '\n' || c == '\x0C' || c == '\r' || c == '-') {
            n = n + 1;
        }
        i = i + 1;
    }
    assert(v@.subrange(0, v@.len() as int) =~= v@);
    n
}

pub open spec fn code_digits_msg(s: Seq<char>) -> Seq<char> {
    "invalid verification code "@ + crate::text::debug_quoted(s) + ": expected 6 digits"@
}

pub open spec fn code_chars_msg(s: Seq<char>) -> Seq<char> {
    "invalid verification code "@ + crate::text::debug_quoted(s)
        + ": only digits, spaces, and hyphens allowed"@
}

/// A verification code: exactly six digits, optionally separated by ASCII
/// whitespace and hyphens (`123-456`, `123 456`).
pub fn validate_verify_code(s: &str) -> (r: Result<()>)
    ensures
        digits_of(s@).len() != 6 ==> (r matches Err(e) && e.msg() == code_digits_msg(s@)),
        digits_of(s@).len() == 6 && count_significant(s@) != 6 ==> (r matches Err(e) && e.msg()
            == code_chars_msg(s@)),
        digits_of(s@).len() == 6 && count_significant(s@) == 6 ==> r is Ok,
{
    let sv = chars_of(s);
    let d = digits_chars(sv.as_slice());
    if d.len() != 6 {
        let mut m = chars_of("invalid verification code ");
        push_debug(&mut m, sv.as_slice());
        push_str(&mut m, ": expected 6 digits");
        return Err(Error::config(m.as_slice()));
    }
    if count_significant_chars(sv.as_slice()) != 6 {
        let mut m = chars_of("invalid verification code ");
        push_debug(&mut m, sv.as_slice());
        push_str(&mut m, ": only digits, spaces, and hyphens allowed");
        return Err(Error::config(m.as_slice()));
    }
    Ok(())
}

pub open spec fn device_empty_msg() -> Seq<char> {
    "device name cannot be empty"@
}

pub open spec fn device_long_msg(t: Seq<char>) -> Seq<char> {
    "device name "@ + crate::text::debug_quoted(t) + ": max 50 characters"@
}

/// A device name: non-blank, at most 50 bytes once trimmed.
pub fn validate_device_name(s: &str) -> (r: Result<()>)
    ensures
        trim(s@).len() == 0 ==> (r matches Err(e) && e.msg() == device_empty_msg()),
        trim(s@).len() != 0 && utf8_len(trim(s@)) > 50 ==> (r matches Err(e) && e.msg()
            == device_long_msg(trim(s@))),
        trim(s@).len() != 0 && utf8_len(trim(s@)) <= 50 ==> r is Ok,
{
    let sv = chars_of(s);
    let t = trim_chars(sv.as_slice());
    if t.len() == 0 {
        let m = chars_of("device name cannot be empty");
        return Err(Error::config(m.as_slice()));
    }
    if utf8_len_exceeds(t.as_slice(), 50) {
        let mut m = chars_of("device name ");
        push_debug(&mut m, t.as_slice());
        push_str(&mut m, ": max 50 characters");
        return Err(Error::config(m.as_slice()));
    }
    Ok(())
}

/// The E.164 number an account object path stands for: `+` and what
/// follows `/org/asamk/Signal/_`, when that is not empty.
pub open spec fn account_of_path(p: Seq<char>) -> Option<Seq<char>> {
    let prefix = "/org/asamk/Signal/_"@;
    if p.len() > prefix.len() && p.subrange(0, prefix.len() as int) == prefix {
        Some(seq!['+'] + p.subrange(prefix.len() as int, p.len() as int))
    } else {
        None
    }
}

/// Read an account object path (as `listAccounts` reports them) back as
/// the account's number.
pub fn account_from_object_path(path: &str) -> (r: Option<String>)
    ensures
        match account_of_path(path@) {
            Some(a) => r matches Some(s) && s@ == a,
            None => r is None,
        },
{
    let v = chars_of(path);
    let prefix = chars_of("/org/asamk/Signal/_");
    if v.len() <= prefix.len() {
        return None;
    }
    let head = crate::text::slice_chars(v.as_slice(), 0, prefix.len());
    if !crate::text::chars_eq(head.as_slice(), prefix.as_slice()) {
        return None;
    }
    let rest = crate::text::slice_chars(v.as_slice(), prefix.len(), v.len());
    let mut out = vec!['+'];
    crate::text::push_all(&mut out, rest.as_slice());
    assert(out@ =~= seq!['+'] + rest@);
    Some(string_of(out.as_slice()))
}

/// Reading back the object path of an account gives `+` and the
/// account's digits, when it has any.
pub proof fn law_object_path_round_trip(account: Seq<char>)
    requires
        digits_of(account).len() > 0,
    ensures
        account_of_path(object_path(account)) == Some(seq!['+'] + digits_of(account)),
{
    let prefix = "/org/asamk/Signal/_"@;
    let p = object_path(account);
    assert(p.subrange(0, prefix.len() as int) =~= prefix);
    assert(p.subrange(prefix.len() as int, p.len() as int) =~= digits_of(account));
}

} // verus!
