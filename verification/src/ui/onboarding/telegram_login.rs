//! Input checks of the Telegram sign-in dialog.
use vstd::prelude::*;
use crate::dbus::client::{digits_chars, digits_of, utf8_len, utf8_len_exceeds};
use crate::text::{chars_of, char_is_digit, is_digit, slice_chars, string_of, trim, trim_chars};
use crate::vim::key::{all_digits, digits_value, lemma_digits_monotone};

verus! {

/// The positive `i32` a trimmed `api_id` spells (an optional `+`, then
/// decimal digits), if any.
pub open spec fn positive_id(t: Seq<char>) -> Option<int> {
    let d = if t.len() > 0 && t[0] == '+' {
        t.drop_first()
    } else {
        t
    };
    if d.len() > 0 && all_digits(d) && 1 <= digits_value(d) && digits_value(d) <= i32::MAX {
        Some(digits_value(d) as int)
    } else {
        None
    }
}

/// Value of a digit run when all chars are digits and it is at most
/// `i32::MAX`.
fn digits_i32(d: &[char]) -> (r: Option<i32>)
    ensures
        match r {
            Some(v) => d@.len() > 0 && all_digits(d@) && digits_value(d@) == v,
            None => !(d@.len() > 0 && all_digits(d@) && digits_value(d@) <= i32::MAX),
        },
{
    if d.len() == 0 {
        return None;
    }
    let mut acc: i64 = 0;
    let mut i: usize = 0;
    while i < d.len()
        invariant
            i <= d.len(),
            all_digits(d@.subrange(0, i as int)),
            0 <= acc <= i32::MAX,
            acc == digits_value(d@.subrange(0, i as int)),
        decreases d.len() - i,
    {
        assert(d@.subrange(0, i + 1).drop_last() =~= d@.subrange(0, i as int));
        if !char_is_digit(d[i]) {
            assert(!is_digit(d@[i as int]));
            return None;
        }
        let dv = ((d[i] as u32) - ('0' as u32)) as i64;
        let next = acc * 10 + dv;
        if next > 0x7fff_ffff {
            proof {
                lemma_digits_monotone(d@, i as nat + 1);
            }
            return None;
        }
        acc = next;
        i = i + 1;
    }
    assert(d@.subrange(0, d@.len() as int) =~= d@);
    Some(acc as i32)
}

/// Check the API credentials typed into the dialog: `api_id` a positive
/// integer, `api_hash` (trimmed) at least 16 bytes of hex digits.
pub fn validate_credentials(raw_id: &str, raw_hash: &str) -> (r: Result<(i32, String), &'static str>)
    ensures
        positive_id(trim(raw_id@)) is None ==> (r matches Err(m) && m@
            == "api_id must be a positive integer"@),
        positive_id(trim(raw_id@)) is Some && !hex_hash(trim(raw_hash@)) ==> (r matches Err(m) && m@
            == "api_hash must be a hex string"@),
        positive_id(trim(raw_id@)) is Some && hex_hash(trim(raw_hash@)) ==> (r matches Ok((i, h))
            && positive_id(trim(raw_id@)) == Some(i as int) && h@ == trim(raw_hash@)),
{
    let iv = chars_of(raw_id);
    let t = trim_chars(iv.as_slice());
    let parsed = if t.len() > 0 && t[0] == '+' {
        let d = slice_chars(t.as_slice(), 1, t.len());
        assert(d@ =~= t@.drop_first());
        digits_i32(d.as_slice())
    } else {
        digits_i32(t.as_slice())
    };
    let id = match parsed {
        Some(v) if v > 0 => v,
        _ => {
            return Err("api_id must be a positive integer");
        },
    };
    let hv = chars_of(raw_hash);
    let h = trim_chars(hv.as_slice());
    if !utf8_len_exceeds(h.as_slice(), 15) || !all_hex(h.as_slice()) {
        return Err("api_hash must be a hex string");
    }
    Ok((id, string_of(h.as_slice())))
}

pub open spec fn is_hex_digit(c: char) -> bool {
    ('0' <= c && c <= '9') || ('a' <= c && c <= 'f') || ('A' <= c && c <= 'F')
}

/// A plausible API hash: at least 16 bytes, hex digits only.
pub open spec fn hex_hash(h: Seq<char>) -> bool {
    utf8_len(h) >= 16 && forall|i: int| 0 <= i < h.len() ==> is_hex_digit(#[trigger] h[i])
}

fn all_hex(v: &[char]) -> (b: bool)
    ensures
        b == (forall|i: int| 0 <= i < v@.len() ==> is_hex_digit(#[trigger] v@[i])),
{
    let mut i: usize = 0;
    while i < v.len()
        invariant
            i <= v@.len(),
            forall|k: int| 0 <= k < i ==> is_hex_digit(#[trigger] v@[k]),
        decreases v@.len() - i,
    {
        let c = v[i];
        if !(('0' <= c && c <= '9') || ('a' <= c && c <= 'f') || ('A' <= c && c <= 'F')) {
            return false;
        }
        i = i + 1;
    }
    true
}

/// Check the phone number typed for Telegram: trimmed, starting with `+`
/// and at least 7 bytes long.
pub fn validate_login_phone(raw: &str) -> (r: Result<String, &'static str>)
    ensures
        (trim(raw@).len() > 0 && trim(raw@)[0] == '+' && utf8_len(trim(raw@)) >= 7) ==> (r matches Ok(
            p,
        ) && p@ == trim(raw@)),
        !(trim(raw@).len() > 0 && trim(raw@)[0] == '+' && utf8_len(trim(raw@)) >= 7) ==> (r matches Err(
            m,
        ) && m@ == "Use E.164 (e.g. +15551234567)"@),
{
    let v = chars_of(raw);
    let t = trim_chars(v.as_slice());
    if !(t.len() > 0 && t[0] == '+') || !utf8_len_exceeds(t.as_slice(), 6) {
        return Err("Use E.164 (e.g. +15551234567)");
    }
    Ok(string_of(t.as_slice()))
}

/// The login code: the digits typed, which must not be none.
pub fn login_code(raw: &str) -> (r: Result<String, &'static str>)
    ensures
        digits_of(raw@).len() == 0 ==> (r matches Err(m) && m@ == "Enter the code from your phone"@),
        digits_of(raw@).len() != 0 ==> (r matches Ok(c) && c@ == digits_of(raw@)),
{
    let v = chars_of(raw);
    let d = digits_chars(v.as_slice());
    if d.len() == 0 {
        return Err("Enter the code from your phone");
    }
    Ok(string_of(d.as_slice()))
}

/// The 2FA password, which must not be empty.
pub fn login_password(raw: &str) -> (r: Result<String, &'static str>)
    ensures
        raw@.len() == 0 ==> (r matches Err(m) && m@ == "Enter your 2FA password"@),
        raw@.len() != 0 ==> (r matches Ok(p) && p@ == raw@),
{
    if raw.is_empty() {
        return Err("Enter your 2FA password");
    }
    Ok(raw.to_owned())
}

} // verus!
