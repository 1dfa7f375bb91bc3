//! The "new chat" dialog's number check.
use vstd::prelude::*;
use crate::dbus::client::{digits_chars, digits_of};
use crate::text::{chars_of, string_of, trim, trim_chars};

verus! {

/// Why a typed number was refused.
pub open spec fn e164_error(raw: Seq<char>) -> Option<Seq<char>> {
    let t = trim(raw);
    if !(t.len() > 0 && t[0] == '+') {
        Some("Number must start with + (E.164 format)"@)
    } else if digits_of(t).len() < 7 {
        Some("That's too short for a phone number"@)
    } else if digits_of(t).len() > 19 {
        Some("That's too long for a phone number"@)
    } else {
        None
    }
}

/// Canonical E.164 form of a typed number: `+` and its digits, all
/// formatting dropped (`+1 (415) 555-2671` gives `+14155552671`).
pub fn parse_e164(raw: &str) -> (r: Result<String, &'static str>)
    ensures
        match e164_error(raw@) {
            Some(m) => r matches Err(e) && e@ == m,
            None => r matches Ok(s) && s@ == seq!['+'] + digits_of(trim(raw@)),
        },
{
    let v = chars_of(raw);
    let t = trim_chars(v.as_slice());
    if !(t.len() > 0 && t[0] == '+') {
        return Err("Number must start with + (E.164 format)");
    }
    let d = digits_chars(t.as_slice());
    if d.len() < 7 {
        return Err("That's too short for a phone number");
    }
    if d.len() > 19 {
        return Err("That's too long for a phone number");
    }
    let mut out = vec!['+'];
    crate::text::push_all(&mut out, d.as_slice());
    assert(out@ =~= seq!['+'] + d@);
    Ok(string_of(out.as_slice()))
}

} // verus!
