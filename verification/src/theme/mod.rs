//! Theme selection: built-in palettes and their swatches, the names
//! accepted by `:theme`, and the small channel the custom-CSS watcher
//! uses to wake the UI thread.
pub mod builtin;
pub mod channel;
pub mod swatch;
pub mod laws;

pub use channel::{unbounded, Receiver, Sender};

use vstd::prelude::*;
use crate::error::Error;
use crate::text::{chars_eq, chars_of, debug_quoted, lower_chars, lower_seq, push_debug, push_str, trim_chars};
use crate::ui::commands::{join, theme_names, theme_names_csv};
use builtin::{builtin_name, builtin_scheme, first_builtin, lookup, theme_key, Builtin};

verus! {

/// A theme name resolved for applying.
#[derive(Debug, Clone, Copy)]
pub enum ThemeChoice {
    /// Follow the desktop (`"system"`, any case).
    System,
    Builtin(Builtin),
}

/// Message for a theme name that names nothing.
pub open spec fn unknown_theme_msg(name: Seq<char>) -> Seq<char> {
    "unknown theme "@ + debug_quoted(name) + "; expected one of: "@ + join(theme_names(), ", "@)
}

/// Resolve a `:theme` argument: `"system"` (trimmed, any ASCII case)
/// follows the desktop; otherwise a built-in theme by case-insensitive
/// name; anything else is an error listing the valid names.
pub fn resolve_theme(name: &str) -> (r: Result<ThemeChoice, Error>)
    ensures
        theme_key(name@) == "system"@ ==> r matches Ok(ThemeChoice::System),
        theme_key(name@) != "system"@ ==> match first_builtin(theme_key(name@), 0) {
            Some(i) => r matches Ok(ThemeChoice::Builtin(b)) && b.canonical_name@ == builtin_name(i)
                && b.color_scheme == builtin_scheme(i),
            None => r matches Err(e) && e.msg() == unknown_theme_msg(name@),
        },
{
    let v = chars_of(name);
    let t = trim_chars(v.as_slice());
    let l = lower_chars(t.as_slice());
    if crate::text::chars_eq_str(l.as_slice(), "system") {
        return Ok(ThemeChoice::System);
    }
    match lookup(name) {
        Some(b) => Ok(ThemeChoice::Builtin(b)),
        None => {
            let mut m = chars_of("unknown theme ");
            push_debug(&mut m, v.as_slice());
            push_str(&mut m, "; expected one of: ");
            let csv = theme_names_csv();
            push_str(&mut m, csv.as_str());
            Err(Error::config(m.as_slice()))
        },
    }
}

/// Whether a theme named in a reloaded configuration differs from the
/// one applied (`None`: none yet), comparing ASCII case-insensitively:
/// only then is it applied again.
pub fn theme_changed(configured: &str, current: Option<&str>) -> (b: bool)
    ensures
        b == (lower_seq(configured@) != lower_seq(
            match current {
                Some(c) => c@,
                None => Seq::<char>::empty(),
            },
        )),
{
    let a = lower_chars(chars_of(configured).as_slice());
    let b = match current {
        Some(c) => lower_chars(chars_of(c).as_slice()),
        None => Vec::new(),
    };
    proof {
        if current is None {
            assert(lower_seq(Seq::<char>::empty()) =~= Seq::<char>::empty());
        }
    }
    !chars_eq(a.as_slice(), b.as_slice())
}

} // verus!
