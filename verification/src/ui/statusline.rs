//! What the mode line shows for each editor mode.
use vstd::prelude::*;
use crate::vim::mode::Mode;

verus! {

/// The mode block's text, the legacy one-line label, and the CSS class.
pub open spec fn modeline_of(m: Mode) -> (Seq<char>, Seq<char>, Seq<char>) {
    match m {
        Mode::Normal => ("NORMAL"@, "-- NORMAL --"@, "mode-normal"@),
        Mode::Insert => ("INSERT"@, "-- INSERT --"@, "mode-insert"@),
        Mode::Command => ("CMD"@, ":"@, "mode-command"@),
        Mode::Search => ("SEARCH"@, "/"@, "mode-search"@),
    }
}

pub fn modeline_parts(m: Mode) -> (r: (&'static str, &'static str, &'static str))
    ensures
        (r.0@, r.1@, r.2@) == modeline_of(m),
{
    match m {
        Mode::Normal => ("NORMAL", "-- NORMAL --", "mode-normal"),
        Mode::Insert => ("INSERT", "-- INSERT --", "mode-insert"),
        Mode::Command => ("CMD", ":", "mode-command"),
        Mode::Search => ("SEARCH", "/", "mode-search"),
    }
}

} // verus!
