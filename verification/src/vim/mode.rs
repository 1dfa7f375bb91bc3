//! Editor modes.
use vstd::prelude::*;

verus! {

/// Editor mode. Mirrors classic vim modes, adapted for a chat client.
#[derive(Debug, Clone, Copy, PartialEq, Eq, Structural)]
pub enum Mode {
    /// Default. Navigation and leader-prefixed actions.
    Normal,
    /// Composing a message.
    Insert,
    /// `:command` palette.
    Command,
    /// `/search` incremental search.
    Search,
}

/// Upper-case label of a mode.
pub open spec fn mode_label(m: Mode) -> Seq<char> {
    match m {
        Mode::Normal => "NORMAL"@,
        Mode::Insert => "INSERT"@,
        Mode::Command => "COMMAND"@,
        Mode::Search => "SEARCH"@,
    }
}

impl Default for Mode {
    fn default() -> (m: Mode)
        ensures
            m == Mode::Normal,
    {
        Mode::Normal
    }
}

impl Mode {
    /// The mode's label, e.g. `NORMAL`.
    pub fn label(&self) -> (s: &'static str)
        ensures
            s@ == mode_label(*self),
    {
        match self {
            Mode::Normal => "NORMAL",
            Mode::Insert => "INSERT",
            Mode::Command => "COMMAND",
            Mode::Search => "SEARCH",
        }
    }

    /// The mode's label as an owned string.
    pub fn to_string(&self) -> (s: String)
        ensures
            s@ == mode_label(*self),
    {
        String::from_str(self.label())
    }
}

} // verus!
