//! What engine actions and `:commands` do to the window, decided without
//! the toolkit: the shell performs the returned effect.
use vstd::prelude::*;
use crate::text::{chars_of, lower_seq, push_str, string_of, lower_chars};
use crate::ui::commands::{help_text, join, opt_view, theme_names, theme_names_csv, Command};
use crate::vim::action::{Action, ActionView};
use crate::vim::mode::Mode;

verus! {

/// Window-level effect of an engine action.
#[derive(Debug, Clone, Copy, PartialEq, Eq, Structural)]
pub enum ActionEffect {
    /// Move the sidebar selection by this many rows.
    MoveSelection(i8),
    /// Open the command bar with this prefix char.
    OpenBar(char),
    /// Focus the composer in Insert mode.
    FocusComposer,
    /// Composer back to Normal, window focus cleared.
    LeaveComposer,
    /// Drain the composer (blank text is dropped) and go Normal.
    SendComposer,
    CloseWindow,
    /// Toast the list of theme names.
    ListThemes,
    ReloadConfig,
    Nothing,
}

/// The effect of an action and the mode the engine is in afterwards
/// (`None`: unchanged).
pub open spec fn action_plan(a: ActionView) -> (ActionEffect, Option<Mode>) {
    match a {
        ActionView::NavigateDown => (ActionEffect::MoveSelection(1), None),
        ActionView::NavigateUp => (ActionEffect::MoveSelection(-1i8), None),
        ActionView::CommandPalette => (ActionEffect::OpenBar(':'), Some(Mode::Command)),
        ActionView::Search => (ActionEffect::OpenBar('/'), Some(Mode::Search)),
        ActionView::ComposeNew | ActionView::Reply => (ActionEffect::FocusComposer, Some(Mode::Insert)),
        ActionView::LeaveInsert => (ActionEffect::LeaveComposer, Some(Mode::Normal)),
        ActionView::SendMessage => (ActionEffect::SendComposer, Some(Mode::Normal)),
        ActionView::Quit => (ActionEffect::CloseWindow, None),
        ActionView::SetTheme => (ActionEffect::ListThemes, None),
        ActionView::ReloadConfig => (ActionEffect::ReloadConfig, None),
        _ => (ActionEffect::Nothing, None),
    }
}

/// Decide what an action does and which mode follows.
pub fn dispatch_plan(action: &Action) -> (r: (ActionEffect, Option<Mode>))
    ensures
        r == action_plan(action@),
{
    match action {
        Action::NavigateDown => (ActionEffect::MoveSelection(1), None),
        Action::NavigateUp => (ActionEffect::MoveSelection(-1), None),
        Action::CommandPalette => (ActionEffect::OpenBar(':'), Some(Mode::Command)),
        Action::Search => (ActionEffect::OpenBar('/'), Some(Mode::Search)),
        Action::ComposeNew | Action::Reply => (ActionEffect::FocusComposer, Some(Mode::Insert)),
        Action::LeaveInsert => (ActionEffect::LeaveComposer, Some(Mode::Normal)),
        Action::SendMessage => (ActionEffect::SendComposer, Some(Mode::Normal)),
        Action::Quit => (ActionEffect::CloseWindow, None),
        Action::SetTheme => (ActionEffect::ListThemes, None),
        Action::ReloadConfig => (ActionEffect::ReloadConfig, None),
        _ => (ActionEffect::Nothing, None),
    }
}

/// Window-level effect of a `:command`.
#[derive(Debug, Clone, PartialEq, Eq)]
pub enum CommandEffect {
    Nothing,
    CloseWindow,
    /// Show an informational toast.
    Info(String),
    /// Show an error toast.
    Failure(String),
    /// Apply the named theme.
    ApplyTheme(String),
    /// Apply `:set key [= value]` to the configuration file.
    SetOnDisk { key: String, value: Option<String> },
    ReloadConfig,
    OpenSettings,
    OpenLinker,
}

pub enum CommandEffectView {
    Nothing,
    CloseWindow,
    Info(Seq<char>),
    Failure(Seq<char>),
    ApplyTheme(Seq<char>),
    SetOnDisk { key: Seq<char>, value: Option<Seq<char>> },
    ReloadConfig,
    OpenSettings,
    OpenLinker,
}

impl View for CommandEffect {
    type V = CommandEffectView;

    open spec fn view(&self) -> CommandEffectView {
        match self {
            CommandEffect::Nothing => CommandEffectView::Nothing,
            CommandEffect::CloseWindow => CommandEffectView::CloseWindow,
            CommandEffect::Info(m) => CommandEffectView::Info(m@),
            CommandEffect::Failure(m) => CommandEffectView::Failure(m@),
            CommandEffect::ApplyTheme(n) => CommandEffectView::ApplyTheme(n@),
            CommandEffect::SetOnDisk { key, value } => CommandEffectView::SetOnDisk {
                key: key@,
                value: opt_view(*value),
            },
            CommandEffect::ReloadConfig => CommandEffectView::ReloadConfig,
            CommandEffect::OpenSettings => CommandEffectView::OpenSettings,
            CommandEffect::OpenLinker => CommandEffectView::OpenLinker,
        }
    }
}

/// What running a parsed `:command` does.
pub open spec fn command_plan(c: crate::ui::commands::CommandView) -> CommandEffectView {
    match c {
        crate::ui::commands::CommandView::Empty => CommandEffectView::Nothing,
        crate::ui::commands::CommandView::Quit => CommandEffectView::CloseWindow,
        crate::ui::commands::CommandView::Write => CommandEffectView::Info(
            ":w — send not yet wired"@,
        ),
        crate::ui::commands::CommandView::Theme(None) => CommandEffectView::Info(
            "themes: "@ + join(theme_names(), ", "@),
        ),
        crate::ui::commands::CommandView::Theme(Some(n)) => CommandEffectView::ApplyTheme(n),
        crate::ui::commands::CommandView::Setting { key, value } => if key.len() == 0 {
            CommandEffectView::Failure(":set requires a key"@)
        } else {
            CommandEffectView::SetOnDisk { key, value }
        },
        crate::ui::commands::CommandView::Reload => CommandEffectView::ReloadConfig,
        crate::ui::commands::CommandView::Settings => CommandEffectView::OpenSettings,
        crate::ui::commands::CommandView::Link(_) => CommandEffectView::OpenLinker,
        crate::ui::commands::CommandView::Help => CommandEffectView::Info(
            ":q :w :theme <name> :set <key>[=<v>] :reload :settings :link <name> :help"@,
        ),
        crate::ui::commands::CommandView::Unknown(h) => CommandEffectView::Failure(
            "unknown command: :"@ + h,
        ),
    }
}

/// Decide what a parsed `:command` does.
pub fn plan_command(cmd: &Command) -> (e: CommandEffect)
    ensures
        e@ == command_plan(cmd@),
{
    match cmd {
        Command::Empty => CommandEffect::Nothing,
        Command::Quit => CommandEffect::CloseWindow,
        Command::Write => CommandEffect::Info(":w — send not yet wired".to_owned()),
        Command::Theme(None) => {
            let mut v = chars_of("themes: ");
            let csv = theme_names_csv();
            push_str(&mut v, csv.as_str());
            CommandEffect::Info(string_of(v.as_slice()))
        },
        Command::Theme(Some(n)) => CommandEffect::ApplyTheme(n.clone()),
        Command::Setting { key, value } => {
            if key.as_str().is_empty() {
                CommandEffect::Failure(":set requires a key".to_owned())
            } else {
                CommandEffect::SetOnDisk { key: key.clone(), value: value.clone() }
            }
        },
        Command::Reload => CommandEffect::ReloadConfig,
        Command::Settings => CommandEffect::OpenSettings,
        Command::Link(_) => CommandEffect::OpenLinker,
        Command::Help => CommandEffect::Info(help_text().to_owned()),
        Command::Unknown(h) => {
            let mut v = chars_of("unknown command: :");
            push_str(&mut v, h.as_str());
            CommandEffect::Failure(string_of(v.as_slice()))
        },
    }
}

/// `n` occurs in `h` as a contiguous run.
pub open spec fn contains_seq(h: Seq<char>, n: Seq<char>) -> bool {
    exists|i: int| 0 <= i && i + n.len() <= h.len() && #[trigger] h.subrange(i, i + n.len()) == n
}

fn occurs_at(h: &[char], n: &[char], i: usize) -> (r: bool)
    requires
        i + n@.len() <= h@.len(),
    ensures
        r == (h@.subrange(i as int, i + n@.len()) == n@),
{
    let hl = h.len();
    let mut j: usize = 0;
    while j < n.len()
        invariant
            hl == h@.len(),
            i + n@.len() <= h@.len(),
            j <= n@.len(),
            forall|k: int| 0 <= k < j ==> h@[i + k] == n@[k],
        decreases n@.len() - j,
    {
        if h[i + j] != n[j] {
            assert(h@.subrange(i as int, i + n@.len())[j as int] != n@[j as int]);
            return false;
        }
        j = j + 1;
    }
    assert(h@.subrange(i as int, i + n@.len()) =~= n@);
    true
}

/// Whether `n` occurs in `h`.
pub fn chars_contain(h: &[char], n: &[char]) -> (r: bool)
    ensures
        r == contains_seq(h@, n@),
{
    if n.len() > h.len() {
        return false;
    }
    let last = h.len() - n.len();
    let mut i: usize = 0;
    loop
        invariant
            last + n@.len() == h@.len(),
            i <= last,
            forall|k: int| 0 <= k < i ==> #[trigger] h@.subrange(k, k + n@.len()) != n@,
        ensures
            forall|k: int| 0 <= k <= last ==> #[trigger] h@.subrange(k, k + n@.len()) != n@,
        decreases last - i,
    {
        if occurs_at(h, n, i) {
            return true;
        }
        if i == last {
            break;
        }
        i = i + 1;
    }
    proof {
        assert forall|k: int| 0 <= k && k + n@.len() <= h@.len() implies #[trigger] h@.subrange(
            k,
            k + n@.len(),
        ) != n@ by {
            assert(k <= last);
        }
    }
    false
}

/// Sidebar filter: a row passes when the needle is empty, when the row
/// has no label, or when its label contains the needle ignoring ASCII
/// case.
pub open spec fn row_passes(label: Option<Seq<char>>, needle: Seq<char>) -> bool {
    needle.len() == 0 || match label {
        None => true,
        Some(t) => contains_seq(lower_seq(t), lower_seq(needle)),
    }
}

pub fn label_matches(label: Option<&str>, needle: &str) -> (b: bool)
    ensures
        b == row_passes(crate::ui::commands::opt_str_view(label), needle@),
{
    if needle.is_empty() {
        return true;
    }
    match label {
        None => true,
        Some(t) => {
            let tv = chars_of(t);
            let nv = chars_of(needle);
            let tl = lower_chars(tv.as_slice());
            let nl = lower_chars(nv.as_slice());
            chars_contain(tl.as_slice(), nl.as_slice())
        },
    }
}

} // verus!
