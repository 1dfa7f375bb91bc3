//! `:command` palette: parsing a command line and applying `:set` to a
//! configuration.
use vstd::prelude::*;
use crate::config::Config;
use crate::messenger::{find_char, first_index, lemma_first_index_range};
use crate::text::{
    chars_eq_str, chars_of, debug_quoted, is_ws, lower_chars, lower_seq, push_debug, push_str,
    slice_chars, string_of, trim, trim_chars,
};
use crate::theme::builtin::{builtin_name, known_names, BUILTIN_COUNT};

verus! {

/// Parsed `:command` line. Whitespace-only / empty input becomes
/// [`Command::Empty`] (a no-op).
#[derive(Debug, Clone, PartialEq, Eq)]
pub enum Command {
    Empty,
    Quit,
    Write,
    Theme(Option<String>),
    /// `:set key` (toggle a bool) or `:set key = value`.
    Setting { key: String, value: Option<String> },
    Reload,
    Settings,
    Link(Option<String>),
    Help,
    Unknown(String),
}

pub enum CommandView {
    Empty,
    Quit,
    Write,
    Theme(Option<Seq<char>>),
    Setting { key: Seq<char>, value: Option<Seq<char>> },
    Reload,
    Settings,
    Link(Option<Seq<char>>),
    Help,
    Unknown(Seq<char>),
}

/// The chars of an optional string.
pub open spec fn opt_view(o: Option<String>) -> Option<Seq<char>> {
    match o {
        Some(s) => Some(s@),
        None => None,
    }
}

/// The chars of an optional string slice.
pub open spec fn opt_str_view(o: Option<&str>) -> Option<Seq<char>> {
    match o {
        Some(s) => Some(s@),
        None => None,
    }
}

impl View for Command {
    type V = CommandView;

    open spec fn view(&self) -> CommandView {
        match self {
            Command::Empty => CommandView::Empty,
            Command::Quit => CommandView::Quit,
            Command::Write => CommandView::Write,
            Command::Theme(a) => CommandView::Theme(opt_view(*a)),
            Command::Setting { key, value } => CommandView::Setting { key: key@, value: opt_view(*value) },
            Command::Reload => CommandView::Reload,
            Command::Settings => CommandView::Settings,
            Command::Link(a) => CommandView::Link(opt_view(*a)),
            Command::Help => CommandView::Help,
            Command::Unknown(h) => CommandView::Unknown(h@),
        }
    }
}

/// Index of the first whitespace char.
pub open spec fn first_ws(s: Seq<char>) -> Option<int>
    decreases s.len(),
{
    if s.len() == 0 {
        None
    } else if is_ws(s[0]) {
        Some(0)
    } else {
        match first_ws(s.drop_first()) {
            Some(i) => Some(i + 1),
            None => None,
        }
    }
}

/// The command word: everything before the first whitespace char.
pub open spec fn head_of(t: Seq<char>) -> Seq<char> {
    match first_ws(t) {
        Some(i) => t.subrange(0, i),
        None => t,
    }
}

/// The argument: everything after the first whitespace char, trimmed.
pub open spec fn rest_of(t: Seq<char>) -> Seq<char> {
    match first_ws(t) {
        Some(i) => trim(t.subrange(i + 1, t.len() as int)),
        None => Seq::<char>::empty(),
    }
}

/// An optional argument: absent when empty.
pub open spec fn opt_arg(r: Seq<char>) -> Option<Seq<char>> {
    if r.len() == 0 {
        None
    } else {
        Some(r)
    }
}

/// `:set` arguments: `key`, or `key = value` split at the first `=`
/// with whitespace around both sides dropped.
pub open spec fn set_of(rest: Seq<char>) -> CommandView {
    if rest.len() == 0 {
        CommandView::Setting { key: Seq::<char>::empty(), value: None }
    } else {
        match first_index(rest, '=') {
            Some(e) => CommandView::Setting {
                key: trim(rest.subrange(0, e)),
                value: Some(trim(rest.subrange(e + 1, rest.len() as int))),
            },
            None => CommandView::Setting { key: trim(rest), value: None },
        }
    }
}

/// The command a line denotes. Command words are case-sensitive.
pub open spec fn command_of(line: Seq<char>) -> CommandView {
    let t = trim(line);
    if t.len() == 0 {
        CommandView::Empty
    } else {
        let h = head_of(t);
        let r = rest_of(t);
        if h == "q"@ || h == "quit"@ {
            CommandView::Quit
        } else if h == "w"@ || h == "write"@ {
            CommandView::Write
        } else if h == "theme"@ {
            CommandView::Theme(opt_arg(r))
        } else if h == "set"@ {
            set_of(r)
        } else if h == "reload"@ {
            CommandView::Reload
        } else if h == "settings"@ || h == "prefs"@ || h == "preferences"@ {
            CommandView::Settings
        } else if h == "link"@ {
            CommandView::Link(opt_arg(r))
        } else if h == "help"@ {
            CommandView::Help
        } else {
            CommandView::Unknown(h)
        }
    }
}

fn find_ws(v: &[char]) -> (r: Option<usize>)
    ensures
        r matches Some(i) ==> first_ws(v@) == Some(i as int) && i < v@.len(),
        r is None ==> first_ws(v@) is None,
{
    let mut i: usize = 0;
    assert(v@.subrange(0, v@.len() as int) =~= v@);
    while i < v.len()
        invariant
            i <= v@.len(),
            first_ws(v@) == match first_ws(v@.subrange(i as int, v@.len() as int)) {
                Some(j) => Some(j + i),
                None => None,
            },
        decreases v@.len() - i,
    {
        let ghost rest = v@.subrange(i as int, v@.len() as int);
        if crate::text::char_is_whitespace(v[i]) {
            assert(rest[0] == v@[i as int]);
            return Some(i);
        }
        assert(rest.drop_first() =~= v@.subrange(i + 1, v@.len() as int));
        i = i + 1;
    }
    None
}

fn opt_string(r: &[char]) -> (o: Option<String>)
    ensures
        opt_view(o) == opt_arg(r@),
{
    if r.len() == 0 {
        None
    } else {
        Some(string_of(r))
    }
}

/// Parse `:set` arguments (already trimmed).
pub fn parse_set(rest: &str) -> (c: Command)
    ensures
        c@ == set_of(rest@),
{
    let v = chars_of(rest);
    if v.len() == 0 {
        return Command::Setting { key: String::new(), value: None };
    }
    match find_char(v.as_slice(), '=') {
        Some(e) => {
            proof {
                lemma_first_index_range(v@, '=');
            }
            let k = slice_chars(v.as_slice(), 0, e);
            let val = slice_chars(v.as_slice(), e + 1, v.len());
            let kt = trim_chars(k.as_slice());
            let vt = trim_chars(val.as_slice());
            Command::Setting { key: string_of(kt.as_slice()), value: Some(string_of(vt.as_slice())) }
        },
        None => {
            let kt = trim_chars(v.as_slice());
            Command::Setting { key: string_of(kt.as_slice()), value: None }
        },
    }
}

/// Parse a single `:command` line (without the leading `:`).
pub fn parse_command(line: &str) -> (c: Command)
    ensures
        c@ == command_of(line@),
{
    let lv = chars_of(line);
    let t = trim_chars(lv.as_slice());
    if t.len() == 0 {
        return Command::Empty;
    }
    let (h, r) = match find_ws(t.as_slice()) {
        Some(i) => {
            let h = slice_chars(t.as_slice(), 0, i);
            let r0 = slice_chars(t.as_slice(), i + 1, t.len());
            (h, trim_chars(r0.as_slice()))
        },
        None => {
            let h = slice_chars(t.as_slice(), 0, t.len());
            assert(t@.subrange(0, t@.len() as int) =~= t@);
            (h, Vec::new())
        },
    };
    assert(h@ == head_of(t@));
    assert(r@ == rest_of(t@));
    let hs = h.as_slice();
    if chars_eq_str(hs, "q") || chars_eq_str(hs, "quit") {
        Command::Quit
    } else if chars_eq_str(hs, "w") || chars_eq_str(hs, "write") {
        Command::Write
    } else if chars_eq_str(hs, "theme") {
        Command::Theme(opt_string(r.as_slice()))
    } else if chars_eq_str(hs, "set") {
        let rs = string_of(r.as_slice());
        parse_set(rs.as_str())
    } else if chars_eq_str(hs, "reload") {
        Command::Reload
    } else if chars_eq_str(hs, "settings") || chars_eq_str(hs, "prefs") || chars_eq_str(
        hs,
        "preferences",
    ) {
        Command::Settings
    } else if chars_eq_str(hs, "link") {
        Command::Link(opt_string(r.as_slice()))
    } else if chars_eq_str(hs, "help") {
        Command::Help
    } else {
        Command::Unknown(string_of(hs))
    }
}

/// A boolean spelled one of the accepted ways (already lower-cased and
/// trimmed).
pub open spec fn bool_word(s: Seq<char>) -> Option<bool> {
    if s == "true"@ || s == "on"@ || s == "yes"@ || s == "1"@ {
        Some(true)
    } else if s == "false"@ || s == "off"@ || s == "no"@ || s == "0"@ {
        Some(false)
    } else {
        None
    }
}

/// The new value of a boolean setting: toggled without a value,
/// otherwise the value read as a boolean.
pub open spec fn bool_setting(value: Option<Seq<char>>, current: bool) -> Result<bool, Seq<char>> {
    match value {
        None => Ok(!current),
        Some(s) => {
            let l = lower_seq(trim(s));
            match bool_word(l) {
                Some(b) => Ok(b),
                None => Err("expected bool, got "@ + debug_quoted(l)),
            }
        },
    }
}

/// Read a boolean setting: `None` toggles `current`; otherwise one of
/// `true on yes 1` / `false off no 0`, case-insensitively.
pub fn parse_bool_set(value: Option<&str>, current: bool) -> (r: Result<bool, String>)
    ensures
        match bool_setting(opt_str_view(value), current) {
            Ok(b) => r == Ok::<bool, String>(b),
            Err(m) => r matches Err(e) && e@ == m,
        },
{
    match value {
        None => Ok(!current),
        Some(s) => {
            let sv = chars_of(s);
            let t = trim_chars(sv.as_slice());
            let l = lower_chars(t.as_slice());
            let ls = l.as_slice();
            if chars_eq_str(ls, "true") || chars_eq_str(ls, "on") || chars_eq_str(ls, "yes")
                || chars_eq_str(ls, "1") {
                Ok(true)
            } else if chars_eq_str(ls, "false") || chars_eq_str(ls, "off") || chars_eq_str(
                ls,
                "no",
            ) || chars_eq_str(ls, "0") {
                Ok(false)
            } else {
                let mut m = chars_of("expected bool, got ");
                push_debug(&mut m, ls);
                Err(string_of(m.as_slice()))
            }
        },
    }
}

/// The settings `:set` can change.
pub struct Settable {
    pub theme: Seq<char>,
    pub start_maximized: bool,
    pub hyprland_blur: bool,
    pub notifications_enabled: bool,
    pub dnd_per_chat: bool,
    pub font: Seq<char>,
    pub message_bubbles: bool,
    pub leader_key: Seq<char>,
}

pub open spec fn settable(c: Config) -> Settable {
    Settable {
        theme: c.general.theme@,
        start_maximized: c.general.start_maximized,
        hyprland_blur: c.general.hyprland_blur,
        notifications_enabled: c.notifications.enabled,
        dnd_per_chat: c.notifications.dnd_per_chat,
        font: c.appearance.font@,
        message_bubbles: c.appearance.message_bubbles,
        leader_key: c.general.leader_key@,
    }
}

/// Everything `:set` never touches is equal.
pub open spec fn untouched(a: Config, b: Config) -> bool {
    &&& a.keymap == b.keymap
    &&& a.notifications.sound == b.notifications.sound
    &&& a.backends == b.backends
    &&& a.onboarding == b.onboarding
}

pub open spec fn bool_text(b: bool) -> Seq<char> {
    if b {
        "true"@
    } else {
        "false"@
    }
}

/// Outcome of a string setting: the value is required.
pub open spec fn string_set(name: Seq<char>, value: Option<Seq<char>>, hint: Seq<char>) -> Result<
    (Seq<char>, Seq<char>),
    Seq<char>,
> {
    match value {
        Some(v) => Ok((v, name + " = "@ + v)),
        None => Err("`:set "@ + name + " = "@ + hint + "` requires a value"@),
    }
}

/// Outcome of a boolean setting.
pub open spec fn bool_set(name: Seq<char>, value: Option<Seq<char>>, current: bool) -> Result<
    (bool, Seq<char>),
    Seq<char>,
> {
    match bool_setting(value, current) {
        Ok(b) => Ok((b, name + " = "@ + bool_text(b))),
        Err(m) => Err(m),
    }
}

/// What `:set key [= value]` does to the settable fields: the new
/// fields and the confirmation message, or the error message.
pub open spec fn set_result(s: Settable, key: Seq<char>, value: Option<Seq<char>>) -> Result<
    (Settable, Seq<char>),
    Seq<char>,
> {
    if key == "theme"@ {
        match string_set("theme"@, value, "<name>"@) {
            Ok((v, m)) => Ok((Settable { theme: v, ..s }, m)),
            Err(e) => Err(e),
        }
    } else if key == "start_maximized"@ {
        match bool_set(key, value, s.start_maximized) {
            Ok((b, m)) => Ok((Settable { start_maximized: b, ..s }, m)),
            Err(e) => Err(e),
        }
    } else if key == "hyprland_blur"@ {
        match bool_set(key, value, s.hyprland_blur) {
            Ok((b, m)) => Ok((Settable { hyprland_blur: b, ..s }, m)),
            Err(e) => Err(e),
        }
    } else if key == "notifications.enabled"@ {
        match bool_set(key, value, s.notifications_enabled) {
            Ok((b, m)) => Ok((Settable { notifications_enabled: b, ..s }, m)),
            Err(e) => Err(e),
        }
    } else if key == "notifications.dnd_per_chat"@ {
        match bool_set(key, value, s.dnd_per_chat) {
            Ok((b, m)) => Ok((Settable { dnd_per_chat: b, ..s }, m)),
            Err(e) => Err(e),
        }
    } else if key == "appearance.font"@ {
        match string_set("appearance.font"@, value, "<font>"@) {
            Ok((v, m)) => Ok((Settable { font: v, ..s }, m)),
            Err(e) => Err(e),
        }
    } else if key == "appearance.message_bubbles"@ {
        match bool_set(key, value, s.message_bubbles) {
            Ok((b, m)) => Ok((Settable { message_bubbles: b, ..s }, m)),
            Err(e) => Err(e),
        }
    } else if key == "general.leader_key"@ {
        match string_set("general.leader_key"@, value, "<key>"@) {
            Ok((v, m)) => Ok((Settable { leader_key: v, ..s }, m)),
            Err(e) => Err(e),
        }
    } else {
        Err("unknown setting: "@ + key)
    }
}

fn bool_msg(name: &str, b: bool) -> (m: String)
    ensures
        m@ == name@ + " = "@ + bool_text(b),
{
    let mut v = chars_of(name);
    push_str(&mut v, " = ");
    push_str(&mut v, if b { "true" } else { "false" });
    string_of(v.as_slice())
}

fn value_msg(name: &str, value: &str) -> (m: String)
    ensures
        m@ == name@ + " = "@ + value@,
{
    let mut v = chars_of(name);
    push_str(&mut v, " = ");
    push_str(&mut v, value);
    string_of(v.as_slice())
}

fn missing_value(name: &str, hint: &str) -> (m: String)
    ensures
        m@ == "`:set "@ + name@ + " = "@ + hint@ + "` requires a value"@,
{
    let mut v = chars_of("`:set ");
    push_str(&mut v, name);
    push_str(&mut v, " = ");
    push_str(&mut v, hint);
    push_str(&mut v, "` requires a value");
    string_of(v.as_slice())
}

/// Apply `:set key [= value]` to a configuration in place: the
/// confirmation message on success, the error message otherwise (the
/// configuration is then unchanged).
pub fn apply_set(cfg: &mut Config, key: &str, value: Option<&str>) -> (r: Result<String, String>)
    ensures
        untouched(*old(cfg), *final(cfg)),
        match set_result(settable(*old(cfg)), key@, opt_str_view(value)) {
            Ok((s, msg)) => (r matches Ok(m) && m@ == msg) && settable(*final(cfg)) == s,
            Err(msg) => (r matches Err(m) && m@ == msg) && settable(*final(cfg)) == settable(
                *old(cfg),
            ),
        },
{
    if str_is(key, "theme") {
        match value {
            Some(v) => {
                cfg.general.theme = v.to_owned();
                Ok(value_msg("theme", v))
            },
            None => Err(missing_value("theme", "<name>")),
        }
    } else if str_is(key, "start_maximized") {
        let b = parse_bool_set(value, cfg.general.start_maximized)?;
        cfg.general.start_maximized = b;
        Ok(bool_msg(key, b))
    } else if str_is(key, "hyprland_blur") {
        let b = parse_bool_set(value, cfg.general.hyprland_blur)?;
        cfg.general.hyprland_blur = b;
        Ok(bool_msg(key, b))
    } else if str_is(key, "notifications.enabled") {
        let b = parse_bool_set(value, cfg.notifications.enabled)?;
        cfg.notifications.enabled = b;
        Ok(bool_msg(key, b))
    } else if str_is(key, "notifications.dnd_per_chat") {
        let b = parse_bool_set(value, cfg.notifications.dnd_per_chat)?;
        cfg.notifications.dnd_per_chat = b;
        Ok(bool_msg(key, b))
    } else if str_is(key, "appearance.font") {
        match value {
            Some(v) => {
                cfg.appearance.font = v.to_owned();
                Ok(value_msg("appearance.font", v))
            },
            None => Err(missing_value("appearance.font", "<font>")),
        }
    } else if str_is(key, "appearance.message_bubbles") {
        let b = parse_bool_set(value, cfg.appearance.message_bubbles)?;
        cfg.appearance.message_bubbles = b;
        Ok(bool_msg(key, b))
    } else if str_is(key, "general.leader_key") {
        match value {
            Some(v) => {
                cfg.general.leader_key = v.to_owned();
                Ok(value_msg("general.leader_key", v))
            },
            None => Err(missing_value("general.leader_key", "<key>")),
        }
    } else {
        let mut m = chars_of("unknown setting: ");
        push_str(&mut m, key);
        Err(string_of(m.as_slice()))
    }
}

fn str_is(a: &str, b: &str) -> (r: bool)
    ensures
        r == (a@ == b@),
{
    crate::text::str_eq(a, b)
}

/// The supported-commands hint shown by `:help`.
pub fn help_text() -> (s: &'static str)
    ensures
        s@ == ":q :w :theme <name> :set <key>[=<v>] :reload :settings :link <name> :help"@,
{
    ":q :w :theme <name> :set <key>[=<v>] :reload :settings :link <name> :help"
}

/// Pieces joined with a separator between neighbours.
pub open spec fn join(parts: Seq<Seq<char>>, sep: Seq<char>) -> Seq<char>
    decreases parts.len(),
{
    if parts.len() == 0 {
        Seq::<char>::empty()
    } else if parts.len() == 1 {
        parts[0]
    } else {
        join(parts.drop_last(), sep) + sep + parts.last()
    }
}

/// The names `:theme` accepts, in order, `"system"` last.
pub open spec fn theme_names() -> Seq<Seq<char>> {
    Seq::new(BUILTIN_COUNT as nat, |i: int| builtin_name(i)).push("system"@)
}

/// Comma-separated list of valid theme names, for error toasts.
pub fn theme_names_csv() -> (s: String)
    ensures
        s@ == join(theme_names(), ", "@),
{
    let names = known_names();
    let ghost want = theme_names();
    assert(names@.len() == want.len());
    assert forall|i: int| 0 <= i < names@.len() implies #[trigger] names@[i]@ == want[i] by {
        if i < BUILTIN_COUNT {
        } else {
        }
    }
    let mut v: Vec<char> = Vec::new();
    let mut i: usize = 0;
    while i < names.len()
        invariant
            i <= names@.len(),
            names@.len() == want.len(),
            forall|k: int| 0 <= k < names@.len() ==> #[trigger] names@[k]@ == want[k],
            v@ == join(want.subrange(0, i as int), ", "@),
        decreases names@.len() - i,
    {
        let ghost pre = want.subrange(0, i + 1);
        assert(pre.drop_last() =~= want.subrange(0, i as int));
        if i > 0 {
            push_str(&mut v, ", ");
        } else {
            assert(pre.len() == 1);
        }
        push_str(&mut v, names[i]);
        i = i + 1;
    }
    assert(want.subrange(0, want.len() as int) =~= want);
    string_of(v.as_slice())
}

} // verus!
