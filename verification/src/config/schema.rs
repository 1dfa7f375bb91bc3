//! The configuration schema with its defaults.
//!
//! Key bindings are held as `(sequence, action name)` pairs in the order
//! the configuration lists them; a table read from TOML arrives sorted by
//! sequence with each sequence once.
use vstd::prelude::*;
use crate::text::str_lt;

verus! {

#[derive(Debug, Clone)]
pub struct Config {
    pub general: General,
    pub keymap: Keymap,
    pub notifications: Notifications,
    pub appearance: Appearance,
    pub backends: Backends,
    pub onboarding: Onboarding,
}

#[derive(Debug, Clone)]
pub struct General {
    pub theme: String,
    pub leader_key: String,
    pub start_maximized: bool,
    pub hyprland_blur: bool,
}

#[derive(Debug, Clone)]
pub struct Keymap {
    pub normal: Vec<(String, String)>,
    pub insert: Vec<(String, String)>,
    pub command: Vec<(String, String)>,
}

#[derive(Debug)]
pub struct Notifications {
    pub enabled: bool,
    pub sound: String,
    pub dnd_per_chat: bool,
}

impl Clone for Notifications {
    fn clone(&self) -> (r: Notifications)
        ensures
            r == *self,
    {
        Notifications {
            enabled: self.enabled,
            sound: self.sound.clone(),
            dnd_per_chat: self.dnd_per_chat,
        }
    }
}

#[derive(Debug, Clone)]
pub struct Appearance {
    pub font: String,
    pub message_bubbles: bool,
}

#[derive(Debug, Clone)]
pub struct Backends {
    pub signal: SignalBackendConfig,
    pub telegram: TelegramBackendConfig,
}

#[derive(Debug, Clone)]
pub struct SignalBackendConfig {
    pub enabled: bool,
}

#[derive(Debug, Clone)]
pub struct TelegramBackendConfig {
    pub enabled: bool,
    pub api_id: i32,
    pub api_hash: String,
    /// Where the Telegram session blob is persisted. Empty string means
    /// "use the default location", materialised by the caller.
    pub session_path: String,
}

/// First-run onboarding state.
#[derive(Debug, Clone)]
pub struct Onboarding {
    pub completed: bool,
}

impl Default for General {
    fn default() -> (g: General)
        ensures
            g.theme@ == "catppuccin-mocha"@,
            g.leader_key@ == "<Space>"@,
            g.start_maximized,
            g.hyprland_blur,
    {
        General {
            theme: String::from_str("catppuccin-mocha"),
            leader_key: String::from_str("<Space>"),
            start_maximized: true,
            hyprland_blur: true,
        }
    }
}

/// A binding table as a TOML table gives it: sequences in strictly
/// increasing code-point order, so each sequence at most once.
pub open spec fn table_sorted(t: Seq<(String, String)>) -> bool {
    forall|i: int, j: int| 0 <= i < j < t.len() ==> str_lt(#[trigger] t[i].0@, #[trigger] t[j].0@)
}

/// All three binding tables are sorted with distinct sequences.
pub open spec fn keymap_tables_sorted(k: Keymap) -> bool {
    &&& table_sorted(k.normal@)
    &&& table_sorted(k.insert@)
    &&& table_sorted(k.command@)
}

impl Default for Keymap {
    fn default() -> (k: Keymap)
        ensures
            k.normal@.len() == 0,
            k.insert@.len() == 0,
            k.command@.len() == 0,
            keymap_tables_sorted(k),
    {
        Keymap { normal: Vec::new(), insert: Vec::new(), command: Vec::new() }
    }
}

impl Default for Notifications {
    fn default() -> (n: Notifications)
        ensures
            n.enabled,
            n.sound@ == "default"@,
            n.dnd_per_chat,
    {
        Notifications { enabled: true, sound: String::from_str("default"), dnd_per_chat: true }
    }
}

impl Default for Appearance {
    fn default() -> (a: Appearance)
        ensures
            a.font@ == "Inter 11"@,
            a.message_bubbles,
    {
        Appearance { font: String::from_str("Inter 11"), message_bubbles: true }
    }
}

impl Default for SignalBackendConfig {
    fn default() -> (s: SignalBackendConfig)
        ensures
            s.enabled,
    {
        SignalBackendConfig { enabled: true }
    }
}

impl Default for TelegramBackendConfig {
    fn default() -> (t: TelegramBackendConfig)
        ensures
            !t.enabled,
            t.api_id == 0,
            t.api_hash@.len() == 0,
            t.session_path@.len() == 0,
    {
        TelegramBackendConfig {
            enabled: false,
            api_id: 0,
            api_hash: String::new(),
            session_path: String::new(),
        }
    }
}

impl Default for Backends {
    fn default() -> (b: Backends)
        ensures
            b.signal.enabled,
            !b.telegram.enabled,
            b.telegram.api_id == 0,
            b.telegram.api_hash@.len() == 0,
            b.telegram.session_path@.len() == 0,
    {
        Backends { signal: SignalBackendConfig::default(), telegram: TelegramBackendConfig::default() }
    }
}

impl Default for Onboarding {
    fn default() -> (o: Onboarding)
        ensures
            !o.completed,
    {
        Onboarding { completed: false }
    }
}

/// Whether a configuration carries the documented defaults.
pub open spec fn is_default_config(c: Config) -> bool {
    &&& c.general.theme@ == "catppuccin-mocha"@
    &&& c.general.leader_key@ == "<Space>"@
    &&& c.general.start_maximized
    &&& c.general.hyprland_blur
    &&& c.keymap.normal@.len() == 0
    &&& c.keymap.insert@.len() == 0
    &&& c.keymap.command@.len() == 0
    &&& c.notifications.enabled
    &&& c.notifications.sound@ == "default"@
    &&& c.notifications.dnd_per_chat
    &&& c.appearance.font@ == "Inter 11"@
    &&& c.appearance.message_bubbles
    &&& c.backends.signal.enabled
    &&& !c.backends.telegram.enabled
    &&& c.backends.telegram.api_id == 0
    &&& c.backends.telegram.api_hash@.len() == 0
    &&& c.backends.telegram.session_path@.len() == 0
    &&& !c.onboarding.completed
}

impl Default for Config {
    fn default() -> (c: Config)
        ensures
            is_default_config(c),
            keymap_tables_sorted(c.keymap),
    {
        Config {
            general: General::default(),
            keymap: Keymap::default(),
            notifications: Notifications::default(),
            appearance: Appearance::default(),
            backends: Backends::default(),
            onboarding: Onboarding::default(),
        }
    }
}

} // verus!
