//! Built-in themes: the canonical names, the embedded stylesheet of each
//! and the colour scheme each one nudges libadwaita toward.
//!
//! Every stylesheet defines the same thirteen `kryptos_*` colours (the
//! palette) and styles the chrome with them, so a user's `custom.css` can
//! override single colours of any theme.
use vstd::prelude::*;
use crate::text::{chars_of, chars_eq_str, lower_chars, lower_seq, trim, trim_chars};
use crate::ui::dispatcher::contains_seq;

verus! {

/// The libadwaita colour scheme a theme asks for.
#[derive(Debug, Clone, Copy, PartialEq, Eq, Structural)]
pub enum ColorScheme {
    /// Follow the desktop.
    Default,
    ForceLight,
    ForceDark,
}

/// Resolved built-in theme: its name, its stylesheet and the colour
/// scheme to nudge libadwaita-aware widgets toward.
#[derive(Debug, Clone, Copy)]
pub struct Builtin {
    pub canonical_name: &'static str,
    pub css: &'static str,
    pub color_scheme: ColorScheme,
}

pub const CATPPUCCIN_MOCHA: &'static str = "/* catppuccin-mocha */\n@define-color kryptos_bg #1e1e2e;\n@define-color kryptos_mantle #181825;\n@define-color kryptos_surface #313244;\n@define-color kryptos_surface2 #585b70;\n@define-color kryptos_overlay #6c7086;\n@define-color kryptos_fg #cdd6f4;\n@define-color kryptos_subtle #a6adc8;\n@define-color kryptos_accent #cba6f7;\n@define-color kryptos_blue #89b4fa;\n@define-color kryptos_green #a6e3a1;\n@define-color kryptos_yellow #f9e2af;\n@define-color kryptos_red #f38ba8;\n@define-color kryptos_lavender #b4befe;\n.background, window { background-color: @kryptos_bg; color: @kryptos_fg; }\n.navigation-sidebar, .sidebar-header { background-color: @kryptos_mantle; }\nheaderbar { background-color: @kryptos_surface; color: @kryptos_fg; }\n.kryptos-chat-row:hover, .chat-avatar { background-color: @kryptos_surface2; }\n.kryptos-chat-row:selected { border-left-color: @kryptos_accent; }\n.chat-preview, .chat-timestamp, .dim-label { color: @kryptos_subtle; }\ntooltip { background-color: @kryptos_overlay; color: @kryptos_fg; }\n.bubble-theirs { background-color: @kryptos_surface; color: @kryptos_fg; }\n.bubble-mine { background-color: @kryptos_accent; color: @kryptos_bg; }\nlink, .suggested-action { color: @kryptos_accent; }\n.error, .destructive-action { color: @kryptos_red; }\n.kryptos-modeline { background-color: @kryptos_mantle; color: @kryptos_fg; }\n.modeline.normal, .modeline-mode-block.mode-normal { background-color: @kryptos_green; color: @kryptos_bg; }\n.modeline.insert, .modeline-mode-block.mode-insert { background-color: @kryptos_blue; color: @kryptos_bg; }\n.modeline.command, .modeline-mode-block.mode-command { background-color: @kryptos_lavender; color: @kryptos_bg; }\n.modeline.search, .modeline-mode-block.mode-search { background-color: @kryptos_yellow; color: @kryptos_bg; }\n.composer-normal { border-left-color: @kryptos_green; }\n.composer-insert { border-left-color: @kryptos_blue; }\n.composer-visual { border-left-color: @kryptos_lavender; }\n";

pub const CATPPUCCIN_LATTE: &'static str = "/* catppuccin-latte */\n@define-color kryptos_bg #eff1f5;\n@define-color kryptos_mantle #e6e9ef;\n@define-color kryptos_surface #ccd0da;\n@define-color kryptos_surface2 #acb0be;\n@define-color kryptos_overlay #9ca0b0;\n@define-color kryptos_fg #4c4f69;\n@define-color kryptos_subtle #6c6f85;\n@define-color kryptos_accent #8839ef;\n@define-color kryptos_blue #1e66f5;\n@define-color kryptos_green #40a02b;\n@define-color kryptos_yellow #df8e1d;\n@define-color kryptos_red #d20f39;\n@define-color kryptos_lavender #7287fd;\n.background, window { background-color: @kryptos_bg; color: @kryptos_fg; }\n.navigation-sidebar, .sidebar-header { background-color: @kryptos_mantle; }\nheaderbar { background-color: @kryptos_surface; color: @kryptos_fg; }\n.kryptos-chat-row:hover, .chat-avatar { background-color: @kryptos_surface2; }\n.kryptos-chat-row:selected { border-left-color: @kryptos_accent; }\n.chat-preview, .chat-timestamp, .dim-label { color: @kryptos_subtle; }\ntooltip { background-color: @kryptos_overlay; color: @kryptos_fg; }\n.bubble-theirs { background-color: @kryptos_surface; color: @kryptos_fg; }\n.bubble-mine { background-color: @kryptos_accent; color: @kryptos_bg; }\nlink, .suggested-action { color: @kryptos_accent; }\n.error, .destructive-action { color: @kryptos_red; }\n.kryptos-modeline { background-color: @kryptos_mantle; color: @kryptos_fg; }\n.modeline.normal, .modeline-mode-block.mode-normal { background-color: @kryptos_green; color: @kryptos_bg; }\n.modeline.insert, .modeline-mode-block.mode-insert { background-color: @kryptos_blue; color: @kryptos_bg; }\n.modeline.command, .modeline-mode-block.mode-command { background-color: @kryptos_lavender; color: @kryptos_bg; }\n.modeline.search, .modeline-mode-block.mode-search { background-color: @kryptos_yellow; color: @kryptos_bg; }\n.composer-normal { border-left-color: @kryptos_green; }\n.composer-insert { border-left-color: @kryptos_blue; }\n.composer-visual { border-left-color: @kryptos_lavender; }\n";

pub const CATPPUCCIN_FRAPPE: &'static str = "/* catppuccin-frappe */\n@define-color kryptos_bg #303446;\n@define-color kryptos_mantle #292c3c;\n@define-color kryptos_surface #414559;\n@define-color kryptos_surface2 #626880;\n@define-color kryptos_overlay #737994;\n@define-color kryptos_fg #c6d0f5;\n@define-color kryptos_subtle #a5adce;\n@define-color kryptos_accent #ca9ee6;\n@define-color kryptos_blue #8caaee;\n@define-color kryptos_green #a6d189;\n@define-color kryptos_yellow #e5c890;\n@define-color kryptos_red #e78284;\n@define-color kryptos_lavender #babbf1;\n.background, window { background-color: @kryptos_bg; color: @kryptos_fg; }\n.navigation-sidebar, .sidebar-header { background-color: @kryptos_mantle; }\nheaderbar { background-color: @kryptos_surface; color: @kryptos_fg; }\n.kryptos-chat-row:hover, .chat-avatar { background-color: @kryptos_surface2; }\n.kryptos-chat-row:selected { border-left-color: @kryptos_accent; }\n.chat-preview, .chat-timestamp, .dim-label { color: @kryptos_subtle; }\ntooltip { background-color: @kryptos_overlay; color: @kryptos_fg; }\n.bubble-theirs { background-color: @kryptos_surface; color: @kryptos_fg; }\n.bubble-mine { background-color: @kryptos_accent; color: @kryptos_bg; }\nlink, .suggested-action { color: @kryptos_accent; }\n.error, .destructive-action { color: @kryptos_red; }\n.kryptos-modeline { background-color: @kryptos_mantle; color: @kryptos_fg; }\n.modeline.normal, .modeline-mode-block.mode-normal { background-color: @kryptos_green; color: @kryptos_bg; }\n.modeline.insert, .modeline-mode-block.mode-insert { background-color: @kryptos_blue; color: @kryptos_bg; }\n.modeline.command, .modeline-mode-block.mode-command { background-color: @kryptos_lavender; color: @kryptos_bg; }\n.modeline.search, .modeline-mode-block.mode-search { background-color: @kryptos_yellow; color: @kryptos_bg; }\n.composer-normal { border-left-color: @kryptos_green; }\n.composer-insert { border-left-color: @kryptos_blue; }\n.composer-visual { border-left-color: @kryptos_lavender; }\n";

pub const CATPPUCCIN_MACCHIATO: &'static str = "/* catppuccin-macchiato */\n@define-color kryptos_bg #24273a;\n@define-color kryptos_mantle #1e2030;\n@define-color kryptos_surface #363a4f;\n@define-color kryptos_surface2 #5b6078;\n@define-color kryptos_overlay #6e738d;\n@define-color kryptos_fg #cad3f5;\n@define-color kryptos_subtle #a5adcb;\n@define-color kryptos_accent #c6a0f6;\n@define-color kryptos_blue #8aadf4;\n@define-color kryptos_green #a6da95;\n@define-color kryptos_yellow #eed49f;\n@define-color kryptos_red #ed8796;\n@define-color kryptos_lavender #b7bdf8;\n.background, window { background-color: @kryptos_bg; color: @kryptos_fg; }\n.navigation-sidebar, .sidebar-header { background-color: @kryptos_mantle; }\nheaderbar { background-color: @kryptos_surface; color: @kryptos_fg; }\n.kryptos-chat-row:hover, .chat-avatar { background-color: @kryptos_surface2; }\n.kryptos-chat-row:selected { border-left-color: @kryptos_accent; }\n.chat-preview, .chat-timestamp, .dim-label { color: @kryptos_subtle; }\ntooltip { background-color: @kryptos_overlay; color: @kryptos_fg; }\n.bubble-theirs { background-color: @kryptos_surface; color: @kryptos_fg; }\n.bubble-mine { background-color: @kryptos_accent; color: @kryptos_bg; }\nlink, .suggested-action { color: @kryptos_accent; }\n.error, .destructive-action { color: @kryptos_red; }\n.kryptos-modeline { background-color: @kryptos_mantle; color: @kryptos_fg; }\n.modeline.normal, .modeline-mode-block.mode-normal { background-color: @kryptos_green; color: @kryptos_bg; }\n.modeline.insert, .modeline-mode-block.mode-insert { background-color: @kryptos_blue; color: @kryptos_bg; }\n.modeline.command, .modeline-mode-block.mode-command { background-color: @kryptos_lavender; color: @kryptos_bg; }\n.modeline.search, .modeline-mode-block.mode-search { background-color: @kryptos_yellow; color: @kryptos_bg; }\n.composer-normal { border-left-color: @kryptos_green; }\n.composer-insert { border-left-color: @kryptos_blue; }\n.composer-visual { border-left-color: @kryptos_lavender; }\n";

pub const GRUVBOX: &'static str = "/* gruvbox */\n@define-color kryptos_bg #282828;\n@define-color kryptos_mantle #1d2021;\n@define-color kryptos_surface #3c3836;\n@define-color kryptos_surface2 #504945;\n@define-color kryptos_overlay #665c54;\n@define-color kryptos_fg #ebdbb2;\n@define-color kryptos_subtle #a89984;\n@define-color kryptos_accent #d3869b;\n@define-color kryptos_blue #83a598;\n@define-color kryptos_green #b8bb26;\n@define-color kryptos_yellow #fabd2f;\n@define-color kryptos_red #fb4934;\n@define-color kryptos_lavender #8ec07c;\n.background, window { background-color: @kryptos_bg; color: @kryptos_fg; }\n.navigation-sidebar, .sidebar-header { background-color: @kryptos_mantle; }\nheaderbar { background-color: @kryptos_surface; color: @kryptos_fg; }\n.kryptos-chat-row:hover, .chat-avatar { background-color: @kryptos_surface2; }\n.kryptos-chat-row:selected { border-left-color: @kryptos_accent; }\n.chat-preview, .chat-timestamp, .dim-label { color: @kryptos_subtle; }\ntooltip { background-color: @kryptos_overlay; color: @kryptos_fg; }\n.bubble-theirs { background-color: @kryptos_surface; color: @kryptos_fg; }\n.bubble-mine { background-color: @kryptos_accent; color: @kryptos_bg; }\nlink, .suggested-action { color: @kryptos_accent; }\n.error, .destructive-action { color: @kryptos_red; }\n.kryptos-modeline { background-color: @kryptos_mantle; color: @kryptos_fg; }\n.modeline.normal, .modeline-mode-block.mode-normal { background-color: @kryptos_green; color: @kryptos_bg; }\n.modeline.insert, .modeline-mode-block.mode-insert { background-color: @kryptos_blue; color: @kryptos_bg; }\n.modeline.command, .modeline-mode-block.mode-command { background-color: @kryptos_lavender; color: @kryptos_bg; }\n.modeline.search, .modeline-mode-block.mode-search { background-color: @kryptos_yellow; color: @kryptos_bg; }\n.composer-normal { border-left-color: @kryptos_green; }\n.composer-insert { border-left-color: @kryptos_blue; }\n.composer-visual { border-left-color: @kryptos_lavender; }\n";

pub const GRUVBOX_LIGHT: &'static str = "/* gruvbox-light */\n@define-color kryptos_bg #fbf1c7;\n@define-color kryptos_mantle #f9f5d7;\n@define-color kryptos_surface #ebdbb2;\n@define-color kryptos_surface2 #d5c4a1;\n@define-color kryptos_overlay #bdae93;\n@define-color kryptos_fg #3c3836;\n@define-color kryptos_subtle #7c6f64;\n@define-color kryptos_accent #b16286;\n@define-color kryptos_blue #076678;\n@define-color kryptos_green #79740e;\n@define-color kryptos_yellow #b57614;\n@define-color kryptos_red #9d0006;\n@define-color kryptos_lavender #427b58;\n.background, window { background-color: @kryptos_bg; color: @kryptos_fg; }\n.navigation-sidebar, .sidebar-header { background-color: @kryptos_mantle; }\nheaderbar { background-color: @kryptos_surface; color: @kryptos_fg; }\n.kryptos-chat-row:hover, .chat-avatar { background-color: @kryptos_surface2; }\n.kryptos-chat-row:selected { border-left-color: @kryptos_accent; }\n.chat-preview, .chat-timestamp, .dim-label { color: @kryptos_subtle; }\ntooltip { background-color: @kryptos_overlay; color: @kryptos_fg; }\n.bubble-theirs { background-color: @kryptos_surface; color: @kryptos_fg; }\n.bubble-mine { background-color: @kryptos_accent; color: @kryptos_bg; }\nlink, .suggested-action { color: @kryptos_accent; }\n.error, .destructive-action { color: @kryptos_red; }\n.kryptos-modeline { background-color: @kryptos_mantle; color: @kryptos_fg; }\n.modeline.normal, .modeline-mode-block.mode-normal { background-color: @kryptos_green; color: @kryptos_bg; }\n.modeline.insert, .modeline-mode-block.mode-insert { background-color: @kryptos_blue; color: @kryptos_bg; }\n.modeline.command, .modeline-mode-block.mode-command { background-color: @kryptos_lavender; color: @kryptos_bg; }\n.modeline.search, .modeline-mode-block.mode-search { background-color: @kryptos_yellow; color: @kryptos_bg; }\n.composer-normal { border-left-color: @kryptos_green; }\n.composer-insert { border-left-color: @kryptos_blue; }\n.composer-visual { border-left-color: @kryptos_lavender; }\n";

pub const TOKYO_NIGHT: &'static str = "/* tokyo-night */\n@define-color kryptos_bg #1a1b26;\n@define-color kryptos_mantle #16161e;\n@define-color kryptos_surface #292e42;\n@define-color kryptos_surface2 #414868;\n@define-color kryptos_overlay #565f89;\n@define-color kryptos_fg #c0caf5;\n@define-color kryptos_subtle #a9b1d6;\n@define-color kryptos_accent #bb9af7;\n@define-color kryptos_blue #7aa2f7;\n@define-color kryptos_green #9ece6a;\n@define-color kryptos_yellow #e0af68;\n@define-color kryptos_red #f7768e;\n@define-color kryptos_lavender #7dcfff;\n.background, window { background-color: @kryptos_bg; color: @kryptos_fg; }\n.navigation-sidebar, .sidebar-header { background-color: @kryptos_mantle; }\nheaderbar { background-color: @kryptos_surface; color: @kryptos_fg; }\n.kryptos-chat-row:hover, .chat-avatar { background-color: @kryptos_surface2; }\n.kryptos-chat-row:selected { border-left-color: @kryptos_accent; }\n.chat-preview, .chat-timestamp, .dim-label { color: @kryptos_subtle; }\ntooltip { background-color: @kryptos_overlay; color: @kryptos_fg; }\n.bubble-theirs { background-color: @kryptos_surface; color: @kryptos_fg; }\n.bubble-mine { background-color: @kryptos_accent; color: @kryptos_bg; }\nlink, .suggested-action { color: @kryptos_accent; }\n.error, .destructive-action { color: @kryptos_red; }\n.kryptos-modeline { background-color: @kryptos_mantle; color: @kryptos_fg; }\n.modeline.normal, .modeline-mode-block.mode-normal { background-color: @kryptos_green; color: @kryptos_bg; }\n.modeline.insert, .modeline-mode-block.mode-insert { background-color: @kryptos_blue; color: @kryptos_bg; }\n.modeline.command, .modeline-mode-block.mode-command { background-color: @kryptos_lavender; color: @kryptos_bg; }\n.modeline.search, .modeline-mode-block.mode-search { background-color: @kryptos_yellow; color: @kryptos_bg; }\n.composer-normal { border-left-color: @kryptos_green; }\n.composer-insert { border-left-color: @kryptos_blue; }\n.composer-visual { border-left-color: @kryptos_lavender; }\n";

pub const TOKYO_NIGHT_STORM: &'static str = "/* tokyo-night-storm */\n@define-color kryptos_bg #24283b;\n@define-color kryptos_mantle #1f2335;\n@define-color kryptos_surface #2e3450;\n@define-color kryptos_surface2 #414868;\n@define-color kryptos_overlay #565f89;\n@define-color kryptos_fg #c0caf5;\n@define-color kryptos_subtle #a9b1d6;\n@define-color kryptos_accent #bb9af7;\n@define-color kryptos_blue #7aa2f7;\n@define-color kryptos_green #9ece6a;\n@define-color kryptos_yellow #e0af68;\n@define-color kryptos_red #f7768e;\n@define-color kryptos_lavender #7dcfff;\n.background, window { background-color: @kryptos_bg; color: @kryptos_fg; }\n.navigation-sidebar, .sidebar-header { background-color: @kryptos_mantle; }\nheaderbar { background-color: @kryptos_surface; color: @kryptos_fg; }\n.kryptos-chat-row:hover, .chat-avatar { background-color: @kryptos_surface2; }\n.kryptos-chat-row:selected { border-left-color: @kryptos_accent; }\n.chat-preview, .chat-timestamp, .dim-label { color: @kryptos_subtle; }\ntooltip { background-color: @kryptos_overlay; color: @kryptos_fg; }\n.bubble-theirs { background-color: @kryptos_surface; color: @kryptos_fg; }\n.bubble-mine { background-color: @kryptos_accent; color: @kryptos_bg; }\nlink, .suggested-action { color: @kryptos_accent; }\n.error, .destructive-action { color: @kryptos_red; }\n.kryptos-modeline { background-color: @kryptos_mantle; color: @kryptos_fg; }\n.modeline.normal, .modeline-mode-block.mode-normal { background-color: @kryptos_green; color: @kryptos_bg; }\n.modeline.insert, .modeline-mode-block.mode-insert { background-color: @kryptos_blue; color: @kryptos_bg; }\n.modeline.command, .modeline-mode-block.mode-command { background-color: @kryptos_lavender; color: @kryptos_bg; }\n.modeline.search, .modeline-mode-block.mode-search { background-color: @kryptos_yellow; color: @kryptos_bg; }\n.composer-normal { border-left-color: @kryptos_green; }\n.composer-insert { border-left-color: @kryptos_blue; }\n.composer-visual { border-left-color: @kryptos_lavender; }\n";

pub const EVERFOREST_DARK: &'static str = "/* everforest-dark */\n@define-color kryptos_bg #2d353b;\n@define-color kryptos_mantle #272e33;\n@define-color kryptos_surface #374145;\n@define-color kryptos_surface2 #414b50;\n@define-color kryptos_overlay #7a8478;\n@define-color kryptos_fg #d3c6aa;\n@define-color kryptos_subtle #9da9a0;\n@define-color kryptos_accent #a7c080;\n@define-color kryptos_blue #7fbbb3;\n@define-color kryptos_green #a7c080;\n@define-color kryptos_yellow #dbbc7f;\n@define-color kryptos_red #e67e80;\n@define-color kryptos_lavender #d699b6;\n.background, window { background-color: @kryptos_bg; color: @kryptos_fg; }\n.navigation-sidebar, .sidebar-header { background-color: @kryptos_mantle; }\nheaderbar { background-color: @kryptos_surface; color: @kryptos_fg; }\n.kryptos-chat-row:hover, .chat-avatar { background-color: @kryptos_surface2; }\n.kryptos-chat-row:selected { border-left-color: @kryptos_accent; }\n.chat-preview, .chat-timestamp, .dim-label { color: @kryptos_subtle; }\ntooltip { background-color: @kryptos_overlay; color: @kryptos_fg; }\n.bubble-theirs { background-color: @kryptos_surface; color: @kryptos_fg; }\n.bubble-mine { background-color: @kryptos_accent; color: @kryptos_bg; }\nlink, .suggested-action { color: @kryptos_accent; }\n.error, .destructive-action { color: @kryptos_red; }\n.kryptos-modeline { background-color: @kryptos_mantle; color: @kryptos_fg; }\n.modeline.normal, .modeline-mode-block.mode-normal { background-color: @kryptos_green; color: @kryptos_bg; }\n.modeline.insert, .modeline-mode-block.mode-insert { background-color: @kryptos_blue; color: @kryptos_bg; }\n.modeline.command, .modeline-mode-block.mode-command { background-color: @kryptos_lavender; color: @kryptos_bg; }\n.modeline.search, .modeline-mode-block.mode-search { background-color: @kryptos_yellow; color: @kryptos_bg; }\n.composer-normal { border-left-color: @kryptos_green; }\n.composer-insert { border-left-color: @kryptos_blue; }\n.composer-visual { border-left-color: @kryptos_lavender; }\n";

pub const EVERFOREST_DARK_SOFT: &'static str = "/* everforest-dark-soft */\n@define-color kryptos_bg #333c43;\n@define-color kryptos_mantle #2d353b;\n@define-color kryptos_surface #3e4a51;\n@define-color kryptos_surface2 #4b565c;\n@define-color kryptos_overlay #7a8478;\n@define-color kryptos_fg #d3c6aa;\n@define-color kryptos_subtle #9da9a0;\n@define-color kryptos_accent #a7c080;\n@define-color kryptos_blue #7fbbb3;\n@define-color kryptos_green #a7c080;\n@define-color kryptos_yellow #dbbc7f;\n@define-color kryptos_red #e67e80;\n@define-color kryptos_lavender #d699b6;\n.background, window { background-color: @kryptos_bg; color: @kryptos_fg; }\n.navigation-sidebar, .sidebar-header { background-color: @kryptos_mantle; }\nheaderbar { background-color: @kryptos_surface; color: @kryptos_fg; }\n.kryptos-chat-row:hover, .chat-avatar { background-color: @kryptos_surface2; }\n.kryptos-chat-row:selected { border-left-color: @kryptos_accent; }\n.chat-preview, .chat-timestamp, .dim-label { color: @kryptos_subtle; }\ntooltip { background-color: @kryptos_overlay; color: @kryptos_fg; }\n.bubble-theirs { background-color: @kryptos_surface; color: @kryptos_fg; }\n.bubble-mine { background-color: @kryptos_accent; color: @kryptos_bg; }\nlink, .suggested-action { color: @kryptos_accent; }\n.error, .destructive-action { color: @kryptos_red; }\n.kryptos-modeline { background-color: @kryptos_mantle; color: @kryptos_fg; }\n.modeline.normal, .modeline-mode-block.mode-normal { background-color: @kryptos_green; color: @kryptos_bg; }\n.modeline.insert, .modeline-mode-block.mode-insert { background-color: @kryptos_blue; color: @kryptos_bg; }\n.modeline.command, .modeline-mode-block.mode-command { background-color: @kryptos_lavender; color: @kryptos_bg; }\n.modeline.search, .modeline-mode-block.mode-search { background-color: @kryptos_yellow; color: @kryptos_bg; }\n.composer-normal { border-left-color: @kryptos_green; }\n.composer-insert { border-left-color: @kryptos_blue; }\n.composer-visual { border-left-color: @kryptos_lavender; }\n";

pub const EVERFOREST_LIGHT: &'static str = "/* everforest-light */\n@define-color kryptos_bg #fdf6e3;\n@define-color kryptos_mantle #f4f0d9;\n@define-color kryptos_surface #efebd4;\n@define-color kryptos_surface2 #e6e2cc;\n@define-color kryptos_overlay #a6b0a0;\n@define-color kryptos_fg #5c6a72;\n@define-color kryptos_subtle #829181;\n@define-color kryptos_accent #8da101;\n@define-color kryptos_blue #3a94c5;\n@define-color kryptos_green #8da101;\n@define-color kryptos_yellow #dfa000;\n@define-color kryptos_red #f85552;\n@define-color kryptos_lavender #df69ba;\n.background, window { background-color: @kryptos_bg; color: @kryptos_fg; }\n.navigation-sidebar, .sidebar-header { background-color: @kryptos_mantle; }\nheaderbar { background-color: @kryptos_surface; color: @kryptos_fg; }\n.kryptos-chat-row:hover, .chat-avatar { background-color: @kryptos_surface2; }\n.kryptos-chat-row:selected { border-left-color: @kryptos_accent; }\n.chat-preview, .chat-timestamp, .dim-label { color: @kryptos_subtle; }\ntooltip { background-color: @kryptos_overlay; color: @kryptos_fg; }\n.bubble-theirs { background-color: @kryptos_surface; color: @kryptos_fg; }\n.bubble-mine { background-color: @kryptos_accent; color: @kryptos_bg; }\nlink, .suggested-action { color: @kryptos_accent; }\n.error, .destructive-action { color: @kryptos_red; }\n.kryptos-modeline { background-color: @kryptos_mantle; color: @kryptos_fg; }\n.modeline.normal, .modeline-mode-block.mode-normal { background-color: @kryptos_green; color: @kryptos_bg; }\n.modeline.insert, .modeline-mode-block.mode-insert { background-color: @kryptos_blue; color: @kryptos_bg; }\n.modeline.command, .modeline-mode-block.mode-command { background-color: @kryptos_lavender; color: @kryptos_bg; }\n.modeline.search, .modeline-mode-block.mode-search { background-color: @kryptos_yellow; color: @kryptos_bg; }\n.composer-normal { border-left-color: @kryptos_green; }\n.composer-insert { border-left-color: @kryptos_blue; }\n.composer-visual { border-left-color: @kryptos_lavender; }\n";

pub const EVERFOREST_LIGHT_SOFT: &'static str = "/* everforest-light-soft */\n@define-color kryptos_bg #f3ead3;\n@define-color kryptos_mantle #eae4ca;\n@define-color kryptos_surface #e5dfb8;\n@define-color kryptos_surface2 #ddd8be;\n@define-color kryptos_overlay #a6b0a0;\n@define-color kryptos_fg #5c6a72;\n@define-color kryptos_subtle #829181;\n@define-color kryptos_accent #8da101;\n@define-color kryptos_blue #3a94c5;\n@define-color kryptos_green #8da101;\n@define-color kryptos_yellow #dfa000;\n@define-color kryptos_red #f85552;\n@define-color kryptos_lavender #df69ba;\n.background, window { background-color: @kryptos_bg; color: @kryptos_fg; }\n.navigation-sidebar, .sidebar-header { background-color: @kryptos_mantle; }\nheaderbar { background-color: @kryptos_surface; color: @kryptos_fg; }\n.kryptos-chat-row:hover, .chat-avatar { background-color: @kryptos_surface2; }\n.kryptos-chat-row:selected { border-left-color: @kryptos_accent; }\n.chat-preview, .chat-timestamp, .dim-label { color: @kryptos_subtle; }\ntooltip { background-color: @kryptos_overlay; color: @kryptos_fg; }\n.bubble-theirs { background-color: @kryptos_surface; color: @kryptos_fg; }\n.bubble-mine { background-color: @kryptos_accent; color: @kryptos_bg; }\nlink, .suggested-action { color: @kryptos_accent; }\n.error, .destructive-action { color: @kryptos_red; }\n.kryptos-modeline { background-color: @kryptos_mantle; color: @kryptos_fg; }\n.modeline.normal, .modeline-mode-block.mode-normal { background-color: @kryptos_green; color: @kryptos_bg; }\n.modeline.insert, .modeline-mode-block.mode-insert { background-color: @kryptos_blue; color: @kryptos_bg; }\n.modeline.command, .modeline-mode-block.mode-command { background-color: @kryptos_lavender; color: @kryptos_bg; }\n.modeline.search, .modeline-mode-block.mode-search { background-color: @kryptos_yellow; color: @kryptos_bg; }\n.composer-normal { border-left-color: @kryptos_green; }\n.composer-insert { border-left-color: @kryptos_blue; }\n.composer-visual { border-left-color: @kryptos_lavender; }\n";

pub const ROSE_PINE: &'static str = "/* rose-pine */\n@define-color kryptos_bg #191724;\n@define-color kryptos_mantle #1f1d2e;\n@define-color kryptos_surface #26233a;\n@define-color kryptos_surface2 #403d52;\n@define-color kryptos_overlay #6e6a86;\n@define-color kryptos_fg #e0def4;\n@define-color kryptos_subtle #908caa;\n@define-color kryptos_accent #c4a7e7;\n@define-color kryptos_blue #31748f;\n@define-color kryptos_green #9ccfd8;\n@define-color kryptos_yellow #f6c177;\n@define-color kryptos_red #eb6f92;\n@define-color kryptos_lavender #ebbcba;\n.background, window { background-color: @kryptos_bg; color: @kryptos_fg; }\n.navigation-sidebar, .sidebar-header { background-color: @kryptos_mantle; }\nheaderbar { background-color: @kryptos_surface; color: @kryptos_fg; }\n.kryptos-chat-row:hover, .chat-avatar { background-color: @kryptos_surface2; }\n.kryptos-chat-row:selected { border-left-color: @kryptos_accent; }\n.chat-preview, .chat-timestamp, .dim-label { color: @kryptos_subtle; }\ntooltip { background-color: @kryptos_overlay; color: @kryptos_fg; }\n.bubble-theirs { background-color: @kryptos_surface; color: @kryptos_fg; }\n.bubble-mine { background-color: @kryptos_accent; color: @kryptos_bg; }\nlink, .suggested-action { color: @kryptos_accent; }\n.error, .destructive-action { color: @kryptos_red; }\n.kryptos-modeline { background-color: @kryptos_mantle; color: @kryptos_fg; }\n.modeline.normal, .modeline-mode-block.mode-normal { background-color: @kryptos_green; color: @kryptos_bg; }\n.modeline.insert, .modeline-mode-block.mode-insert { background-color: @kryptos_blue; color: @kryptos_bg; }\n.modeline.command, .modeline-mode-block.mode-command { background-color: @kryptos_lavender; color: @kryptos_bg; }\n.modeline.search, .modeline-mode-block.mode-search { background-color: @kryptos_yellow; color: @kryptos_bg; }\n.composer-normal { border-left-color: @kryptos_green; }\n.composer-insert { border-left-color: @kryptos_blue; }\n.composer-visual { border-left-color: @kryptos_lavender; }\n";

pub const ROSE_PINE_MOON: &'static str = "/* rose-pine-moon */\n@define-color kryptos_bg #232136;\n@define-color kryptos_mantle #2a273f;\n@define-color kryptos_surface #393552;\n@define-color kryptos_surface2 #44415a;\n@define-color kryptos_overlay #6e6a86;\n@define-color kryptos_fg #e0def4;\n@define-color kryptos_subtle #908caa;\n@define-color kryptos_accent #c4a7e7;\n@define-color kryptos_blue #3e8fb0;\n@define-color kryptos_green #9ccfd8;\n@define-color kryptos_yellow #f6c177;\n@define-color kryptos_red #eb6f92;\n@define-color kryptos_lavender #ea9a97;\n.background, window { background-color: @kryptos_bg; color: @kryptos_fg; }\n.navigation-sidebar, .sidebar-header { background-color: @kryptos_mantle; }\nheaderbar { background-color: @kryptos_surface; color: @kryptos_fg; }\n.kryptos-chat-row:hover, .chat-avatar { background-color: @kryptos_surface2; }\n.kryptos-chat-row:selected { border-left-color: @kryptos_accent; }\n.chat-preview, .chat-timestamp, .dim-label { color: @kryptos_subtle; }\ntooltip { background-color: @kryptos_overlay; color: @kryptos_fg; }\n.bubble-theirs { background-color: @kryptos_surface; color: @kryptos_fg; }\n.bubble-mine { background-color: @kryptos_accent; color: @kryptos_bg; }\nlink, .suggested-action { color: @kryptos_accent; }\n.error, .destructive-action { color: @kryptos_red; }\n.kryptos-modeline { background-color: @kryptos_mantle; color: @kryptos_fg; }\n.modeline.normal, .modeline-mode-block.mode-normal { background-color: @kryptos_green; color: @kryptos_bg; }\n.modeline.insert, .modeline-mode-block.mode-insert { background-color: @kryptos_blue; color: @kryptos_bg; }\n.modeline.command, .modeline-mode-block.mode-command { background-color: @kryptos_lavender; color: @kryptos_bg; }\n.modeline.search, .modeline-mode-block.mode-search { background-color: @kryptos_yellow; color: @kryptos_bg; }\n.composer-normal { border-left-color: @kryptos_green; }\n.composer-insert { border-left-color: @kryptos_blue; }\n.composer-visual { border-left-color: @kryptos_lavender; }\n";

pub const ROSE_PINE_DAWN: &'static str = "/* rose-pine-dawn */\n@define-color kryptos_bg #faf4ed;\n@define-color kryptos_mantle #fffaf3;\n@define-color kryptos_surface #f2e9e1;\n@define-color kryptos_surface2 #dfdad9;\n@define-color kryptos_overlay #9893a5;\n@define-color kryptos_fg #575279;\n@define-color kryptos_subtle #797593;\n@define-color kryptos_accent #907aa9;\n@define-color kryptos_blue #286983;\n@define-color kryptos_green #56949f;\n@define-color kryptos_yellow #ea9d34;\n@define-color kryptos_red #b4637a;\n@define-color kryptos_lavender #d7827e;\n.background, window { background-color: @kryptos_bg; color: @kryptos_fg; }\n.navigation-sidebar, .sidebar-header { background-color: @kryptos_mantle; }\nheaderbar { background-color: @kryptos_surface; color: @kryptos_fg; }\n.kryptos-chat-row:hover, .chat-avatar { background-color: @kryptos_surface2; }\n.kryptos-chat-row:selected { border-left-color: @kryptos_accent; }\n.chat-preview, .chat-timestamp, .dim-label { color: @kryptos_subtle; }\ntooltip { background-color: @kryptos_overlay; color: @kryptos_fg; }\n.bubble-theirs { background-color: @kryptos_surface; color: @kryptos_fg; }\n.bubble-mine { background-color: @kryptos_accent; color: @kryptos_bg; }\nlink, .suggested-action { color: @kryptos_accent; }\n.error, .destructive-action { color: @kryptos_red; }\n.kryptos-modeline { background-color: @kryptos_mantle; color: @kryptos_fg; }\n.modeline.normal, .modeline-mode-block.mode-normal { background-color: @kryptos_green; color: @kryptos_bg; }\n.modeline.insert, .modeline-mode-block.mode-insert { background-color: @kryptos_blue; color: @kryptos_bg; }\n.modeline.command, .modeline-mode-block.mode-command { background-color: @kryptos_lavender; color: @kryptos_bg; }\n.modeline.search, .modeline-mode-block.mode-search { background-color: @kryptos_yellow; color: @kryptos_bg; }\n.composer-normal { border-left-color: @kryptos_green; }\n.composer-insert { border-left-color: @kryptos_blue; }\n.composer-visual { border-left-color: @kryptos_lavender; }\n";

pub const NORD: &'static str = "/* nord */\n@define-color kryptos_bg #2e3440;\n@define-color kryptos_mantle #3b4252;\n@define-color kryptos_surface #434c5e;\n@define-color kryptos_surface2 #4c566a;\n@define-color kryptos_overlay #616e88;\n@define-color kryptos_fg #eceff4;\n@define-color kryptos_subtle #d8dee9;\n@define-color kryptos_accent #88c0d0;\n@define-color kryptos_blue #81a1c1;\n@define-color kryptos_green #a3be8c;\n@define-color kryptos_yellow #ebcb8b;\n@define-color kryptos_red #bf616a;\n@define-color kryptos_lavender #b48ead;\n.background, window { background-color: @kryptos_bg; color: @kryptos_fg; }\n.navigation-sidebar, .sidebar-header { background-color: @kryptos_mantle; }\nheaderbar { background-color: @kryptos_surface; color: @kryptos_fg; }\n.kryptos-chat-row:hover, .chat-avatar { background-color: @kryptos_surface2; }\n.kryptos-chat-row:selected { border-left-color: @kryptos_accent; }\n.chat-preview, .chat-timestamp, .dim-label { color: @kryptos_subtle; }\ntooltip { background-color: @kryptos_overlay; color: @kryptos_fg; }\n.bubble-theirs { background-color: @kryptos_surface; color: @kryptos_fg; }\n.bubble-mine { background-color: @kryptos_accent; color: @kryptos_bg; }\nlink, .suggested-action { color: @kryptos_accent; }\n.error, .destructive-action { color: @kryptos_red; }\n.kryptos-modeline { background-color: @kryptos_mantle; color: @kryptos_fg; }\n.modeline.normal, .modeline-mode-block.mode-normal { background-color: @kryptos_green; color: @kryptos_bg; }\n.modeline.insert, .modeline-mode-block.mode-insert { background-color: @kryptos_blue; color: @kryptos_bg; }\n.modeline.command, .modeline-mode-block.mode-command { background-color: @kryptos_lavender; color: @kryptos_bg; }\n.modeline.search, .modeline-mode-block.mode-search { background-color: @kryptos_yellow; color: @kryptos_bg; }\n.composer-normal { border-left-color: @kryptos_green; }\n.composer-insert { border-left-color: @kryptos_blue; }\n.composer-visual { border-left-color: @kryptos_lavender; }\n";

/// Number of palette colours every stylesheet defines.
pub const TOKEN_COUNT: usize = 13;

/// The definition of the `t`-th palette colour, as a stylesheet spells it.
pub open spec fn token_define(t: int) -> Seq<char> {
    if t == 0 {
        "@define-color kryptos_bg"@
    } else
    if t == 1 {
        "@define-color kryptos_mantle"@
    } else
    if t == 2 {
        "@define-color kryptos_surface"@
    } else
    if t == 3 {
        "@define-color kryptos_surface2"@
    } else
    if t == 4 {
        "@define-color kryptos_overlay"@
    } else
    if t == 5 {
        "@define-color kryptos_fg"@
    } else
    if t == 6 {
        "@define-color kryptos_subtle"@
    } else
    if t == 7 {
        "@define-color kryptos_accent"@
    } else
    if t == 8 {
        "@define-color kryptos_blue"@
    } else
    if t == 9 {
        "@define-color kryptos_green"@
    } else
    if t == 10 {
        "@define-color kryptos_yellow"@
    } else
    if t == 11 {
        "@define-color kryptos_red"@
    } else
    {
        "@define-color kryptos_lavender"@
    }
}

/// A stylesheet defines every palette colour and styles the Normal-mode
/// modeline.
pub open spec fn stylesheet_complete(css: Seq<char>) -> bool {
    &&& forall|t: int| 0 <= t < TOKEN_COUNT ==> contains_seq(css, #[trigger] token_define(t))
    &&& contains_seq(css, ".modeline.normal"@)
}

/// Stylesheet of the `i`-th built-in theme.
pub open spec fn builtin_css(i: int) -> Seq<char> {
    if i == 0 {
        CATPPUCCIN_MOCHA@
    } else
    if i == 1 {
        CATPPUCCIN_LATTE@
    } else
    if i == 2 {
        CATPPUCCIN_FRAPPE@
    } else
    if i == 3 {
        CATPPUCCIN_MACCHIATO@
    } else
    if i == 4 {
        GRUVBOX@
    } else
    if i == 5 {
        GRUVBOX_LIGHT@
    } else
    if i == 6 {
        TOKYO_NIGHT@
    } else
    if i == 7 {
        TOKYO_NIGHT_STORM@
    } else
    if i == 8 {
        EVERFOREST_DARK@
    } else
    if i == 9 {
        EVERFOREST_DARK_SOFT@
    } else
    if i == 10 {
        EVERFOREST_LIGHT@
    } else
    if i == 11 {
        EVERFOREST_LIGHT_SOFT@
    } else
    if i == 12 {
        ROSE_PINE@
    } else
    if i == 13 {
        ROSE_PINE_MOON@
    } else
    if i == 14 {
        ROSE_PINE_DAWN@
    } else
    {
        NORD@
    }
}

/// Number of built-in themes.
pub const BUILTIN_COUNT: usize = 16;

/// Canonical name of the `i`-th built-in theme, in the order shown to
/// users.
pub open spec fn builtin_name(i: int) -> Seq<char> {
    if i == 0 {
        "catppuccin-mocha"@
    } else if i == 1 {
        "catppuccin-latte"@
    } else if i == 2 {
        "catppuccin-frappe"@
    } else if i == 3 {
        "catppuccin-macchiato"@
    } else if i == 4 {
        "gruvbox"@
    } else if i == 5 {
        "gruvbox-light"@
    } else if i == 6 {
        "tokyo-night"@
    } else if i == 7 {
        "tokyo-night-storm"@
    } else if i == 8 {
        "everforest-dark"@
    } else if i == 9 {
        "everforest-dark-soft"@
    } else if i == 10 {
        "everforest-light"@
    } else if i == 11 {
        "everforest-light-soft"@
    } else if i == 12 {
        "rose-pine"@
    } else if i == 13 {
        "rose-pine-moon"@
    } else if i == 14 {
        "rose-pine-dawn"@
    } else {
        "nord"@
    }
}

/// Colour scheme of the `i`-th built-in theme.
pub open spec fn builtin_scheme(i: int) -> ColorScheme {
    if i == 1 || i == 5 || i == 10 || i == 11 || i == 14 {
        ColorScheme::ForceLight
    } else {
        ColorScheme::ForceDark
    }
}

/// The `i`-th built-in theme.
pub fn builtin_at(i: usize) -> (b: Builtin)
    requires
        i < BUILTIN_COUNT,
    ensures
        b.canonical_name@ == builtin_name(i as int),
        b.css@ == builtin_css(i as int),
        b.color_scheme == builtin_scheme(i as int),
{
    match i {
        0 => Builtin { canonical_name: "catppuccin-mocha", css: CATPPUCCIN_MOCHA, color_scheme: ColorScheme::ForceDark },
        1 => Builtin { canonical_name: "catppuccin-latte", css: CATPPUCCIN_LATTE, color_scheme: ColorScheme::ForceLight },
        2 => Builtin { canonical_name: "catppuccin-frappe", css: CATPPUCCIN_FRAPPE, color_scheme: ColorScheme::ForceDark },
        3 => Builtin { canonical_name: "catppuccin-macchiato", css: CATPPUCCIN_MACCHIATO, color_scheme: ColorScheme::ForceDark },
        4 => Builtin { canonical_name: "gruvbox", css: GRUVBOX, color_scheme: ColorScheme::ForceDark },
        5 => Builtin { canonical_name: "gruvbox-light", css: GRUVBOX_LIGHT, color_scheme: ColorScheme::ForceLight },
        6 => Builtin { canonical_name: "tokyo-night", css: TOKYO_NIGHT, color_scheme: ColorScheme::ForceDark },
        7 => Builtin { canonical_name: "tokyo-night-storm", css: TOKYO_NIGHT_STORM, color_scheme: ColorScheme::ForceDark },
        8 => Builtin { canonical_name: "everforest-dark", css: EVERFOREST_DARK, color_scheme: ColorScheme::ForceDark },
        9 => Builtin { canonical_name: "everforest-dark-soft", css: EVERFOREST_DARK_SOFT, color_scheme: ColorScheme::ForceDark },
        10 => Builtin { canonical_name: "everforest-light", css: EVERFOREST_LIGHT, color_scheme: ColorScheme::ForceLight },
        11 => Builtin { canonical_name: "everforest-light-soft", css: EVERFOREST_LIGHT_SOFT, color_scheme: ColorScheme::ForceLight },
        12 => Builtin { canonical_name: "rose-pine", css: ROSE_PINE, color_scheme: ColorScheme::ForceDark },
        13 => Builtin { canonical_name: "rose-pine-moon", css: ROSE_PINE_MOON, color_scheme: ColorScheme::ForceDark },
        14 => Builtin { canonical_name: "rose-pine-dawn", css: ROSE_PINE_DAWN, color_scheme: ColorScheme::ForceLight },
        _ => Builtin { canonical_name: "nord", css: NORD, color_scheme: ColorScheme::ForceDark },
    }
}

/// Index of the first built-in theme, from `from` on, named exactly
/// `needle`.
pub open spec fn first_builtin(needle: Seq<char>, from: int) -> Option<int>
    decreases BUILTIN_COUNT - from,
{
    if from < 0 || from >= BUILTIN_COUNT {
        None
    } else if builtin_name(from) == needle {
        Some(from)
    } else {
        first_builtin(needle, from + 1)
    }
}

/// The lookup key of a user-typed theme name: trimmed, ASCII-lowercased.
pub open spec fn theme_key(name: Seq<char>) -> Seq<char> {
    lower_seq(trim(name))
}

/// Case-insensitive lookup of a built-in theme. `"system"` is not a
/// built-in: callers treat that name specially.
pub fn lookup(name: &str) -> (r: Option<Builtin>)
    ensures
        match first_builtin(theme_key(name@), 0) {
            Some(i) => r matches Some(b) && b.canonical_name@ == builtin_name(i) && b.css@
                == builtin_css(i) && b.color_scheme == builtin_scheme(i),
            None => r is None,
        },
{
    let v = chars_of(name);
    let t = trim_chars(v.as_slice());
    let needle = lower_chars(t.as_slice());
    let ghost key = theme_key(name@);
    let mut i: usize = 0;
    while i < BUILTIN_COUNT
        invariant
            i <= BUILTIN_COUNT,
            needle@ == key,
            key == theme_key(name@),
            first_builtin(key, 0) == first_builtin(key, i as int),
        decreases BUILTIN_COUNT - i,
    {
        let b = builtin_at(i);
        if chars_eq_str(needle.as_slice(), b.canonical_name) {
            return Some(b);
        }
        i = i + 1;
    }
    None
}

/// Every name `lookup` accepts other than `"system"`, then `"system"`.
pub fn known_names() -> (v: Vec<&'static str>)
    ensures
        v@.len() == BUILTIN_COUNT + 1,
        forall|i: int| 0 <= i < BUILTIN_COUNT ==> #[trigger] v@[i]@ == builtin_name(i),
        v@[BUILTIN_COUNT as int]@ == "system"@,
{
    let mut v: Vec<&'static str> = Vec::new();
    let mut i: usize = 0;
    while i < BUILTIN_COUNT
        invariant
            i <= BUILTIN_COUNT,
            v@.len() == i,
            forall|j: int| 0 <= j < i ==> #[trigger] v@[j]@ == builtin_name(j),
        decreases BUILTIN_COUNT - i,
    {
        v.push(builtin_at(i).canonical_name);
        i = i + 1;
    }
    v.push("system");
    v
}

} // verus!
