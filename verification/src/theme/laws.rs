//! Properties of the theme tables and the built-in stylesheets.
use vstd::prelude::*;
use crate::text::{is_upper, lower, lower_seq, trim};
use crate::ui::laws::lemma_trim_fixed;
use crate::ui::dispatcher::contains_seq;
use super::builtin::{
    builtin_css, builtin_name, builtin_scheme, ColorScheme, first_builtin, stylesheet_complete, theme_key, token_define, BUILTIN_COUNT,
    TOKEN_COUNT,
};
use super::builtin::{
    CATPPUCCIN_MOCHA, CATPPUCCIN_LATTE, CATPPUCCIN_FRAPPE, CATPPUCCIN_MACCHIATO, GRUVBOX,
    GRUVBOX_LIGHT, TOKYO_NIGHT, TOKYO_NIGHT_STORM, EVERFOREST_DARK, EVERFOREST_DARK_SOFT,
    EVERFOREST_LIGHT, EVERFOREST_LIGHT_SOFT, ROSE_PINE, ROSE_PINE_MOON, ROSE_PINE_DAWN, NORD,
};

verus! {

/// Only lower-case letters and `-`.
pub open spec fn plain_name(s: Seq<char>) -> bool
    decreases s.len(),
{
    s.len() == 0 || ((('a' <= s[0] && s[0] <= 'z') || s[0] == '-') && plain_name(s.drop_first()))
}

proof fn lemma_plain_chars(s: Seq<char>)
    requires
        plain_name(s),
    ensures
        forall|i: int| 0 <= i < s.len() ==> (('a' <= #[trigger] s[i] && s[i] <= 'z') || s[i] == '-'),
    decreases s.len(),
{
    if s.len() > 0 {
        lemma_plain_chars(s.drop_first());
        assert forall|i: int| 0 <= i < s.len() implies (('a' <= #[trigger] s[i] && s[i] <= 'z') || s[i] == '-') by {
            if i > 0 {
                assert(s[i] == s.drop_first()[i - 1]);
            }
        }
    }
}

/// A non-empty plain name is its own lookup key.
proof fn lemma_plain_key(s: Seq<char>)
    requires
        s.len() > 0,
        plain_name(s),
    ensures
        theme_key(s) == s,
{
    lemma_plain_chars(s);
    lemma_trim_fixed(s);
    assert forall|i: int| 0 <= i < s.len() implies #[trigger] lower_seq(s)[i] == s[i] by {
        assert(!is_upper(s[i]));
    }
    assert(lower_seq(s) =~= s);
}

/// Every built-in name is a non-empty plain name.
proof fn lemma_builtin_names_plain(i: int)
    requires
        0 <= i < BUILTIN_COUNT,
    ensures
        builtin_name(i).len() > 0,
        plain_name(builtin_name(i)),
{
    reveal_strlit("catppuccin-mocha");
    reveal_strlit("catppuccin-latte");
    reveal_strlit("catppuccin-frappe");
    reveal_strlit("catppuccin-macchiato");
    reveal_strlit("gruvbox");
    reveal_strlit("gruvbox-light");
    reveal_strlit("tokyo-night");
    reveal_strlit("tokyo-night-storm");
    reveal_strlit("everforest-dark");
    reveal_strlit("everforest-dark-soft");
    reveal_strlit("everforest-light");
    reveal_strlit("everforest-light-soft");
    reveal_strlit("rose-pine");
    reveal_strlit("rose-pine-moon");
    reveal_strlit("rose-pine-dawn");
    reveal_strlit("nord");
    reveal_with_fuel(plain_name, 22);
}

/// The first built-in named `needle` exists once some built-in from
/// `from` on carries that name.
proof fn lemma_first_builtin_found(needle: Seq<char>, from: int, i: int)
    requires
        0 <= from <= i < BUILTIN_COUNT,
        builtin_name(i) == needle,
    ensures
        first_builtin(needle, from) matches Some(j) && from <= j <= i && builtin_name(j) == needle,
    decreases i - from,
{
    if builtin_name(from) != needle {
        lemma_first_builtin_found(needle, from + 1, i);
    }
}

/// Every advertised built-in theme name resolves, to a theme of that
/// very name.
pub proof fn law_builtin_names_resolve(i: int)
    requires
        0 <= i < BUILTIN_COUNT,
    ensures
        first_builtin(theme_key(builtin_name(i)), 0) matches Some(j) && builtin_name(j)
            == builtin_name(i),
{
    lemma_builtin_names_plain(i);
    lemma_plain_key(builtin_name(i));
    lemma_first_builtin_found(builtin_name(i), 0, i);
}

/// `"system"` is not a built-in theme: it is handled apart.
pub proof fn law_system_is_not_builtin()
    ensures
        first_builtin("system"@, 0) is None,
{
    reveal_strlit("system");
    assert("system"@.len() == 6);
    reveal_strlit("catppuccin-mocha");
    reveal_strlit("catppuccin-latte");
    reveal_strlit("catppuccin-frappe");
    reveal_strlit("catppuccin-macchiato");
    reveal_strlit("gruvbox");
    reveal_strlit("gruvbox-light");
    reveal_strlit("tokyo-night");
    reveal_strlit("tokyo-night-storm");
    reveal_strlit("everforest-dark");
    reveal_strlit("everforest-dark-soft");
    reveal_strlit("everforest-light");
    reveal_strlit("everforest-light-soft");
    reveal_strlit("rose-pine");
    reveal_strlit("rose-pine-moon");
    reveal_strlit("rose-pine-dawn");
    reveal_strlit("nord");
    assert("catppuccin-mocha"@.len() == 16);
    assert("catppuccin-latte"@.len() == 16);
    assert("catppuccin-frappe"@.len() == 17);
    assert("catppuccin-macchiato"@.len() == 20);
    assert("gruvbox"@.len() == 7);
    assert("gruvbox-light"@.len() == 13);
    assert("tokyo-night"@.len() == 11);
    assert("tokyo-night-storm"@.len() == 17);
    assert("everforest-dark"@.len() == 15);
    assert("everforest-dark-soft"@.len() == 20);
    assert("everforest-light"@.len() == 16);
    assert("everforest-light-soft"@.len() == 21);
    assert("rose-pine"@.len() == 9);
    assert("rose-pine-moon"@.len() == 14);
    assert("rose-pine-dawn"@.len() == 14);
    assert("nord"@.len() == 4);
    reveal_with_fuel(first_builtin, 18);
}

/// Lookup ignores surrounding whitespace and ASCII case: a name and its
/// lookup key resolve alike.
pub proof fn law_lookup_key_is_stable(name: Seq<char>)
    ensures
        theme_key(theme_key(name)) == theme_key(name),
        first_builtin(theme_key(theme_key(name)), 0) == first_builtin(theme_key(name), 0),
{
    let t = trim(name);
    let k = theme_key(name);
    crate::text::lemma_trim_ends(name);
    assert forall|i: int| 0 <= i < k.len() implies #[trigger] lower_seq(k)[i] == k[i] by {
        assert(k[i] == lower(t[i]));
    }
    assert(lower_seq(k) =~= k);
    if k.len() > 0 {
        assert(k[0] == lower(t[0]));
        assert(k.last() == lower(t.last()));
        lemma_trim_fixed(k);
    } else {
        assert(trim(k) =~= k);
    }
}


/// Every built-in stylesheet defines all thirteen palette colours
/// (`@define-color kryptos_<token>`) and styles the Normal-mode modeline,
/// so no theme falls back to toolkit colours.
pub proof fn law_stylesheets_complete(i: int)
    requires
        0 <= i < BUILTIN_COUNT,
    ensures
        stylesheet_complete(builtin_css(i)),
{
    if i == 0 {
        lemma_catppuccin_mocha_complete();
    } else
    if i == 1 {
        lemma_catppuccin_latte_complete();
    } else
    if i == 2 {
        lemma_catppuccin_frappe_complete();
    } else
    if i == 3 {
        lemma_catppuccin_macchiato_complete();
    } else
    if i == 4 {
        lemma_gruvbox_complete();
    } else
    if i == 5 {
        lemma_gruvbox_light_complete();
    } else
    if i == 6 {
        lemma_tokyo_night_complete();
    } else
    if i == 7 {
        lemma_tokyo_night_storm_complete();
    } else
    if i == 8 {
        lemma_everforest_dark_complete();
    } else
    if i == 9 {
        lemma_everforest_dark_soft_complete();
    } else
    if i == 10 {
        lemma_everforest_light_complete();
    } else
    if i == 11 {
        lemma_everforest_light_soft_complete();
    } else
    if i == 12 {
        lemma_rose_pine_complete();
    } else
    if i == 13 {
        lemma_rose_pine_moon_complete();
    } else
    if i == 14 {
        lemma_rose_pine_dawn_complete();
    } else
    {
        lemma_nord_complete();
    }
}

proof fn lemma_catppuccin_mocha_complete()
    ensures
        stylesheet_complete(CATPPUCCIN_MOCHA@),
{
    reveal_strlit("/* catppuccin-mocha */\n@define-color kryptos_bg #1e1e2e;\n@define-color kryptos_mantle #181825;\n@define-color kryptos_surface #313244;\n@define-color kryptos_surface2 #585b70;\n@define-color kryptos_overlay #6c7086;\n@define-color kryptos_fg #cdd6f4;\n@define-color kryptos_subtle #a6adc8;\n@define-color kryptos_accent #cba6f7;\n@define-color kryptos_blue #89b4fa;\n@define-color kryptos_green #a6e3a1;\n@define-color kryptos_yellow #f9e2af;\n@define-color kryptos_red #f38ba8;\n@define-color kryptos_lavender #b4befe;\n.background, window { background-color: @kryptos_bg; color: @kryptos_fg; }\n.navigation-sidebar, .sidebar-header { background-color: @kryptos_mantle; }\nheaderbar { background-color: @kryptos_surface; color: @kryptos_fg; }\n.kryptos-chat-row:hover, .chat-avatar { background-color: @kryptos_surface2; }\n.kryptos-chat-row:selected { border-left-color: @kryptos_accent; }\n.chat-preview, .chat-timestamp, .dim-label { color: @kryptos_subtle; }\ntooltip { background-color: @kryptos_overlay; color: @kryptos_fg; }\n.bubble-theirs { background-color: @kryptos_surface; color: @kryptos_fg; }\n.bubble-mine { background-color: @kryptos_accent; color: @kryptos_bg; }\nlink, .suggested-action { color: @kryptos_accent; }\n.error, .destructive-action { color: @kryptos_red; }\n.kryptos-modeline { background-color: @kryptos_mantle; color: @kryptos_fg; }\n.modeline.normal, .modeline-mode-block.mode-normal { background-color: @kryptos_green; color: @kryptos_bg; }\n.modeline.insert, .modeline-mode-block.mode-insert { background-color: @kryptos_blue; color: @kryptos_bg; }\n.modeline.command, .modeline-mode-block.mode-command { background-color: @kryptos_lavender; color: @kryptos_bg; }\n.modeline.search, .modeline-mode-block.mode-search { background-color: @kryptos_yellow; color: @kryptos_bg; }\n.composer-normal { border-left-color: @kryptos_green; }\n.composer-insert { border-left-color: @kryptos_blue; }\n.composer-visual { border-left-color: @kryptos_lavender; }\n");
    reveal_strlit("@define-color kryptos_bg");
    reveal_strlit("@define-color kryptos_mantle");
    reveal_strlit("@define-color kryptos_surface");
    reveal_strlit("@define-color kryptos_surface2");
    reveal_strlit("@define-color kryptos_overlay");
    reveal_strlit("@define-color kryptos_fg");
    reveal_strlit("@define-color kryptos_subtle");
    reveal_strlit("@define-color kryptos_accent");
    reveal_strlit("@define-color kryptos_blue");
    reveal_strlit("@define-color kryptos_green");
    reveal_strlit("@define-color kryptos_yellow");
    reveal_strlit("@define-color kryptos_red");
    reveal_strlit("@define-color kryptos_lavender");
    reveal_strlit(".modeline.normal");
    assert(CATPPUCCIN_MOCHA@.subrange(23int, 23int + token_define(0).len()) =~= token_define(0));
    assert(CATPPUCCIN_MOCHA@.subrange(57int, 57int + token_define(1).len()) =~= token_define(1));
    assert(CATPPUCCIN_MOCHA@.subrange(95int, 95int + token_define(2).len()) =~= token_define(2));
    assert(CATPPUCCIN_MOCHA@.subrange(134int, 134int + token_define(3).len()) =~= token_define(3));
    assert(CATPPUCCIN_MOCHA@.subrange(174int, 174int + token_define(4).len()) =~= token_define(4));
    assert(CATPPUCCIN_MOCHA@.subrange(213int, 213int + token_define(5).len()) =~= token_define(5));
    assert(CATPPUCCIN_MOCHA@.subrange(247int, 247int + token_define(6).len()) =~= token_define(6));
    assert(CATPPUCCIN_MOCHA@.subrange(285int, 285int + token_define(7).len()) =~= token_define(7));
    assert(CATPPUCCIN_MOCHA@.subrange(323int, 323int + token_define(8).len()) =~= token_define(8));
    assert(CATPPUCCIN_MOCHA@.subrange(359int, 359int + token_define(9).len()) =~= token_define(9));
    assert(CATPPUCCIN_MOCHA@.subrange(396int, 396int + token_define(10).len()) =~= token_define(10));
    assert(CATPPUCCIN_MOCHA@.subrange(434int, 434int + token_define(11).len()) =~= token_define(11));
    assert(CATPPUCCIN_MOCHA@.subrange(469int, 469int + token_define(12).len()) =~= token_define(12));
    assert(CATPPUCCIN_MOCHA@.subrange(1344int, 1344int + ".modeline.normal"@.len()) =~= ".modeline.normal"@);
    assert forall|t: int| 0 <= t < TOKEN_COUNT implies contains_seq(CATPPUCCIN_MOCHA@, #[trigger] token_define(t)) by {
        assert(t == 0 || t == 1 || t == 2 || t == 3 || t == 4 || t == 5 || t == 6 || t == 7 || t == 8 || t == 9 || t == 10 || t == 11 || t == 12);
    }
}

proof fn lemma_catppuccin_latte_complete()
    ensures
        stylesheet_complete(CATPPUCCIN_LATTE@),
{
    reveal_strlit("/* catppuccin-latte */\n@define-color kryptos_bg #eff1f5;\n@define-color kryptos_mantle #e6e9ef;\n@define-color kryptos_surface #ccd0da;\n@define-color kryptos_surface2 #acb0be;\n@define-color kryptos_overlay #9ca0b0;\n@define-color kryptos_fg #4c4f69;\n@define-color kryptos_subtle #6c6f85;\n@define-color kryptos_accent #8839ef;\n@define-color kryptos_blue #1e66f5;\n@define-color kryptos_green #40a02b;\n@define-color kryptos_yellow #df8e1d;\n@define-color kryptos_red #d20f39;\n@define-color kryptos_lavender #7287fd;\n.background, window { background-color: @kryptos_bg; color: @kryptos_fg; }\n.navigation-sidebar, .sidebar-header { background-color: @kryptos_mantle; }\nheaderbar { background-color: @kryptos_surface; color: @kryptos_fg; }\n.kryptos-chat-row:hover, .chat-avatar { background-color: @kryptos_surface2; }\n.kryptos-chat-row:selected { border-left-color: @kryptos_accent; }\n.chat-preview, .chat-timestamp, .dim-label { color: @kryptos_subtle; }\ntooltip { background-color: @kryptos_overlay; color: @kryptos_fg; }\n.bubble-theirs { background-color: @kryptos_surface; color: @kryptos_fg; }\n.bubble-mine { background-color: @kryptos_accent; color: @kryptos_bg; }\nlink, .suggested-action { color: @kryptos_accent; }\n.error, .destructive-action { color: @kryptos_red; }\n.kryptos-modeline { background-color: @kryptos_mantle; color: @kryptos_fg; }\n.modeline.normal, .modeline-mode-block.mode-normal { background-color: @kryptos_green; color: @kryptos_bg; }\n.modeline.insert, .modeline-mode-block.mode-insert { background-color: @kryptos_blue; color: @kryptos_bg; }\n.modeline.command, .modeline-mode-block.mode-command { background-color: @kryptos_lavender; color: @kryptos_bg; }\n.modeline.search, .modeline-mode-block.mode-search { background-color: @kryptos_yellow; color: @kryptos_bg; }\n.composer-normal { border-left-color: @kryptos_green; }\n.composer-insert { border-left-color: @kryptos_blue; }\n.composer-visual { border-left-color: @kryptos_lavender; }\n");
    reveal_strlit("@define-color kryptos_bg");
    reveal_strlit("@define-color kryptos_mantle");
    reveal_strlit("@define-color kryptos_surface");
    reveal_strlit("@define-color kryptos_surface2");
    reveal_strlit("@define-color kryptos_overlay");
    reveal_strlit("@define-color kryptos_fg");
    reveal_strlit("@define-color kryptos_subtle");
    reveal_strlit("@define-color kryptos_accent");
    reveal_strlit("@define-color kryptos_blue");
    reveal_strlit("@define-color kryptos_green");
    reveal_strlit("@define-color kryptos_yellow");
    reveal_strlit("@define-color kryptos_red");
    reveal_strlit("@define-color kryptos_lavender");
    reveal_strlit(".modeline.normal");
    assert(CATPPUCCIN_LATTE@.subrange(23int, 23int + token_define(0).len()) =~= token_define(0));
    assert(CATPPUCCIN_LATTE@.subrange(57int, 57int + token_define(1).len()) =~= token_define(1));
    assert(CATPPUCCIN_LATTE@.subrange(95int, 95int + token_define(2).len()) =~= token_define(2));
    assert(CATPPUCCIN_LATTE@.subrange(134int, 134int + token_define(3).len()) =~= token_define(3));
    assert(CATPPUCCIN_LATTE@.subrange(174int, 174int + token_define(4).len()) =~= token_define(4));
    assert(CATPPUCCIN_LATTE@.subrange(213int, 213int + token_define(5).len()) =~= token_define(5));
    assert(CATPPUCCIN_LATTE@.subrange(247int, 247int + token_define(6).len()) =~= token_define(6));
    assert(CATPPUCCIN_LATTE@.subrange(285int, 285int + token_define(7).len()) =~= token_define(7));
    assert(CATPPUCCIN_LATTE@.subrange(323int, 323int + token_define(8).len()) =~= token_define(8));
    assert(CATPPUCCIN_LATTE@.subrange(359int, 359int + token_define(9).len()) =~= token_define(9));
    assert(CATPPUCCIN_LATTE@.subrange(396int, 396int + token_define(10).len()) =~= token_define(10));
    assert(CATPPUCCIN_LATTE@.subrange(434int, 434int + token_define(11).len()) =~= token_define(11));
    assert(CATPPUCCIN_LATTE@.subrange(469int, 469int + token_define(12).len()) =~= token_define(12));
    assert(CATPPUCCIN_LATTE@.subrange(1344int, 1344int + ".modeline.normal"@.len()) =~= ".modeline.normal"@);
    assert forall|t: int| 0 <= t < TOKEN_COUNT implies contains_seq(CATPPUCCIN_LATTE@, #[trigger] token_define(t)) by {
        assert(t == 0 || t == 1 || t == 2 || t == 3 || t == 4 || t == 5 || t == 6 || t == 7 || t == 8 || t == 9 || t == 10 || t == 11 || t == 12);
    }
}

proof fn lemma_catppuccin_frappe_complete()
    ensures
        stylesheet_complete(CATPPUCCIN_FRAPPE@),
{
    reveal_strlit("/* catppuccin-frappe */\n@define-color kryptos_bg #303446;\n@define-color kryptos_mantle #292c3c;\n@define-color kryptos_surface #414559;\n@define-color kryptos_surface2 #626880;\n@define-color kryptos_overlay #737994;\n@define-color kryptos_fg #c6d0f5;\n@define-color kryptos_subtle #a5adce;\n@define-color kryptos_accent #ca9ee6;\n@define-color kryptos_blue #8caaee;\n@define-color kryptos_green #a6d189;\n@define-color kryptos_yellow #e5c890;\n@define-color kryptos_red #e78284;\n@define-color kryptos_lavender #babbf1;\n.background, window { background-color: @kryptos_bg; color: @kryptos_fg; }\n.navigation-sidebar, .sidebar-header { background-color: @kryptos_mantle; }\nheaderbar { background-color: @kryptos_surface; color: @kryptos_fg; }\n.kryptos-chat-row:hover, .chat-avatar { background-color: @kryptos_surface2; }\n.kryptos-chat-row:selected { border-left-color: @kryptos_accent; }\n.chat-preview, .chat-timestamp, .dim-label { color: @kryptos_subtle; }\ntooltip { background-color: @kryptos_overlay; color: @kryptos_fg; }\n.bubble-theirs { background-color: @kryptos_surface; color: @kryptos_fg; }\n.bubble-mine { background-color: @kryptos_accent; color: @kryptos_bg; }\nlink, .suggested-action { color: @kryptos_accent; }\n.error, .destructive-action { color: @kryptos_red; }\n.kryptos-modeline { background-color: @kryptos_mantle; color: @kryptos_fg; }\n.modeline.normal, .modeline-mode-block.mode-normal { background-color: @kryptos_green; color: @kryptos_bg; }\n.modeline.insert, .modeline-mode-block.mode-insert { background-color: @kryptos_blue; color: @kryptos_bg; }\n.modeline.command, .modeline-mode-block.mode-command { background-color: @kryptos_lavender; color: @kryptos_bg; }\n.modeline.search, .modeline-mode-block.mode-search { background-color: @kryptos_yellow; color: @kryptos_bg; }\n.composer-normal { border-left-color: @kryptos_green; }\n.composer-insert { border-left-color: @kryptos_blue; }\n.composer-visual { border-left-color: @kryptos_lavender; }\n");
    reveal_strlit("@define-color kryptos_bg");
    reveal_strlit("@define-color kryptos_mantle");
    reveal_strlit("@define-color kryptos_surface");
    reveal_strlit("@define-color kryptos_surface2");
    reveal_strlit("@define-color kryptos_overlay");
    reveal_strlit("@define-color kryptos_fg");
    reveal_strlit("@define-color kryptos_subtle");
    reveal_strlit("@define-color kryptos_accent");
    reveal_strlit("@define-color kryptos_blue");
    reveal_strlit("@define-color kryptos_green");
    reveal_strlit("@define-color kryptos_yellow");
    reveal_strlit("@define-color kryptos_red");
    reveal_strlit("@define-color kryptos_lavender");
    reveal_strlit(".modeline.normal");
    assert(CATPPUCCIN_FRAPPE@.subrange(24int, 24int + token_define(0).len()) =~= token_define(0));
    assert(CATPPUCCIN_FRAPPE@.subrange(58int, 58int + token_define(1).len()) =~= token_define(1));
    assert(CATPPUCCIN_FRAPPE@.subrange(96int, 96int + token_define(2).len()) =~= token_define(2));
    assert(CATPPUCCIN_FRAPPE@.subrange(135int, 135int + token_define(3).len()) =~= token_define(3));
    assert(CATPPUCCIN_FRAPPE@.subrange(175int, 175int + token_define(4).len()) =~= token_define(4));
    assert(CATPPUCCIN_FRAPPE@.subrange(214int, 214int + token_define(5).len()) =~= token_define(5));
    assert(CATPPUCCIN_FRAPPE@.subrange(248int, 248int + token_define(6).len()) =~= token_define(6));
    assert(CATPPUCCIN_FRAPPE@.subrange(286int, 286int + token_define(7).len()) =~= token_define(7));
    assert(CATPPUCCIN_FRAPPE@.subrange(324int, 324int + token_define(8).len()) =~= token_define(8));
    assert(CATPPUCCIN_FRAPPE@.subrange(360int, 360int + token_define(9).len()) =~= token_define(9));
    assert(CATPPUCCIN_FRAPPE@.subrange(397int, 397int + token_define(10).len()) =~= token_define(10));
    assert(CATPPUCCIN_FRAPPE@.subrange(435int, 435int + token_define(11).len()) =~= token_define(11));
    assert(CATPPUCCIN_FRAPPE@.subrange(470int, 470int + token_define(12).len()) =~= token_define(12));
    assert(CATPPUCCIN_FRAPPE@.subrange(1345int, 1345int + ".modeline.normal"@.len()) =~= ".modeline.normal"@);
    assert forall|t: int| 0 <= t < TOKEN_COUNT implies contains_seq(CATPPUCCIN_FRAPPE@, #[trigger] token_define(t)) by {
        assert(t == 0 || t == 1 || t == 2 || t == 3 || t == 4 || t == 5 || t == 6 || t == 7 || t == 8 || t == 9 || t == 10 || t == 11 || t == 12);
    }
}

proof fn lemma_catppuccin_macchiato_complete()
    ensures
        stylesheet_complete(CATPPUCCIN_MACCHIATO@),
{
    reveal_strlit("/* catppuccin-macchiato */\n@define-color kryptos_bg #24273a;\n@define-color kryptos_mantle #1e2030;\n@define-color kryptos_surface #363a4f;\n@define-color kryptos_surface2 #5b6078;\n@define-color kryptos_overlay #6e738d;\n@define-color kryptos_fg #cad3f5;\n@define-color kryptos_subtle #a5adcb;\n@define-color kryptos_accent #c6a0f6;\n@define-color kryptos_blue #8aadf4;\n@define-color kryptos_green #a6da95;\n@define-color kryptos_yellow #eed49f;\n@define-color kryptos_red #ed8796;\n@define-color kryptos_lavender #b7bdf8;\n.background, window { background-color: @kryptos_bg; color: @kryptos_fg; }\n.navigation-sidebar, .sidebar-header { background-color: @kryptos_mantle; }\nheaderbar { background-color: @kryptos_surface; color: @kryptos_fg; }\n.kryptos-chat-row:hover, .chat-avatar { background-color: @kryptos_surface2; }\n.kryptos-chat-row:selected { border-left-color: @kryptos_accent; }\n.chat-preview, .chat-timestamp, .dim-label { color: @kryptos_subtle; }\ntooltip { background-color: @kryptos_overlay; color: @kryptos_fg; }\n.bubble-theirs { background-color: @kryptos_surface; color: @kryptos_fg; }\n.bubble-mine { background-color: @kryptos_accent; color: @kryptos_bg; }\nlink, .suggested-action { color: @kryptos_accent; }\n.error, .destructive-action { color: @kryptos_red; }\n.kryptos-modeline { background-color: @kryptos_mantle; color: @kryptos_fg; }\n.modeline.normal, .modeline-mode-block.mode-normal { background-color: @kryptos_green; color: @kryptos_bg; }\n.modeline.insert, .modeline-mode-block.mode-insert { background-color: @kryptos_blue; color: @kryptos_bg; }\n.modeline.command, .modeline-mode-block.mode-command { background-color: @kryptos_lavender; color: @kryptos_bg; }\n.modeline.search, .modeline-mode-block.mode-search { background-color: @kryptos_yellow; color: @kryptos_bg; }\n.composer-normal { border-left-color: @kryptos_green; }\n.composer-insert { border-left-color: @kryptos_blue; }\n.composer-visual { border-left-color: @kryptos_lavender; }\n");
    reveal_strlit("@define-color kryptos_bg");
    reveal_strlit("@define-color kryptos_mantle");
    reveal_strlit("@define-color kryptos_surface");
    reveal_strlit("@define-color kryptos_surface2");
    reveal_strlit("@define-color kryptos_overlay");
    reveal_strlit("@define-color kryptos_fg");
    reveal_strlit("@define-color kryptos_subtle");
    reveal_strlit("@define-color kryptos_accent");
    reveal_strlit("@define-color kryptos_blue");
    reveal_strlit("@define-color kryptos_green");
    reveal_strlit("@define-color kryptos_yellow");
    reveal_strlit("@define-color kryptos_red");
    reveal_strlit("@define-color kryptos_lavender");
    reveal_strlit(".modeline.normal");
    assert(CATPPUCCIN_MACCHIATO@.subrange(27int, 27int + token_define(0).len()) =~= token_define(0));
    assert(CATPPUCCIN_MACCHIATO@.subrange(61int, 61int + token_define(1).len()) =~= token_define(1));
    assert(CATPPUCCIN_MACCHIATO@.subrange(99int, 99int + token_define(2).len()) =~= token_define(2));
    assert(CATPPUCCIN_MACCHIATO@.subrange(138int, 138int + token_define(3).len()) =~= token_define(3));
    assert(CATPPUCCIN_MACCHIATO@.subrange(178int, 178int + token_define(4).len()) =~= token_define(4));
    assert(CATPPUCCIN_MACCHIATO@.subrange(217int, 217int + token_define(5).len()) =~= token_define(5));
    assert(CATPPUCCIN_MACCHIATO@.subrange(251int, 251int + token_define(6).len()) =~= token_define(6));
    assert(CATPPUCCIN_MACCHIATO@.subrange(289int, 289int + token_define(7).len()) =~= token_define(7));
    assert(CATPPUCCIN_MACCHIATO@.subrange(327int, 327int + token_define(8).len()) =~= token_define(8));
    assert(CATPPUCCIN_MACCHIATO@.subrange(363int, 363int + token_define(9).len()) =~= token_define(9));
    assert(CATPPUCCIN_MACCHIATO@.subrange(400int, 400int + token_define(10).len()) =~= token_define(10));
    assert(CATPPUCCIN_MACCHIATO@.subrange(438int, 438int + token_define(11).len()) =~= token_define(11));
    assert(CATPPUCCIN_MACCHIATO@.subrange(473int, 473int + token_define(12).len()) =~= token_define(12));
    assert(CATPPUCCIN_MACCHIATO@.subrange(1348int, 1348int + ".modeline.normal"@.len()) =~= ".modeline.normal"@);
    assert forall|t: int| 0 <= t < TOKEN_COUNT implies contains_seq(CATPPUCCIN_MACCHIATO@, #[trigger] token_define(t)) by {
        assert(t == 0 || t == 1 || t == 2 || t == 3 || t == 4 || t == 5 || t == 6 || t == 7 || t == 8 || t == 9 || t == 10 || t == 11 || t == 12);
    }
}

proof fn lemma_gruvbox_complete()
    ensures
        stylesheet_complete(GRUVBOX@),
{
    reveal_strlit("/* gruvbox */\n@define-color kryptos_bg #282828;\n@define-color kryptos_mantle #1d2021;\n@define-color kryptos_surface #3c3836;\n@define-color kryptos_surface2 #504945;\n@define-color kryptos_overlay #665c54;\n@define-color kryptos_fg #ebdbb2;\n@define-color kryptos_subtle #a89984;\n@define-color kryptos_accent #d3869b;\n@define-color kryptos_blue #83a598;\n@define-color kryptos_green #b8bb26;\n@define-color kryptos_yellow #fabd2f;\n@define-color kryptos_red #fb4934;\n@define-color kryptos_lavender #8ec07c;\n.background, window { background-color: @kryptos_bg; color: @kryptos_fg; }\n.navigation-sidebar, .sidebar-header { background-color: @kryptos_mantle; }\nheaderbar { background-color: @kryptos_surface; color: @kryptos_fg; }\n.kryptos-chat-row:hover, .chat-avatar { background-color: @kryptos_surface2; }\n.kryptos-chat-row:selected { border-left-color: @kryptos_accent; }\n.chat-preview, .chat-timestamp, .dim-label { color: @kryptos_subtle; }\ntooltip { background-color: @kryptos_overlay; color: @kryptos_fg; }\n.bubble-theirs { background-color: @kryptos_surface; color: @kryptos_fg; }\n.bubble-mine { background-color: @kryptos_accent; color: @kryptos_bg; }\nlink, .suggested-action { color: @kryptos_accent; }\n.error, .destructive-action { color: @kryptos_red; }\n.kryptos-modeline { background-color: @kryptos_mantle; color: @kryptos_fg; }\n.modeline.normal, .modeline-mode-block.mode-normal { background-color: @kryptos_green; color: @kryptos_bg; }\n.modeline.insert, .modeline-mode-block.mode-insert { background-color: @kryptos_blue; color: @kryptos_bg; }\n.modeline.command, .modeline-mode-block.mode-command { background-color: @kryptos_lavender; color: @kryptos_bg; }\n.modeline.search, .modeline-mode-block.mode-search { background-color: @kryptos_yellow; color: @kryptos_bg; }\n.composer-normal { border-left-color: @kryptos_green; }\n.composer-insert { border-left-color: @kryptos_blue; }\n.composer-visual { border-left-color: @kryptos_lavender; }\n");
    reveal_strlit("@define-color kryptos_bg");
    reveal_strlit("@define-color kryptos_mantle");
    reveal_strlit("@define-color kryptos_surface");
    reveal_strlit("@define-color kryptos_surface2");
    reveal_strlit("@define-color kryptos_overlay");
    reveal_strlit("@define-color kryptos_fg");
    reveal_strlit("@define-color kryptos_subtle");
    reveal_strlit("@define-color kryptos_accent");
    reveal_strlit("@define-color kryptos_blue");
    reveal_strlit("@define-color kryptos_green");
    reveal_strlit("@define-color kryptos_yellow");
    reveal_strlit("@define-color kryptos_red");
    reveal_strlit("@define-color kryptos_lavender");
    reveal_strlit(".modeline.normal");
    assert(GRUVBOX@.subrange(14int, 14int + token_define(0).len()) =~= token_define(0));
    assert(GRUVBOX@.subrange(48int, 48int + token_define(1).len()) =~= token_define(1));
    assert(GRUVBOX@.subrange(86int, 86int + token_define(2).len()) =~= token_define(2));
    assert(GRUVBOX@.subrange(125int, 125int + token_define(3).len()) =~= token_define(3));
    assert(GRUVBOX@.subrange(165int, 165int + token_define(4).len()) =~= token_define(4));
    assert(GRUVBOX@.subrange(204int, 204int + token_define(5).len()) =~= token_define(5));
    assert(GRUVBOX@.subrange(238int, 238int + token_define(6).len()) =~= token_define(6));
    assert(GRUVBOX@.subrange(276int, 276int + token_define(7).len()) =~= token_define(7));
    assert(GRUVBOX@.subrange(314int, 314int + token_define(8).len()) =~= token_define(8));
    assert(GRUVBOX@.subrange(350int, 350int + token_define(9).len()) =~= token_define(9));
    assert(GRUVBOX@.subrange(387int, 387int + token_define(10).len()) =~= token_define(10));
    assert(GRUVBOX@.subrange(425int, 425int + token_define(11).len()) =~= token_define(11));
    assert(GRUVBOX@.subrange(460int, 460int + token_define(12).len()) =~= token_define(12));
    assert(GRUVBOX@.subrange(1335int, 1335int + ".modeline.normal"@.len()) =~= ".modeline.normal"@);
    assert forall|t: int| 0 <= t < TOKEN_COUNT implies contains_seq(GRUVBOX@, #[trigger] token_define(t)) by {
        assert(t == 0 || t == 1 || t == 2 || t == 3 || t == 4 || t == 5 || t == 6 || t == 7 || t == 8 || t == 9 || t == 10 || t == 11 || t == 12);
    }
}

proof fn lemma_gruvbox_light_complete()
    ensures
        stylesheet_complete(GRUVBOX_LIGHT@),
{
    reveal_strlit("/* gruvbox-light */\n@define-color kryptos_bg #fbf1c7;\n@define-color kryptos_mantle #f9f5d7;\n@define-color kryptos_surface #ebdbb2;\n@define-color kryptos_surface2 #d5c4a1;\n@define-color kryptos_overlay #bdae93;\n@define-color kryptos_fg #3c3836;\n@define-color kryptos_subtle #7c6f64;\n@define-color kryptos_accent #b16286;\n@define-color kryptos_blue #076678;\n@define-color kryptos_green #79740e;\n@define-color kryptos_yellow #b57614;\n@define-color kryptos_red #9d0006;\n@define-color kryptos_lavender #427b58;\n.background, window { background-color: @kryptos_bg; color: @kryptos_fg; }\n.navigation-sidebar, .sidebar-header { background-color: @kryptos_mantle; }\nheaderbar { background-color: @kryptos_surface; color: @kryptos_fg; }\n.kryptos-chat-row:hover, .chat-avatar { background-color: @kryptos_surface2; }\n.kryptos-chat-row:selected { border-left-color: @kryptos_accent; }\n.chat-preview, .chat-timestamp, .dim-label { color: @kryptos_subtle; }\ntooltip { background-color: @kryptos_overlay; color: @kryptos_fg; }\n.bubble-theirs { background-color: @kryptos_surface; color: @kryptos_fg; }\n.bubble-mine { background-color: @kryptos_accent; color: @kryptos_bg; }\nlink, .suggested-action { color: @kryptos_accent; }\n.error, .destructive-action { color: @kryptos_red; }\n.kryptos-modeline { background-color: @kryptos_mantle; color: @kryptos_fg; }\n.modeline.normal, .modeline-mode-block.mode-normal { background-color: @kryptos_green; color: @kryptos_bg; }\n.modeline.insert, .modeline-mode-block.mode-insert { background-color: @kryptos_blue; color: @kryptos_bg; }\n.modeline.command, .modeline-mode-block.mode-command { background-color: @kryptos_lavender; color: @kryptos_bg; }\n.modeline.search, .modeline-mode-block.mode-search { background-color: @kryptos_yellow; color: @kryptos_bg; }\n.composer-normal { border-left-color: @kryptos_green; }\n.composer-insert { border-left-color: @kryptos_blue; }\n.composer-visual { border-left-color: @kryptos_lavender; }\n");
    reveal_strlit("@define-color kryptos_bg");
    reveal_strlit("@define-color kryptos_mantle");
    reveal_strlit("@define-color kryptos_surface");
    reveal_strlit("@define-color kryptos_surface2");
    reveal_strlit("@define-color kryptos_overlay");
    reveal_strlit("@define-color kryptos_fg");
    reveal_strlit("@define-color kryptos_subtle");
    reveal_strlit("@define-color kryptos_accent");
    reveal_strlit("@define-color kryptos_blue");
    reveal_strlit("@define-color kryptos_green");
    reveal_strlit("@define-color kryptos_yellow");
    reveal_strlit("@define-color kryptos_red");
    reveal_strlit("@define-color kryptos_lavender");
    reveal_strlit(".modeline.normal");
    assert(GRUVBOX_LIGHT@.subrange(20int, 20int + token_define(0).len()) =~= token_define(0));
    assert(GRUVBOX_LIGHT@.subrange(54int, 54int + token_define(1).len()) =~= token_define(1));
    assert(GRUVBOX_LIGHT@.subrange(92int, 92int + token_define(2).len()) =~= token_define(2));
    assert(GRUVBOX_LIGHT@.subrange(131int, 131int + token_define(3).len()) =~= token_define(3));
    assert(GRUVBOX_LIGHT@.subrange(171int, 171int + token_define(4).len()) =~= token_define(4));
    assert(GRUVBOX_LIGHT@.subrange(210int, 210int + token_define(5).len()) =~= token_define(5));
    assert(GRUVBOX_LIGHT@.subrange(244int, 244int + token_define(6).len()) =~= token_define(6));
    assert(GRUVBOX_LIGHT@.subrange(282int, 282int + token_define(7).len()) =~= token_define(7));
    assert(GRUVBOX_LIGHT@.subrange(320int, 320int + token_define(8).len()) =~= token_define(8));
    assert(GRUVBOX_LIGHT@.subrange(356int, 356int + token_define(9).len()) =~= token_define(9));
    assert(GRUVBOX_LIGHT@.subrange(393int, 393int + token_define(10).len()) =~= token_define(10));
    assert(GRUVBOX_LIGHT@.subrange(431int, 431int + token_define(11).len()) =~= token_define(11));
    assert(GRUVBOX_LIGHT@.subrange(466int, 466int + token_define(12).len()) =~= token_define(12));
    assert(GRUVBOX_LIGHT@.subrange(1341int, 1341int + ".modeline.normal"@.len()) =~= ".modeline.normal"@);
    assert forall|t: int| 0 <= t < TOKEN_COUNT implies contains_seq(GRUVBOX_LIGHT@, #[trigger] token_define(t)) by {
        assert(t == 0 || t == 1 || t == 2 || t == 3 || t == 4 || t == 5 || t == 6 || t == 7 || t == 8 || t == 9 || t == 10 || t == 11 || t == 12);
    }
}

proof fn lemma_tokyo_night_complete()
    ensures
        stylesheet_complete(TOKYO_NIGHT@),
{
    reveal_strlit("/* tokyo-night */\n@define-color kryptos_bg #1a1b26;\n@define-color kryptos_mantle #16161e;\n@define-color kryptos_surface #292e42;\n@define-color kryptos_surface2 #414868;\n@define-color kryptos_overlay #565f89;\n@define-color kryptos_fg #c0caf5;\n@define-color kryptos_subtle #a9b1d6;\n@define-color kryptos_accent #bb9af7;\n@define-color kryptos_blue #7aa2f7;\n@define-color kryptos_green #9ece6a;\n@define-color kryptos_yellow #e0af68;\n@define-color kryptos_red #f7768e;\n@define-color kryptos_lavender #7dcfff;\n.background, window { background-color: @kryptos_bg; color: @kryptos_fg; }\n.navigation-sidebar, .sidebar-header { background-color: @kryptos_mantle; }\nheaderbar { background-color: @kryptos_surface; color: @kryptos_fg; }\n.kryptos-chat-row:hover, .chat-avatar { background-color: @kryptos_surface2; }\n.kryptos-chat-row:selected { border-left-color: @kryptos_accent; }\n.chat-preview, .chat-timestamp, .dim-label { color: @kryptos_subtle; }\ntooltip { background-color: @kryptos_overlay; color: @kryptos_fg; }\n.bubble-theirs { background-color: @kryptos_surface; color: @kryptos_fg; }\n.bubble-mine { background-color: @kryptos_accent; color: @kryptos_bg; }\nlink, .suggested-action { color: @kryptos_accent; }\n.error, .destructive-action { color: @kryptos_red; }\n.kryptos-modeline { background-color: @kryptos_mantle; color: @kryptos_fg; }\n.modeline.normal, .modeline-mode-block.mode-normal { background-color: @kryptos_green; color: @kryptos_bg; }\n.modeline.insert, .modeline-mode-block.mode-insert { background-color: @kryptos_blue; color: @kryptos_bg; }\n.modeline.command, .modeline-mode-block.mode-command { background-color: @kryptos_lavender; color: @kryptos_bg; }\n.modeline.search, .modeline-mode-block.mode-search { background-color: @kryptos_yellow; color: @kryptos_bg; }\n.composer-normal { border-left-color: @kryptos_green; }\n.composer-insert { border-left-color: @kryptos_blue; }\n.composer-visual { border-left-color: @kryptos_lavender; }\n");
    reveal_strlit("@define-color kryptos_bg");
    reveal_strlit("@define-color kryptos_mantle");
    reveal_strlit("@define-color kryptos_surface");
    reveal_strlit("@define-color kryptos_surface2");
    reveal_strlit("@define-color kryptos_overlay");
    reveal_strlit("@define-color kryptos_fg");
    reveal_strlit("@define-color kryptos_subtle");
    reveal_strlit("@define-color kryptos_accent");
    reveal_strlit("@define-color kryptos_blue");
    reveal_strlit("@define-color kryptos_green");
    reveal_strlit("@define-color kryptos_yellow");
    reveal_strlit("@define-color kryptos_red");
    reveal_strlit("@define-color kryptos_lavender");
    reveal_strlit(".modeline.normal");
    assert(TOKYO_NIGHT@.subrange(18int, 18int + token_define(0).len()) =~= token_define(0));
    assert(TOKYO_NIGHT@.subrange(52int, 52int + token_define(1).len()) =~= token_define(1));
    assert(TOKYO_NIGHT@.subrange(90int, 90int + token_define(2).len()) =~= token_define(2));
    assert(TOKYO_NIGHT@.subrange(129int, 129int + token_define(3).len()) =~= token_define(3));
    assert(TOKYO_NIGHT@.subrange(169int, 169int + token_define(4).len()) =~= token_define(4));
    assert(TOKYO_NIGHT@.subrange(208int, 208int + token_define(5).len()) =~= token_define(5));
    assert(TOKYO_NIGHT@.subrange(242int, 242int + token_define(6).len()) =~= token_define(6));
    assert(TOKYO_NIGHT@.subrange(280int, 280int + token_define(7).len()) =~= token_define(7));
    assert(TOKYO_NIGHT@.subrange(318int, 318int + token_define(8).len()) =~= token_define(8));
    assert(TOKYO_NIGHT@.subrange(354int, 354int + token_define(9).len()) =~= token_define(9));
    assert(TOKYO_NIGHT@.subrange(391int, 391int + token_define(10).len()) =~= token_define(10));
    assert(TOKYO_NIGHT@.subrange(429int, 429int + token_define(11).len()) =~= token_define(11));
    assert(TOKYO_NIGHT@.subrange(464int, 464int + token_define(12).len()) =~= token_define(12));
    assert(TOKYO_NIGHT@.subrange(1339int, 1339int + ".modeline.normal"@.len()) =~= ".modeline.normal"@);
    assert forall|t: int| 0 <= t < TOKEN_COUNT implies contains_seq(TOKYO_NIGHT@, #[trigger] token_define(t)) by {
        assert(t == 0 || t == 1 || t == 2 || t == 3 || t == 4 || t == 5 || t == 6 || t == 7 || t == 8 || t == 9 || t == 10 || t == 11 || t == 12);
    }
}

proof fn lemma_tokyo_night_storm_complete()
    ensures
        stylesheet_complete(TOKYO_NIGHT_STORM@),
{
    reveal_strlit("/* tokyo-night-storm */\n@define-color kryptos_bg #24283b;\n@define-color kryptos_mantle #1f2335;\n@define-color kryptos_surface #2e3450;\n@define-color kryptos_surface2 #414868;\n@define-color kryptos_overlay #565f89;\n@define-color kryptos_fg #c0caf5;\n@define-color kryptos_subtle #a9b1d6;\n@define-color kryptos_accent #bb9af7;\n@define-color kryptos_blue #7aa2f7;\n@define-color kryptos_green #9ece6a;\n@define-color kryptos_yellow #e0af68;\n@define-color kryptos_red #f7768e;\n@define-color kryptos_lavender #7dcfff;\n.background, window { background-color: @kryptos_bg; color: @kryptos_fg; }\n.navigation-sidebar, .sidebar-header { background-color: @kryptos_mantle; }\nheaderbar { background-color: @kryptos_surface; color: @kryptos_fg; }\n.kryptos-chat-row:hover, .chat-avatar { background-color: @kryptos_surface2; }\n.kryptos-chat-row:selected { border-left-color: @kryptos_accent; }\n.chat-preview, .chat-timestamp, .dim-label { color: @kryptos_subtle; }\ntooltip { background-color: @kryptos_overlay; color: @kryptos_fg; }\n.bubble-theirs { background-color: @kryptos_surface; color: @kryptos_fg; }\n.bubble-mine { background-color: @kryptos_accent; color: @kryptos_bg; }\nlink, .suggested-action { color: @kryptos_accent; }\n.error, .destructive-action { color: @kryptos_red; }\n.kryptos-modeline { background-color: @kryptos_mantle; color: @kryptos_fg; }\n.modeline.normal, .modeline-mode-block.mode-normal { background-color: @kryptos_green; color: @kryptos_bg; }\n.modeline.insert, .modeline-mode-block.mode-insert { background-color: @kryptos_blue; color: @kryptos_bg; }\n.modeline.command, .modeline-mode-block.mode-command { background-color: @kryptos_lavender; color: @kryptos_bg; }\n.modeline.search, .modeline-mode-block.mode-search { background-color: @kryptos_yellow; color: @kryptos_bg; }\n.composer-normal { border-left-color: @kryptos_green; }\n.composer-insert { border-left-color: @kryptos_blue; }\n.composer-visual { border-left-color: @kryptos_lavender; }\n");
    reveal_strlit("@define-color kryptos_bg");
    reveal_strlit("@define-color kryptos_mantle");
    reveal_strlit("@define-color kryptos_surface");
    reveal_strlit("@define-color kryptos_surface2");
    reveal_strlit("@define-color kryptos_overlay");
    reveal_strlit("@define-color kryptos_fg");
    reveal_strlit("@define-color kryptos_subtle");
    reveal_strlit("@define-color kryptos_accent");
    reveal_strlit("@define-color kryptos_blue");
    reveal_strlit("@define-color kryptos_green");
    reveal_strlit("@define-color kryptos_yellow");
    reveal_strlit("@define-color kryptos_red");
    reveal_strlit("@define-color kryptos_lavender");
    reveal_strlit(".modeline.normal");
    assert(TOKYO_NIGHT_STORM@.subrange(24int, 24int + token_define(0).len()) =~= token_define(0));
    assert(TOKYO_NIGHT_STORM@.subrange(58int, 58int + token_define(1).len()) =~= token_define(1));
    assert(TOKYO_NIGHT_STORM@.subrange(96int, 96int + token_define(2).len()) =~= token_define(2));
    assert(TOKYO_NIGHT_STORM@.subrange(135int, 135int + token_define(3).len()) =~= token_define(3));
    assert(TOKYO_NIGHT_STORM@.subrange(175int, 175int + token_define(4).len()) =~= token_define(4));
    assert(TOKYO_NIGHT_STORM@.subrange(214int, 214int + token_define(5).len()) =~= token_define(5));
    assert(TOKYO_NIGHT_STORM@.subrange(248int, 248int + token_define(6).len()) =~= token_define(6));
    assert(TOKYO_NIGHT_STORM@.subrange(286int, 286int + token_define(7).len()) =~= token_define(7));
    assert(TOKYO_NIGHT_STORM@.subrange(324int, 324int + token_define(8).len()) =~= token_define(8));
    assert(TOKYO_NIGHT_STORM@.subrange(360int, 360int + token_define(9).len()) =~= token_define(9));
    assert(TOKYO_NIGHT_STORM@.subrange(397int, 397int + token_define(10).len()) =~= token_define(10));
    assert(TOKYO_NIGHT_STORM@.subrange(435int, 435int + token_define(11).len()) =~= token_define(11));
    assert(TOKYO_NIGHT_STORM@.subrange(470int, 470int + token_define(12).len()) =~= token_define(12));
    assert(TOKYO_NIGHT_STORM@.subrange(1345int, 1345int + ".modeline.normal"@.len()) =~= ".modeline.normal"@);
    assert forall|t: int| 0 <= t < TOKEN_COUNT implies contains_seq(TOKYO_NIGHT_STORM@, #[trigger] token_define(t)) by {
        assert(t == 0 || t == 1 || t == 2 || t == 3 || t == 4 || t == 5 || t == 6 || t == 7 || t == 8 || t == 9 || t == 10 || t == 11 || t == 12);
    }
}

proof fn lemma_everforest_dark_complete()
    ensures
        stylesheet_complete(EVERFOREST_DARK@),
{
    reveal_strlit("/* everforest-dark */\n@define-color kryptos_bg #2d353b;\n@define-color kryptos_mantle #272e33;\n@define-color kryptos_surface #374145;\n@define-color kryptos_surface2 #414b50;\n@define-color kryptos_overlay #7a8478;\n@define-color kryptos_fg #d3c6aa;\n@define-color kryptos_subtle #9da9a0;\n@define-color kryptos_accent #a7c080;\n@define-color kryptos_blue #7fbbb3;\n@define-color kryptos_green #a7c080;\n@define-color kryptos_yellow #dbbc7f;\n@define-color kryptos_red #e67e80;\n@define-color kryptos_lavender #d699b6;\n.background, window { background-color: @kryptos_bg; color: @kryptos_fg; }\n.navigation-sidebar, .sidebar-header { background-color: @kryptos_mantle; }\nheaderbar { background-color: @kryptos_surface; color: @kryptos_fg; }\n.kryptos-chat-row:hover, .chat-avatar { background-color: @kryptos_surface2; }\n.kryptos-chat-row:selected { border-left-color: @kryptos_accent; }\n.chat-preview, .chat-timestamp, .dim-label { color: @kryptos_subtle; }\ntooltip { background-color: @kryptos_overlay; color: @kryptos_fg; }\n.bubble-theirs { background-color: @kryptos_surface; color: @kryptos_fg; }\n.bubble-mine { background-color: @kryptos_accent; color: @kryptos_bg; }\nlink, .suggested-action { color: @kryptos_accent; }\n.error, .destructive-action { color: @kryptos_red; }\n.kryptos-modeline { background-color: @kryptos_mantle; color: @kryptos_fg; }\n.modeline.normal, .modeline-mode-block.mode-normal { background-color: @kryptos_green; color: @kryptos_bg; }\n.modeline.insert, .modeline-mode-block.mode-insert { background-color: @kryptos_blue; color: @kryptos_bg; }\n.modeline.command, .modeline-mode-block.mode-command { background-color: @kryptos_lavender; color: @kryptos_bg; }\n.modeline.search, .modeline-mode-block.mode-search { background-color: @kryptos_yellow; color: @kryptos_bg; }\n.composer-normal { border-left-color: @kryptos_green; }\n.composer-insert { border-left-color: @kryptos_blue; }\n.composer-visual { border-left-color: @kryptos_lavender; }\n");
    reveal_strlit("@define-color kryptos_bg");
    reveal_strlit("@define-color kryptos_mantle");
    reveal_strlit("@define-color kryptos_surface");
    reveal_strlit("@define-color kryptos_surface2");
    reveal_strlit("@define-color kryptos_overlay");
    reveal_strlit("@define-color kryptos_fg");
    reveal_strlit("@define-color kryptos_subtle");
    reveal_strlit("@define-color kryptos_accent");
    reveal_strlit("@define-color kryptos_blue");
    reveal_strlit("@define-color kryptos_green");
    reveal_strlit("@define-color kryptos_yellow");
    reveal_strlit("@define-color kryptos_red");
    reveal_strlit("@define-color kryptos_lavender");
    reveal_strlit(".modeline.normal");
    assert(EVERFOREST_DARK@.subrange(22int, 22int + token_define(0).len()) =~= token_define(0));
    assert(EVERFOREST_DARK@.subrange(56int, 56int + token_define(1).len()) =~= token_define(1));
    assert(EVERFOREST_DARK@.subrange(94int, 94int + token_define(2).len()) =~= token_define(2));
    assert(EVERFOREST_DARK@.subrange(133int, 133int + token_define(3).len()) =~= token_define(3));
    assert(EVERFOREST_DARK@.subrange(173int, 173int + token_define(4).len()) =~= token_define(4));
    assert(EVERFOREST_DARK@.subrange(212int, 212int + token_define(5).len()) =~= token_define(5));
    assert(EVERFOREST_DARK@.subrange(246int, 246int + token_define(6).len()) =~= token_define(6));
    assert(EVERFOREST_DARK@.subrange(284int, 284int + token_define(7).len()) =~= token_define(7));
    assert(EVERFOREST_DARK@.subrange(322int, 322int + token_define(8).len()) =~= token_define(8));
    assert(EVERFOREST_DARK@.subrange(358int, 358int + token_define(9).len()) =~= token_define(9));
    assert(EVERFOREST_DARK@.subrange(395int, 395int + token_define(10).len()) =~= token_define(10));
    assert(EVERFOREST_DARK@.subrange(433int, 433int + token_define(11).len()) =~= token_define(11));
    assert(EVERFOREST_DARK@.subrange(468int, 468int + token_define(12).len()) =~= token_define(12));
    assert(EVERFOREST_DARK@.subrange(1343int, 1343int + ".modeline.normal"@.len()) =~= ".modeline.normal"@);
    assert forall|t: int| 0 <= t < TOKEN_COUNT implies contains_seq(EVERFOREST_DARK@, #[trigger] token_define(t)) by {
        assert(t == 0 || t == 1 || t == 2 || t == 3 || t == 4 || t == 5 || t == 6 || t == 7 || t == 8 || t == 9 || t == 10 || t == 11 || t == 12);
    }
}

proof fn lemma_everforest_dark_soft_complete()
    ensures
        stylesheet_complete(EVERFOREST_DARK_SOFT@),
{
    reveal_strlit("/* everforest-dark-soft */\n@define-color kryptos_bg #333c43;\n@define-color kryptos_mantle #2d353b;\n@define-color kryptos_surface #3e4a51;\n@define-color kryptos_surface2 #4b565c;\n@define-color kryptos_overlay #7a8478;\n@define-color kryptos_fg #d3c6aa;\n@define-color kryptos_subtle #9da9a0;\n@define-color kryptos_accent #a7c080;\n@define-color kryptos_blue #7fbbb3;\n@define-color kryptos_green #a7c080;\n@define-color kryptos_yellow #dbbc7f;\n@define-color kryptos_red #e67e80;\n@define-color kryptos_lavender #d699b6;\n.background, window { background-color: @kryptos_bg; color: @kryptos_fg; }\n.navigation-sidebar, .sidebar-header { background-color: @kryptos_mantle; }\nheaderbar { background-color: @kryptos_surface; color: @kryptos_fg; }\n.kryptos-chat-row:hover, .chat-avatar { background-color: @kryptos_surface2; }\n.kryptos-chat-row:selected { border-left-color: @kryptos_accent; }\n.chat-preview, .chat-timestamp, .dim-label { color: @kryptos_subtle; }\ntooltip { background-color: @kryptos_overlay; color: @kryptos_fg; }\n.bubble-theirs { background-color: @kryptos_surface; color: @kryptos_fg; }\n.bubble-mine { background-color: @kryptos_accent; color: @kryptos_bg; }\nlink, .suggested-action { color: @kryptos_accent; }\n.error, .destructive-action { color: @kryptos_red; }\n.kryptos-modeline { background-color: @kryptos_mantle; color: @kryptos_fg; }\n.modeline.normal, .modeline-mode-block.mode-normal { background-color: @kryptos_green; color: @kryptos_bg; }\n.modeline.insert, .modeline-mode-block.mode-insert { background-color: @kryptos_blue; color: @kryptos_bg; }\n.modeline.command, .modeline-mode-block.mode-command { background-color: @kryptos_lavender; color: @kryptos_bg; }\n.modeline.search, .modeline-mode-block.mode-search { background-color: @kryptos_yellow; color: @kryptos_bg; }\n.composer-normal { border-left-color: @kryptos_green; }\n.composer-insert { border-left-color: @kryptos_blue; }\n.composer-visual { border-left-color: @kryptos_lavender; }\n");
    reveal_strlit("@define-color kryptos_bg");
    reveal_strlit("@define-color kryptos_mantle");
    reveal_strlit("@define-color kryptos_surface");
    reveal_strlit("@define-color kryptos_surface2");
    reveal_strlit("@define-color kryptos_overlay");
    reveal_strlit("@define-color kryptos_fg");
    reveal_strlit("@define-color kryptos_subtle");
    reveal_strlit("@define-color kryptos_accent");
    reveal_strlit("@define-color kryptos_blue");
    reveal_strlit("@define-color kryptos_green");
    reveal_strlit("@define-color kryptos_yellow");
    reveal_strlit("@define-color kryptos_red");
    reveal_strlit("@define-color kryptos_lavender");
    reveal_strlit(".modeline.normal");
    assert(EVERFOREST_DARK_SOFT@.subrange(27int, 27int + token_define(0).len()) =~= token_define(0));
    assert(EVERFOREST_DARK_SOFT@.subrange(61int, 61int + token_define(1).len()) =~= token_define(1));
    assert(EVERFOREST_DARK_SOFT@.subrange(99int, 99int + token_define(2).len()) =~= token_define(2));
    assert(EVERFOREST_DARK_SOFT@.subrange(138int, 138int + token_define(3).len()) =~= token_define(3));
    assert(EVERFOREST_DARK_SOFT@.subrange(178int, 178int + token_define(4).len()) =~= token_define(4));
    assert(EVERFOREST_DARK_SOFT@.subrange(217int, 217int + token_define(5).len()) =~= token_define(5));
    assert(EVERFOREST_DARK_SOFT@.subrange(251int, 251int + token_define(6).len()) =~= token_define(6));
    assert(EVERFOREST_DARK_SOFT@.subrange(289int, 289int + token_define(7).len()) =~= token_define(7));
    assert(EVERFOREST_DARK_SOFT@.subrange(327int, 327int + token_define(8).len()) =~= token_define(8));
    assert(EVERFOREST_DARK_SOFT@.subrange(363int, 363int + token_define(9).len()) =~= token_define(9));
    assert(EVERFOREST_DARK_SOFT@.subrange(400int, 400int + token_define(10).len()) =~= token_define(10));
    assert(EVERFOREST_DARK_SOFT@.subrange(438int, 438int + token_define(11).len()) =~= token_define(11));
    assert(EVERFOREST_DARK_SOFT@.subrange(473int, 473int + token_define(12).len()) =~= token_define(12));
    assert(EVERFOREST_DARK_SOFT@.subrange(1348int, 1348int + ".modeline.normal"@.len()) =~= ".modeline.normal"@);
    assert forall|t: int| 0 <= t < TOKEN_COUNT implies contains_seq(EVERFOREST_DARK_SOFT@, #[trigger] token_define(t)) by {
        assert(t == 0 || t == 1 || t == 2 || t == 3 || t == 4 || t == 5 || t == 6 || t == 7 || t == 8 || t == 9 || t == 10 || t == 11 || t == 12);
    }
}

proof fn lemma_everforest_light_complete()
    ensures
        stylesheet_complete(EVERFOREST_LIGHT@),
{
    reveal_strlit("/* everforest-light */\n@define-color kryptos_bg #fdf6e3;\n@define-color kryptos_mantle #f4f0d9;\n@define-color kryptos_surface #efebd4;\n@define-color kryptos_surface2 #e6e2cc;\n@define-color kryptos_overlay #a6b0a0;\n@define-color kryptos_fg #5c6a72;\n@define-color kryptos_subtle #829181;\n@define-color kryptos_accent #8da101;\n@define-color kryptos_blue #3a94c5;\n@define-color kryptos_green #8da101;\n@define-color kryptos_yellow #dfa000;\n@define-color kryptos_red #f85552;\n@define-color kryptos_lavender #df69ba;\n.background, window { background-color: @kryptos_bg; color: @kryptos_fg; }\n.navigation-sidebar, .sidebar-header { background-color: @kryptos_mantle; }\nheaderbar { background-color: @kryptos_surface; color: @kryptos_fg; }\n.kryptos-chat-row:hover, .chat-avatar { background-color: @kryptos_surface2; }\n.kryptos-chat-row:selected { border-left-color: @kryptos_accent; }\n.chat-preview, .chat-timestamp, .dim-label { color: @kryptos_subtle; }\ntooltip { background-color: @kryptos_overlay; color: @kryptos_fg; }\n.bubble-theirs { background-color: @kryptos_surface; color: @kryptos_fg; }\n.bubble-mine { background-color: @kryptos_accent; color: @kryptos_bg; }\nlink, .suggested-action { color: @kryptos_accent; }\n.error, .destructive-action { color: @kryptos_red; }\n.kryptos-modeline { background-color: @kryptos_mantle; color: @kryptos_fg; }\n.modeline.normal, .modeline-mode-block.mode-normal { background-color: @kryptos_green; color: @kryptos_bg; }\n.modeline.insert, .modeline-mode-block.mode-insert { background-color: @kryptos_blue; color: @kryptos_bg; }\n.modeline.command, .modeline-mode-block.mode-command { background-color: @kryptos_lavender; color: @kryptos_bg; }\n.modeline.search, .modeline-mode-block.mode-search { background-color: @kryptos_yellow; color: @kryptos_bg; }\n.composer-normal { border-left-color: @kryptos_green; }\n.composer-insert { border-left-color: @kryptos_blue; }\n.composer-visual { border-left-color: @kryptos_lavender; }\n");
    reveal_strlit("@define-color kryptos_bg");
    reveal_strlit("@define-color kryptos_mantle");
    reveal_strlit("@define-color kryptos_surface");
    reveal_strlit("@define-color kryptos_surface2");
    reveal_strlit("@define-color kryptos_overlay");
    reveal_strlit("@define-color kryptos_fg");
    reveal_strlit("@define-color kryptos_subtle");
    reveal_strlit("@define-color kryptos_accent");
    reveal_strlit("@define-color kryptos_blue");
    reveal_strlit("@define-color kryptos_green");
    reveal_strlit("@define-color kryptos_yellow");
    reveal_strlit("@define-color kryptos_red");
    reveal_strlit("@define-color kryptos_lavender");
    reveal_strlit(".modeline.normal");
    assert(EVERFOREST_LIGHT@.subrange(23int, 23int + token_define(0).len()) =~= token_define(0));
    assert(EVERFOREST_LIGHT@.subrange(57int, 57int + token_define(1).len()) =~= token_define(1));
    assert(EVERFOREST_LIGHT@.subrange(95int, 95int + token_define(2).len()) =~= token_define(2));
    assert(EVERFOREST_LIGHT@.subrange(134int, 134int + token_define(3).len()) =~= token_define(3));
    assert(EVERFOREST_LIGHT@.subrange(174int, 174int + token_define(4).len()) =~= token_define(4));
    assert(EVERFOREST_LIGHT@.subrange(213int, 213int + token_define(5).len()) =~= token_define(5));
    assert(EVERFOREST_LIGHT@.subrange(247int, 247int + token_define(6).len()) =~= token_define(6));
    assert(EVERFOREST_LIGHT@.subrange(285int, 285int + token_define(7).len()) =~= token_define(7));
    assert(EVERFOREST_LIGHT@.subrange(323int, 323int + token_define(8).len()) =~= token_define(8));
    assert(EVERFOREST_LIGHT@.subrange(359int, 359int + token_define(9).len()) =~= token_define(9));
    assert(EVERFOREST_LIGHT@.subrange(396int, 396int + token_define(10).len()) =~= token_define(10));
    assert(EVERFOREST_LIGHT@.subrange(434int, 434int + token_define(11).len()) =~= token_define(11));
    assert(EVERFOREST_LIGHT@.subrange(469int, 469int + token_define(12).len()) =~= token_define(12));
    assert(EVERFOREST_LIGHT@.subrange(1344int, 1344int + ".modeline.normal"@.len()) =~= ".modeline.normal"@);
    assert forall|t: int| 0 <= t < TOKEN_COUNT implies contains_seq(EVERFOREST_LIGHT@, #[trigger] token_define(t)) by {
        assert(t == 0 || t == 1 || t == 2 || t == 3 || t == 4 || t == 5 || t == 6 || t == 7 || t == 8 || t == 9 || t == 10 || t == 11 || t == 12);
    }
}

proof fn lemma_everforest_light_soft_complete()
    ensures
        stylesheet_complete(EVERFOREST_LIGHT_SOFT@),
{
    reveal_strlit("/* everforest-light-soft */\n@define-color kryptos_bg #f3ead3;\n@define-color kryptos_mantle #eae4ca;\n@define-color kryptos_surface #e5dfb8;\n@define-color kryptos_surface2 #ddd8be;\n@define-color kryptos_overlay #a6b0a0;\n@define-color kryptos_fg #5c6a72;\n@define-color kryptos_subtle #829181;\n@define-color kryptos_accent #8da101;\n@define-color kryptos_blue #3a94c5;\n@define-color kryptos_green #8da101;\n@define-color kryptos_yellow #dfa000;\n@define-color kryptos_red #f85552;\n@define-color kryptos_lavender #df69ba;\n.background, window { background-color: @kryptos_bg; color: @kryptos_fg; }\n.navigation-sidebar, .sidebar-header { background-color: @kryptos_mantle; }\nheaderbar { background-color: @kryptos_surface; color: @kryptos_fg; }\n.kryptos-chat-row:hover, .chat-avatar { background-color: @kryptos_surface2; }\n.kryptos-chat-row:selected { border-left-color: @kryptos_accent; }\n.chat-preview, .chat-timestamp, .dim-label { color: @kryptos_subtle; }\ntooltip { background-color: @kryptos_overlay; color: @kryptos_fg; }\n.bubble-theirs { background-color: @kryptos_surface; color: @kryptos_fg; }\n.bubble-mine { background-color: @kryptos_accent; color: @kryptos_bg; }\nlink, .suggested-action { color: @kryptos_accent; }\n.error, .destructive-action { color: @kryptos_red; }\n.kryptos-modeline { background-color: @kryptos_mantle; color: @kryptos_fg; }\n.modeline.normal, .modeline-mode-block.mode-normal { background-color: @kryptos_green; color: @kryptos_bg; }\n.modeline.insert, .modeline-mode-block.mode-insert { background-color: @kryptos_blue; color: @kryptos_bg; }\n.modeline.command, .modeline-mode-block.mode-command { background-color: @kryptos_lavender; color: @kryptos_bg; }\n.modeline.search, .modeline-mode-block.mode-search { background-color: @kryptos_yellow; color: @kryptos_bg; }\n.composer-normal { border-left-color: @kryptos_green; }\n.composer-insert { border-left-color: @kryptos_blue; }\n.composer-visual { border-left-color: @kryptos_lavender; }\n");
    reveal_strlit("@define-color kryptos_bg");
    reveal_strlit("@define-color kryptos_mantle");
    reveal_strlit("@define-color kryptos_surface");
    reveal_strlit("@define-color kryptos_surface2");
    reveal_strlit("@define-color kryptos_overlay");
    reveal_strlit("@define-color kryptos_fg");
    reveal_strlit("@define-color kryptos_subtle");
    reveal_strlit("@define-color kryptos_accent");
    reveal_strlit("@define-color kryptos_blue");
    reveal_strlit("@define-color kryptos_green");
    reveal_strlit("@define-color kryptos_yellow");
    reveal_strlit("@define-color kryptos_red");
    reveal_strlit("@define-color kryptos_lavender");
    reveal_strlit(".modeline.normal");
    assert(EVERFOREST_LIGHT_SOFT@.subrange(28int, 28int + token_define(0).len()) =~= token_define(0));
    assert(EVERFOREST_LIGHT_SOFT@.subrange(62int, 62int + token_define(1).len()) =~= token_define(1));
    assert(EVERFOREST_LIGHT_SOFT@.subrange(100int, 100int + token_define(2).len()) =~= token_define(2));
    assert(EVERFOREST_LIGHT_SOFT@.subrange(139int, 139int + token_define(3).len()) =~= token_define(3));
    assert(EVERFOREST_LIGHT_SOFT@.subrange(179int, 179int + token_define(4).len()) =~= token_define(4));
    assert(EVERFOREST_LIGHT_SOFT@.subrange(218int, 218int + token_define(5).len()) =~= token_define(5));
    assert(EVERFOREST_LIGHT_SOFT@.subrange(252int, 252int + token_define(6).len()) =~= token_define(6));
    assert(EVERFOREST_LIGHT_SOFT@.subrange(290int, 290int + token_define(7).len()) =~= token_define(7));
    assert(EVERFOREST_LIGHT_SOFT@.subrange(328int, 328int + token_define(8).len()) =~= token_define(8));
    assert(EVERFOREST_LIGHT_SOFT@.subrange(364int, 364int + token_define(9).len()) =~= token_define(9));
    assert(EVERFOREST_LIGHT_SOFT@.subrange(401int, 401int + token_define(10).len()) =~= token_define(10));
    assert(EVERFOREST_LIGHT_SOFT@.subrange(439int, 439int + token_define(11).len()) =~= token_define(11));
    assert(EVERFOREST_LIGHT_SOFT@.subrange(474int, 474int + token_define(12).len()) =~= token_define(12));
    assert(EVERFOREST_LIGHT_SOFT@.subrange(1349int, 1349int + ".modeline.normal"@.len()) =~= ".modeline.normal"@);
    assert forall|t: int| 0 <= t < TOKEN_COUNT implies contains_seq(EVERFOREST_LIGHT_SOFT@, #[trigger] token_define(t)) by {
        assert(t == 0 || t == 1 || t == 2 || t == 3 || t == 4 || t == 5 || t == 6 || t == 7 || t == 8 || t == 9 || t == 10 || t == 11 || t == 12);
    }
}

proof fn lemma_rose_pine_complete()
    ensures
        stylesheet_complete(ROSE_PINE@),
{
    reveal_strlit("/* rose-pine */\n@define-color kryptos_bg #191724;\n@define-color kryptos_mantle #1f1d2e;\n@define-color kryptos_surface #26233a;\n@define-color kryptos_surface2 #403d52;\n@define-color kryptos_overlay #6e6a86;\n@define-color kryptos_fg #e0def4;\n@define-color kryptos_subtle #908caa;\n@define-color kryptos_accent #c4a7e7;\n@define-color kryptos_blue #31748f;\n@define-color kryptos_green #9ccfd8;\n@define-color kryptos_yellow #f6c177;\n@define-color kryptos_red #eb6f92;\n@define-color kryptos_lavender #ebbcba;\n.background, window { background-color: @kryptos_bg; color: @kryptos_fg; }\n.navigation-sidebar, .sidebar-header { background-color: @kryptos_mantle; }\nheaderbar { background-color: @kryptos_surface; color: @kryptos_fg; }\n.kryptos-chat-row:hover, .chat-avatar { background-color: @kryptos_surface2; }\n.kryptos-chat-row:selected { border-left-color: @kryptos_accent; }\n.chat-preview, .chat-timestamp, .dim-label { color: @kryptos_subtle; }\ntooltip { background-color: @kryptos_overlay; color: @kryptos_fg; }\n.bubble-theirs { background-color: @kryptos_surface; color: @kryptos_fg; }\n.bubble-mine { background-color: @kryptos_accent; color: @kryptos_bg; }\nlink, .suggested-action { color: @kryptos_accent; }\n.error, .destructive-action { color: @kryptos_red; }\n.kryptos-modeline { background-color: @kryptos_mantle; color: @kryptos_fg; }\n.modeline.normal, .modeline-mode-block.mode-normal { background-color: @kryptos_green; color: @kryptos_bg; }\n.modeline.insert, .modeline-mode-block.mode-insert { background-color: @kryptos_blue; color: @kryptos_bg; }\n.modeline.command, .modeline-mode-block.mode-command { background-color: @kryptos_lavender; color: @kryptos_bg; }\n.modeline.search, .modeline-mode-block.mode-search { background-color: @kryptos_yellow; color: @kryptos_bg; }\n.composer-normal { border-left-color: @kryptos_green; }\n.composer-insert { border-left-color: @kryptos_blue; }\n.composer-visual { border-left-color: @kryptos_lavender; }\n");
    reveal_strlit("@define-color kryptos_bg");
    reveal_strlit("@define-color kryptos_mantle");
    reveal_strlit("@define-color kryptos_surface");
    reveal_strlit("@define-color kryptos_surface2");
    reveal_strlit("@define-color kryptos_overlay");
    reveal_strlit("@define-color kryptos_fg");
    reveal_strlit("@define-color kryptos_subtle");
    reveal_strlit("@define-color kryptos_accent");
    reveal_strlit("@define-color kryptos_blue");
    reveal_strlit("@define-color kryptos_green");
    reveal_strlit("@define-color kryptos_yellow");
    reveal_strlit("@define-color kryptos_red");
    reveal_strlit("@define-color kryptos_lavender");
    reveal_strlit(".modeline.normal");
    assert(ROSE_PINE@.subrange(16int, 16int + token_define(0).len()) =~= token_define(0));
    assert(ROSE_PINE@.subrange(50int, 50int + token_define(1).len()) =~= token_define(1));
    assert(ROSE_PINE@.subrange(88int, 88int + token_define(2).len()) =~= token_define(2));
    assert(ROSE_PINE@.subrange(127int, 127int + token_define(3).len()) =~= token_define(3));
    assert(ROSE_PINE@.subrange(167int, 167int + token_define(4).len()) =~= token_define(4));
    assert(ROSE_PINE@.subrange(206int, 206int + token_define(5).len()) =~= token_define(5));
    assert(ROSE_PINE@.subrange(240int, 240int + token_define(6).len()) =~= token_define(6));
    assert(ROSE_PINE@.subrange(278int, 278int + token_define(7).len()) =~= token_define(7));
    assert(ROSE_PINE@.subrange(316int, 316int + token_define(8).len()) =~= token_define(8));
    assert(ROSE_PINE@.subrange(352int, 352int + token_define(9).len()) =~= token_define(9));
    assert(ROSE_PINE@.subrange(389int, 389int + token_define(10).len()) =~= token_define(10));
    assert(ROSE_PINE@.subrange(427int, 427int + token_define(11).len()) =~= token_define(11));
    assert(ROSE_PINE@.subrange(462int, 462int + token_define(12).len()) =~= token_define(12));
    assert(ROSE_PINE@.subrange(1337int, 1337int + ".modeline.normal"@.len()) =~= ".modeline.normal"@);
    assert forall|t: int| 0 <= t < TOKEN_COUNT implies contains_seq(ROSE_PINE@, #[trigger] token_define(t)) by {
        assert(t == 0 || t == 1 || t == 2 || t == 3 || t == 4 || t == 5 || t == 6 || t == 7 || t == 8 || t == 9 || t == 10 || t == 11 || t == 12);
    }
}

proof fn lemma_rose_pine_moon_complete()
    ensures
        stylesheet_complete(ROSE_PINE_MOON@),
{
    reveal_strlit("/* rose-pine-moon */\n@define-color kryptos_bg #232136;\n@define-color kryptos_mantle #2a273f;\n@define-color kryptos_surface #393552;\n@define-color kryptos_surface2 #44415a;\n@define-color kryptos_overlay #6e6a86;\n@define-color kryptos_fg #e0def4;\n@define-color kryptos_subtle #908caa;\n@define-color kryptos_accent #c4a7e7;\n@define-color kryptos_blue #3e8fb0;\n@define-color kryptos_green #9ccfd8;\n@define-color kryptos_yellow #f6c177;\n@define-color kryptos_red #eb6f92;\n@define-color kryptos_lavender #ea9a97;\n.background, window { background-color: @kryptos_bg; color: @kryptos_fg; }\n.navigation-sidebar, .sidebar-header { background-color: @kryptos_mantle; }\nheaderbar { background-color: @kryptos_surface; color: @kryptos_fg; }\n.kryptos-chat-row:hover, .chat-avatar { background-color: @kryptos_surface2; }\n.kryptos-chat-row:selected { border-left-color: @kryptos_accent; }\n.chat-preview, .chat-timestamp, .dim-label { color: @kryptos_subtle; }\ntooltip { background-color: @kryptos_overlay; color: @kryptos_fg; }\n.bubble-theirs { background-color: @kryptos_surface; color: @kryptos_fg; }\n.bubble-mine { background-color: @kryptos_accent; color: @kryptos_bg; }\nlink, .suggested-action { color: @kryptos_accent; }\n.error, .destructive-action { color: @kryptos_red; }\n.kryptos-modeline { background-color: @kryptos_mantle; color: @kryptos_fg; }\n.modeline.normal, .modeline-mode-block.mode-normal { background-color: @kryptos_green; color: @kryptos_bg; }\n.modeline.insert, .modeline-mode-block.mode-insert { background-color: @kryptos_blue; color: @kryptos_bg; }\n.modeline.command, .modeline-mode-block.mode-command { background-color: @kryptos_lavender; color: @kryptos_bg; }\n.modeline.search, .modeline-mode-block.mode-search { background-color: @kryptos_yellow; color: @kryptos_bg; }\n.composer-normal { border-left-color: @kryptos_green; }\n.composer-insert { border-left-color: @kryptos_blue; }\n.composer-visual { border-left-color: @kryptos_lavender; }\n");
    reveal_strlit("@define-color kryptos_bg");
    reveal_strlit("@define-color kryptos_mantle");
    reveal_strlit("@define-color kryptos_surface");
    reveal_strlit("@define-color kryptos_surface2");
    reveal_strlit("@define-color kryptos_overlay");
    reveal_strlit("@define-color kryptos_fg");
    reveal_strlit("@define-color kryptos_subtle");
    reveal_strlit("@define-color kryptos_accent");
    reveal_strlit("@define-color kryptos_blue");
    reveal_strlit("@define-color kryptos_green");
    reveal_strlit("@define-color kryptos_yellow");
    reveal_strlit("@define-color kryptos_red");
    reveal_strlit("@define-color kryptos_lavender");
    reveal_strlit(".modeline.normal");
    assert(ROSE_PINE_MOON@.subrange(21int, 21int + token_define(0).len()) =~= token_define(0));
    assert(ROSE_PINE_MOON@.subrange(55int, 55int + token_define(1).len()) =~= token_define(1));
    assert(ROSE_PINE_MOON@.subrange(93int, 93int + token_define(2).len()) =~= token_define(2));
    assert(ROSE_PINE_MOON@.subrange(132int, 132int + token_define(3).len()) =~= token_define(3));
    assert(ROSE_PINE_MOON@.subrange(172int, 172int + token_define(4).len()) =~= token_define(4));
    assert(ROSE_PINE_MOON@.subrange(211int, 211int + token_define(5).len()) =~= token_define(5));
    assert(ROSE_PINE_MOON@.subrange(245int, 245int + token_define(6).len()) =~= token_define(6));
    assert(ROSE_PINE_MOON@.subrange(283int, 283int + token_define(7).len()) =~= token_define(7));
    assert(ROSE_PINE_MOON@.subrange(321int, 321int + token_define(8).len()) =~= token_define(8));
    assert(ROSE_PINE_MOON@.subrange(357int, 357int + token_define(9).len()) =~= token_define(9));
    assert(ROSE_PINE_MOON@.subrange(394int, 394int + token_define(10).len()) =~= token_define(10));
    assert(ROSE_PINE_MOON@.subrange(432int, 432int + token_define(11).len()) =~= token_define(11));
    assert(ROSE_PINE_MOON@.subrange(467int, 467int + token_define(12).len()) =~= token_define(12));
    assert(ROSE_PINE_MOON@.subrange(1342int, 1342int + ".modeline.normal"@.len()) =~= ".modeline.normal"@);
    assert forall|t: int| 0 <= t < TOKEN_COUNT implies contains_seq(ROSE_PINE_MOON@, #[trigger] token_define(t)) by {
        assert(t == 0 || t == 1 || t == 2 || t == 3 || t == 4 || t == 5 || t == 6 || t == 7 || t == 8 || t == 9 || t == 10 || t == 11 || t == 12);
    }
}

proof fn lemma_rose_pine_dawn_complete()
    ensures
        stylesheet_complete(ROSE_PINE_DAWN@),
{
    reveal_strlit("/* rose-pine-dawn */\n@define-color kryptos_bg #faf4ed;\n@define-color kryptos_mantle #fffaf3;\n@define-color kryptos_surface #f2e9e1;\n@define-color kryptos_surface2 #dfdad9;\n@define-color kryptos_overlay #9893a5;\n@define-color kryptos_fg #575279;\n@define-color kryptos_subtle #797593;\n@define-color kryptos_accent #907aa9;\n@define-color kryptos_blue #286983;\n@define-color kryptos_green #56949f;\n@define-color kryptos_yellow #ea9d34;\n@define-color kryptos_red #b4637a;\n@define-color kryptos_lavender #d7827e;\n.background, window { background-color: @kryptos_bg; color: @kryptos_fg; }\n.navigation-sidebar, .sidebar-header { background-color: @kryptos_mantle; }\nheaderbar { background-color: @kryptos_surface; color: @kryptos_fg; }\n.kryptos-chat-row:hover, .chat-avatar { background-color: @kryptos_surface2; }\n.kryptos-chat-row:selected { border-left-color: @kryptos_accent; }\n.chat-preview, .chat-timestamp, .dim-label { color: @kryptos_subtle; }\ntooltip { background-color: @kryptos_overlay; color: @kryptos_fg; }\n.bubble-theirs { background-color: @kryptos_surface; color: @kryptos_fg; }\n.bubble-mine { background-color: @kryptos_accent; color: @kryptos_bg; }\nlink, .suggested-action { color: @kryptos_accent; }\n.error, .destructive-action { color: @kryptos_red; }\n.kryptos-modeline { background-color: @kryptos_mantle; color: @kryptos_fg; }\n.modeline.normal, .modeline-mode-block.mode-normal { background-color: @kryptos_green; color: @kryptos_bg; }\n.modeline.insert, .modeline-mode-block.mode-insert { background-color: @kryptos_blue; color: @kryptos_bg; }\n.modeline.command, .modeline-mode-block.mode-command { background-color: @kryptos_lavender; color: @kryptos_bg; }\n.modeline.search, .modeline-mode-block.mode-search { background-color: @kryptos_yellow; color: @kryptos_bg; }\n.composer-normal { border-left-color: @kryptos_green; }\n.composer-insert { border-left-color: @kryptos_blue; }\n.composer-visual { border-left-color: @kryptos_lavender; }\n");
    reveal_strlit("@define-color kryptos_bg");
    reveal_strlit("@define-color kryptos_mantle");
    reveal_strlit("@define-color kryptos_surface");
    reveal_strlit("@define-color kryptos_surface2");
    reveal_strlit("@define-color kryptos_overlay");
    reveal_strlit("@define-color kryptos_fg");
    reveal_strlit("@define-color kryptos_subtle");
    reveal_strlit("@define-color kryptos_accent");
    reveal_strlit("@define-color kryptos_blue");
    reveal_strlit("@define-color kryptos_green");
    reveal_strlit("@define-color kryptos_yellow");
    reveal_strlit("@define-color kryptos_red");
    reveal_strlit("@define-color kryptos_lavender");
    reveal_strlit(".modeline.normal");
    assert(ROSE_PINE_DAWN@.subrange(21int, 21int + token_define(0).len()) =~= token_define(0));
    assert(ROSE_PINE_DAWN@.subrange(55int, 55int + token_define(1).len()) =~= token_define(1));
    assert(ROSE_PINE_DAWN@.subrange(93int, 93int + token_define(2).len()) =~= token_define(2));
    assert(ROSE_PINE_DAWN@.subrange(132int, 132int + token_define(3).len()) =~= token_define(3));
    assert(ROSE_PINE_DAWN@.subrange(172int, 172int + token_define(4).len()) =~= token_define(4));
    assert(ROSE_PINE_DAWN@.subrange(211int, 211int + token_define(5).len()) =~= token_define(5));
    assert(ROSE_PINE_DAWN@.subrange(245int, 245int + token_define(6).len()) =~= token_define(6));
    assert(ROSE_PINE_DAWN@.subrange(283int, 283int + token_define(7).len()) =~= token_define(7));
    assert(ROSE_PINE_DAWN@.subrange(321int, 321int + token_define(8).len()) =~= token_define(8));
    assert(ROSE_PINE_DAWN@.subrange(357int, 357int + token_define(9).len()) =~= token_define(9));
    assert(ROSE_PINE_DAWN@.subrange(394int, 394int + token_define(10).len()) =~= token_define(10));
    assert(ROSE_PINE_DAWN@.subrange(432int, 432int + token_define(11).len()) =~= token_define(11));
    assert(ROSE_PINE_DAWN@.subrange(467int, 467int + token_define(12).len()) =~= token_define(12));
    assert(ROSE_PINE_DAWN@.subrange(1342int, 1342int + ".modeline.normal"@.len()) =~= ".modeline.normal"@);
    assert forall|t: int| 0 <= t < TOKEN_COUNT implies contains_seq(ROSE_PINE_DAWN@, #[trigger] token_define(t)) by {
        assert(t == 0 || t == 1 || t == 2 || t == 3 || t == 4 || t == 5 || t == 6 || t == 7 || t == 8 || t == 9 || t == 10 || t == 11 || t == 12);
    }
}

proof fn lemma_nord_complete()
    ensures
        stylesheet_complete(NORD@),
{
    reveal_strlit("/* nord */\n@define-color kryptos_bg #2e3440;\n@define-color kryptos_mantle #3b4252;\n@define-color kryptos_surface #434c5e;\n@define-color kryptos_surface2 #4c566a;\n@define-color kryptos_overlay #616e88;\n@define-color kryptos_fg #eceff4;\n@define-color kryptos_subtle #d8dee9;\n@define-color kryptos_accent #88c0d0;\n@define-color kryptos_blue #81a1c1;\n@define-color kryptos_green #a3be8c;\n@define-color kryptos_yellow #ebcb8b;\n@define-color kryptos_red #bf616a;\n@define-color kryptos_lavender #b48ead;\n.background, window { background-color: @kryptos_bg; color: @kryptos_fg; }\n.navigation-sidebar, .sidebar-header { background-color: @kryptos_mantle; }\nheaderbar { background-color: @kryptos_surface; color: @kryptos_fg; }\n.kryptos-chat-row:hover, .chat-avatar { background-color: @kryptos_surface2; }\n.kryptos-chat-row:selected { border-left-color: @kryptos_accent; }\n.chat-preview, .chat-timestamp, .dim-label { color: @kryptos_subtle; }\ntooltip { background-color: @kryptos_overlay; color: @kryptos_fg; }\n.bubble-theirs { background-color: @kryptos_surface; color: @kryptos_fg; }\n.bubble-mine { background-color: @kryptos_accent; color: @kryptos_bg; }\nlink, .suggested-action { color: @kryptos_accent; }\n.error, .destructive-action { color: @kryptos_red; }\n.kryptos-modeline { background-color: @kryptos_mantle; color: @kryptos_fg; }\n.modeline.normal, .modeline-mode-block.mode-normal { background-color: @kryptos_green; color: @kryptos_bg; }\n.modeline.insert, .modeline-mode-block.mode-insert { background-color: @kryptos_blue; color: @kryptos_bg; }\n.modeline.command, .modeline-mode-block.mode-command { background-color: @kryptos_lavender; color: @kryptos_bg; }\n.modeline.search, .modeline-mode-block.mode-search { background-color: @kryptos_yellow; color: @kryptos_bg; }\n.composer-normal { border-left-color: @kryptos_green; }\n.composer-insert { border-left-color: @kryptos_blue; }\n.composer-visual { border-left-color: @kryptos_lavender; }\n");
    reveal_strlit("@define-color kryptos_bg");
    reveal_strlit("@define-color kryptos_mantle");
    reveal_strlit("@define-color kryptos_surface");
    reveal_strlit("@define-color kryptos_surface2");
    reveal_strlit("@define-color kryptos_overlay");
    reveal_strlit("@define-color kryptos_fg");
    reveal_strlit("@define-color kryptos_subtle");
    reveal_strlit("@define-color kryptos_accent");
    reveal_strlit("@define-color kryptos_blue");
    reveal_strlit("@define-color kryptos_green");
    reveal_strlit("@define-color kryptos_yellow");
    reveal_strlit("@define-color kryptos_red");
    reveal_strlit("@define-color kryptos_lavender");
    reveal_strlit(".modeline.normal");
    assert(NORD@.subrange(11int, 11int + token_define(0).len()) =~= token_define(0));
    assert(NORD@.subrange(45int, 45int + token_define(1).len()) =~= token_define(1));
    assert(NORD@.subrange(83int, 83int + token_define(2).len()) =~= token_define(2));
    assert(NORD@.subrange(122int, 122int + token_define(3).len()) =~= token_define(3));
    assert(NORD@.subrange(162int, 162int + token_define(4).len()) =~= token_define(4));
    assert(NORD@.subrange(201int, 201int + token_define(5).len()) =~= token_define(5));
    assert(NORD@.subrange(235int, 235int + token_define(6).len()) =~= token_define(6));
    assert(NORD@.subrange(273int, 273int + token_define(7).len()) =~= token_define(7));
    assert(NORD@.subrange(311int, 311int + token_define(8).len()) =~= token_define(8));
    assert(NORD@.subrange(347int, 347int + token_define(9).len()) =~= token_define(9));
    assert(NORD@.subrange(384int, 384int + token_define(10).len()) =~= token_define(10));
    assert(NORD@.subrange(422int, 422int + token_define(11).len()) =~= token_define(11));
    assert(NORD@.subrange(457int, 457int + token_define(12).len()) =~= token_define(12));
    assert(NORD@.subrange(1332int, 1332int + ".modeline.normal"@.len()) =~= ".modeline.normal"@);
    assert forall|t: int| 0 <= t < TOKEN_COUNT implies contains_seq(NORD@, #[trigger] token_define(t)) by {
        assert(t == 0 || t == 1 || t == 2 || t == 3 || t == 4 || t == 5 || t == 6 || t == 7 || t == 8 || t == 9 || t == 10 || t == 11 || t == 12);
    }
}


/// `s` ends with `suffix`.
pub open spec fn ends_with(s: Seq<char>, suffix: Seq<char>) -> bool {
    suffix.len() <= s.len() && s.subrange(s.len() - suffix.len(), s.len() as int) == suffix
}

/// A palette name that ends in a light variant (`-light`, `-latte`,
/// `-dawn`).
pub open spec fn light_variant(s: Seq<char>) -> bool {
    ends_with(s, "-light"@) || ends_with(s, "-latte"@) || ends_with(s, "-dawn"@)
}

/// A light palette: a light variant, possibly in its `-soft` contrast.
pub open spec fn light_palette_name(s: Seq<char>) -> bool {
    light_variant(s) || (ends_with(s, "-soft"@) && light_variant(s.subrange(0, s.len() - 5)))
}

/// Light palettes make libadwaita light and every other built-in makes
/// it dark, so the widgets the stylesheet does not paint match it.
pub proof fn law_light_palettes_force_light(i: int)
    requires
        0 <= i < BUILTIN_COUNT,
    ensures
        builtin_scheme(i) == (if light_palette_name(builtin_name(i)) {
            ColorScheme::ForceLight
        } else {
            ColorScheme::ForceDark
        }),
{
    if i == 0 {
        lemma_scheme_0();
    } else
    if i == 1 {
        lemma_scheme_1();
    } else
    if i == 2 {
        lemma_scheme_2();
    } else
    if i == 3 {
        lemma_scheme_3();
    } else
    if i == 4 {
        lemma_scheme_4();
    } else
    if i == 5 {
        lemma_scheme_5();
    } else
    if i == 6 {
        lemma_scheme_6();
    } else
    if i == 7 {
        lemma_scheme_7();
    } else
    if i == 8 {
        lemma_scheme_8();
    } else
    if i == 9 {
        lemma_scheme_9();
    } else
    if i == 10 {
        lemma_scheme_10();
    } else
    if i == 11 {
        lemma_scheme_11();
    } else
    if i == 12 {
        lemma_scheme_12();
    } else
    if i == 13 {
        lemma_scheme_13();
    } else
    if i == 14 {
        lemma_scheme_14();
    } else
    {
        lemma_scheme_15();
    }
}

proof fn lemma_scheme_0()
    ensures
        builtin_scheme(0) == (if light_palette_name(builtin_name(0)) {
            ColorScheme::ForceLight
        } else {
            ColorScheme::ForceDark
        }),
{
    reveal_strlit("catppuccin-mocha");
    reveal_strlit("-light");
    reveal_strlit("-latte");
    reveal_strlit("-dawn");
    reveal_strlit("-soft");
    assert("catppuccin-mocha"@.subrange(10, 16)[1] != "-light"@[1]);
    assert("catppuccin-mocha"@.subrange(10, 16)[1] != "-latte"@[1]);
    assert("catppuccin-mocha"@.subrange(11, 16)[0] != "-dawn"@[0]);
    assert("catppuccin-mocha"@.subrange(11, 16)[0] != "-soft"@[0]);
}

proof fn lemma_scheme_1()
    ensures
        builtin_scheme(1) == (if light_palette_name(builtin_name(1)) {
            ColorScheme::ForceLight
        } else {
            ColorScheme::ForceDark
        }),
{
    reveal_strlit("catppuccin-latte");
    reveal_strlit("-light");
    reveal_strlit("-latte");
    reveal_strlit("-dawn");
    reveal_strlit("-soft");
    assert("catppuccin-latte"@.subrange(10, 16)[2] != "-light"@[2]);
    assert("catppuccin-latte"@.subrange(10, 16) =~= "-latte"@);
    assert("catppuccin-latte"@.subrange(11, 16)[0] != "-dawn"@[0]);
    assert("catppuccin-latte"@.subrange(11, 16)[0] != "-soft"@[0]);
}

proof fn lemma_scheme_2()
    ensures
        builtin_scheme(2) == (if light_palette_name(builtin_name(2)) {
            ColorScheme::ForceLight
        } else {
            ColorScheme::ForceDark
        }),
{
    reveal_strlit("catppuccin-frappe");
    reveal_strlit("-light");
    reveal_strlit("-latte");
    reveal_strlit("-dawn");
    reveal_strlit("-soft");
    assert("catppuccin-frappe"@.subrange(11, 17)[0] != "-light"@[0]);
    assert("catppuccin-frappe"@.subrange(11, 17)[0] != "-latte"@[0]);
    assert("catppuccin-frappe"@.subrange(12, 17)[0] != "-dawn"@[0]);
    assert("catppuccin-frappe"@.subrange(12, 17)[0] != "-soft"@[0]);
}

proof fn lemma_scheme_3()
    ensures
        builtin_scheme(3) == (if light_palette_name(builtin_name(3)) {
            ColorScheme::ForceLight
        } else {
            ColorScheme::ForceDark
        }),
{
    reveal_strlit("catppuccin-macchiato");
    reveal_strlit("-light");
    reveal_strlit("-latte");
    reveal_strlit("-dawn");
    reveal_strlit("-soft");
    assert("catppuccin-macchiato"@.subrange(14, 20)[0] != "-light"@[0]);
    assert("catppuccin-macchiato"@.subrange(14, 20)[0] != "-latte"@[0]);
    assert("catppuccin-macchiato"@.subrange(15, 20)[0] != "-dawn"@[0]);
    assert("catppuccin-macchiato"@.subrange(15, 20)[0] != "-soft"@[0]);
}

proof fn lemma_scheme_4()
    ensures
        builtin_scheme(4) == (if light_palette_name(builtin_name(4)) {
            ColorScheme::ForceLight
        } else {
            ColorScheme::ForceDark
        }),
{
    reveal_strlit("gruvbox");
    reveal_strlit("-light");
    reveal_strlit("-latte");
    reveal_strlit("-dawn");
    reveal_strlit("-soft");
    assert("gruvbox"@.subrange(1, 7)[0] != "-light"@[0]);
    assert("gruvbox"@.subrange(1, 7)[0] != "-latte"@[0]);
    assert("gruvbox"@.subrange(2, 7)[0] != "-dawn"@[0]);
    assert("gruvbox"@.subrange(2, 7)[0] != "-soft"@[0]);
}

proof fn lemma_scheme_5()
    ensures
        builtin_scheme(5) == (if light_palette_name(builtin_name(5)) {
            ColorScheme::ForceLight
        } else {
            ColorScheme::ForceDark
        }),
{
    reveal_strlit("gruvbox-light");
    reveal_strlit("-light");
    reveal_strlit("-latte");
    reveal_strlit("-dawn");
    reveal_strlit("-soft");
    assert("gruvbox-light"@.subrange(7, 13) =~= "-light"@);
    assert("gruvbox-light"@.subrange(7, 13)[2] != "-latte"@[2]);
    assert("gruvbox-light"@.subrange(8, 13)[0] != "-dawn"@[0]);
    assert("gruvbox-light"@.subrange(8, 13)[0] != "-soft"@[0]);
}

proof fn lemma_scheme_6()
    ensures
        builtin_scheme(6) == (if light_palette_name(builtin_name(6)) {
            ColorScheme::ForceLight
        } else {
            ColorScheme::ForceDark
        }),
{
    reveal_strlit("tokyo-night");
    reveal_strlit("-light");
    reveal_strlit("-latte");
    reveal_strlit("-dawn");
    reveal_strlit("-soft");
    assert("tokyo-night"@.subrange(5, 11)[1] != "-light"@[1]);
    assert("tokyo-night"@.subrange(5, 11)[1] != "-latte"@[1]);
    assert("tokyo-night"@.subrange(6, 11)[0] != "-dawn"@[0]);
    assert("tokyo-night"@.subrange(6, 11)[0] != "-soft"@[0]);
}

proof fn lemma_scheme_7()
    ensures
        builtin_scheme(7) == (if light_palette_name(builtin_name(7)) {
            ColorScheme::ForceLight
        } else {
            ColorScheme::ForceDark
        }),
{
    reveal_strlit("tokyo-night-storm");
    reveal_strlit("-light");
    reveal_strlit("-latte");
    reveal_strlit("-dawn");
    reveal_strlit("-soft");
    assert("tokyo-night-storm"@.subrange(11, 17)[1] != "-light"@[1]);
    assert("tokyo-night-storm"@.subrange(11, 17)[1] != "-latte"@[1]);
    assert("tokyo-night-storm"@.subrange(12, 17)[0] != "-dawn"@[0]);
    assert("tokyo-night-storm"@.subrange(12, 17)[0] != "-soft"@[0]);
}

proof fn lemma_scheme_8()
    ensures
        builtin_scheme(8) == (if light_palette_name(builtin_name(8)) {
            ColorScheme::ForceLight
        } else {
            ColorScheme::ForceDark
        }),
{
    reveal_strlit("everforest-dark");
    reveal_strlit("-light");
    reveal_strlit("-latte");
    reveal_strlit("-dawn");
    reveal_strlit("-soft");
    assert("everforest-dark"@.subrange(9, 15)[0] != "-light"@[0]);
    assert("everforest-dark"@.subrange(9, 15)[0] != "-latte"@[0]);
    assert("everforest-dark"@.subrange(10, 15)[3] != "-dawn"@[3]);
    assert("everforest-dark"@.subrange(10, 15)[1] != "-soft"@[1]);
}

proof fn lemma_scheme_9()
    ensures
        builtin_scheme(9) == (if light_palette_name(builtin_name(9)) {
            ColorScheme::ForceLight
        } else {
            ColorScheme::ForceDark
        }),
{
    reveal_strlit("everforest-dark-soft");
    reveal_strlit("-light");
    reveal_strlit("-latte");
    reveal_strlit("-dawn");
    reveal_strlit("-soft");
    assert("everforest-dark-soft"@.subrange(14, 20)[0] != "-light"@[0]);
    assert("everforest-dark-soft"@.subrange(14, 20)[0] != "-latte"@[0]);
    assert("everforest-dark-soft"@.subrange(15, 20)[1] != "-dawn"@[1]);
    assert("everforest-dark-soft"@.subrange(15, 20) =~= "-soft"@);
    assert("everforest-dark-soft"@.subrange(0, 15).subrange(9, 15)[0] != "-light"@[0]);
    assert("everforest-dark-soft"@.subrange(0, 15).subrange(9, 15)[0] != "-latte"@[0]);
    assert("everforest-dark-soft"@.subrange(0, 15).subrange(10, 15)[3] != "-dawn"@[3]);
}

proof fn lemma_scheme_10()
    ensures
        builtin_scheme(10) == (if light_palette_name(builtin_name(10)) {
            ColorScheme::ForceLight
        } else {
            ColorScheme::ForceDark
        }),
{
    reveal_strlit("everforest-light");
    reveal_strlit("-light");
    reveal_strlit("-latte");
    reveal_strlit("-dawn");
    reveal_strlit("-soft");
    assert("everforest-light"@.subrange(10, 16) =~= "-light"@);
    assert("everforest-light"@.subrange(10, 16)[2] != "-latte"@[2]);
    assert("everforest-light"@.subrange(11, 16)[0] != "-dawn"@[0]);
    assert("everforest-light"@.subrange(11, 16)[0] != "-soft"@[0]);
}

proof fn lemma_scheme_11()
    ensures
        builtin_scheme(11) == (if light_palette_name(builtin_name(11)) {
            ColorScheme::ForceLight
        } else {
            ColorScheme::ForceDark
        }),
{
    reveal_strlit("everforest-light-soft");
    reveal_strlit("-light");
    reveal_strlit("-latte");
    reveal_strlit("-dawn");
    reveal_strlit("-soft");
    assert("everforest-light-soft"@.subrange(15, 21)[0] != "-light"@[0]);
    assert("everforest-light-soft"@.subrange(15, 21)[0] != "-latte"@[0]);
    assert("everforest-light-soft"@.subrange(16, 21)[1] != "-dawn"@[1]);
    assert("everforest-light-soft"@.subrange(16, 21) =~= "-soft"@);
    assert("everforest-light-soft"@.subrange(0, 16).subrange(10, 16) =~= "-light"@);
    assert("everforest-light-soft"@.subrange(0, 16).subrange(10, 16)[2] != "-latte"@[2]);
    assert("everforest-light-soft"@.subrange(0, 16).subrange(11, 16)[0] != "-dawn"@[0]);
}

proof fn lemma_scheme_12()
    ensures
        builtin_scheme(12) == (if light_palette_name(builtin_name(12)) {
            ColorScheme::ForceLight
        } else {
            ColorScheme::ForceDark
        }),
{
    reveal_strlit("rose-pine");
    reveal_strlit("-light");
    reveal_strlit("-latte");
    reveal_strlit("-dawn");
    reveal_strlit("-soft");
    assert("rose-pine"@.subrange(3, 9)[0] != "-light"@[0]);
    assert("rose-pine"@.subrange(3, 9)[0] != "-latte"@[0]);
    assert("rose-pine"@.subrange(4, 9)[1] != "-dawn"@[1]);
    assert("rose-pine"@.subrange(4, 9)[1] != "-soft"@[1]);
}

proof fn lemma_scheme_13()
    ensures
        builtin_scheme(13) == (if light_palette_name(builtin_name(13)) {
            ColorScheme::ForceLight
        } else {
            ColorScheme::ForceDark
        }),
{
    reveal_strlit("rose-pine-moon");
    reveal_strlit("-light");
    reveal_strlit("-latte");
    reveal_strlit("-dawn");
    reveal_strlit("-soft");
    assert("rose-pine-moon"@.subrange(8, 14)[0] != "-light"@[0]);
    assert("rose-pine-moon"@.subrange(8, 14)[0] != "-latte"@[0]);
    assert("rose-pine-moon"@.subrange(9, 14)[1] != "-dawn"@[1]);
    assert("rose-pine-moon"@.subrange(9, 14)[1] != "-soft"@[1]);
}

proof fn lemma_scheme_14()
    ensures
        builtin_scheme(14) == (if light_palette_name(builtin_name(14)) {
            ColorScheme::ForceLight
        } else {
            ColorScheme::ForceDark
        }),
{
    reveal_strlit("rose-pine-dawn");
    reveal_strlit("-light");
    reveal_strlit("-latte");
    reveal_strlit("-dawn");
    reveal_strlit("-soft");
    assert("rose-pine-dawn"@.subrange(8, 14)[0] != "-light"@[0]);
    assert("rose-pine-dawn"@.subrange(8, 14)[0] != "-latte"@[0]);
    assert("rose-pine-dawn"@.subrange(9, 14) =~= "-dawn"@);
    assert("rose-pine-dawn"@.subrange(9, 14)[1] != "-soft"@[1]);
}

proof fn lemma_scheme_15()
    ensures
        builtin_scheme(15) == (if light_palette_name(builtin_name(15)) {
            ColorScheme::ForceLight
        } else {
            ColorScheme::ForceDark
        }),
{
    reveal_strlit("nord");
    reveal_strlit("-light");
    reveal_strlit("-latte");
    reveal_strlit("-dawn");
    reveal_strlit("-soft");
}
} // verus!
