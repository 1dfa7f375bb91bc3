use sigvim::theme::theme_changed;
use sigvim::error::Error;
use sigvim::theme::builtin::{self, builtin_at, known_names, lookup, ColorScheme, BUILTIN_COUNT};
use sigvim::theme::swatch::{palette_for, swatch_at};
use sigvim::theme::{resolve_theme, unbounded, ThemeChoice};

#[test]
fn lookup_is_case_insensitive() {
    assert_eq!(lookup("Catppuccin-Mocha").map(|b| b.canonical_name), Some("catppuccin-mocha"));
    assert_eq!(lookup("  GRUVBOX  ").map(|b| b.canonical_name), Some("gruvbox"));
}

#[test]
fn lookup_unknown_returns_none() {
    assert!(lookup("solarized").is_none());
    assert!(lookup("system").is_none(), "'system' is special-cased outside the built-in table");
}

#[test]
fn known_names_includes_system_and_all_builtins() {
    let names = known_names();
    assert!(names.contains(&"system"));
    for i in 0..BUILTIN_COUNT {
        let b = builtin_at(i);
        assert!(names.contains(&b.canonical_name), "missing {}", b.canonical_name);
    }
}

#[test]
fn unknown_theme_error_lists_options() {
    let err = Error::Config(format!(
        "unknown theme {:?}; expected one of: {}",
        "solarized",
        builtin::known_names().join(", ")
    ));
    let msg = err.to_string();
    assert!(msg.contains("catppuccin-mocha"));
    assert!(msg.contains("system"));
    assert!(msg.contains("solarized"));
}

#[test]
fn every_builtin_has_a_swatch() {
    for i in 0..BUILTIN_COUNT {
        let b = builtin_at(i);
        assert!(palette_for(b.canonical_name).is_some(), "missing swatch entry for {}", b.canonical_name);
        assert_eq!(swatch_at(i).name, b.canonical_name);
    }
}

#[test]
fn palette_for_is_case_insensitive() {
    assert!(palette_for("Rose-Pine").is_some());
    assert!(palette_for("  NORD  ").is_some());
    assert!(palette_for("not-a-theme").is_none());
    assert!(palette_for("system").is_none());
}

#[test]
fn every_advertised_theme_name_resolves_or_is_system() {
    for name in known_names() {
        if name == "system" {
            assert!(lookup(name).is_none(), "'system' must not be a real builtin");
            continue;
        }
        let resolved = lookup(name);
        assert!(resolved.is_some(), "advertised theme '{name}' must resolve");
        assert_eq!(resolved.unwrap().canonical_name, name);
    }
}

#[test]
fn swatch_values_for_mocha() {
    let p = palette_for("catppuccin-mocha").unwrap();
    assert_eq!(p.bg, [0x1e, 0x1e, 0x2e]);
    assert_eq!(p.accent, [0xcb, 0xa6, 0xf7]);
    let n = palette_for("nord").unwrap();
    assert_eq!(n.fg, [0xec, 0xef, 0xf4]);
}

#[test]
fn light_themes_force_light() {
    assert_eq!(lookup("catppuccin-latte").unwrap().color_scheme, ColorScheme::ForceLight);
    assert_eq!(lookup("rose-pine-dawn").unwrap().color_scheme, ColorScheme::ForceLight);
    assert_eq!(lookup("nord").unwrap().color_scheme, ColorScheme::ForceDark);
}

#[test]
fn resolve_theme_handles_system_builtins_and_unknown() {
    assert!(matches!(resolve_theme("  SYSTEM "), Ok(ThemeChoice::System)));
    match resolve_theme("Tokyo-Night") {
        Ok(ThemeChoice::Builtin(b)) => assert_eq!(b.canonical_name, "tokyo-night"),
        _ => panic!("tokyo-night must resolve"),
    }
    let err = resolve_theme("solarized").unwrap_err();
    let msg = err.to_string();
    assert!(msg.starts_with("config: unknown theme \"solarized\"; expected one of: catppuccin-mocha, "));
    assert!(msg.ends_with(", nord, system"));
}

#[test]
fn channel_delivers_in_order() {
    let (tx, rx) = unbounded::<u32>();
    assert!(rx.try_recv().is_err());
    tx.send(1).unwrap();
    tx.send(2).unwrap();
    assert_eq!(rx.try_recv(), Ok(1));
    assert_eq!(rx.try_recv(), Ok(2));
    assert!(rx.try_recv().is_err());
    drop(rx);
    assert!(tx.send(3).is_err());
}

#[test]
fn theme_change_ignores_ascii_case() {
    assert!(!theme_changed("Nord", Some("nord")));
    assert!(theme_changed("gruvbox", Some("nord")));
    assert!(theme_changed("nord", None));
    assert!(!theme_changed("", None));
}

/// Every `kryptos_*` colour the widgets, modeline and chat view use.
const REQUIRED_TOKENS: &[&str] = &[
    "bg", "mantle", "surface", "surface2", "overlay", "fg", "subtle", "accent", "blue", "green", "yellow", "red",
    "lavender",
];

#[test]
fn every_builtin_css_is_non_empty_and_defines_palette() {
    for i in 0..BUILTIN_COUNT {
        let b = builtin_at(i);
        assert!(!b.css.trim().is_empty(), "{} css is empty", b.canonical_name);
        for token in REQUIRED_TOKENS {
            let needle = format!("@define-color kryptos_{token}");
            assert!(b.css.contains(&needle), "{} missing {needle}", b.canonical_name);
        }
        assert!(b.css.contains(".modeline.normal"), "{} missing .modeline.normal style", b.canonical_name);
    }
}

#[test]
fn every_palette_defines_all_required_tokens() {
    for i in 0..BUILTIN_COUNT {
        let b = builtin_at(i);
        for token in REQUIRED_TOKENS {
            let needle = format!("@define-color kryptos_{token}");
            assert!(b.css.contains(&needle), "palette {} is missing token kryptos_{token}", b.canonical_name);
        }
    }
}

#[test]
fn theme_round_trip_each_palette() {
    let names = known_names();
    assert!(names.len() >= 8, "expected ≥8 known theme names (system + builtins), got {}: {:?}", names.len(), names);
    for name in &names {
        if *name == "system" {
            assert!(lookup(name).is_none(), "system must not resolve");
            continue;
        }
        let resolved = lookup(name).unwrap_or_else(|| panic!("advertised theme {name} did not resolve"));
        assert_eq!(resolved.canonical_name, *name);
        assert!(!resolved.css.trim().is_empty(), "{name} has empty embedded CSS");
        for token in REQUIRED_TOKENS {
            let needle = format!("@define-color kryptos_{token}");
            assert!(resolved.css.contains(&needle), "{name} is missing token kryptos_{token}");
        }
        assert!(resolved.css.contains(".modeline.normal"), "{name} missing .modeline.normal");
    }
}

fn parse_define_color(css: &str, token: &str) -> Option<[u8; 3]> {
    let needle = format!("@define-color kryptos_{token}");
    let line = css.lines().find(|l| l.trim_start().starts_with(&needle))?;
    let hex = line.split('#').nth(1)?.trim().trim_end_matches(';').trim();
    if hex.len() < 6 {
        return None;
    }
    let r = u8::from_str_radix(&hex[0..2], 16).ok()?;
    let g = u8::from_str_radix(&hex[2..4], 16).ok()?;
    let b = u8::from_str_radix(&hex[4..6], 16).ok()?;
    Some([r, g, b])
}

#[test]
fn palettes_match_css_definitions() {
    for i in 0..BUILTIN_COUNT {
        let sw = swatch_at(i);
        let css = lookup(sw.name).unwrap_or_else(|| panic!("no css for swatch {}", sw.name)).css;
        for (token, expected) in [
            ("bg", sw.bg),
            ("mantle", sw.mantle),
            ("surface", sw.surface),
            ("fg", sw.fg),
            ("subtle", sw.subtle),
            ("accent", sw.accent),
        ] {
            let got = parse_define_color(css, token)
                .unwrap_or_else(|| panic!("{}: token kryptos_{token} not parseable", sw.name));
            assert_eq!(got, expected, "{} kryptos_{token} swatch drift", sw.name);
        }
    }
}
