use sigvim::config::Config;
use sigvim::ui::commands::{apply_set, help_text, parse_bool_set, parse_command, parse_set, theme_names_csv, Command};

#[test]
fn parses_quit_aliases() {
    assert_eq!(parse_command("q"), Command::Quit);
    assert_eq!(parse_command("quit"), Command::Quit);
    assert_eq!(parse_command("  q  "), Command::Quit);
}

#[test]
fn empty_line_is_empty() {
    assert_eq!(parse_command(""), Command::Empty);
    assert_eq!(parse_command("   "), Command::Empty);
}

#[test]
fn unknown_command_carries_head() {
    assert_eq!(parse_command("doesnotexist"), Command::Unknown("doesnotexist".into()));
    assert_eq!(parse_command("foo bar baz"), Command::Unknown("foo".into()));
}

#[test]
fn theme_with_and_without_arg() {
    assert_eq!(parse_command("theme"), Command::Theme(None));
    assert_eq!(parse_command("theme  gruvbox  "), Command::Theme(Some("gruvbox".into())));
    assert_eq!(
        parse_command("theme catppuccin-mocha"),
        Command::Theme(Some("catppuccin-mocha".into()))
    );
}

#[test]
fn set_parses_with_and_without_value() {
    assert_eq!(
        parse_command("set start_maximized"),
        Command::Setting { key: "start_maximized".into(), value: None }
    );
    assert_eq!(
        parse_command("set theme = gruvbox"),
        Command::Setting { key: "theme".into(), value: Some("gruvbox".into()) }
    );
    assert_eq!(
        parse_command("set theme=gruvbox"),
        Command::Setting { key: "theme".into(), value: Some("gruvbox".into()) }
    );
    assert_eq!(
        parse_command("set appearance.font ="),
        Command::Setting { key: "appearance.font".into(), value: Some("".into()) }
    );
}

#[test]
fn settings_aliases() {
    assert_eq!(parse_command("settings"), Command::Settings);
    assert_eq!(parse_command("prefs"), Command::Settings);
    assert_eq!(parse_command("preferences"), Command::Settings);
}

#[test]
fn link_with_and_without_name() {
    assert_eq!(parse_command("link"), Command::Link(None));
    assert_eq!(parse_command("link  nixos-laptop"), Command::Link(Some("nixos-laptop".into())));
}

#[test]
fn write_help_reload() {
    assert_eq!(parse_command("w"), Command::Write);
    assert_eq!(parse_command("write"), Command::Write);
    assert_eq!(parse_command("help"), Command::Help);
    assert_eq!(parse_command("reload"), Command::Reload);
}

#[test]
fn apply_set_known_string() {
    let mut cfg = Config::default();
    apply_set(&mut cfg, "theme", Some("gruvbox")).unwrap();
    assert_eq!(cfg.general.theme, "gruvbox");
}

#[test]
fn apply_set_bool_toggle() {
    let mut cfg = Config::default();
    let before = cfg.general.start_maximized;
    apply_set(&mut cfg, "start_maximized", None).unwrap();
    assert_eq!(cfg.general.start_maximized, !before);
}

#[test]
fn apply_set_bool_explicit() {
    let mut cfg = Config::default();
    apply_set(&mut cfg, "notifications.enabled", Some("false")).unwrap();
    assert!(!cfg.notifications.enabled);
    apply_set(&mut cfg, "notifications.enabled", Some("on")).unwrap();
    assert!(cfg.notifications.enabled);
}

#[test]
fn apply_set_unknown_key_errors() {
    let mut cfg = Config::default();
    let err = apply_set(&mut cfg, "frobnicate", Some("1")).unwrap_err();
    assert!(err.contains("unknown setting"));
}

#[test]
fn apply_set_string_requires_value() {
    let mut cfg = Config::default();
    assert!(apply_set(&mut cfg, "theme", None).is_err());
    assert!(apply_set(&mut cfg, "appearance.font", None).is_err());
}

#[test]
fn apply_set_bool_rejects_garbage() {
    let mut cfg = Config::default();
    assert!(apply_set(&mut cfg, "start_maximized", Some("maybe")).is_err());
}

#[test]
fn parse_command_handles_tabs_and_mixed_whitespace() {
    assert_eq!(parse_command("theme\tgruvbox"), Command::Theme(Some("gruvbox".into())));
    assert_eq!(
        parse_command("\t  set\t theme = gruvbox  "),
        Command::Setting { key: "theme".into(), value: Some("gruvbox".into()) }
    );
}

#[test]
fn parse_command_is_case_sensitive() {
    assert_eq!(parse_command("Q"), Command::Unknown("Q".into()));
    assert_eq!(parse_command("Theme"), Command::Unknown("Theme".into()));
}

#[test]
fn parse_command_set_keeps_first_equals_only() {
    assert_eq!(
        parse_command("set keymap=foo=bar=baz"),
        Command::Setting { key: "keymap".into(), value: Some("foo=bar=baz".into()) }
    );
}

#[test]
fn parse_command_theme_keeps_inner_whitespace() {
    assert_eq!(
        parse_command("theme catppuccin mocha"),
        Command::Theme(Some("catppuccin mocha".into())),
    );
}

#[test]
fn set_without_arguments_has_empty_key() {
    assert_eq!(parse_command("set"), Command::Setting { key: String::new(), value: None });
    assert_eq!(parse_set(""), Command::Setting { key: String::new(), value: None });
    assert_eq!(parse_set(" k "), Command::Setting { key: "k".into(), value: None });
}

#[test]
fn apply_set_messages_and_errors_are_exact() {
    let mut cfg = Config::default();
    assert_eq!(apply_set(&mut cfg, "theme", Some("nord")).unwrap(), "theme = nord");
    assert_eq!(apply_set(&mut cfg, "hyprland_blur", Some(" OFF ")).unwrap(), "hyprland_blur = false");
    assert!(!cfg.general.hyprland_blur);
    assert_eq!(
        apply_set(&mut cfg, "appearance.message_bubbles", None).unwrap(),
        "appearance.message_bubbles = false"
    );
    assert_eq!(
        apply_set(&mut cfg, "general.leader_key", Some(",")).unwrap(),
        "general.leader_key = ,"
    );
    assert_eq!(cfg.general.leader_key, ",");
    assert_eq!(
        apply_set(&mut cfg, "appearance.font", None).unwrap_err(),
        "`:set appearance.font = <font>` requires a value"
    );
    assert_eq!(
        apply_set(&mut cfg, "notifications.dnd_per_chat", Some("Maybe")).unwrap_err(),
        "expected bool, got \"maybe\""
    );
    assert!(cfg.notifications.dnd_per_chat, "a refused :set leaves the value alone");
    assert_eq!(apply_set(&mut cfg, "bogus", None).unwrap_err(), "unknown setting: bogus");
}

#[test]
fn bool_words() {
    for w in ["true", "ON", "yes", "1"] {
        assert_eq!(parse_bool_set(Some(w), false), Ok(true));
    }
    for w in ["false", "Off", "no", "0"] {
        assert_eq!(parse_bool_set(Some(w), true), Ok(false));
    }
    assert_eq!(parse_bool_set(None, true), Ok(false));
}

#[test]
fn help_and_theme_list() {
    assert_eq!(help_text(), ":q :w :theme <name> :set <key>[=<v>] :reload :settings :link <name> :help");
    let csv = theme_names_csv();
    assert!(csv.starts_with("catppuccin-mocha, catppuccin-latte, "));
    assert!(csv.ends_with("nord, system"));
    assert_eq!(csv.split(", ").count(), 17);
}
