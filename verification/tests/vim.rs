use std::str::FromStr;

use sigvim::config::schema::{General, Keymap as KeymapConfig};
use sigvim::config::Config;
use sigvim::vim::engine::{Engine, KeymapSet, Outcome};
use sigvim::vim::{Action, Key, KeySeq, KeySym, Keymap, Lookup, Mode, Modifiers};

fn p(s: &str) -> Key {
    Key::from_str(s).unwrap()
}

fn ps(s: &str) -> KeySeq {
    KeySeq::from_str(s).unwrap()
}

fn ctrl() -> Modifiers {
    let mut m = Modifiers::none();
    m.ctrl = true;
    m
}

// ---- key ----

#[test]
fn parses_single_char() {
    assert_eq!(p("j"), Key::char('j'));
    assert_eq!(p("/"), Key::char('/'));
    assert_eq!(p(":"), Key::char(':'));
}

#[test]
fn parses_named() {
    assert_eq!(p("<Esc>"), Key::named("Esc"));
    assert_eq!(p("<Enter>"), Key::named("Enter"));
    assert_eq!(p("<Space>"), Key::named("Space"));
    assert_eq!(p("<F1>"), Key::named("F1"));
}

#[test]
fn canonicalises_aliases() {
    assert_eq!(p("<CR>"), p("<Enter>"));
    assert_eq!(p("<escape>"), p("<Esc>"));
    assert_eq!(p("<spc>"), p("<Space>"));
}

#[test]
fn parses_modifiers() {
    let mut mods = Modifiers::none();
    mods.ctrl = true;
    assert_eq!(p("<C-Enter>"), Key::named("Enter").with_mods(mods));

    let mut mods = Modifiers::none();
    mods.ctrl = true;
    mods.shift = true;
    assert_eq!(p("<C-S-x>"), Key::char('x').with_mods(mods));
}

#[test]
fn rejects_garbage() {
    assert!(Key::from_str("").is_err());
    assert!(Key::from_str("<>").is_err());
    assert!(Key::from_str("<Esc").is_err());
    assert!(Key::from_str("ab").is_err());
    assert!(Key::from_str("<Z-x>").is_err()); // unknown modifier
    assert!(Key::from_str("<C->").is_err()); // missing sym
}

#[test]
fn key_display_roundtrips() {
    for s in ["j", "<Esc>", "<Enter>", "<Space>", "<C-Enter>", "<C-S-x>", "<F1>"] {
        assert_eq!(p(s).to_string(), s, "roundtrip for {s}");
    }
}

#[test]
fn leader_sentinel() {
    let k = p("<leader>");
    assert!(k.is_leader());
    let other = p("<Space>");
    assert!(!other.is_leader());
}

#[test]
fn modifiers_none_is_empty() {
    assert!(Modifiers::none().is_empty());
    assert!(!ctrl().is_empty());
}

#[test]
fn named_keysym_canonicalises() {
    assert_eq!(KeySym::named("return"), KeySym::named("Enter"));
    assert_eq!(KeySym::named("f12"), KeySym::Named("F12".to_string()));
    assert_eq!(KeySym::named("Whatever"), KeySym::Named("Whatever".to_string()));
}

#[test]
fn key_error_messages_are_exact() {
    let e = Key::from_str("<Z-x>").unwrap_err();
    assert!(e.to_string().starts_with("config: "));
}

// ---- keyseq ----

#[test]
fn parses_single_chars() {
    assert_eq!(ps("j"), KeySeq::new(vec![Key::char('j')]));
    assert_eq!(ps("gg"), KeySeq::new(vec![Key::char('g'), Key::char('g')]));
    assert_eq!(ps("dd"), KeySeq::new(vec![Key::char('d'), Key::char('d')]));
}

#[test]
fn parses_mixed() {
    assert_eq!(ps("<Space>c"), KeySeq::new(vec![Key::named("Space"), Key::char('c')]));
    assert_eq!(ps("<leader>r"), KeySeq::new(vec![Key::leader(), Key::char('r')]));
    assert_eq!(
        ps("<C-x><C-c>"),
        KeySeq::new(vec![
            Key::char('x').with_mods({
                let mut m = Modifiers::none();
                m.ctrl = true;
                m
            }),
            Key::char('c').with_mods({
                let mut m = Modifiers::none();
                m.ctrl = true;
                m
            }),
        ])
    );
}

#[test]
fn keyseq_display_roundtrips() {
    for s in ["j", "gg", "<Space>c", "<C-Enter>", "<leader>r"] {
        assert_eq!(ps(s).to_string(), s, "roundtrip for {s}");
    }
}

#[test]
fn rejects_empty_or_unterminated() {
    assert!(KeySeq::from_str("").is_err());
    assert!(KeySeq::from_str("<Esc").is_err());
}

#[test]
fn keyseq_len_and_empty() {
    assert_eq!(ps("gg").len(), 2);
    assert!(!ps("g").is_empty());
    assert!(KeySeq::new(Vec::new()).is_empty());
}

// ---- mode ----

#[test]
fn default_is_normal() {
    assert_eq!(Mode::default(), Mode::Normal);
}

#[test]
fn display_is_uppercase() {
    assert_eq!(Mode::Normal.to_string(), "NORMAL");
    assert_eq!(Mode::Insert.to_string(), "INSERT");
    assert_eq!(Mode::Command.to_string(), "COMMAND");
    assert_eq!(Mode::Search.to_string(), "SEARCH");
}

// ---- action ----

#[test]
fn well_known_round_trip() {
    for a in [
        Action::NavigateDown,
        Action::ComposeNew,
        Action::SendMessage,
        Action::Quit,
        Action::SetTheme,
    ] {
        assert_eq!(Action::from_name(a.name()), a);
    }
}

#[test]
fn unknown_becomes_custom() {
    let a = Action::from_name("foo_bar");
    assert_eq!(a, Action::Custom("foo_bar".to_string()));
    assert_eq!(a.name(), "foo_bar");
}

#[test]
fn display_uses_name() {
    assert_eq!(Action::Quit.to_string(), "quit");
    assert_eq!(Action::Custom("xyz".into()).to_string(), "xyz");
}

// ---- keymap ----

#[test]
fn bind_and_match_single_char() {
    let mut m = Keymap::new();
    m.bind(ps("j"), Action::NavigateDown).unwrap();
    assert_eq!(m.lookup(&[p("j")]), Lookup::Match(Action::NavigateDown));
    assert_eq!(m.lookup(&[p("k")]), Lookup::NoMatch);
}

#[test]
fn pending_then_match_for_multi_key() {
    let mut m = Keymap::new();
    m.bind(ps("dd"), Action::ArchiveChat).unwrap();
    assert_eq!(m.lookup(&[p("d")]), Lookup::Pending);
    assert_eq!(m.lookup(&[p("d"), p("d")]), Lookup::Match(Action::ArchiveChat));
}

#[test]
fn ambiguous_when_prefix_is_also_a_binding() {
    let mut m = Keymap::new();
    m.bind(ps("g"), Action::ScrollTop).unwrap();
    m.bind(ps("gg"), Action::ScrollTop).unwrap();
    assert!(matches!(m.lookup(&[p("g")]), Lookup::AmbiguousMatch(Action::ScrollTop)));
    assert_eq!(m.lookup(&[p("g"), p("g")]), Lookup::Match(Action::ScrollTop));
}

#[test]
fn rebinding_overwrites() {
    let mut m = Keymap::new();
    m.bind(ps("q"), Action::Quit).unwrap();
    m.bind(ps("q"), Action::ReloadConfig).unwrap();
    assert_eq!(m.lookup(&[p("q")]), Lookup::Match(Action::ReloadConfig));
}

#[test]
fn len_counts_bound_sequences_only() {
    let mut m = Keymap::new();
    assert_eq!(m.len(), 0);
    m.bind(ps("g"), Action::ScrollTop).unwrap();
    m.bind(ps("gg"), Action::ScrollTop).unwrap();
    m.bind(ps("dd"), Action::ArchiveChat).unwrap();
    assert_eq!(m.len(), 3);
}

#[test]
fn rebinding_does_not_grow_the_keymap() {
    let mut m = Keymap::new();
    assert!(m.is_empty());
    m.bind(ps("q"), Action::Quit).unwrap();
    m.bind(ps("q"), Action::Quit).unwrap();
    assert_eq!(m.len(), 1);
}

// ---- engine ----

fn k(c: char) -> Key {
    Key::char(c)
}

fn map_with(bindings: &[(&str, Action)]) -> Keymap {
    let mut m = Keymap::new();
    for (s, a) in bindings {
        m.bind(KeySeq::from_str(s).unwrap(), a.clone()).unwrap();
    }
    m
}

#[test]
fn dispatches_unambiguous_match() {
    let normal = map_with(&[("j", Action::NavigateDown)]);
    let mut e = Engine::new(KeymapSet { normal, ..Default::default() });
    assert_eq!(e.feed(k('j')), Outcome::Action(Action::NavigateDown));
    assert!(e.pending().is_empty());
}

#[test]
fn waits_then_completes_multi_key() {
    let normal = map_with(&[("dd", Action::ArchiveChat)]);
    let mut e = Engine::new(KeymapSet { normal, ..Default::default() });
    assert_eq!(e.feed(k('d')), Outcome::Pending);
    assert_eq!(e.feed(k('d')), Outcome::Action(Action::ArchiveChat));
}

#[test]
fn unrelated_key_cancels_pending() {
    let normal = map_with(&[("dd", Action::ArchiveChat)]);
    let mut e = Engine::new(KeymapSet { normal, ..Default::default() });
    assert_eq!(e.feed(k('d')), Outcome::Pending);
    assert_eq!(e.feed(k('x')), Outcome::Cancelled);
    assert!(e.pending().is_empty());
}

#[test]
fn mode_switches_clear_pending() {
    let normal = map_with(&[("dd", Action::ArchiveChat)]);
    let mut e = Engine::new(KeymapSet { normal, ..Default::default() });
    assert_eq!(e.feed(k('d')), Outcome::Pending);
    e.set_mode(Mode::Insert);
    assert!(e.pending().is_empty());
    assert_eq!(e.mode(), Mode::Insert);
}

#[test]
fn commit_pending_returns_ambiguous_action() {
    let normal = map_with(&[("g", Action::ScrollTop), ("gg", Action::ScrollTop)]);
    let mut e = Engine::new(KeymapSet { normal, ..Default::default() });
    assert_eq!(e.feed(k('g')), Outcome::Pending);
    assert_eq!(e.commit_pending(), Some(Action::ScrollTop));
    assert!(e.pending().is_empty());
}

fn leader_config(leader: &str, seq: &str, action: &str) -> Config {
    Config {
        general: General { leader_key: leader.into(), ..Default::default() },
        keymap: KeymapConfig {
            normal: [(seq.to_string(), action.to_string())].into_iter().collect(),
            ..Default::default()
        },
        ..Default::default()
    }
}

#[test]
fn leader_sentinel_is_expanded() {
    let cfg = leader_config(",", "<leader>q", "quit");
    let set = KeymapSet::from_config(&cfg).unwrap();
    let mut e = Engine::new(set);
    assert_eq!(e.feed(Key::char(',')), Outcome::Pending);
    assert_eq!(e.feed(Key::char('q')), Outcome::Action(Action::Quit));
}

#[test]
fn leader_can_be_a_named_key_like_space() {
    let cfg = leader_config("<Space>", "<leader>q", "quit");
    let set = KeymapSet::from_config(&cfg).unwrap();
    let mut e = Engine::new(set);
    assert_eq!(e.feed(Key::named("Space")), Outcome::Pending);
    assert_eq!(e.feed(Key::char('q')), Outcome::Action(Action::Quit));
}

#[test]
fn leader_works_in_multi_step_sequences() {
    let cfg = leader_config(",", "<leader>fr", "reload_config");
    let set = KeymapSet::from_config(&cfg).unwrap();
    let mut e = Engine::new(set);
    assert_eq!(e.feed(Key::char(',')), Outcome::Pending);
    assert_eq!(e.feed(Key::char('f')), Outcome::Pending);
    assert_eq!(e.feed(Key::char('r')), Outcome::Action(Action::ReloadConfig));
}

#[test]
fn leader_inside_sequence_also_expands() {
    let cfg = leader_config(",", "g<leader>", "scroll_top");
    let set = KeymapSet::from_config(&cfg).unwrap();
    let mut e = Engine::new(set);
    assert_eq!(e.feed(Key::char('g')), Outcome::Pending);
    assert_eq!(e.feed(Key::char(',')), Outcome::Action(Action::ScrollTop));
}

#[test]
fn from_config_rejects_bad_leader_and_bad_sequence() {
    let cfg = leader_config("<Z-x>", "j", "navigate_down");
    assert!(KeymapSet::from_config(&cfg).is_err());
    let cfg = leader_config(",", "<Esc", "quit");
    assert!(KeymapSet::from_config(&cfg).is_err());
}

#[test]
fn search_mode_uses_the_command_map() {
    let command = map_with(&[("q", Action::Quit)]);
    let mut e = Engine::new(KeymapSet { command, ..Default::default() });
    e.set_mode(Mode::Search);
    assert_eq!(e.feed(k('q')), Outcome::Action(Action::Quit));
}

#[test]
fn rebinding_keeps_the_length() {
    let mut m = Keymap::new();
    m.bind(ps("q"), Action::Quit).unwrap();
    assert_eq!(m.len(), 1);
    m.bind(ps("q"), Action::ReloadConfig).unwrap();
    assert_eq!(m.len(), 1);
    m.bind(ps("x"), Action::Quit).unwrap();
    assert_eq!(m.len(), 2);
}

#[test]
fn canonical_key_names_stay_canonical() {
    for (raw, canon) in [("ESCAPE", "Esc"), ("cr", "Enter"), ("pgdn", "PageDown"), ("f12", "F12"), ("Foo", "Foo")] {
        assert_eq!(KeySym::named(raw), KeySym::Named(canon.to_string()));
        assert_eq!(KeySym::named(canon), KeySym::Named(canon.to_string()));
    }
}
