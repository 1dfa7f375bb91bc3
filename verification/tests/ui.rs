use sigvim::ui::onboarding::link_state::uri_step;
use sigvim::ui::onboarding::qr::build_qr;
use sigvim::ui::input::engine_takes;
use sigvim::ui::onboarding::link_state::uri_cuttable;
use sigvim::ui::onboarding::link_state::{link_step, CopyButton, LinkEvent, QrUpdate};
use sigvim::ui::onboarding::status_subtitle;
use sigvim::ui::window::is_mine;
use std::cell::RefCell;
use std::rc::Rc;

use sigvim::config::Config;
use sigvim::ui::commands::parse_command;
use sigvim::ui::composer::{composer_key, ComposerMode, ComposerOp, PendingOp};
use sigvim::ui::dispatcher::{dispatch_plan, label_matches, plan_command, ActionEffect, CommandEffect};
use sigvim::ui::input::{
    translate_key, CONTROL_MASK, KEY_BACKSPACE, KEY_CONTROL_R, KEY_ESCAPE, KEY_RETURN, KEY_SHIFT_L,
    KEY_SPACE, KEY_UP, SHIFT_MASK,
};
use sigvim::ui::new_chat::parse_e164;
use sigvim::ui::onboarding::link_state::{detect_new_account, LinkOutcome};
use sigvim::ui::onboarding::telegram_login::{login_code, validate_credentials, validate_login_phone};
use sigvim::ui::onboarding::{
    backend_label, default_device_name, first_sorted, hostname_from, sanitize_hostname, signal_status,
    telegram_status, BackendStatus,
};
use sigvim::ui::window::sidebar_target;
use sigvim::vim::{Action, Key, KeySym, Mode};

// ---- composer ----

fn next_mode_for_normal_key(key: char) -> Option<ComposerMode> {
    composer_key(ComposerMode::Normal, PendingOp::Idle, key as u32, 0).set_mode
}

#[test]
fn normal_to_insert_keys() {
    for k in ['i', 'I', 'a', 'A', 'o', 'O'] {
        assert_eq!(next_mode_for_normal_key(k), Some(ComposerMode::Insert), "key {k:?}");
    }
}

#[test]
fn visual_keys() {
    assert_eq!(next_mode_for_normal_key('v'), Some(ComposerMode::Visual));
    assert_eq!(next_mode_for_normal_key('V'), Some(ComposerMode::VisualLine));
}

#[test]
fn movement_keys_do_not_change_mode() {
    for k in ['h', 'j', 'k', 'l', 'w', 'b', '0', '$', 'g', 'G'] {
        assert_eq!(next_mode_for_normal_key(k), None, "key {k:?}");
    }
}

#[test]
fn mode_label_strings() {
    assert_eq!(ComposerMode::Normal.label(), "NORMAL");
    assert_eq!(ComposerMode::Insert.label(), "INSERT");
    assert_eq!(ComposerMode::Visual.label(), "VISUAL");
    assert_eq!(ComposerMode::VisualLine.label(), "V-LINE");
}

#[test]
fn mode_css_classes() {
    assert_eq!(ComposerMode::Normal.css_class(), "composer-normal");
    assert_eq!(ComposerMode::Insert.css_class(), "composer-insert");
    assert_eq!(ComposerMode::Visual.css_class(), "composer-visual");
    assert_eq!(ComposerMode::VisualLine.css_class(), "composer-visual");
}

#[test]
fn yank_buffer_round_trip() {
    let yank: Rc<RefCell<String>> = Rc::new(RefCell::new(String::new()));
    *yank.borrow_mut() = "hello\n".into();
    assert_eq!(&*yank.borrow(), "hello\n");
    *yank.borrow_mut() = "world".into();
    assert_eq!(&*yank.borrow(), "world");
}

#[test]
fn pending_op_default_is_none() {
    assert_eq!(PendingOp::default(), PendingOp::Idle);
}

#[test]
fn pending_op_variants_are_distinct() {
    assert_ne!(PendingOp::Idle, PendingOp::D);
    assert_ne!(PendingOp::D, PendingOp::Y);
    assert_ne!(PendingOp::Y, PendingOp::G);
}

#[test]
fn dd_deletes_a_line_and_stray_keys_cancel() {
    let first = composer_key(ComposerMode::Normal, PendingOp::Idle, 'd' as u32, 0);
    assert_eq!(first.pending, PendingOp::D);
    let second = composer_key(ComposerMode::Normal, first.pending, 'd' as u32, 0);
    assert_eq!(second.op, ComposerOp::DeleteLine);
    assert_eq!(second.pending, PendingOp::Idle);
    let stray = composer_key(ComposerMode::Normal, PendingOp::D, 'p' as u32, 0);
    assert_eq!(stray.op, ComposerOp::PasteAfter);
    assert_eq!(stray.pending, PendingOp::Idle);
}

#[test]
fn enter_sends_and_shift_enter_is_a_newline_in_insert() {
    let send = composer_key(ComposerMode::Normal, PendingOp::Idle, KEY_RETURN, 0);
    assert_eq!(send.op, ComposerOp::Send);
    assert!(send.consumed);
    let nl = composer_key(ComposerMode::Insert, PendingOp::Idle, KEY_RETURN, SHIFT_MASK);
    assert_eq!(nl.op, ComposerOp::Nothing);
    assert!(!nl.consumed);
    let nl_normal = composer_key(ComposerMode::Normal, PendingOp::Idle, KEY_RETURN, SHIFT_MASK);
    assert!(nl_normal.consumed);
    let ctrl_enter = composer_key(ComposerMode::Insert, PendingOp::Idle, KEY_RETURN, CONTROL_MASK | SHIFT_MASK);
    assert_eq!(ctrl_enter.op, ComposerOp::Send);
}

#[test]
fn insert_mode_passes_typing_through_and_escape_returns() {
    let typed = composer_key(ComposerMode::Insert, PendingOp::Idle, 'x' as u32, 0);
    assert!(!typed.consumed);
    let esc = composer_key(ComposerMode::Insert, PendingOp::Idle, KEY_ESCAPE, 0);
    assert_eq!(esc.set_mode, Some(ComposerMode::Normal));
    let clear = composer_key(ComposerMode::Visual, PendingOp::G, 'k' as u32, CONTROL_MASK);
    assert_eq!(clear.op, ComposerOp::Clear);
    assert_eq!(clear.pending, PendingOp::Idle);
}

#[test]
fn visual_mode_moves_extend_and_d_deletes_selection() {
    let mv = composer_key(ComposerMode::Visual, PendingOp::Idle, 'l' as u32, 0);
    assert_eq!(mv.op, ComposerOp::MoveChar { delta: 1, extend: true });
    assert!(mv.refresh_selection);
    let d = composer_key(ComposerMode::VisualLine, PendingOp::Idle, 'd' as u32, 0);
    assert_eq!(d.op, ComposerOp::DeleteSelectionAndYank);
    assert_eq!(d.set_mode, Some(ComposerMode::Normal));
    let v = composer_key(ComposerMode::Visual, PendingOp::Idle, 'v' as u32, 0);
    assert_eq!(v.set_mode, Some(ComposerMode::Normal));
    let gg = composer_key(ComposerMode::Visual, PendingOp::G, 'g' as u32, 0);
    assert_eq!(gg.op, ComposerOp::MoveDocStart { extend: true });
}

// ---- input ----

#[test]
fn translates_named_keys() {
    assert_eq!(translate_key(KEY_ESCAPE, 0, None), Some(Key::named("Esc")));
    assert_eq!(translate_key(KEY_RETURN, 0, Some('\r')), Some(Key::named("Enter")));
    assert_eq!(translate_key(KEY_SPACE, 0, Some(' ')), Some(Key::named("Space")));
    assert_eq!(translate_key(KEY_BACKSPACE, 0, None), Some(Key::named("BS")));
    assert_eq!(translate_key(KEY_UP, 0, None), Some(Key::named("Up")));
}

#[test]
fn translates_printable_chars() {
    assert_eq!(translate_key('j' as u32, 0, Some('j')), Some(Key::char('j')));
    assert_eq!(translate_key('/' as u32, 0, Some('/')), Some(Key::char('/')));
    assert_eq!(translate_key(':' as u32, 0, Some(':')), Some(Key::char(':')));
}

#[test]
fn applies_ctrl_modifier_to_named() {
    let key = translate_key(KEY_RETURN, CONTROL_MASK, Some('\r')).unwrap();
    assert_eq!(key.sym, KeySym::named("Enter"));
    assert!(key.mods.ctrl);
    assert!(!key.mods.alt);
}

#[test]
fn drops_shift_for_unmodified_printables() {
    let key = translate_key('A' as u32, SHIFT_MASK, Some('A')).unwrap();
    assert_eq!(key, Key::char('A'));
}

#[test]
fn keeps_shift_when_combined_with_ctrl() {
    let key = translate_key('X' as u32, CONTROL_MASK | SHIFT_MASK, Some('X')).unwrap();
    assert!(key.mods.ctrl);
    assert!(key.mods.shift);
}

#[test]
fn ignores_bare_modifier_keys() {
    assert!(translate_key(KEY_SHIFT_L, SHIFT_MASK, None).is_none());
    assert!(translate_key(KEY_CONTROL_R, CONTROL_MASK, None).is_none());
}

#[test]
fn control_chars_and_unmapped_keys_are_ignored() {
    assert!(translate_key(0x1234, 0, Some('\u{7}')).is_none());
    assert!(translate_key(0x1234, 0, None).is_none());
    assert_eq!(translate_key(0xffc0, 0, None), Some(Key::named("F3")));
}

// ---- new chat ----

#[test]
fn parse_e164_canonical() {
    assert_eq!(parse_e164("+14155552671"), Ok("+14155552671".to_string()));
}

#[test]
fn parse_e164_strips_formatting() {
    assert_eq!(parse_e164("+1 (415) 555-2671"), Ok("+14155552671".to_string()));
}

#[test]
fn parse_e164_requires_plus() {
    assert!(parse_e164("14155552671").is_err());
}

#[test]
fn parse_e164_rejects_short() {
    assert!(parse_e164("+12345").is_err());
}

#[test]
fn parse_e164_messages() {
    assert_eq!(parse_e164("123"), Err("Number must start with + (E.164 format)"));
    assert_eq!(parse_e164("+12345"), Err("That's too short for a phone number"));
    assert_eq!(parse_e164(&format!("+{}", "1".repeat(20))), Err("That's too long for a phone number"));
}

// ---- link state ----

fn set(items: &[&str]) -> Vec<String> {
    items.iter().map(std::string::ToString::to_string).collect()
}

#[test]
fn pending_when_no_new_accounts() {
    let before = set(&["+14155552671"]);
    let now = vec!["+14155552671".to_string()];
    assert_eq!(detect_new_account(&before, &now), LinkOutcome::Pending);
}

#[test]
fn pending_when_both_empty() {
    let before = set(&[]);
    let now: Vec<String> = vec![];
    assert_eq!(detect_new_account(&before, &now), LinkOutcome::Pending);
}

#[test]
fn detects_first_account_from_empty_baseline() {
    let before = set(&[]);
    let now = vec!["+14155552671".to_string()];
    assert_eq!(detect_new_account(&before, &now), LinkOutcome::Linked("+14155552671".to_string()));
}

#[test]
fn detects_added_account_among_existing() {
    let before = set(&["+14155552671"]);
    let now = vec!["+14155552671".to_string(), "+15555550001".to_string()];
    assert_eq!(detect_new_account(&before, &now), LinkOutcome::Linked("+15555550001".to_string()));
}

#[test]
fn ignores_removed_accounts() {
    let before = set(&["+14155552671", "+15555550001"]);
    let now = vec!["+14155552671".to_string()];
    assert_eq!(detect_new_account(&before, &now), LinkOutcome::Pending);
}

// ---- dispatcher / window ----

#[test]
fn actions_plan_effects_and_modes() {
    assert_eq!(dispatch_plan(&Action::NavigateDown), (ActionEffect::MoveSelection(1), None));
    assert_eq!(dispatch_plan(&Action::CommandPalette), (ActionEffect::OpenBar(':'), Some(Mode::Command)));
    assert_eq!(dispatch_plan(&Action::Reply), (ActionEffect::FocusComposer, Some(Mode::Insert)));
    assert_eq!(dispatch_plan(&Action::SendMessage), (ActionEffect::SendComposer, Some(Mode::Normal)));
    assert_eq!(dispatch_plan(&Action::Custom("x".into())), (ActionEffect::Nothing, None));
}

#[test]
fn commands_plan_effects() {
    assert_eq!(plan_command(&parse_command("q")), CommandEffect::CloseWindow);
    assert_eq!(plan_command(&parse_command("set")), CommandEffect::Failure(":set requires a key".into()));
    assert_eq!(
        plan_command(&parse_command("set theme=nord")),
        CommandEffect::SetOnDisk { key: "theme".into(), value: Some("nord".into()) }
    );
    assert_eq!(plan_command(&parse_command("zap")), CommandEffect::Failure("unknown command: :zap".into()));
    match plan_command(&parse_command("theme")) {
        CommandEffect::Info(m) => assert!(m.starts_with("themes: catppuccin-mocha, ")),
        other => panic!("unexpected {other:?}"),
    }
}

#[test]
fn sidebar_filter_matches_case_insensitively() {
    assert!(label_matches(Some("Alice Smith"), ""));
    assert!(label_matches(Some("Alice Smith"), "SMI"));
    assert!(!label_matches(Some("Alice Smith"), "bob"));
    assert!(label_matches(None, "bob"));
}

#[test]
fn sidebar_selection_clamps() {
    assert_eq!(sidebar_target(None, 0, 1), None);
    assert_eq!(sidebar_target(None, 3, 1), Some(1));
    assert_eq!(sidebar_target(Some(2), 3, 1), Some(2));
    assert_eq!(sidebar_target(Some(0), 3, -1), Some(0));
}

// ---- onboarding ----

#[test]
fn onboarding_helpers() {
    assert_eq!(backend_label("signal"), "Signal");
    assert_eq!(backend_label("telegram"), "Telegram");
    assert_eq!(backend_label("x"), "this backend");
    assert_eq!(sanitize_hostname("my host.local!"), "myhostlocal");
    assert_eq!(sanitize_hostname(&"a".repeat(40)).len(), 32);
    assert_eq!(hostname_from("  \n"), None);
    assert_eq!(hostname_from(" box-1 \n").as_deref(), Some("box-1"));
    assert_eq!(default_device_name(Some("box")), "kryptos-box");
    assert_eq!(default_device_name(None), "kryptos-linux");
    assert_eq!(first_sorted(&set(&["+3", "+1", "+2"])).as_deref(), Some("+1"));
    assert_eq!(first_sorted(&[]), None);
    assert_eq!(signal_status(&set(&["+9", "+10"])), BackendStatus::Linked { account: "+10".into() });
    assert_eq!(signal_status(&[]), BackendStatus::NotLinked);
    assert_eq!(telegram_status(0, "abc", true), BackendStatus::NotConfigured);
    assert_eq!(telegram_status(5, "abc", false), BackendStatus::NotLinked);
    assert_eq!(telegram_status(5, "abc", true), BackendStatus::Linked { account: "your account".into() });
}

#[test]
fn telegram_login_inputs() {
    assert_eq!(validate_credentials(" 123 ", " 0123456789abcdef "), Ok((123, "0123456789abcdef".to_string())));
    assert_eq!(validate_credentials("-5", "0123456789abcdef"), Err("api_id must be a positive integer"));
    assert_eq!(validate_credentials("99999999999", "0123456789abcdef"), Err("api_id must be a positive integer"));
    assert_eq!(validate_credentials("7", "xyz"), Err("api_hash must be a hex string"));
    assert_eq!(validate_credentials("7", "0123456789abcde"), Err("api_hash must be a hex string"));
    assert_eq!(validate_login_phone(" +155512 ").as_deref(), Ok("+155512"));
    assert!(validate_login_phone("+12345").is_err());
    assert_eq!(login_code("12-345").as_deref(), Ok("12345"));
    assert!(login_code("--").is_err());
}

// ---- config ----

#[test]
fn onboarding_default_is_not_completed() {
    let cfg = Config::default();
    assert!(!cfg.onboarding.completed);
}

#[test]
fn defaults_match_spec() {
    let cfg = Config::default();
    assert_eq!(cfg.general.theme, "catppuccin-mocha");
    assert_eq!(cfg.general.leader_key, "<Space>");
    assert!(cfg.general.start_maximized);
    assert!(cfg.general.hyprland_blur);
    assert!(cfg.notifications.enabled);
    assert_eq!(cfg.appearance.font, "Inter 11");
    assert!(cfg.backends.signal.enabled, "signal on by default");
    assert!(!cfg.backends.telegram.enabled, "telegram off by default");
}

// ---- link URI hint, link steps, authorship, backend rows, key routing ----

#[test]
fn short_uri_is_shown_whole() {
    let uri = "sgnl://linkdevice?uuid=abc";
    assert_eq!(sigvim::ui::onboarding::shorten_uri(uri), uri);
    let exactly_64 = "x".repeat(64);
    assert_eq!(sigvim::ui::onboarding::shorten_uri(&exactly_64), exactly_64);
}

#[test]
fn long_uri_keeps_head_and_tail() {
    let uri = format!("sgnl://linkdevice?uuid={}&pub_key={}", "a".repeat(30), "b".repeat(30));
    let short = sigvim::ui::onboarding::shorten_uri(&uri);
    assert_eq!(short, format!("{}…{}", &uri[..40], &uri[uri.len() - 12..]));
    assert!(short.len() < uri.len());
}

#[test]
fn uri_cut_inside_a_char_is_detected() {
    assert!(uri_cuttable(&"a".repeat(100)));
    assert!(uri_cuttable(&"é".repeat(20)));
    // 39 ASCII bytes then a two-byte char spanning bytes 39..41.
    let bad = format!("{}é{}", "a".repeat(39), "b".repeat(40));
    assert!(!uri_cuttable(&bad));
}

#[test]
fn link_step_for_uri_shows_qr_and_copy() {
    let uri = "sgnl://linkdevice?uuid=abc".to_string();
    let st = link_step(&LinkEvent::Uri(uri.clone())).unwrap();
    assert!(matches!(st.qr, QrUpdate::Show(ref m) if m.width >= 21 && m.bits.len() == m.width * m.width));
    assert_eq!(st.hint.as_deref(), Some(uri.as_str()));
    assert_eq!(st.tooltip.as_deref(), Some(uri.as_str()));
    assert_eq!(st.status.unwrap(), "Waiting for your phone to confirm…");
    assert_eq!(st.copy, CopyButton::Show(uri));
    assert!(!st.stop_spinner && !st.unlock && !st.close_soon && !st.finished);
}

#[test]
fn link_step_for_outcomes() {
    let st = link_step(&LinkEvent::Linked("+4915".into())).unwrap();
    assert_eq!(st.status.unwrap(), "Linked! Welcome, +4915.");
    assert!(st.close_soon && st.finished && st.stop_spinner && !st.unlock);

    let st = link_step(&LinkEvent::AlreadyLinked("+4915".into())).unwrap();
    assert!(matches!(st.qr, QrUpdate::Clear));
    assert_eq!(st.hint.as_deref(), Some(""));
    assert_eq!(st.copy, CopyButton::Hide);
    assert_eq!(
        st.status.unwrap(),
        "Already linked as +4915. You're all set — close this window to use Kryptos."
    );
    assert!(st.unlock && st.finished && !st.close_soon);

    let st = link_step(&LinkEvent::TimedOut).unwrap();
    assert_eq!(st.status.unwrap(), "Timed out waiting for your phone. Try generating a new code.");
    assert!(st.unlock && st.finished);

    let st = link_step(&LinkEvent::Error("boom".into())).unwrap();
    assert_eq!(st.status.unwrap(), "Couldn't link: boom");
    assert!(st.unlock && st.finished && !st.close_soon);
}

#[test]
fn own_messages_are_recognised() {
    assert!(is_mine("me", None));
    assert!(is_mine("+4915", Some("+4915")));
    assert!(!is_mine("+4916", Some("+4915")));
    assert!(!is_mine("+4915", None));
}

#[test]
fn backend_row_subtitles() {
    assert_eq!(status_subtitle("signal", &BackendStatus::Linked { account: "+1".into() }), "Connected as +1");
    assert_eq!(status_subtitle("signal", &BackendStatus::NotLinked), "Not linked yet — pair Kryptos with your phone.");
    assert_eq!(
        status_subtitle("telegram", &BackendStatus::NotConfigured),
        "Not set up yet — needs api_id / api_hash from my.telegram.org."
    );
    assert_eq!(
        status_subtitle("telegram", &BackendStatus::NotLinked),
        "Credentials stored, but the session needs a sign-in."
    );
    assert_eq!(status_subtitle("matrix", &BackendStatus::NotLinked), "Not configured yet.");
    assert_eq!(
        status_subtitle("signal", &BackendStatus::Unknown("D-Bus: down".into())),
        "Status unknown — D-Bus: down"
    );
}

#[test]
fn insert_mode_lets_plain_keys_through() {
    assert!(!engine_takes(Mode::Insert, &Key::char('j')));
    assert!(engine_takes(Mode::Insert, &Key::named("Esc")));
    let ctrl = sigvim::vim::Modifiers { ctrl: true, alt: false, shift: false, meta: false };
    assert!(engine_takes(Mode::Insert, &Key::char('k').with_mods(ctrl)));
    assert!(engine_takes(Mode::Normal, &Key::char('j')));
}

#[test]
fn uri_too_long_for_a_qr_code_is_reported_not_cut() {
    // A char spans bytes 39..41 and the data exceeds what a QR code holds.
    let uri = format!("{}é{}", "a".repeat(39), "b".repeat(4000));
    let st = link_step(&LinkEvent::Uri(uri)).unwrap();
    assert!(matches!(st.qr, QrUpdate::Clear));
    assert_eq!(st.hint, None);
    assert_eq!(st.status.unwrap_err().to_string(), "config: qr encode: data too long");
    assert!(st.stop_spinner && st.unlock && !st.finished && !st.close_soon);
}

#[test]
fn encodable_uri_that_cannot_be_cut_is_not_shown() {
    let uri = format!("{}é{}", "a".repeat(39), "b".repeat(40));
    assert!(link_step(&LinkEvent::Uri(uri)).is_none());
}

#[test]
fn uri_step_on_a_failed_encoding() {
    let uri = "x".repeat(5000);
    let err = build_qr(&uri).unwrap_err();
    let st = uri_step(&uri, Err(err.clone()));
    assert!(matches!(st.qr, QrUpdate::Clear));
    assert_eq!(st.status.unwrap_err(), err);
}
