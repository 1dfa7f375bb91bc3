use sigvim::config::schema::Notifications as NotificationConfig;
use sigvim::config::Config;
use sigvim::notifications::{truncate_preview, IncomingNotice, NotificationAction, Notifier, BadgeState, PREVIEW_MAX_CHARS};

fn cfg_with_notifications(n: NotificationConfig) -> Config {
    Config { notifications: n, ..Default::default() }
}

#[test]
fn should_notify_respects_global_disable() {
    let cfg = cfg_with_notifications(NotificationConfig {
        enabled: false,
        sound: "default".into(),
        dnd_per_chat: true,
    });
    let n = Notifier::new(&cfg);
    assert!(!n.should_notify("conv-1", 0));
}

#[test]
fn should_notify_default_is_true() {
    let cfg = Config::default();
    let n = Notifier::new(&cfg);
    assert!(n.should_notify("conv-1", 1_700_000_000_000));
}

#[test]
fn dnd_blocks_until_expiry() {
    let cfg = Config::default();
    let mut n = Notifier::new(&cfg);
    let now = 1_000_i64;
    n.dnd_for("conv-1", now + 5_000);

    assert!(!n.should_notify("conv-1", now));
    assert!(!n.should_notify("conv-1", now + 4_999));
    assert!(n.should_notify("conv-1", now + 5_000));
    assert!(n.should_notify("conv-1", now + 6_000));
    assert!(n.should_notify("conv-2", now));
}

#[test]
fn clear_dnd_removes_silence() {
    let cfg = Config::default();
    let mut n = Notifier::new(&cfg);
    n.dnd_for("conv-1", i64::MAX);
    assert!(!n.should_notify("conv-1", 0));
    n.clear_dnd("conv-1");
    assert!(n.should_notify("conv-1", 0));
}

#[test]
fn dnd_ignored_when_per_chat_disabled() {
    let cfg = cfg_with_notifications(NotificationConfig {
        enabled: true,
        sound: "default".into(),
        dnd_per_chat: false,
    });
    let mut n = Notifier::new(&cfg);
    n.dnd_for("conv-1", i64::MAX);
    assert!(n.should_notify("conv-1", 0));
}

#[test]
fn reload_swaps_config_keeps_dnd() {
    let mut n = Notifier::new(&Config::default());
    n.dnd_for("conv-1", i64::MAX);

    let off = cfg_with_notifications(NotificationConfig {
        enabled: false,
        sound: "default".into(),
        dnd_per_chat: true,
    });
    n.reload(&off);
    assert!(!n.should_notify("conv-1", 0));

    let mut on = Config::default();
    on.notifications.enabled = true;
    n.reload(&on);
    assert!(!n.should_notify("conv-1", 0));
}

#[test]
fn truncate_short_string_is_unchanged() {
    assert_eq!(truncate_preview("hello", 280), "hello");
}

#[test]
fn truncate_long_string_appends_ellipsis() {
    let body = "x".repeat(500);
    let out = truncate_preview(&body, PREVIEW_MAX_CHARS);
    assert_eq!(out.chars().count(), PREVIEW_MAX_CHARS + 1);
    assert!(out.ends_with('…'));
}

#[test]
fn truncate_at_exact_boundary_no_ellipsis() {
    let body = "y".repeat(PREVIEW_MAX_CHARS);
    let out = truncate_preview(&body, PREVIEW_MAX_CHARS);
    assert_eq!(out.chars().count(), PREVIEW_MAX_CHARS);
    assert!(!out.ends_with('…'));
}

#[test]
fn truncate_counts_chars_not_bytes() {
    let body = "🦀".repeat(400);
    let out = truncate_preview(&body, PREVIEW_MAX_CHARS);
    assert_eq!(out.chars().count(), PREVIEW_MAX_CHARS + 1);
}

#[test]
fn action_from_key_maps_known_actions() {
    assert_eq!(NotificationAction::from_key("default"), NotificationAction::Open);
    assert_eq!(NotificationAction::from_key("reply"), NotificationAction::Reply(String::new()));
    assert_eq!(NotificationAction::from_key("__closed"), NotificationAction::Dismissed);
    assert_eq!(NotificationAction::from_key("custom"), NotificationAction::Other("custom".into()));
}

#[test]
fn dnd_refresh_replaces_expiry() {
    let mut n = Notifier::new(&Config::default());
    n.dnd_for("c", 100);
    n.dnd_for("c", 10);
    assert!(n.should_notify("c", 50));
}

#[test]
fn notice_plan_truncates_and_picks_sound() {
    let n = Notifier::new(&Config::default());
    let notice = IncomingNotice {
        conversation_id: "signal:+1".into(),
        sender: "Ann".into(),
        preview: "z".repeat(300),
    };
    let plan = n.plan_incoming(&notice);
    assert_eq!(plan.summary, "Ann");
    assert_eq!(plan.body.chars().count(), PREVIEW_MAX_CHARS + 1);
    assert_eq!(plan.sound.as_deref(), Some("default"));

    for silent in ["none", ""] {
        let cfg = cfg_with_notifications(NotificationConfig {
            enabled: true,
            sound: silent.into(),
            dnd_per_chat: true,
        });
        let quiet = Notifier::new(&cfg);
        assert_eq!(quiet.plan_incoming(&notice).sound, None);
    }
}

// ---- badges ----

#[test]
fn increment_starts_from_zero() {
    let mut b = BadgeState::new();
    assert_eq!(b.for_conv("a"), 0);
    b.increment("a");
    assert_eq!(b.for_conv("a"), 1);
}

#[test]
fn increment_accumulates() {
    let mut b = BadgeState::new();
    for _ in 0..5 {
        b.increment("a");
    }
    assert_eq!(b.for_conv("a"), 5);
}

#[test]
fn clear_resets_only_the_target_conv() {
    let mut b = BadgeState::new();
    b.increment("a");
    b.increment("a");
    b.increment("b");
    b.clear("a");
    assert_eq!(b.for_conv("a"), 0);
    assert_eq!(b.for_conv("b"), 1);
}

#[test]
fn total_sums_across_conversations() {
    let mut b = BadgeState::new();
    b.increment("a");
    b.increment("b");
    b.increment("b");
    b.increment("c");
    assert_eq!(b.total(), 4);
}

#[test]
fn total_is_zero_when_empty() {
    assert_eq!(BadgeState::new().total(), 0);
}

#[test]
fn increment_saturates_at_u32_max() {
    let mut b = BadgeState::new();
    b.set_count("a", u32::MAX);
    b.increment("a");
    assert_eq!(b.for_conv("a"), u32::MAX, "increment past u32::MAX must saturate, not panic or wrap");
}

#[test]
fn total_saturates_when_summing_overflows() {
    let mut b = BadgeState::new();
    b.set_count("a", u32::MAX);
    b.set_count("b", 1);
    assert_eq!(b.total(), u32::MAX);
}

#[test]
fn clear_untracked_is_a_no_op() {
    let mut b = BadgeState::new();
    b.increment("a");
    b.clear("zzz");
    assert_eq!(b.total(), 1);
}
