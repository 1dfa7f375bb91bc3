use sigvim::messenger::signal::{contact_summary, group_summary, peers};
use sigvim::cache::models::Conversation;
use sigvim::messenger::signal::{hex_encode, normalize_message_received, path_file_name_of, resolve_account};
use sigvim::messenger::telegram::LoginState;
use sigvim::messenger::{
    route_backend, Backend, BackendExtras, ChatId, ConversationSummary, NormalizedMessage,
};
use sigvim::ui::events::{conv_row_to_summary, persist_plan};

#[test]
fn backend_tag_round_trips() {
    for b in [Backend::Signal, Backend::Telegram] {
        assert_eq!(Backend::parse_tag(b.as_tag()), Some(b));
    }
    assert_eq!(Backend::parse_tag("imessage"), None);
}

#[test]
fn chat_id_wire_round_trip() {
    let id = ChatId::new(Backend::Signal, "+14155552671");
    assert_eq!(id.to_wire(), "signal:+14155552671");
    assert_eq!(ChatId::from_wire("signal:+14155552671"), Some(id.clone()));
    assert_eq!(id.to_string(), "signal:+14155552671");

    let tg = ChatId::new(Backend::Telegram, "100200300");
    assert_eq!(tg.to_wire(), "telegram:100200300");
    assert_eq!(ChatId::from_wire(&tg.to_wire()), Some(tg));
}

#[test]
fn chat_id_native_can_contain_colons() {
    let parsed = ChatId::from_wire("telegram:abc:def").unwrap();
    assert_eq!(parsed.backend, Backend::Telegram);
    assert_eq!(parsed.native, "abc:def");
}

#[test]
fn chat_id_rejects_malformed() {
    assert_eq!(ChatId::from_wire(""), None);
    assert_eq!(ChatId::from_wire("signal"), None, "no colon");
    assert_eq!(ChatId::from_wire("signal:"), None, "empty native");
    assert_eq!(ChatId::from_wire("imessage:foo"), None, "unknown tag");
}

#[test]
fn conversation_summary_label_prefers_display_name() {
    let with_name = ConversationSummary {
        id: ChatId::new(Backend::Signal, "+14155552671"),
        title: "+14155552671".into(),
        display_name: Some("Alice Smith".into()),
        last_message_ts: None,
        preview: None,
        unread: 0,
    };
    assert_eq!(with_name.label(), "Alice Smith");

    let without_name = ConversationSummary {
        id: ChatId::new(Backend::Telegram, "12345"),
        title: "12345".into(),
        display_name: None,
        last_message_ts: None,
        preview: None,
        unread: 0,
    };
    assert_eq!(without_name.label(), "12345", "fallback to title when display_name is None");
}

#[test]
fn normalized_message_sender_label_falls_back_to_sender() {
    let resolved = NormalizedMessage {
        id: ChatId::new(Backend::Telegram, "9"),
        ts_ms: 1,
        sender: "9".into(),
        sender_display: Some("Carol Danvers".into()),
        body: Some("hi".into()),
        attachments: Vec::new(),
        backend_extras: BackendExtras::Telegram { reply_to_msg_id: None },
    };
    assert_eq!(resolved.sender_label(), "Carol Danvers");

    let unresolved = NormalizedMessage { sender_display: None, ..resolved };
    assert_eq!(unresolved.sender_label(), "9", "fall back to raw sender when None");
}

#[test]
fn backend_display_is_the_tag() {
    assert_eq!(Backend::Signal.to_string(), "signal");
    assert_eq!(Backend::Telegram.to_string(), "telegram");
}

// ---- signal ----

#[test]
fn one_to_one_message_routes_by_sender() {
    let msg = normalize_message_received(
        1_700_000_000_000,
        "+14155552671".into(),
        None,
        "hi".into(),
        Vec::new(),
    );
    assert_eq!(msg.id.backend, Backend::Signal);
    assert_eq!(msg.id.native, "+14155552671");
    assert_eq!(msg.sender, "+14155552671");
    assert_eq!(msg.body.as_deref(), Some("hi"));
    assert!(msg.attachments.is_empty());
    assert!(matches!(msg.backend_extras, BackendExtras::Signal { group_id: None }));
    assert_eq!(msg.sender_display, None);
}

#[test]
fn group_message_routes_by_hex_group_id() {
    let gid = vec![0xde, 0xad, 0xbe, 0xef];
    let msg = normalize_message_received(
        1_700_000_001_000,
        "+14155552672".into(),
        Some(gid.clone()),
        "yo".into(),
        Vec::new(),
    );
    assert_eq!(msg.id.native, "deadbeef");
    assert_eq!(msg.sender, "+14155552672");
    match msg.backend_extras {
        BackendExtras::Signal { group_id } => assert_eq!(group_id, Some(gid)),
        other => panic!("expected Signal extras, got {other:?}"),
    }
}

#[test]
fn empty_body_normalizes_to_none() {
    let msg = normalize_message_received(
        42,
        "+14155552671".into(),
        None,
        String::new(),
        vec!["/tmp/img.jpg".into()],
    );
    assert!(msg.body.is_none());
    assert_eq!(msg.attachments.len(), 1);
    assert_eq!(msg.attachments[0].file_name.as_deref(), Some("img.jpg"));
    assert_eq!(msg.attachments[0].local_path, Some("/tmp/img.jpg".to_string()));
}

#[test]
fn very_long_body_passes_through_intact() {
    let body: String = "ok ".repeat(10_000);
    let msg = normalize_message_received(1, "+14155552671".into(), None, body.clone(), Vec::new());
    assert_eq!(msg.body.as_deref(), Some(body.as_str()));
}

#[test]
fn unicode_body_is_preserved_codepoint_perfect() {
    let body = "Привет 👨‍👩‍👧‍👦 العربية 𝕜𝕣𝕪𝕡𝕥𝕠𝕤".to_string();
    let msg = normalize_message_received(1, "+14155552671".into(), None, body.clone(), Vec::new());
    assert_eq!(msg.body.as_deref(), Some(body.as_str()));
}

#[test]
fn duplicate_attachment_paths_are_kept_distinct_entries() {
    let msg = normalize_message_received(
        1,
        "+14155552671".into(),
        None,
        "look".into(),
        vec!["/tmp/dup.jpg".into(), "/tmp/dup.jpg".into()],
    );
    assert_eq!(msg.attachments.len(), 2);
    assert_eq!(msg.attachments[0].local_path, msg.attachments[1].local_path);
    assert_eq!(msg.attachments[0].file_name, msg.attachments[1].file_name);
}

#[test]
fn self_account_resolves_from_config_or_first_listed() {
    let resolved = resolve_account("+14155552671", &[]);
    assert_eq!(resolved.as_deref(), Some("+14155552671"));

    let resolved = resolve_account("", &["+14155552672".into()]);
    assert_eq!(resolved.as_deref(), Some("+14155552672"));

    let resolved = resolve_account("", &[]);
    assert_eq!(resolved, None);

    let resolved = resolve_account("", &["+14155552673".into(), "+14155552674".into()]);
    assert_eq!(resolved.as_deref(), Some("+14155552673"));

    let resolved = resolve_account("+14155552675", &["+14155552676".into()]);
    assert_eq!(resolved.as_deref(), Some("+14155552675"));
}

#[test]
fn attachment_without_filename_segment_yields_none_filename() {
    let msg = normalize_message_received(1, "+14155552671".into(), None, String::new(), vec!["/".into()]);
    assert_eq!(msg.attachments.len(), 1);
    assert!(msg.attachments[0].file_name.is_none());
}

#[test]
fn hex_encode_is_two_lowercase_digits_per_byte() {
    assert_eq!(hex_encode(&[]), "");
    assert_eq!(hex_encode(&[0x00, 0x0f, 0xa0, 0xff]), "000fa0ff");
}

#[test]
fn file_name_follows_path_components() {
    assert_eq!(path_file_name_of("/tmp/img.jpg").as_deref(), Some("img.jpg"));
    assert_eq!(path_file_name_of("dir/sub/").as_deref(), Some("sub"));
    assert_eq!(path_file_name_of("dir/sub/.").as_deref(), Some("sub"));
    assert_eq!(path_file_name_of("plain").as_deref(), Some("plain"));
    assert_eq!(path_file_name_of("dir/.."), None);
    assert_eq!(path_file_name_of("."), None);
    assert_eq!(path_file_name_of(""), None);
}

// ---- hub routing ----

#[test]
fn route_picks_first_backend_of_the_kind() {
    let reg = [Backend::Signal, Backend::Telegram, Backend::Telegram];
    assert_eq!(route_backend(&reg, Backend::Telegram).unwrap(), 1);
    assert_eq!(route_backend(&reg, Backend::Signal).unwrap(), 0);
}

#[test]
fn route_to_unregistered_backend_errors() {
    let err = route_backend(&[Backend::Signal], Backend::Telegram).unwrap_err();
    assert_eq!(err.to_string(), "config: no backend registered for telegram");
}

// ---- cache rows ----

#[test]
fn persist_plan_promotes_display_name() {
    let msg = NormalizedMessage {
        id: ChatId::new(Backend::Signal, "+1555"),
        ts_ms: 77,
        sender: "+1555".into(),
        sender_display: Some("Ann".into()),
        body: Some("hey".into()),
        attachments: Vec::new(),
        backend_extras: BackendExtras::Signal { group_id: None },
    };
    let plan = persist_plan(&msg);
    assert_eq!(plan.conversation.id, "signal:+1555");
    assert_eq!(plan.conversation.name.as_deref(), Some("Ann"));
    assert_eq!(plan.conversation.last_message_ts, Some(77));
    let contact = plan.contact.unwrap();
    assert_eq!(contact.backend_tag, "signal");
    assert_eq!(contact.sender, "+1555");
    assert_eq!(contact.name, "Ann");
    assert_eq!(plan.message.conversation_id, "signal:+1555");
    assert_eq!(plan.message.body.as_deref(), Some("hey"));
    assert_eq!(plan.message.id, 0);

    let anon = NormalizedMessage { sender_display: None, ..msg };
    let plan = persist_plan(&anon);
    assert_eq!(plan.conversation.name.as_deref(), Some("+1555"));
    assert!(plan.contact.is_none());
}

#[test]
fn cached_row_becomes_summary() {
    let row = Conversation {
        id: "telegram:42".into(),
        name: Some("Bob".into()),
        group_id: None,
        last_message_ts: Some(5),
        unread_count: -3,
        archived: false,
        muted_until: None,
    };
    let s = conv_row_to_summary(&row);
    assert_eq!(s.id, ChatId::new(Backend::Telegram, "42"));
    assert_eq!(s.title, "Bob");
    assert_eq!(s.display_name.as_deref(), Some("Bob"));
    assert_eq!(s.unread, 0);
    assert_eq!(s.last_message_ts, Some(5));

    let legacy = Conversation { id: "+1555".into(), name: Some("+1555".into()), unread_count: 4, ..row };
    let s = conv_row_to_summary(&legacy);
    assert_eq!(s.id, ChatId::new(Backend::Signal, "+1555"));
    assert_eq!(s.display_name, None);
    assert_eq!(s.unread, 4);
}

// ---- telegram sign-in ----

#[test]
fn submit_code_before_request_is_refused() {
    let st = LoginState::new();
    let err = st.submit_code("12345", None).unwrap_err();
    assert_eq!(err.to_string(), "config: telegram: submit_code called before request_code");
}

#[test]
fn request_code_records_phone_then_reports_pending_client() {
    let mut st = LoginState::new();
    let err = st.request_code("+15551234567").unwrap_err();
    assert!(err.to_string().contains("not yet implemented"));
    assert_eq!(st.phone.as_deref(), Some("+15551234567"));
    assert!(st.code_requested);
    let err = st.submit_code("12345", Some("pw")).unwrap_err();
    assert!(err.to_string().contains("not yet implemented"));
}

#[test]
fn own_number_is_not_a_peer() {
    let numbers = vec!["+1".to_string(), "+2".to_string(), "+1".to_string(), "+3".to_string()];
    assert_eq!(peers("+1", &numbers), vec!["+2".to_string(), "+3".to_string()]);
    assert!(peers("+1", &[]).is_empty());
}

#[test]
fn sidebar_rows_for_contacts_and_groups() {
    let c = contact_summary("+4915", Some("Ann".into()));
    assert_eq!(c.id.to_wire(), "signal:+4915");
    assert_eq!(c.title, "+4915");
    assert_eq!(c.display_name.as_deref(), Some("Ann"));
    assert_eq!((c.last_message_ts, c.preview.clone(), c.unread), (None, None, 0));

    let g = group_summary(&[0x0a, 0xff], "Family");
    assert_eq!(g.id.to_wire(), "signal:0aff");
    assert_eq!(g.title, "0aff");
    assert_eq!(g.display_name.as_deref(), Some("Family"));
    assert_eq!(group_summary(&[1], "").display_name, None);
}
