//! Properties of the shell's decision tables and input checks that span
//! several functions.
use vstd::prelude::*;
use crate::dbus::client::{digits_of, phone_digits_ok, phone_shape_ok, utf8_len, utf8_width};
use crate::messenger::{law_chat_id_wire_round_trip, wire_of, ChatIdView};
use crate::text::{is_digit, is_ws, lead_ws, trail_ws, trim};
use crate::ui::commands::{bool_setting, set_result, Settable};
use crate::ui::composer::{composer_step, ComposerMode, ComposerOp, PendingOp, KEY_LOWER_B, KEY_LOWER_H, KEY_LOWER_J,
    KEY_LOWER_K, KEY_LOWER_L, KEY_LOWER_W};
use crate::ui::events::row_chat;
use crate::ui::input::{CONTROL_MASK, KEY_DOWN, KEY_ESCAPE, KEY_LEFT, KEY_RETURN, KEY_RIGHT, KEY_UP, SHIFT_MASK};
use crate::ui::dispatcher::{action_plan, ActionEffect};
use crate::vim::action::ActionView;
use crate::ui::new_chat::e164_error;
use crate::ui::onboarding::link_state::{first_new, known};

verus! {

proof fn lemma_digits_of_digits(s: Seq<char>)
    ensures
        forall|i: int| 0 <= i < digits_of(s).len() ==> is_digit(#[trigger] digits_of(s)[i]),
    decreases s.len(),
{
    if s.len() > 0 {
        let d = s.drop_last();
        lemma_digits_of_digits(d);
        if is_digit(s.last()) {
            let r = digits_of(s);
            assert forall|i: int| 0 <= i < r.len() implies is_digit(#[trigger] r[i]) by {
                if i < digits_of(d).len() {
                    assert(r[i] == digits_of(d)[i]);
                }
            }
        }
    }
}

proof fn lemma_ascii_utf8_len(s: Seq<char>)
    requires
        forall|i: int| 0 <= i < s.len() ==> (#[trigger] s[i] as u32) < 0x80,
    ensures
        utf8_len(s) == s.len(),
    decreases s.len(),
{
    if s.len() > 0 {
        let d = s.drop_last();
        assert forall|i: int| 0 <= i < d.len() implies (#[trigger] d[i] as u32) < 0x80 by {
            assert(d[i] == s[i]);
        }
        lemma_ascii_utf8_len(d);
        assert(s[s.len() - 1] as u32 <= 0x7f);
        assert(utf8_width(s.last()) == 1);
    }
}

/// A non-empty text with no whitespace at either end is its own trim.
pub proof fn lemma_trim_fixed(s: Seq<char>)
    requires
        s.len() > 0,
        !is_ws(s[0]),
        !is_ws(s.last()),
    ensures
        trim(s) == s,
{
    assert(lead_ws(s) == 0);
    assert(trail_ws(s) == 0);
    assert(s.subrange(0, s.len() as int) =~= s);
}

/// Every number the new-chat dialog accepts passes the E.164 check the
/// D-Bus client applies before talking to signal-cli.
pub proof fn law_new_chat_number_is_e164(raw: Seq<char>)
    requires
        e164_error(raw) is None,
    ensures
        trim(seq!['+'] + digits_of(trim(raw))) == seq!['+'] + digits_of(trim(raw)),
        phone_shape_ok(seq!['+'] + digits_of(trim(raw))),
        phone_digits_ok(seq!['+'] + digits_of(trim(raw))),
{
    let d = digits_of(trim(raw));
    let r = seq!['+'] + d;
    lemma_digits_of_digits(trim(raw));
    assert forall|i: int| 1 <= i < r.len() implies is_digit(#[trigger] r[i]) by {
        assert(r[i] == d[i - 1]);
    }
    assert forall|i: int| 0 <= i < r.len() implies (#[trigger] r[i] as u32) < 0x80 by {
        if i > 0 {
            assert(r[i] == d[i - 1]);
            assert(is_digit(d[i - 1]));
        }
    }
    lemma_ascii_utf8_len(r);
    assert(r.last() == d[d.len() - 1]);
    lemma_trim_fixed(r);
}

/// A cached conversation row written for a chat reads back as that chat.
pub proof fn law_row_chat_of_wire(id: ChatIdView)
    requires
        id.native.len() > 0,
    ensures
        row_chat(wire_of(id)) == id,
{
    law_chat_id_wire_round_trip(id);
}

/// When every account listed now was already there before, linking is
/// still pending.
pub proof fn law_no_new_account_is_pending(before: Seq<String>, now: Seq<String>)
    requires
        forall|i: int| 0 <= i < now.len() ==> known(before, #[trigger] now[i]@),
    ensures
        first_new(before, now) is None,
    decreases now.len(),
{
    if now.len() > 0 {
        assert(known(before, now[0]@));
        let rest = now.drop_first();
        assert forall|i: int| 0 <= i < rest.len() implies known(before, #[trigger] rest[i]@) by {
            assert(rest[i] == now[i + 1]);
        }
        law_no_new_account_is_pending(before, rest);
    }
}

/// The account reported as linked is new, and every account listed
/// before it was already known.
pub proof fn law_linked_account_is_first_new(before: Seq<String>, now: Seq<String>)
    ensures
        first_new(before, now) matches Some(i) ==> 0 <= i < now.len() && !known(before, now[i]@)
            && forall|j: int| 0 <= j < i ==> known(before, #[trigger] now[j]@),
    decreases now.len(),
{
    if now.len() > 0 && known(before, now[0]@) {
        let rest = now.drop_first();
        law_linked_account_is_first_new(before, rest);
        match first_new(before, rest) {
            Some(k) => {
                assert(now[k + 1] == rest[k]);
                assert forall|j: int| 0 <= j < k + 1 implies known(before, #[trigger] now[j]@) by {
                    if j > 0 {
                        assert(now[j] == rest[j - 1]);
                    }
                }
            },
            None => {},
        }
    }
}

/// Esc returns the composer to Normal from every mode, whatever is
/// pending.
pub proof fn law_escape_returns_to_normal(m: ComposerMode, p: PendingOp, state: u32)
    ensures
        composer_step(m, p, KEY_ESCAPE, state).set_mode == Some(ComposerMode::Normal),
        composer_step(m, p, KEY_ESCAPE, state).pending == PendingOp::Idle,
        composer_step(m, p, KEY_ESCAPE, state).consumed,
{
}

/// Enter without Shift (or with Ctrl) sends in every mode.
pub proof fn law_enter_sends(m: ComposerMode, p: PendingOp, state: u32)
    requires
        state & SHIFT_MASK == 0 || state & CONTROL_MASK != 0,
    ensures
        composer_step(m, p, KEY_RETURN, state).op == ComposerOp::Send,
        composer_step(m, p, KEY_RETURN, state).consumed,
{
}

/// Ctrl-K wipes the composer and returns to Normal from every mode.
pub proof fn law_ctrl_k_clears(m: ComposerMode, p: PendingOp, state: u32)
    requires
        state & CONTROL_MASK != 0,
    ensures
        composer_step(m, p, 0x6b, state).op == ComposerOp::Clear,
        composer_step(m, p, 0x6b, state).set_mode == Some(ComposerMode::Normal),
{
}

/// A mode change always drops the pending operator.
pub proof fn law_mode_change_clears_pending(m: ComposerMode, p: PendingOp, k: u32, state: u32)
    ensures
        composer_step(m, p, k, state).set_mode is Some ==> composer_step(m, p, k, state).pending
            == PendingOp::Idle,
{
}

/// The setting names `:set` knows are pairwise distinct.
proof fn lemma_set_keys_distinct()
    ensures
        "theme"@ != "start_maximized"@,
        "theme"@ != "hyprland_blur"@,
        "theme"@ != "notifications.enabled"@,
        "theme"@ != "notifications.dnd_per_chat"@,
        "theme"@ != "appearance.font"@,
        "theme"@ != "appearance.message_bubbles"@,
        "theme"@ != "general.leader_key"@,
        "start_maximized"@ != "hyprland_blur"@,
        "start_maximized"@ != "notifications.enabled"@,
        "start_maximized"@ != "notifications.dnd_per_chat"@,
        "start_maximized"@ != "appearance.font"@,
        "start_maximized"@ != "appearance.message_bubbles"@,
        "start_maximized"@ != "general.leader_key"@,
        "hyprland_blur"@ != "notifications.enabled"@,
        "hyprland_blur"@ != "notifications.dnd_per_chat"@,
        "hyprland_blur"@ != "appearance.font"@,
        "hyprland_blur"@ != "appearance.message_bubbles"@,
        "hyprland_blur"@ != "general.leader_key"@,
        "notifications.enabled"@ != "notifications.dnd_per_chat"@,
        "notifications.enabled"@ != "appearance.font"@,
        "notifications.enabled"@ != "appearance.message_bubbles"@,
        "notifications.enabled"@ != "general.leader_key"@,
        "notifications.dnd_per_chat"@ != "appearance.font"@,
        "notifications.dnd_per_chat"@ != "appearance.message_bubbles"@,
        "notifications.dnd_per_chat"@ != "general.leader_key"@,
        "appearance.font"@ != "appearance.message_bubbles"@,
        "appearance.font"@ != "general.leader_key"@,
        "appearance.message_bubbles"@ != "general.leader_key"@,
{
    reveal_strlit("theme");
    reveal_strlit("start_maximized");
    reveal_strlit("hyprland_blur");
    reveal_strlit("notifications.enabled");
    reveal_strlit("notifications.dnd_per_chat");
    reveal_strlit("appearance.font");
    reveal_strlit("appearance.message_bubbles");
    reveal_strlit("general.leader_key");
    assert("theme"@.len() == 5);
    assert("start_maximized"@.len() == 15);
    assert("hyprland_blur"@.len() == 13);
    assert("notifications.enabled"@.len() == 21);
    assert("notifications.dnd_per_chat"@.len() == 26);
    assert("appearance.font"@.len() == 15);
    assert("appearance.message_bubbles"@.len() == 26);
    assert("general.leader_key"@.len() == 18);
    assert("start_maximized"@[0] != "appearance.font"@[0]);
    assert("notifications.dnd_per_chat"@[0] != "appearance.message_bubbles"@[0]);
}

/// `:set key` without a value on a boolean setting, applied twice,
/// restores the setting (and both applications succeed).
pub proof fn law_bool_toggle_twice(s: Settable, key: Seq<char>)
    requires
        key == "start_maximized"@ || key == "hyprland_blur"@ || key == "notifications.enabled"@
            || key == "notifications.dnd_per_chat"@ || key == "appearance.message_bubbles"@,
    ensures
        set_result(s, key, None) is Ok,
        set_result(set_result(s, key, None)->Ok_0.0, key, None) is Ok,
        set_result(set_result(s, key, None)->Ok_0.0, key, None)->Ok_0.0 == s,
{
    lemma_set_keys_distinct();
}

/// `:set key = value` on a text setting stores the value verbatim.
pub proof fn law_string_set_stores_value(s: Settable, v: Seq<char>)
    ensures
        set_result(s, "theme"@, Some(v)) matches Ok((t, _)) && t.theme == v,
        set_result(s, "appearance.font"@, Some(v)) matches Ok((t, _)) && t.font == v,
        set_result(s, "general.leader_key"@, Some(v)) matches Ok((t, _)) && t.leader_key == v,
{
    lemma_set_keys_distinct();
}


/// Outside Insert mode, `j` and Down move the cursor one line down and
/// `k` and Up one line up (Ctrl-K is the clear chord), whatever operator
/// was pending; the move extends the selection exactly in the Visual
/// modes.
pub proof fn law_vertical_motions_are_opposite(m: ComposerMode, p: PendingOp, state: u32)
    requires
        m != ComposerMode::Insert,
    ensures
        composer_step(m, p, KEY_LOWER_J, state).op == (ComposerOp::MoveLine {
            delta: 1,
            extend: m != ComposerMode::Normal,
        }),
        composer_step(m, p, KEY_DOWN, state).op == (ComposerOp::MoveLine {
            delta: 1,
            extend: m != ComposerMode::Normal,
        }),
        composer_step(m, p, KEY_UP, state).op == (ComposerOp::MoveLine {
            delta: -1i8,
            extend: m != ComposerMode::Normal,
        }),
        state & CONTROL_MASK == 0 ==> composer_step(m, p, KEY_LOWER_K, state).op == (
        ComposerOp::MoveLine { delta: -1i8, extend: m != ComposerMode::Normal }),
{
}

/// Outside Insert mode, `h` and Left move the cursor one character left
/// and `l` and Right one character right, `w` a word forward and `b` a
/// word back, whatever operator was pending; the move extends the
/// selection exactly in the Visual modes.
pub proof fn law_horizontal_motions_are_opposite(m: ComposerMode, p: PendingOp, state: u32)
    requires
        m != ComposerMode::Insert,
    ensures
        composer_step(m, p, KEY_LOWER_H, state).op == (ComposerOp::MoveChar {
            delta: -1i8,
            extend: m != ComposerMode::Normal,
        }),
        composer_step(m, p, KEY_LEFT, state).op == (ComposerOp::MoveChar {
            delta: -1i8,
            extend: m != ComposerMode::Normal,
        }),
        composer_step(m, p, KEY_LOWER_L, state).op == (ComposerOp::MoveChar {
            delta: 1,
            extend: m != ComposerMode::Normal,
        }),
        composer_step(m, p, KEY_RIGHT, state).op == (ComposerOp::MoveChar {
            delta: 1,
            extend: m != ComposerMode::Normal,
        }),
        composer_step(m, p, KEY_LOWER_W, state).op == (ComposerOp::MoveWordForward {
            extend: m != ComposerMode::Normal,
        }),
        composer_step(m, p, KEY_LOWER_B, state).op == (ComposerOp::MoveWordBack {
            extend: m != ComposerMode::Normal,
        }),
{
}

/// A successful `:set` changes exactly the setting it names: a boolean
/// setting becomes the value read (its own current value toggled when
/// none is given) and a text setting the value given, and every other
/// setting keeps its value. Reading a boolean or getting a text value is
/// all it takes to succeed.
pub proof fn law_set_changes_only_its_setting(s: Settable, v: Option<Seq<char>>)
    ensures
        bool_setting(v, s.start_maximized) matches Ok(b) ==> set_result(s, "start_maximized"@, v)
            matches Ok((t, _)) && t == (Settable { start_maximized: b, ..s }),
        bool_setting(v, s.hyprland_blur) matches Ok(b) ==> set_result(s, "hyprland_blur"@, v)
            matches Ok((t, _)) && t == (Settable { hyprland_blur: b, ..s }),
        bool_setting(v, s.notifications_enabled) matches Ok(b) ==> set_result(
            s,
            "notifications.enabled"@,
            v,
        ) matches Ok((t, _)) && t == (Settable { notifications_enabled: b, ..s }),
        bool_setting(v, s.dnd_per_chat) matches Ok(b) ==> set_result(
            s,
            "notifications.dnd_per_chat"@,
            v,
        ) matches Ok((t, _)) && t == (Settable { dnd_per_chat: b, ..s }),
        bool_setting(v, s.message_bubbles) matches Ok(b) ==> set_result(
            s,
            "appearance.message_bubbles"@,
            v,
        ) matches Ok((t, _)) && t == (Settable { message_bubbles: b, ..s }),
        v matches Some(x) ==> set_result(s, "theme"@, v) matches Ok((t, _)) && t == (Settable {
            theme: x,
            ..s
        }),
        v matches Some(x) ==> set_result(s, "appearance.font"@, v) matches Ok((t, _)) && t == (
        Settable { font: x, ..s }),
        v matches Some(x) ==> set_result(s, "general.leader_key"@, v) matches Ok((t, _)) && t == (
        Settable { leader_key: x, ..s }),
{
    lemma_set_keys_distinct();
}

/// Of all engine actions only the two navigation actions move the
/// sidebar selection, in opposite directions: down by one row, up by one
/// row, neither changing the mode.
pub proof fn law_navigation_moves_are_opposite(a: ActionView)
    ensures
        action_plan(a).0 matches ActionEffect::MoveSelection(d) ==> ((a is NavigateDown && d == 1)
            || (a is NavigateUp && d == -1)),
        a is NavigateDown ==> action_plan(a) == (ActionEffect::MoveSelection(1), None::<crate::vim::mode::Mode>),
        a is NavigateUp ==> action_plan(a) == (ActionEffect::MoveSelection(-1i8), None::<crate::vim::mode::Mode>),
{
}

/// The mode that follows an action matches what the action does to the
/// window: focusing the composer enters Insert mode, opening the `:` bar
/// Command mode and the `/` bar Search mode, leaving or sending the
/// composer returns to Normal mode, and any other effect keeps the mode.
pub proof fn law_mode_follows_effect(a: ActionView)
    ensures
        action_plan(a).0 is FocusComposer <==> action_plan(a).1 == Some(crate::vim::mode::Mode::Insert),
        action_plan(a).0 == ActionEffect::OpenBar(':') <==> action_plan(a).1 == Some(
            crate::vim::mode::Mode::Command,
        ),
        action_plan(a).0 == ActionEffect::OpenBar('/') <==> action_plan(a).1 == Some(
            crate::vim::mode::Mode::Search,
        ),
        (action_plan(a).0 is LeaveComposer || action_plan(a).0 is SendComposer) <==> action_plan(a).1
            == Some(crate::vim::mode::Mode::Normal),
{
}
} // verus!
