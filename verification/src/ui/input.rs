//! Translation of raw toolkit key events (a keysym code, the modifier
//! mask and the keysym's Unicode char) into engine [`Key`]s.
use vstd::prelude::*;
use crate::vim::key::{canon_name, Key, KeySym, KeySymView, KeyView, Modifiers};
use crate::vim::mode::Mode;

verus! {

// Keysym codes (X11 / GDK) of the keys with names.
pub const KEY_ESCAPE: u32 = 0xff1b;
pub const KEY_RETURN: u32 = 0xff0d;
pub const KEY_KP_ENTER: u32 = 0xff8d;
pub const KEY_ISO_ENTER: u32 = 0xfe34;
pub const KEY_TAB: u32 = 0xff09;
pub const KEY_ISO_LEFT_TAB: u32 = 0xfe20;
pub const KEY_SPACE: u32 = 0x20;
pub const KEY_KP_SPACE: u32 = 0xff80;
pub const KEY_BACKSPACE: u32 = 0xff08;
pub const KEY_DELETE: u32 = 0xffff;
pub const KEY_KP_DELETE: u32 = 0xff9f;
pub const KEY_INSERT: u32 = 0xff63;
pub const KEY_KP_INSERT: u32 = 0xff9e;
pub const KEY_UP: u32 = 0xff52;
pub const KEY_KP_UP: u32 = 0xff97;
pub const KEY_DOWN: u32 = 0xff54;
pub const KEY_KP_DOWN: u32 = 0xff99;
pub const KEY_LEFT: u32 = 0xff51;
pub const KEY_KP_LEFT: u32 = 0xff96;
pub const KEY_RIGHT: u32 = 0xff53;
pub const KEY_KP_RIGHT: u32 = 0xff98;
pub const KEY_HOME: u32 = 0xff50;
pub const KEY_KP_HOME: u32 = 0xff95;
pub const KEY_END: u32 = 0xff57;
pub const KEY_KP_END: u32 = 0xff9c;
pub const KEY_PAGE_UP: u32 = 0xff55;
pub const KEY_KP_PAGE_UP: u32 = 0xff9a;
pub const KEY_PAGE_DOWN: u32 = 0xff56;
pub const KEY_KP_PAGE_DOWN: u32 = 0xff9b;
/// `F1`; `F2` to `F12` follow consecutively.
pub const KEY_F1: u32 = 0xffbe;
pub const KEY_F12: u32 = 0xffc9;

// Keysym codes of the modifier keys themselves.
pub const KEY_SHIFT_L: u32 = 0xffe1;
pub const KEY_SHIFT_R: u32 = 0xffe2;
pub const KEY_CONTROL_L: u32 = 0xffe3;
pub const KEY_CONTROL_R: u32 = 0xffe4;
pub const KEY_CAPS_LOCK: u32 = 0xffe5;
pub const KEY_SHIFT_LOCK: u32 = 0xffe6;
pub const KEY_META_L: u32 = 0xffe7;
pub const KEY_META_R: u32 = 0xffe8;
pub const KEY_ALT_L: u32 = 0xffe9;
pub const KEY_ALT_R: u32 = 0xffea;
pub const KEY_SUPER_L: u32 = 0xffeb;
pub const KEY_SUPER_R: u32 = 0xffec;
pub const KEY_NUM_LOCK: u32 = 0xff7f;

// Modifier mask bits.
pub const SHIFT_MASK: u32 = 1;
pub const CONTROL_MASK: u32 = 4;
pub const ALT_MASK: u32 = 8;
pub const SUPER_MASK: u32 = 0x0400_0000;
pub const META_MASK: u32 = 0x1000_0000;

/// The engine name of a keysym that has one.
pub open spec fn key_name(k: u32) -> Option<Seq<char>> {
    if k == KEY_ESCAPE {
        Some("Esc"@)
    } else if k == KEY_RETURN || k == KEY_KP_ENTER || k == KEY_ISO_ENTER {
        Some("Enter"@)
    } else if k == KEY_TAB || k == KEY_ISO_LEFT_TAB {
        Some("Tab"@)
    } else if k == KEY_SPACE || k == KEY_KP_SPACE {
        Some("Space"@)
    } else if k == KEY_BACKSPACE {
        Some("BS"@)
    } else if k == KEY_DELETE || k == KEY_KP_DELETE {
        Some("Del"@)
    } else if k == KEY_INSERT || k == KEY_KP_INSERT {
        Some("Insert"@)
    } else if k == KEY_UP || k == KEY_KP_UP {
        Some("Up"@)
    } else if k == KEY_DOWN || k == KEY_KP_DOWN {
        Some("Down"@)
    } else if k == KEY_LEFT || k == KEY_KP_LEFT {
        Some("Left"@)
    } else if k == KEY_RIGHT || k == KEY_KP_RIGHT {
        Some("Right"@)
    } else if k == KEY_HOME || k == KEY_KP_HOME {
        Some("Home"@)
    } else if k == KEY_END || k == KEY_KP_END {
        Some("End"@)
    } else if k == KEY_PAGE_UP || k == KEY_KP_PAGE_UP {
        Some("PageUp"@)
    } else if k == KEY_PAGE_DOWN || k == KEY_KP_PAGE_DOWN {
        Some("PageDown"@)
    } else if KEY_F1 <= k && k <= KEY_F12 {
        Some(f_key_name((k - KEY_F1) as int))
    } else {
        None
    }
}

/// `F1` .. `F12` by offset from `F1`.
pub open spec fn f_key_name(i: int) -> Seq<char> {
    if i == 0 {
        "F1"@
    } else if i == 1 {
        "F2"@
    } else if i == 2 {
        "F3"@
    } else if i == 3 {
        "F4"@
    } else if i == 4 {
        "F5"@
    } else if i == 5 {
        "F6"@
    } else if i == 6 {
        "F7"@
    } else if i == 7 {
        "F8"@
    } else if i == 8 {
        "F9"@
    } else if i == 9 {
        "F10"@
    } else if i == 10 {
        "F11"@
    } else {
        "F12"@
    }
}

fn f_key(i: u32) -> (s: &'static str)
    requires
        i < 12,
    ensures
        s@ == f_key_name(i as int),
{
    match i {
        0 => "F1",
        1 => "F2",
        2 => "F3",
        3 => "F4",
        4 => "F5",
        5 => "F6",
        6 => "F7",
        7 => "F8",
        8 => "F9",
        9 => "F10",
        10 => "F11",
        _ => "F12",
    }
}

/// The engine name of a keysym, if it has one.
pub fn named_for(k: u32) -> (r: Option<&'static str>)
    ensures
        match key_name(k) {
            Some(n) => r matches Some(s) && s@ == n,
            None => r is None,
        },
{
    if k == KEY_ESCAPE {
        Some("Esc")
    } else if k == KEY_RETURN || k == KEY_KP_ENTER || k == KEY_ISO_ENTER {
        Some("Enter")
    } else if k == KEY_TAB || k == KEY_ISO_LEFT_TAB {
        Some("Tab")
    } else if k == KEY_SPACE || k == KEY_KP_SPACE {
        Some("Space")
    } else if k == KEY_BACKSPACE {
        Some("BS")
    } else if k == KEY_DELETE || k == KEY_KP_DELETE {
        Some("Del")
    } else if k == KEY_INSERT || k == KEY_KP_INSERT {
        Some("Insert")
    } else if k == KEY_UP || k == KEY_KP_UP {
        Some("Up")
    } else if k == KEY_DOWN || k == KEY_KP_DOWN {
        Some("Down")
    } else if k == KEY_LEFT || k == KEY_KP_LEFT {
        Some("Left")
    } else if k == KEY_RIGHT || k == KEY_KP_RIGHT {
        Some("Right")
    } else if k == KEY_HOME || k == KEY_KP_HOME {
        Some("Home")
    } else if k == KEY_END || k == KEY_KP_END {
        Some("End")
    } else if k == KEY_PAGE_UP || k == KEY_KP_PAGE_UP {
        Some("PageUp")
    } else if k == KEY_PAGE_DOWN || k == KEY_KP_PAGE_DOWN {
        Some("PageDown")
    } else if KEY_F1 <= k && k <= KEY_F12 {
        Some(f_key(k - KEY_F1))
    } else {
        None
    }
}

/// Keysyms of modifier keys pressed on their own.
pub open spec fn bare_modifier(k: u32) -> bool {
    k == KEY_SHIFT_L || k == KEY_SHIFT_R || k == KEY_CONTROL_L || k == KEY_CONTROL_R || k
        == KEY_ALT_L || k == KEY_ALT_R || k == KEY_SUPER_L || k == KEY_SUPER_R || k == KEY_META_L
        || k == KEY_META_R || k == KEY_CAPS_LOCK || k == KEY_SHIFT_LOCK || k == KEY_NUM_LOCK
}

pub fn is_bare_modifier(k: u32) -> (b: bool)
    ensures
        b == bare_modifier(k),
{
    k == KEY_SHIFT_L || k == KEY_SHIFT_R || k == KEY_CONTROL_L || k == KEY_CONTROL_R || k
        == KEY_ALT_L || k == KEY_ALT_R || k == KEY_SUPER_L || k == KEY_SUPER_R || k == KEY_META_L
        || k == KEY_META_R || k == KEY_CAPS_LOCK || k == KEY_SHIFT_LOCK || k == KEY_NUM_LOCK
}

/// The modifiers a mask holds; Super and Meta both count as meta.
pub open spec fn mods_of_mask(state: u32) -> Modifiers {
    Modifiers {
        ctrl: state & CONTROL_MASK != 0,
        alt: state & ALT_MASK != 0,
        shift: state & SHIFT_MASK != 0,
        meta: state & SUPER_MASK != 0 || state & META_MASK != 0,
    }
}

pub fn translate_mods(state: u32) -> (m: Modifiers)
    ensures
        m == mods_of_mask(state),
{
    Modifiers {
        ctrl: state & CONTROL_MASK != 0,
        alt: state & ALT_MASK != 0,
        shift: state & SHIFT_MASK != 0,
        meta: state & SUPER_MASK != 0 || state & META_MASK != 0,
    }
}

/// `char::is_control`: the C0 and C1 control chars.
pub open spec fn is_control(c: char) -> bool {
    (c as u32) <= 0x1f || (0x7f <= (c as u32) && (c as u32) <= 0x9f)
}

/// The engine key for a key event, if any: named keys keep all
/// modifiers; bare modifier presses and control chars give nothing; a
/// printable char drops Shift unless Ctrl, Alt or Meta is also held.
pub open spec fn key_for(keyval: u32, state: u32, unicode: Option<char>) -> Option<KeyView> {
    let mods = mods_of_mask(state);
    match key_name(keyval) {
        Some(n) => Some(KeyView { sym: KeySymView::Named(canon_name(n)), mods }),
        None => if bare_modifier(keyval) {
            None
        } else {
            match unicode {
                None => None,
                Some(c) => if is_control(c) {
                    None
                } else {
                    let m = if mods.ctrl || mods.alt || mods.meta {
                        mods
                    } else {
                        Modifiers { shift: false, ..mods }
                    };
                    Some(KeyView { sym: KeySymView::Char(c), mods: m })
                },
            }
        },
    }
}

/// Map a key event (keysym, modifier mask, and the keysym's Unicode char
/// when it has one) to an engine [`Key`]; `None` for events the engine
/// ignores.
pub fn translate_key(keyval: u32, state: u32, unicode: Option<char>) -> (r: Option<Key>)
    ensures
        match key_for(keyval, state, unicode) {
            Some(k) => r matches Some(key) && key@ == k,
            None => r is None,
        },
{
    let mods = translate_mods(state);
    if let Some(name) = named_for(keyval) {
        return Some(Key { sym: KeySym::named(name), mods });
    }
    if is_bare_modifier(keyval) {
        return None;
    }
    let c = match unicode {
        Some(c) => c,
        None => {
            return None;
        },
    };
    let u = c as u32;
    if u <= 0x1f || (0x7f <= u && u <= 0x9f) {
        return None;
    }
    let m = if mods.ctrl || mods.alt || mods.meta {
        mods
    } else {
        Modifiers { shift: false, ..mods }
    };
    Some(Key { sym: KeySym::Char(c), mods: m })
}

/// Keys the window-level engine gets to see: in Insert mode only Esc and
/// Ctrl chords (other keys type into the composer), in other modes all.
pub open spec fn engine_sees(mode: Mode, k: KeyView) -> bool {
    mode != Mode::Insert || k.mods.ctrl || k.sym == KeySymView::Named("Esc"@)
}

pub fn engine_takes(mode: Mode, key: &Key) -> (b: bool)
    ensures
        b == engine_sees(mode, key@),
{
    if mode != Mode::Insert || key.mods.ctrl {
        return true;
    }
    match &key.sym {
        KeySym::Named(n) => crate::text::str_eq(n.as_str(), "Esc"),
        KeySym::Char(_) => false,
    }
}

} // verus!
