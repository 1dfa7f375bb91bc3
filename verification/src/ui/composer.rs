//! The message composer's modal editing rules: Normal / Insert / Visual
//! modes, two-key operators (`dd`, `yy`, `gg`) and the chat overrides
//! (Enter sends, Shift+Enter is a newline, Ctrl+K clears).
//!
//! [`composer_key`] decides what a key press does; the widget carries it
//! out on its text buffer.
use vstd::prelude::*;
use crate::ui::input::{
    CONTROL_MASK, KEY_DOWN, KEY_ESCAPE, KEY_ISO_ENTER, KEY_KP_ENTER, KEY_LEFT, KEY_RETURN,
    KEY_RIGHT, KEY_UP, SHIFT_MASK,
};

verus! {

/// Modes the composer can be in: the chat-app subset of vim.
#[derive(Debug, Clone, Copy, PartialEq, Eq, Structural)]
pub enum ComposerMode {
    Normal,
    Insert,
    Visual,
    VisualLine,
}

pub open spec fn composer_label(m: ComposerMode) -> Seq<char> {
    match m {
        ComposerMode::Normal => "NORMAL"@,
        ComposerMode::Insert => "INSERT"@,
        ComposerMode::Visual => "VISUAL"@,
        ComposerMode::VisualLine => "V-LINE"@,
    }
}

pub open spec fn composer_css(m: ComposerMode) -> Seq<char> {
    match m {
        ComposerMode::Normal => "composer-normal"@,
        ComposerMode::Insert => "composer-insert"@,
        ComposerMode::Visual | ComposerMode::VisualLine => "composer-visual"@,
    }
}

impl ComposerMode {
    pub fn label(self) -> (s: &'static str)
        ensures
            s@ == composer_label(self),
    {
        match self {
            ComposerMode::Normal => "NORMAL",
            ComposerMode::Insert => "INSERT",
            ComposerMode::Visual => "VISUAL",
            ComposerMode::VisualLine => "V-LINE",
        }
    }

    pub fn css_class(self) -> (s: &'static str)
        ensures
            s@ == composer_css(self),
    {
        match self {
            ComposerMode::Normal => "composer-normal",
            ComposerMode::Insert => "composer-insert",
            ComposerMode::Visual | ComposerMode::VisualLine => "composer-visual",
        }
    }
}

/// Pending first key of a two-key operator.
#[derive(Debug, Clone, Copy, PartialEq, Eq, Default, Structural)]
pub enum PendingOp {
    /// No operator pending.
    #[default]
    Idle,
    /// Awaiting the second `d` of `dd`.
    D,
    /// Awaiting the second `y` of `yy`.
    Y,
    /// Awaiting the target of `g` (only `gg`).
    G,
}

/// A buffer operation for the widget to carry out. `extend` moves the
/// cursor without collapsing the selection (Visual modes).
#[derive(Debug, Clone, Copy, PartialEq, Eq, Structural)]
pub enum ComposerOp {
    Nothing,
    /// Hand the text to the send callback, empty the buffer and go Normal;
    /// a blank buffer is left as it is.
    Send,
    /// Wipe the buffer.
    Clear,
    Redo,
    Undo,
    DeleteLine,
    YankLine,
    DeleteChar,
    DeleteSelectionAndYank,
    YankSelection,
    PasteAfter,
    OpenLineBelow,
    OpenLineAbove,
    MoveChar { delta: i8, extend: bool },
    MoveLine { delta: i8, extend: bool },
    MoveWordForward { extend: bool },
    MoveWordBack { extend: bool },
    MoveLineStart { extend: bool },
    MoveLineStartNonblank,
    MoveLineEnd { extend: bool },
    MoveDocStart { extend: bool },
    MoveDocEnd { extend: bool },
}

/// What one key press does: the buffer operation, whether to re-derive
/// the Visual-line selection afterwards, the mode to switch to, the
/// pending operator afterwards, and whether the key is consumed (`false`
/// lets the text view handle it, e.g. typing in Insert mode).
#[derive(Debug, Clone, Copy, PartialEq, Eq, Structural)]
pub struct ComposerStep {
    pub op: ComposerOp,
    pub refresh_selection: bool,
    pub set_mode: Option<ComposerMode>,
    pub pending: PendingOp,
    pub consumed: bool,
}

// Keysyms of the printable keys the composer binds (Latin-1 keysyms are
// their code points).
pub const KEY_LOWER_A: u32 = 0x61;
pub const KEY_UPPER_A: u32 = 0x41;
pub const KEY_LOWER_B: u32 = 0x62;
pub const KEY_LOWER_D: u32 = 0x64;
pub const KEY_LOWER_G: u32 = 0x67;
pub const KEY_UPPER_G: u32 = 0x47;
pub const KEY_LOWER_H: u32 = 0x68;
pub const KEY_LOWER_I: u32 = 0x69;
pub const KEY_UPPER_I: u32 = 0x49;
pub const KEY_LOWER_J: u32 = 0x6a;
pub const KEY_LOWER_K: u32 = 0x6b;
pub const KEY_UPPER_K: u32 = 0x4b;
pub const KEY_LOWER_L: u32 = 0x6c;
pub const KEY_LOWER_O: u32 = 0x6f;
pub const KEY_UPPER_O: u32 = 0x4f;
pub const KEY_LOWER_P: u32 = 0x70;
pub const KEY_LOWER_R: u32 = 0x72;
pub const KEY_UPPER_R: u32 = 0x52;
pub const KEY_LOWER_U: u32 = 0x75;
pub const KEY_LOWER_V: u32 = 0x76;
pub const KEY_UPPER_V: u32 = 0x56;
pub const KEY_LOWER_W: u32 = 0x77;
pub const KEY_LOWER_X: u32 = 0x78;
pub const KEY_LOWER_Y: u32 = 0x79;
pub const KEY_ZERO: u32 = 0x30;
pub const KEY_DOLLAR: u32 = 0x24;

pub open spec fn step(op: ComposerOp, set_mode: Option<ComposerMode>, pending: PendingOp) -> ComposerStep {
    ComposerStep {
        op,
        refresh_selection: false,
        set_mode,
        pending: if set_mode is Some {
            PendingOp::Idle
        } else {
            pending
        },
        consumed: true,
    }
}

pub open spec fn motion(op: ComposerOp) -> ComposerStep {
    ComposerStep {
        op,
        refresh_selection: true,
        set_mode: None,
        pending: PendingOp::Idle,
        consumed: true,
    }
}

pub open spec fn is_visual(m: ComposerMode) -> bool {
    m == ComposerMode::Visual || m == ComposerMode::VisualLine
}

/// Normal / Visual mode keys once any pending operator was cancelled.
pub open spec fn normal_key(mode: ComposerMode, k: u32) -> ComposerStep {
    let visual = is_visual(mode);
    let idle = PendingOp::Idle;
    if k == KEY_LOWER_I && !visual {
        step(ComposerOp::Nothing, Some(ComposerMode::Insert), idle)
    } else if k == KEY_UPPER_I && !visual {
        step(ComposerOp::MoveLineStartNonblank, Some(ComposerMode::Insert), idle)
    } else if k == KEY_LOWER_A && !visual {
        step(ComposerOp::MoveChar { delta: 1, extend: false }, Some(ComposerMode::Insert), idle)
    } else if k == KEY_UPPER_A && !visual {
        step(ComposerOp::MoveLineEnd { extend: false }, Some(ComposerMode::Insert), idle)
    } else if k == KEY_LOWER_O && !visual {
        step(ComposerOp::OpenLineBelow, Some(ComposerMode::Insert), idle)
    } else if k == KEY_UPPER_O && !visual {
        step(ComposerOp::OpenLineAbove, Some(ComposerMode::Insert), idle)
    } else if k == KEY_LOWER_V {
        step(
            ComposerOp::Nothing,
            Some(
                if mode == ComposerMode::Visual {
                    ComposerMode::Normal
                } else {
                    ComposerMode::Visual
                },
            ),
            idle,
        )
    } else if k == KEY_UPPER_V {
        step(
            ComposerOp::Nothing,
            Some(
                if mode == ComposerMode::VisualLine {
                    ComposerMode::Normal
                } else {
                    ComposerMode::VisualLine
                },
            ),
            idle,
        )
    } else if k == KEY_LOWER_H || k == KEY_LEFT {
        motion(ComposerOp::MoveChar { delta: -1i8, extend: visual })
    } else if k == KEY_LOWER_L || k == KEY_RIGHT {
        motion(ComposerOp::MoveChar { delta: 1, extend: visual })
    } else if k == KEY_LOWER_J || k == KEY_DOWN {
        motion(ComposerOp::MoveLine { delta: 1, extend: visual })
    } else if k == KEY_LOWER_K || k == KEY_UP {
        motion(ComposerOp::MoveLine { delta: -1i8, extend: visual })
    } else if k == KEY_LOWER_W {
        motion(ComposerOp::MoveWordForward { extend: visual })
    } else if k == KEY_LOWER_B {
        motion(ComposerOp::MoveWordBack { extend: visual })
    } else if k == KEY_ZERO {
        motion(ComposerOp::MoveLineStart { extend: visual })
    } else if k == KEY_DOLLAR {
        motion(ComposerOp::MoveLineEnd { extend: visual })
    } else if k == KEY_UPPER_G {
        motion(ComposerOp::MoveDocEnd { extend: visual })
    } else if k == KEY_LOWER_G {
        step(ComposerOp::Nothing, None, PendingOp::G)
    } else if k == KEY_LOWER_X && !visual {
        step(ComposerOp::DeleteChar, None, idle)
    } else if k == KEY_LOWER_D && !visual {
        step(ComposerOp::Nothing, None, PendingOp::D)
    } else if k == KEY_LOWER_Y && !visual {
        step(ComposerOp::Nothing, None, PendingOp::Y)
    } else if k == KEY_LOWER_D && visual {
        step(ComposerOp::DeleteSelectionAndYank, Some(ComposerMode::Normal), idle)
    } else if k == KEY_LOWER_Y && visual {
        step(ComposerOp::YankSelection, Some(ComposerMode::Normal), idle)
    } else if k == KEY_LOWER_P {
        step(ComposerOp::PasteAfter, None, idle)
    } else if k == KEY_LOWER_U {
        step(ComposerOp::Undo, None, idle)
    } else {
        step(ComposerOp::Nothing, None, idle)
    }
}

/// What a key press does in the composer.
pub open spec fn composer_step(mode: ComposerMode, pending: PendingOp, k: u32, state: u32) -> ComposerStep {
    let shift = state & SHIFT_MASK != 0;
    let ctrl = state & CONTROL_MASK != 0;
    let keep = ComposerStep {
        op: ComposerOp::Nothing,
        refresh_selection: false,
        set_mode: None,
        pending,
        consumed: true,
    };
    if k == KEY_RETURN || k == KEY_KP_ENTER || k == KEY_ISO_ENTER {
        if shift && !ctrl {
            ComposerStep { consumed: mode != ComposerMode::Insert, ..keep }
        } else {
            ComposerStep { op: ComposerOp::Send, ..keep }
        }
    } else if k == KEY_ESCAPE {
        step(ComposerOp::Nothing, Some(ComposerMode::Normal), pending)
    } else if ctrl && (k == KEY_LOWER_K || k == KEY_UPPER_K) {
        step(ComposerOp::Clear, Some(ComposerMode::Normal), pending)
    } else if ctrl && (k == KEY_LOWER_R || k == KEY_UPPER_R) {
        ComposerStep { op: ComposerOp::Redo, ..keep }
    } else if mode == ComposerMode::Insert {
        ComposerStep { consumed: false, ..keep }
    } else if pending == PendingOp::D && k == KEY_LOWER_D {
        step(ComposerOp::DeleteLine, None, PendingOp::Idle)
    } else if pending == PendingOp::Y && k == KEY_LOWER_Y {
        step(ComposerOp::YankLine, None, PendingOp::Idle)
    } else if pending == PendingOp::G && k == KEY_LOWER_G {
        step(ComposerOp::MoveDocStart { extend: is_visual(mode) }, None, PendingOp::Idle)
    } else {
        normal_key(mode, k)
    }
}

fn mk_step(op: ComposerOp, set_mode: Option<ComposerMode>, pending: PendingOp) -> (s: ComposerStep)
    ensures
        s == step(op, set_mode, pending),
{
    ComposerStep {
        op,
        refresh_selection: false,
        set_mode,
        pending: if set_mode.is_some() {
            PendingOp::Idle
        } else {
            pending
        },
        consumed: true,
    }
}

fn mk_motion(op: ComposerOp) -> (s: ComposerStep)
    ensures
        s == motion(op),
{
    ComposerStep {
        op,
        refresh_selection: true,
        set_mode: None,
        pending: PendingOp::Idle,
        consumed: true,
    }
}

fn normal_key_exec(mode: ComposerMode, k: u32) -> (s: ComposerStep)
    ensures
        s == normal_key(mode, k),
{
    let visual = mode == ComposerMode::Visual || mode == ComposerMode::VisualLine;
    let idle = PendingOp::Idle;
    if k == KEY_LOWER_I && !visual {
        mk_step(ComposerOp::Nothing, Some(ComposerMode::Insert), idle)
    } else if k == KEY_UPPER_I && !visual {
        mk_step(ComposerOp::MoveLineStartNonblank, Some(ComposerMode::Insert), idle)
    } else if k == KEY_LOWER_A && !visual {
        mk_step(ComposerOp::MoveChar { delta: 1, extend: false }, Some(ComposerMode::Insert), idle)
    } else if k == KEY_UPPER_A && !visual {
        mk_step(ComposerOp::MoveLineEnd { extend: false }, Some(ComposerMode::Insert), idle)
    } else if k == KEY_LOWER_O && !visual {
        mk_step(ComposerOp::OpenLineBelow, Some(ComposerMode::Insert), idle)
    } else if k == KEY_UPPER_O && !visual {
        mk_step(ComposerOp::OpenLineAbove, Some(ComposerMode::Insert), idle)
    } else if k == KEY_LOWER_V {
        let m = if mode == ComposerMode::Visual {
            ComposerMode::Normal
        } else {
            ComposerMode::Visual
        };
        mk_step(ComposerOp::Nothing, Some(m), idle)
    } else if k == KEY_UPPER_V {
        let m = if mode == ComposerMode::VisualLine {
            ComposerMode::Normal
        } else {
            ComposerMode::VisualLine
        };
        mk_step(ComposerOp::Nothing, Some(m), idle)
    } else if k == KEY_LOWER_H || k == KEY_LEFT {
        mk_motion(ComposerOp::MoveChar { delta: -1, extend: visual })
    } else if k == KEY_LOWER_L || k == KEY_RIGHT {
        mk_motion(ComposerOp::MoveChar { delta: 1, extend: visual })
    } else if k == KEY_LOWER_J || k == KEY_DOWN {
        mk_motion(ComposerOp::MoveLine { delta: 1, extend: visual })
    } else if k == KEY_LOWER_K || k == KEY_UP {
        mk_motion(ComposerOp::MoveLine { delta: -1, extend: visual })
    } else if k == KEY_LOWER_W {
        mk_motion(ComposerOp::MoveWordForward { extend: visual })
    } else if k == KEY_LOWER_B {
        mk_motion(ComposerOp::MoveWordBack { extend: visual })
    } else if k == KEY_ZERO {
        mk_motion(ComposerOp::MoveLineStart { extend: visual })
    } else if k == KEY_DOLLAR {
        mk_motion(ComposerOp::MoveLineEnd { extend: visual })
    } else if k == KEY_UPPER_G {
        mk_motion(ComposerOp::MoveDocEnd { extend: visual })
    } else if k == KEY_LOWER_G {
        mk_step(ComposerOp::Nothing, None, PendingOp::G)
    } else if k == KEY_LOWER_X && !visual {
        mk_step(ComposerOp::DeleteChar, None, idle)
    } else if k == KEY_LOWER_D && !visual {
        mk_step(ComposerOp::Nothing, None, PendingOp::D)
    } else if k == KEY_LOWER_Y && !visual {
        mk_step(ComposerOp::Nothing, None, PendingOp::Y)
    } else if k == KEY_LOWER_D && visual {
        mk_step(ComposerOp::DeleteSelectionAndYank, Some(ComposerMode::Normal), idle)
    } else if k == KEY_LOWER_Y && visual {
        mk_step(ComposerOp::YankSelection, Some(ComposerMode::Normal), idle)
    } else if k == KEY_LOWER_P {
        mk_step(ComposerOp::PasteAfter, None, idle)
    } else if k == KEY_LOWER_U {
        mk_step(ComposerOp::Undo, None, idle)
    } else {
        mk_step(ComposerOp::Nothing, None, idle)
    }
}

/// Decide what a key press (keysym and modifier mask) does in the
/// composer, given its mode and pending operator.
pub fn composer_key(mode: ComposerMode, pending: PendingOp, k: u32, state: u32) -> (s: ComposerStep)
    ensures
        s == composer_step(mode, pending, k, state),
{
    let shift = state & SHIFT_MASK != 0;
    let ctrl = state & CONTROL_MASK != 0;
    let keep = ComposerStep {
        op: ComposerOp::Nothing,
        refresh_selection: false,
        set_mode: None,
        pending,
        consumed: true,
    };
    if k == KEY_RETURN || k == KEY_KP_ENTER || k == KEY_ISO_ENTER {
        if shift && !ctrl {
            ComposerStep { consumed: mode != ComposerMode::Insert, ..keep }
        } else {
            ComposerStep { op: ComposerOp::Send, ..keep }
        }
    } else if k == KEY_ESCAPE {
        mk_step(ComposerOp::Nothing, Some(ComposerMode::Normal), pending)
    } else if ctrl && (k == KEY_LOWER_K || k == KEY_UPPER_K) {
        mk_step(ComposerOp::Clear, Some(ComposerMode::Normal), pending)
    } else if ctrl && (k == KEY_LOWER_R || k == KEY_UPPER_R) {
        ComposerStep { op: ComposerOp::Redo, ..keep }
    } else if mode == ComposerMode::Insert {
        ComposerStep { consumed: false, ..keep }
    } else if pending == PendingOp::D && k == KEY_LOWER_D {
        mk_step(ComposerOp::DeleteLine, None, PendingOp::Idle)
    } else if pending == PendingOp::Y && k == KEY_LOWER_Y {
        mk_step(ComposerOp::YankLine, None, PendingOp::Idle)
    } else if pending == PendingOp::G && k == KEY_LOWER_G {
        let visual = mode == ComposerMode::Visual || mode == ComposerMode::VisualLine;
        mk_step(ComposerOp::MoveDocStart { extend: visual }, None, PendingOp::Idle)
    } else {
        normal_key_exec(mode, k)
    }
}

} // verus!
