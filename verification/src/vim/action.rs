//! Vim-style actions a key binding can fire.
//!
//! Well-known actions are enumerated; anything unrecognised falls through
//! to [`Action::Custom`].
use vstd::prelude::*;
use crate::text::chars_eq_str;

verus! {

#[derive(Debug, PartialEq, Eq, Hash)]
pub enum Action {
    NavigateDown,
    NavigateUp,
    SidebarFocus,
    MessagesFocus,
    ScrollTop,
    ScrollBottom,
    ComposeNew,
    Reply,
    SendMessage,
    LeaveInsert,
    ArchiveChat,
    CopyMessage,
    DeleteMessage,
    Search,
    CommandPalette,
    Quit,
    SetTheme,
    ReloadConfig,
    Custom(String),
}

/// Mathematical value of an [`Action`].
pub enum ActionView {
    NavigateDown,
    NavigateUp,
    SidebarFocus,
    MessagesFocus,
    ScrollTop,
    ScrollBottom,
    ComposeNew,
    Reply,
    SendMessage,
    LeaveInsert,
    ArchiveChat,
    CopyMessage,
    DeleteMessage,
    Search,
    CommandPalette,
    Quit,
    SetTheme,
    ReloadConfig,
    Custom(Seq<char>),
}

impl View for Action {
    type V = ActionView;

    open spec fn view(&self) -> ActionView {
        match self {
            Action::NavigateDown => ActionView::NavigateDown,
            Action::NavigateUp => ActionView::NavigateUp,
            Action::SidebarFocus => ActionView::SidebarFocus,
            Action::MessagesFocus => ActionView::MessagesFocus,
            Action::ScrollTop => ActionView::ScrollTop,
            Action::ScrollBottom => ActionView::ScrollBottom,
            Action::ComposeNew => ActionView::ComposeNew,
            Action::Reply => ActionView::Reply,
            Action::SendMessage => ActionView::SendMessage,
            Action::LeaveInsert => ActionView::LeaveInsert,
            Action::ArchiveChat => ActionView::ArchiveChat,
            Action::CopyMessage => ActionView::CopyMessage,
            Action::DeleteMessage => ActionView::DeleteMessage,
            Action::Search => ActionView::Search,
            Action::CommandPalette => ActionView::CommandPalette,
            Action::Quit => ActionView::Quit,
            Action::SetTheme => ActionView::SetTheme,
            Action::ReloadConfig => ActionView::ReloadConfig,
            Action::Custom(s) => ActionView::Custom(s@),
        }
    }
}

/// The snake_case config name of an action.
pub open spec fn action_name(a: ActionView) -> Seq<char> {
    match a {
        ActionView::NavigateDown => "navigate_down"@,
        ActionView::NavigateUp => "navigate_up"@,
        ActionView::SidebarFocus => "sidebar_focus"@,
        ActionView::MessagesFocus => "messages_focus"@,
        ActionView::ScrollTop => "scroll_top"@,
        ActionView::ScrollBottom => "scroll_bottom"@,
        ActionView::ComposeNew => "compose_new"@,
        ActionView::Reply => "reply"@,
        ActionView::SendMessage => "send_message"@,
        ActionView::LeaveInsert => "leave_insert"@,
        ActionView::ArchiveChat => "archive_chat"@,
        ActionView::CopyMessage => "copy_message"@,
        ActionView::DeleteMessage => "delete_message"@,
        ActionView::Search => "search"@,
        ActionView::CommandPalette => "command_palette"@,
        ActionView::Quit => "quit"@,
        ActionView::SetTheme => "set_theme"@,
        ActionView::ReloadConfig => "reload_config"@,
        ActionView::Custom(s) => s,
    }
}

/// The action a config name denotes: the well-known action whose name it
/// is, otherwise a custom action carrying the name.
pub open spec fn action_from_name(s: Seq<char>) -> ActionView {
    if s == "navigate_down"@ {
        ActionView::NavigateDown
    } else if s == "navigate_up"@ {
        ActionView::NavigateUp
    } else if s == "sidebar_focus"@ {
        ActionView::SidebarFocus
    } else if s == "messages_focus"@ {
        ActionView::MessagesFocus
    } else if s == "scroll_top"@ {
        ActionView::ScrollTop
    } else if s == "scroll_bottom"@ {
        ActionView::ScrollBottom
    } else if s == "compose_new"@ {
        ActionView::ComposeNew
    } else if s == "reply"@ {
        ActionView::Reply
    } else if s == "send_message"@ {
        ActionView::SendMessage
    } else if s == "leave_insert"@ {
        ActionView::LeaveInsert
    } else if s == "archive_chat"@ {
        ActionView::ArchiveChat
    } else if s == "copy_message"@ {
        ActionView::CopyMessage
    } else if s == "delete_message"@ {
        ActionView::DeleteMessage
    } else if s == "search"@ {
        ActionView::Search
    } else if s == "command_palette"@ {
        ActionView::CommandPalette
    } else if s == "quit"@ {
        ActionView::Quit
    } else if s == "set_theme"@ {
        ActionView::SetTheme
    } else if s == "reload_config"@ {
        ActionView::ReloadConfig
    } else {
        ActionView::Custom(s)
    }
}

/// Position of an action's variant in the declaration.
pub open spec fn action_tag(a: ActionView) -> u8 {
    match a {
        ActionView::NavigateDown => 0,
        ActionView::NavigateUp => 1,
        ActionView::SidebarFocus => 2,
        ActionView::MessagesFocus => 3,
        ActionView::ScrollTop => 4,
        ActionView::ScrollBottom => 5,
        ActionView::ComposeNew => 6,
        ActionView::Reply => 7,
        ActionView::SendMessage => 8,
        ActionView::LeaveInsert => 9,
        ActionView::ArchiveChat => 10,
        ActionView::CopyMessage => 11,
        ActionView::DeleteMessage => 12,
        ActionView::Search => 13,
        ActionView::CommandPalette => 14,
        ActionView::Quit => 15,
        ActionView::SetTheme => 16,
        ActionView::ReloadConfig => 17,
        ActionView::Custom(_) => 18,
    }
}

/// Whether `s` names a well-known action.
pub open spec fn is_known_name(s: Seq<char>) -> bool {
    !(action_from_name(s) is Custom)
}

impl Clone for Action {
    fn clone(&self) -> (r: Action)
        ensures
            r == *self,
    {
        match self {
            Action::NavigateDown => Action::NavigateDown,
            Action::NavigateUp => Action::NavigateUp,
            Action::SidebarFocus => Action::SidebarFocus,
            Action::MessagesFocus => Action::MessagesFocus,
            Action::ScrollTop => Action::ScrollTop,
            Action::ScrollBottom => Action::ScrollBottom,
            Action::ComposeNew => Action::ComposeNew,
            Action::Reply => Action::Reply,
            Action::SendMessage => Action::SendMessage,
            Action::LeaveInsert => Action::LeaveInsert,
            Action::ArchiveChat => Action::ArchiveChat,
            Action::CopyMessage => Action::CopyMessage,
            Action::DeleteMessage => Action::DeleteMessage,
            Action::Search => Action::Search,
            Action::CommandPalette => Action::CommandPalette,
            Action::Quit => Action::Quit,
            Action::SetTheme => Action::SetTheme,
            Action::ReloadConfig => Action::ReloadConfig,
            Action::Custom(s) => Action::Custom(s.clone()),
        }
    }
}

impl Action {
    /// Map a snake_case action name from config into an [`Action`].
    pub fn from_name(name: &str) -> (a: Action)
        ensures
            a@ == action_from_name(name@),
    {
        let v = crate::text::chars_of(name);
        let n = v.as_slice();
        if chars_eq_str(n, "navigate_down") {
            Action::NavigateDown
        } else if chars_eq_str(n, "navigate_up") {
            Action::NavigateUp
        } else if chars_eq_str(n, "sidebar_focus") {
            Action::SidebarFocus
        } else if chars_eq_str(n, "messages_focus") {
            Action::MessagesFocus
        } else if chars_eq_str(n, "scroll_top") {
            Action::ScrollTop
        } else if chars_eq_str(n, "scroll_bottom") {
            Action::ScrollBottom
        } else if chars_eq_str(n, "compose_new") {
            Action::ComposeNew
        } else if chars_eq_str(n, "reply") {
            Action::Reply
        } else if chars_eq_str(n, "send_message") {
            Action::SendMessage
        } else if chars_eq_str(n, "leave_insert") {
            Action::LeaveInsert
        } else if chars_eq_str(n, "archive_chat") {
            Action::ArchiveChat
        } else if chars_eq_str(n, "copy_message") {
            Action::CopyMessage
        } else if chars_eq_str(n, "delete_message") {
            Action::DeleteMessage
        } else if chars_eq_str(n, "search") {
            Action::Search
        } else if chars_eq_str(n, "command_palette") {
            Action::CommandPalette
        } else if chars_eq_str(n, "quit") {
            Action::Quit
        } else if chars_eq_str(n, "set_theme") {
            Action::SetTheme
        } else if chars_eq_str(n, "reload_config") {
            Action::ReloadConfig
        } else {
            Action::Custom(String::from_str(name))
        }
    }

    /// The action's config name.
    pub fn name(&self) -> (s: &str)
        ensures
            s@ == action_name(self@),
    {
        match self {
            Action::NavigateDown => "navigate_down",
            Action::NavigateUp => "navigate_up",
            Action::SidebarFocus => "sidebar_focus",
            Action::MessagesFocus => "messages_focus",
            Action::ScrollTop => "scroll_top",
            Action::ScrollBottom => "scroll_bottom",
            Action::ComposeNew => "compose_new",
            Action::Reply => "reply",
            Action::SendMessage => "send_message",
            Action::LeaveInsert => "leave_insert",
            Action::ArchiveChat => "archive_chat",
            Action::CopyMessage => "copy_message",
            Action::DeleteMessage => "delete_message",
            Action::Search => "search",
            Action::CommandPalette => "command_palette",
            Action::Quit => "quit",
            Action::SetTheme => "set_theme",
            Action::ReloadConfig => "reload_config",
            Action::Custom(s) => s.as_str(),
        }
    }

    /// Rendered form: the action's name.
    pub fn to_string(&self) -> (s: String)
        ensures
            s@ == action_name(self@),
    {
        String::from_str(self.name())
    }

    /// Position of the variant in the declaration.
    pub fn tag(&self) -> (t: u8)
        ensures
            t == action_tag(self@),
    {
        match self {
            Action::NavigateDown => 0,
            Action::NavigateUp => 1,
            Action::SidebarFocus => 2,
            Action::MessagesFocus => 3,
            Action::ScrollTop => 4,
            Action::ScrollBottom => 5,
            Action::ComposeNew => 6,
            Action::Reply => 7,
            Action::SendMessage => 8,
            Action::LeaveInsert => 9,
            Action::ArchiveChat => 10,
            Action::CopyMessage => 11,
            Action::DeleteMessage => 12,
            Action::Search => 13,
            Action::CommandPalette => 14,
            Action::Quit => 15,
            Action::SetTheme => 16,
            Action::ReloadConfig => 17,
            Action::Custom(_) => 18,
        }
    }

    /// Whether two actions are the same action.
    pub fn same(&self, other: &Action) -> (b: bool)
        ensures
            b == (self@ == other@),
    {
        match (self, other) {
            (Action::Custom(a), Action::Custom(b)) => {
                let r = crate::text::str_eq(a.as_str(), b.as_str());
                r
            },
            (Action::Custom(_), _) => false,
            (_, Action::Custom(_)) => false,
            _ => self.tag() == other.tag(),
        }
    }
}

} // verus!
