//! Notification policy: per-conversation Do Not Disturb, when to post,
//! what a posted notification shows, and unread badges.
pub mod badges;
pub mod laws;

use vstd::prelude::*;
use crate::assoc::{assoc_map, find_key, keys_distinct, lemma_assoc, lemma_assoc_push, lemma_assoc_remove, lemma_assoc_update};
use crate::config::schema::Notifications as NotificationConfig;
use crate::config::Config;
use crate::text::{chars_of, str_eq, string_of};

pub use badges::BadgeState;

verus! {

/// Cap on the body preview a desktop notification displays; longer
/// previews are cut and end in an ellipsis.
pub const PREVIEW_MAX_CHARS: usize = 280;

/// Key of the "open chat" default action (libnotify convention).
pub const ACTION_DEFAULT: &'static str = "default";

/// Key of the inline reply action.
pub const ACTION_REPLY: &'static str = "reply";

/// XDG icon id of the application.
pub const ICON_ID: &'static str = "dev.kryptos.Kryptos";

pub const APP_NAME: &'static str = "Kryptos";

/// What the user did with a posted notification.
#[derive(Debug, Clone, PartialEq, Eq)]
pub enum NotificationAction {
    /// The body / default action was clicked: focus the conversation.
    Open,
    /// The reply action was invoked. The notification daemon hands back
    /// only the action key, so the text is empty and the caller prompts
    /// inline.
    Reply(String),
    /// Dismissed without picking an action.
    Dismissed,
    /// An action key we didn't recognise, forwarded verbatim.
    Other(String),
}

impl NotificationAction {
    /// The action an action key stands for.
    pub fn from_key(key: &str) -> (r: NotificationAction)
        ensures
            key@ == "default"@ ==> r is Open,
            key@ == "reply"@ ==> (r matches NotificationAction::Reply(t) && t@.len() == 0),
            key@ == "__closed"@ ==> r is Dismissed,
            key@ != "default"@ && key@ != "reply"@ && key@ != "__closed"@ ==> (r matches NotificationAction::Other(t) && t@ == key@),
    {
        proof {
            reveal_strlit("default");
            reveal_strlit("reply");
            reveal_strlit("__closed");
            assert("default"@.len() == 7);
            assert("reply"@.len() == 5);
            assert("__closed"@.len() == 8);
        }
        if str_eq(key, "default") {
            NotificationAction::Open
        } else if str_eq(key, "reply") {
            NotificationAction::Reply(String::new())
        } else if str_eq(key, "__closed") {
            NotificationAction::Dismissed
        } else {
            NotificationAction::Other(key.to_owned())
        }
    }
}

/// A message worth a desktop notification.
#[derive(Debug, Clone)]
pub struct IncomingNotice {
    pub conversation_id: String,
    pub sender: String,
    pub preview: String,
}

/// The first `max` chars of `s`, followed by `…` when anything was cut.
pub open spec fn truncated(s: Seq<char>, max: nat) -> Seq<char> {
    if s.len() <= max {
        s
    } else {
        s.subrange(0, max as int).push('…')
    }
}

/// Cuts `s` to `max_chars` chars (not bytes), appending `…` when
/// anything was cut.
pub fn truncate_preview(s: &str, max_chars: usize) -> (r: String)
    ensures
        r@ == truncated(s@, max_chars as nat),
{
    let v = chars_of(s);
    if v.len() <= max_chars {
        return string_of(v.as_slice());
    }
    let mut head = crate::text::slice_chars(v.as_slice(), 0, max_chars);
    head.push('…');
    string_of(head.as_slice())
}

/// What a desktop notification for a notice shows.
#[derive(Debug, Clone)]
pub struct NoticePlan {
    pub summary: String,
    pub body: String,
    /// libnotify `sound-name` hint, when sound is not switched off.
    pub sound: Option<String>,
}

/// Whether a sound setting asks for a sound hint.
pub open spec fn wants_sound(sound: Seq<char>) -> bool {
    sound != "none"@ && sound.len() != 0
}

/// Whether a notification may be posted: notifications are enabled and
/// the conversation is not under a Do Not Disturb that ends after `now`
/// (when per-chat DND is on).
pub open spec fn may_notify(
    cfg: NotificationConfig,
    dnd: Map<Seq<char>, i64>,
    conv: Seq<char>,
    now: i64,
) -> bool {
    cfg.enabled && !(cfg.dnd_per_chat && dnd.dom().contains(conv) && dnd[conv] > now)
}

pub struct Notifier {
    config: NotificationConfig,
    /// Conversation id and the unix-ms timestamp at which its DND ends.
    dnd_until: Vec<(String, i64)>,
}

impl Notifier {
    #[verifier::type_invariant]
    spec fn wf(self) -> bool {
        keys_distinct(self.dnd_until@)
    }

    /// The notification settings in force.
    pub closed spec fn config(&self) -> NotificationConfig {
        self.config
    }

    /// DND expiry per conversation.
    pub closed spec fn dnd(&self) -> Map<Seq<char>, i64> {
        assoc_map(self.dnd_until@)
    }

    pub fn new(cfg: &Config) -> (n: Notifier)
        ensures
            n.config() == cfg.notifications,
            n.dnd() == Map::<Seq<char>, i64>::empty(),
    {
        Notifier { config: cfg.notifications.clone(), dnd_until: Vec::new() }
    }

    /// Replace the settings snapshot (config hot reload). DND state is
    /// preserved across reloads.
    pub fn reload(&mut self, cfg: &Config)
        ensures
            final(self).config() == cfg.notifications,
            final(self).dnd() == old(self).dnd(),
    {
        proof {
            use_type_invariant(&*self);
        }
        self.config = cfg.notifications.clone();
    }

    /// True iff a notification for `conversation_id` should be posted at
    /// `now_ms`.
    pub fn should_notify(&self, conversation_id: &str, now_ms: i64) -> (b: bool)
        ensures
            b == may_notify(self.config(), self.dnd(), conversation_id@, now_ms),
    {
        proof {
            use_type_invariant(self);
            lemma_assoc(self.dnd_until@);
        }
        if !self.config.enabled {
            return false;
        }
        if self.config.dnd_per_chat {
            let key = conversation_id.to_owned();
            if let Some(j) = find_key(&self.dnd_until, &key) {
                if self.dnd_until[j].1 > now_ms {
                    return false;
                }
            }
        }
        true
    }

    /// Silence `conversation_id` until `until_ms` (exclusive).
    pub fn dnd_for(&mut self, conversation_id: &str, until_ms: i64)
        ensures
            final(self).config() == old(self).config(),
            final(self).dnd() == old(self).dnd().insert(conversation_id@, until_ms),
    {
        proof {
            use_type_invariant(&*self);
        }
        let key = conversation_id.to_owned();
        let found = find_key(&self.dnd_until, &key);
        let mut e: Vec<(String, i64)> = Vec::new();
        core::mem::swap(&mut e, &mut self.dnd_until);
        let ghost old_e = e@;
        match found {
            Some(j) => {
                proof {
                    lemma_assoc_update(old_e, j as int, (key, until_ms));
                }
                e.set(j, (key, until_ms));
            },
            None => {
                proof {
                    lemma_assoc_push(old_e, (key, until_ms));
                }
                e.push((key, until_ms));
            },
        }
        self.dnd_until = e;
    }

    /// Lift any DND on `conversation_id`.
    pub fn clear_dnd(&mut self, conversation_id: &str)
        ensures
            final(self).config() == old(self).config(),
            final(self).dnd() == old(self).dnd().remove(conversation_id@),
    {
        proof {
            use_type_invariant(&*self);
        }
        let key = conversation_id.to_owned();
        match find_key(&self.dnd_until, &key) {
            Some(j) => {
                let mut e: Vec<(String, i64)> = Vec::new();
                core::mem::swap(&mut e, &mut self.dnd_until);
                proof {
                    lemma_assoc_remove(e@, j as int);
                }
                e.remove(j);
                self.dnd_until = e;
            },
            None => {
                assert(self.dnd().remove(conversation_id@) =~= self.dnd());
            },
        }
    }

    /// What the desktop notification for `n` shows: the sender as
    /// summary, the preview cut to [`PREVIEW_MAX_CHARS`], and the sound
    /// hint unless sound is `"none"` or empty.
    pub fn plan_incoming(&self, n: &IncomingNotice) -> (p: NoticePlan)
        ensures
            p.summary@ == n.sender@,
            p.body@ == truncated(n.preview@, PREVIEW_MAX_CHARS as nat),
            wants_sound(self.config().sound@) ==> (p.sound matches Some(s) && s@
                == self.config().sound@),
            !wants_sound(self.config().sound@) ==> p.sound is None,
    {
        let body = truncate_preview(n.preview.as_str(), PREVIEW_MAX_CHARS);
        let sound = if !str_eq(self.config.sound.as_str(), "none") && !self.config.sound.as_str().is_empty() {
            Some(self.config.sound.clone())
        } else {
            None
        };
        NoticePlan { summary: n.sender.clone(), body, sound }
    }
}

} // verus!
