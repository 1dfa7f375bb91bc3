//! What the shell writes to the cache for a hub event, and how a cached
//! conversation row becomes a sidebar summary.
use vstd::prelude::*;
use crate::cache::models::{Conversation, Message};
use crate::messenger::{
    backend_tag, chat_id_from_wire, label_or, wire_of, Backend, ChatId, ChatIdView,
    ConversationSummary, NormalizedMessage,
};
use crate::text::str_eq;

verus! {

/// A resolved contact name to remember for later events.
#[derive(Debug, Clone, PartialEq, Eq)]
pub struct ContactName {
    pub backend_tag: String,
    pub sender: String,
    pub name: String,
}

/// The cache writes for one received message, in order: the
/// conversation row (first, so the message's reference is valid), the
/// contact name when the backend resolved one, then the message row.
#[derive(Debug, Clone, PartialEq, Eq)]
pub struct PersistPlan {
    pub conversation: Conversation,
    pub contact: Option<ContactName>,
    pub message: Message,
}

/// Plan the cache writes for a received message.
pub fn persist_plan(msg: &NormalizedMessage) -> (p: PersistPlan)
    ensures
        p.conversation.id@ == wire_of(msg.id@),
        p.conversation.name matches Some(n) && n@ == label_or(msg.sender_display, msg.id.native),
        p.conversation.group_id is None,
        p.conversation.last_message_ts == Some(msg.ts_ms),
        p.conversation.unread_count == 0,
        !p.conversation.archived,
        p.conversation.muted_until is None,
        match msg.sender_display {
            Some(d) => p.contact matches Some(c) && c.backend_tag@ == backend_tag(msg.id.backend)
                && c.sender@ == msg.sender@ && c.name@ == d@,
            None => p.contact is None,
        },
        p.message.id == 0,
        p.message.conversation_id@ == wire_of(msg.id@),
        p.message.ts == msg.ts_ms,
        p.message.sender@ == msg.sender@,
        p.message.body == msg.body,
        p.message.quote_ts is None,
        p.message.quote_sender is None,
        p.message.edited_ts is None,
        !p.message.deleted,
{
    let conv_name = match &msg.sender_display {
        Some(n) => n.clone(),
        None => msg.id.native.clone(),
    };
    let contact = match &msg.sender_display {
        Some(n) => Some(
            ContactName {
                backend_tag: msg.id.backend.as_tag().to_owned(),
                sender: msg.sender.clone(),
                name: n.clone(),
            },
        ),
        None => None,
    };
    PersistPlan {
        conversation: Conversation {
            id: msg.id.to_wire(),
            name: Some(conv_name),
            group_id: None,
            last_message_ts: Some(msg.ts_ms),
            unread_count: 0,
            archived: false,
            muted_until: None,
        },
        contact,
        message: Message {
            id: 0,
            conversation_id: msg.id.to_wire(),
            ts: msg.ts_ms,
            sender: msg.sender.clone(),
            body: msg.body.clone(),
            quote_ts: None,
            quote_sender: None,
            edited_ts: None,
            deleted: false,
        },
    }
}

/// The chat a cached row belongs to: its id read as a wire id, or a
/// Signal chat with the raw id as native id.
pub open spec fn row_chat(id: Seq<char>) -> ChatIdView {
    match chat_id_from_wire(id) {
        Some(v) => v,
        None => ChatIdView { backend: Backend::Signal, native: id },
    }
}

/// Sidebar summary of a cached conversation row. The cached name counts
/// as a resolved display name only when it differs from the native id.
pub fn conv_row_to_summary(c: &Conversation) -> (s: ConversationSummary)
    ensures
        s.id@ == row_chat(c.id@),
        s.title@ == (match c.name {
            Some(n) => n@,
            None => row_chat(c.id@).native,
        }),
        s.title@ != s.id@.native ==> (s.display_name matches Some(d) && d@ == s.title@),
        s.title@ == s.id@.native ==> s.display_name is None,
        s.last_message_ts == c.last_message_ts,
        s.preview is None,
        s.unread as int == (if c.unread_count < 0 {
            0
        } else {
            c.unread_count as int
        }),
{
    let id = match ChatId::from_wire(c.id.as_str()) {
        Some(id) => id,
        None => ChatId { backend: Backend::Signal, native: c.id.clone() },
    };
    let title = match &c.name {
        Some(n) => n.clone(),
        None => id.native.clone(),
    };
    let display_name = if !str_eq(title.as_str(), id.native.as_str()) {
        Some(title.clone())
    } else {
        None
    };
    let unread: u32 = if c.unread_count < 0 {
        0
    } else {
        c.unread_count as u32
    };
    ConversationSummary {
        id,
        title,
        display_name,
        last_message_ts: c.last_message_ts,
        preview: None,
        unread,
    }
}

} // verus!
