//! Chat history shown oldest first: a stable ordering of messages by
//! timestamp, and the rows the shell derives from live messages.
use vstd::prelude::*;
use crate::cache::models::Message;
use crate::messenger::{Backend, BackendExtras, ChatId, ConversationSummary, NormalizedMessage};

verus! {

/// Message `a` goes before message `b`: earlier timestamp, or the same
/// timestamp and earlier position (ties keep their order).
pub open spec fn before(ts: Seq<i64>, a: int, b: int) -> bool {
    ts[a] < ts[b] || (ts[a] == ts[b] && a < b)
}

/// `p` lists each position `0..n` exactly once.
pub open spec fn is_permutation(p: Seq<usize>, n: nat) -> bool {
    &&& p.len() == n
    &&& forall|i: int| 0 <= i < p.len() ==> #[trigger] p[i] < n
    &&& forall|i: int, j: int| 0 <= i < j < p.len() ==> #[trigger] p[i] != #[trigger] p[j]
}

/// `p` lists positions in the order of [`before`].
pub open spec fn ordered(ts: Seq<i64>, p: Seq<usize>) -> bool {
    forall|i: int, j: int| 0 <= i < j < p.len() ==> before(ts, #[trigger] p[i] as int, #[trigger] p[j] as int)
}

/// Positions of the timestamps, oldest first; equal timestamps keep
/// their relative order (a stable sort).
pub fn order_by_ts(ts: &[i64]) -> (p: Vec<usize>)
    ensures
        is_permutation(p@, ts@.len()),
        ordered(ts@, p@),
{
    let n = ts.len();
    let mut order: Vec<usize> = Vec::new();
    let mut i: usize = 0;
    while i < n
        invariant
            n == ts@.len(),
            i <= n,
            is_permutation(order@, i as nat),
            ordered(ts@, order@),
        decreases n - i,
    {
        let t = ts[i];
        let mut j: usize = order.len();
        while j > 0 && ts[order[j - 1]] > t
            invariant
                n == ts@.len(),
                i < n,
                t == ts@[i as int],
                j <= order@.len(),
                is_permutation(order@, i as nat),
                ordered(ts@, order@),
                forall|k: int| j <= k < order@.len() ==> ts@[#[trigger] order@[k] as int] > t,
            decreases j,
        {
            j = j - 1;
        }
        let ghost old_order = order@;
        proof {
            // Everything before `j` is not later than `t`.
            assert forall|k: int| 0 <= k < j implies ts@[#[trigger] old_order[k] as int] <= t by {
                if j > 0 && k < j - 1 {
                    assert(before(ts@, old_order[k] as int, old_order[j - 1] as int));
                }
            }
        }
        order.insert(j, i);
        proof {
            let o = order@;
            old_order.insert_ensures(j as int, i);
            assert forall|a: int| 0 <= a < o.len() implies #[trigger] o[a] < i + 1 by {
                if a < j {
                    assert(o[a] == old_order[a]);
                } else if a > j {
                    assert(o[a] == old_order[a - 1]);
                }
            }
            assert forall|a: int, b: int| 0 <= a < b < o.len() implies #[trigger] o[a] != #[trigger] o[b] by {
                if a != j && b != j {
                    let a1 = if a < j { a } else { a - 1 };
                    let b1 = if b < j { b } else { b - 1 };
                    assert(o[a] == old_order[a1] && o[b] == old_order[b1]);
                } else if a == j {
                    assert(o[b] == old_order[b - 1]);
                } else {
                    assert(o[a] == old_order[a]);
                }
            }
            assert forall|a: int, b: int| 0 <= a < b < o.len() implies before(
                ts@,
                #[trigger] o[a] as int,
                #[trigger] o[b] as int,
            ) by {
                if a != j && b != j {
                    let a1 = if a < j { a } else { a - 1 };
                    let b1 = if b < j { b } else { b - 1 };
                    assert(o[a] == old_order[a1] && o[b] == old_order[b1]);
                } else if a == j {
                    assert(o[b] == old_order[b - 1]);
                } else {
                    assert(o[a] == old_order[a]);
                    assert(old_order[a] < i);
                }
            }
        }
        i = i + 1;
    }
    order
}

/// The timestamps of cached messages, in order.
pub open spec fn message_ts(ms: Seq<Message>) -> Seq<i64> {
    ms.map_values(|m: Message| m.ts)
}

fn clone_message(m: &Message) -> (c: Message)
    ensures
        c == *m,
{
    Message {
        id: m.id,
        conversation_id: m.conversation_id.clone(),
        ts: m.ts,
        sender: m.sender.clone(),
        body: m.body.clone(),
        quote_ts: m.quote_ts,
        quote_sender: m.quote_sender.clone(),
        edited_ts: m.edited_ts,
        deleted: m.deleted,
    }
}

/// Cached messages oldest first (the cache lists them newest first);
/// messages with equal timestamps keep their order.
pub fn messages_oldest_first(msgs: &[Message]) -> (r: Vec<Message>)
    ensures
        exists|p: Seq<usize>|
            is_permutation(p, msgs@.len()) && ordered(message_ts(msgs@), p) && r@.len() == p.len()
                && forall|i: int| 0 <= i < p.len() ==> #[trigger] r@[i] == msgs@[p[i] as int],
{
    let mut ts: Vec<i64> = Vec::new();
    let mut i: usize = 0;
    while i < msgs.len()
        invariant
            i <= msgs@.len(),
            ts@ == message_ts(msgs@.subrange(0, i as int)),
        decreases msgs@.len() - i,
    {
        ts.push(msgs[i].ts);
        i = i + 1;
        assert(message_ts(msgs@.subrange(0, i as int)) =~= message_ts(msgs@.subrange(0, i - 1)).push(
            msgs@[i - 1].ts,
        ));
    }
    assert(msgs@.subrange(0, msgs@.len() as int) =~= msgs@);
    let order = order_by_ts(ts.as_slice());
    let mut out: Vec<Message> = Vec::new();
    let mut k: usize = 0;
    while k < order.len()
        invariant
            k <= order@.len(),
            is_permutation(order@, msgs@.len()),
            out@.len() == k,
            forall|a: int| 0 <= a < k ==> #[trigger] out@[a] == msgs@[order@[a] as int],
        decreases order@.len() - k,
    {
        out.push(clone_message(&msgs[order[k]]));
        k = k + 1;
    }
    proof {
        assert(ordered(message_ts(msgs@), order@));
    }
    out
}

/// Sidebar summary for a live message: the chat's native id as title,
/// the sender's resolved name, the message time and its body as preview.
pub fn summary_for_message(msg: &NormalizedMessage) -> (s: ConversationSummary)
    ensures
        s.id@ == msg.id@,
        s.title@ == msg.id.native@,
        s.display_name == msg.sender_display,
        s.last_message_ts == Some(msg.ts_ms),
        s.preview == msg.body,
        s.unread == 0,
{
    ConversationSummary {
        id: msg.id.clone(),
        title: msg.id.native.clone(),
        display_name: msg.sender_display.clone(),
        last_message_ts: Some(msg.ts_ms),
        preview: msg.body.clone(),
        unread: 0,
    }
}

/// The message shown at once for text being sent: from the own account
/// of that backend, or `me` while none is known.
pub fn outgoing_message(id: &ChatId, now_ms: i64, own: Option<&str>, text: &str) -> (m: NormalizedMessage)
    ensures
        m.id@ == id@,
        m.ts_ms == now_ms,
        m.sender@ == (match own {
            Some(o) => o@,
            None => "me"@,
        }),
        m.sender_display is None,
        m.body matches Some(b) && b@ == text@,
        m.attachments@.len() == 0,
        id.backend == Backend::Signal ==> m.backend_extras == (BackendExtras::Signal { group_id: None }),
        id.backend == Backend::Telegram ==> m.backend_extras == (BackendExtras::Telegram {
            reply_to_msg_id: None,
        }),
{
    let sender = match own {
        Some(o) => o.to_owned(),
        None => "me".to_owned(),
    };
    let extras = match id.backend {
        Backend::Signal => BackendExtras::Signal { group_id: None },
        Backend::Telegram => BackendExtras::Telegram { reply_to_msg_id: None },
    };
    NormalizedMessage {
        id: id.clone(),
        ts_ms: now_ms,
        sender,
        sender_display: None,
        body: Some(text.to_owned()),
        attachments: Vec::new(),
        backend_extras: extras,
    }
}

/// Cache row of a message the backend accepted at `ts`.
pub fn sent_row(id: &ChatId, ts: i64, sender: &str, body: &str) -> (m: Message)
    ensures
        m.id == 0,
        m.conversation_id@ == crate::messenger::wire_of(id@),
        m.ts == ts,
        m.sender@ == sender@,
        m.body matches Some(b) && b@ == body@,
        m.quote_ts is None,
        m.quote_sender is None,
        m.edited_ts is None,
        !m.deleted,
{
    Message {
        id: 0,
        conversation_id: id.to_wire(),
        ts,
        sender: sender.to_owned(),
        body: Some(body.to_owned()),
        quote_ts: None,
        quote_sender: None,
        edited_ts: None,
        deleted: false,
    }
}

/// Position of a chat in the sidebar's index, if listed.
pub fn find_chat(index: &[ChatId], id: &ChatId) -> (r: Option<usize>)
    ensures
        r matches Some(i) ==> i < index@.len() && index@[i as int]@ == id@ && forall|k: int|
            0 <= k < i ==> #[trigger] index@[k]@ != id@,
        r is None ==> forall|k: int| 0 <= k < index@.len() ==> #[trigger] index@[k]@ != id@,
{
    let mut i: usize = 0;
    while i < index.len()
        invariant
            i <= index@.len(),
            forall|k: int| 0 <= k < i ==> #[trigger] index@[k]@ != id@,
        decreases index@.len() - i,
    {
        if index[i].backend == id.backend && crate::text::str_eq(index[i].native.as_str(), id.native.as_str()) {
            return Some(i);
        }
        i = i + 1;
    }
    None
}

} // verus!
