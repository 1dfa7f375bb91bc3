//! Protocol-agnostic messenger data: which backend a chat belongs to,
//! protocol-tagged chat identifiers, and the normalized message /
//! conversation shapes every backend produces.
pub mod signal;
pub mod telegram;

use vstd::prelude::*;
use crate::error::Error;
use crate::text::{chars_of, chars_eq_str, push_str, slice_chars, string_of};

verus! {

/// Which protocol a chat / message belongs to.
#[derive(Debug, Clone, Copy, PartialEq, Eq, Hash, PartialOrd, Ord, Structural)]
pub enum Backend {
    Signal,
    Telegram,
}

/// Stable short tag of a backend.
pub open spec fn backend_tag(b: Backend) -> Seq<char> {
    match b {
        Backend::Signal => "signal"@,
        Backend::Telegram => "telegram"@,
    }
}

/// The backend a tag names, if any.
pub open spec fn tag_backend(t: Seq<char>) -> Option<Backend> {
    if t == "signal"@ {
        Some(Backend::Signal)
    } else if t == "telegram"@ {
        Some(Backend::Telegram)
    } else {
        None
    }
}

impl Backend {
    /// Stable short tag used in serialised IDs and UI badges.
    pub fn as_tag(self) -> (s: &'static str)
        ensures
            s@ == backend_tag(self),
    {
        match self {
            Backend::Signal => "signal",
            Backend::Telegram => "telegram",
        }
    }

    pub fn parse_tag(tag: &str) -> (r: Option<Backend>)
        ensures
            r == tag_backend(tag@),
    {
        let v = chars_of(tag);
        if chars_eq_str(v.as_slice(), "signal") {
            Some(Backend::Signal)
        } else if chars_eq_str(v.as_slice(), "telegram") {
            Some(Backend::Telegram)
        } else {
            None
        }
    }

    /// Rendered form: the tag.
    pub fn to_string(&self) -> (s: String)
        ensures
            s@ == backend_tag(*self),
    {
        String::from_str(self.as_tag())
    }
}

/// Protocol-tagged conversation identifier.
///
/// `native` is whatever the underlying protocol uses to address a chat —
/// for Signal an E.164 number, UUID, or hex group id; for Telegram the
/// dialog's id rendered as decimal.
#[derive(Debug, PartialEq, Eq, Hash, PartialOrd, Ord)]
pub struct ChatId {
    pub backend: Backend,
    pub native: String,
}

pub struct ChatIdView {
    pub backend: Backend,
    pub native: Seq<char>,
}

impl View for ChatId {
    type V = ChatIdView;

    open spec fn view(&self) -> ChatIdView {
        ChatIdView { backend: self.backend, native: self.native@ }
    }
}

/// `tag:native` wire form of a chat id.
pub open spec fn wire_of(id: ChatIdView) -> Seq<char> {
    backend_tag(id.backend) + seq![':'] + id.native
}

/// Index of the first occurrence of `c` in `s`.
pub open spec fn first_index(s: Seq<char>, c: char) -> Option<int>
    decreases s.len(),
{
    if s.len() == 0 {
        None
    } else if s[0] == c {
        Some(0)
    } else {
        match first_index(s.drop_first(), c) {
            Some(i) => Some(i + 1),
            None => None,
        }
    }
}

/// Parse of the wire form: split at the first `:`; the tag must name a
/// backend and the native part must not be empty.
pub open spec fn chat_id_from_wire(s: Seq<char>) -> Option<ChatIdView> {
    match first_index(s, ':') {
        None => None,
        Some(i) => {
            let native = s.subrange(i + 1, s.len() as int);
            if native.len() == 0 {
                None
            } else {
                match tag_backend(s.subrange(0, i)) {
                    Some(b) => Some(ChatIdView { backend: b, native }),
                    None => None,
                }
            }
        },
    }
}

pub proof fn lemma_first_index_range(s: Seq<char>, c: char)
    ensures
        first_index(s, c) matches Some(i) ==> 0 <= i < s.len() && s[i] == c && !s.subrange(
            0,
            i,
        ).contains(c),
        first_index(s, c) is None ==> !s.contains(c),
    decreases s.len(),
{
    if s.len() > 0 {
        lemma_first_index_range(s.drop_first(), c);
        if s[0] != c {
            match first_index(s.drop_first(), c) {
                Some(i) => {
                    let pre = s.subrange(0, i + 1);
                    assert forall|j: int| 0 <= j < i + 1 implies pre[j] != c by {
                        if j > 0 {
                            assert(pre[j] == s.drop_first().subrange(0, i)[j - 1]);
                        }
                    }
                },
                None => {
                    assert forall|j: int| 0 <= j < s.len() implies s[j] != c by {
                        if j > 0 {
                            assert(s[j] == s.drop_first()[j - 1]);
                        }
                    }
                },
            }
        }
    }
}

/// First index of `c` in the buffer.
pub fn find_char(v: &[char], c: char) -> (r: Option<usize>)
    ensures
        r matches Some(i) ==> first_index(v@, c) == Some(i as int),
        r is None ==> first_index(v@, c) is None,
{
    let mut i: usize = 0;
    assert(v@.subrange(0, v@.len() as int) =~= v@);
    while i < v.len()
        invariant
            i <= v@.len(),
            first_index(v@, c) == match first_index(v@.subrange(i as int, v@.len() as int), c) {
                Some(j) => Some(j + i),
                None => None,
            },
        decreases v@.len() - i,
    {
        let ghost rest = v@.subrange(i as int, v@.len() as int);
        if v[i] == c {
            assert(rest[0] == c);
            return Some(i);
        }
        assert(rest.drop_first() =~= v@.subrange(i + 1, v@.len() as int));
        i = i + 1;
    }
    None
}

impl Clone for ChatId {
    fn clone(&self) -> (r: ChatId)
        ensures
            r == *self,
    {
        ChatId { backend: self.backend, native: self.native.clone() }
    }
}

impl ChatId {
    pub fn new(backend: Backend, native: &str) -> (id: ChatId)
        ensures
            id@ == (ChatIdView { backend, native: native@ }),
    {
        ChatId { backend, native: String::from_str(native) }
    }

    /// `signal:+14155552671` style round-trippable string.
    pub fn to_wire(&self) -> (s: String)
        ensures
            s@ == wire_of(self@),
    {
        let mut v = chars_of(self.backend.as_tag());
        v.push(':');
        push_str(&mut v, self.native.as_str());
        string_of(v.as_slice())
    }

    /// Rendered form: the wire form.
    pub fn to_string(&self) -> (s: String)
        ensures
            s@ == wire_of(self@),
    {
        self.to_wire()
    }

    /// Parse the inverse of [`Self::to_wire`]. `None` for any malformed
    /// input (missing colon, unknown tag, empty native).
    pub fn from_wire(s: &str) -> (r: Option<ChatId>)
        ensures
            match chat_id_from_wire(s@) {
                Some(v) => r matches Some(id) && id@ == v,
                None => r is None,
            },
    {
        let v = chars_of(s);
        let i = match find_char(v.as_slice(), ':') {
            Some(i) => i,
            None => {
                return None;
            },
        };
        proof {
            lemma_first_index_range(v@, ':');
        }
        if i + 1 == v.len() {
            return None;
        }
        let tag = string_of(slice_chars(v.as_slice(), 0, i).as_slice());
        let native = string_of(slice_chars(v.as_slice(), i + 1, v.len()).as_slice());
        match Backend::parse_tag(tag.as_str()) {
            Some(b) => Some(ChatId { backend: b, native }),
            None => None,
        }
    }
}

/// Wire round trip: a chat id with a non-empty native part reads back
/// from its wire form unchanged.
pub proof fn law_chat_id_wire_round_trip(id: ChatIdView)
    requires
        id.native.len() > 0,
    ensures
        chat_id_from_wire(wire_of(id)) == Some(id),
{
    reveal_strlit("signal");
    reveal_strlit("telegram");
    let w = wire_of(id);
    let t = backend_tag(id.backend);
    assert(t.len() == 6 || t.len() == 8);
    assert(!t.contains(':')) by {
        if t.contains(':') {
            let j = choose|j: int| 0 <= j < t.len() && t[j] == ':';
        }
    }
    lemma_first_index_range(w, ':');
    let i = t.len() as int;
    assert(w[i] == ':');
    match first_index(w, ':') {
        Some(j) => {
            if j < i {
                assert(w[j] == t[j]);
            }
            if j > i {
                assert(w.subrange(0, j)[i] == ':');
            }
            assert(j == i);
        },
        None => {
            assert(w.contains(':'));
        },
    }
    assert(w.subrange(0, i) =~= t);
    assert(w.subrange(i + 1, w.len() as int) =~= id.native);
    assert(t == "signal"@ ==> t != "telegram"@);
}

/// Backend tags round trip, and nothing but a tag parses.
pub proof fn law_backend_tag_round_trip(b: Backend)
    ensures
        tag_backend(backend_tag(b)) == Some(b),
{
    reveal_strlit("signal");
    reveal_strlit("telegram");
    assert("signal"@.len() == 6);
    assert("telegram"@.len() == 8);
}

#[derive(Debug, Clone, PartialEq, Eq)]
pub struct NormalizedAttachment {
    pub mime_type: Option<String>,
    pub file_name: Option<String>,
    /// Local path when the backend has already downloaded the blob.
    pub local_path: Option<String>,
    pub size: Option<i64>,
}

/// Backend-specific tail of a message.
#[derive(Debug, Clone, PartialEq, Eq)]
pub enum BackendExtras {
    Signal {
        /// Group id (raw bytes) when the message belongs to a group.
        group_id: Option<Vec<u8>>,
    },
    Telegram { reply_to_msg_id: Option<i64> },
}

#[derive(Debug, Clone, PartialEq, Eq)]
pub struct NormalizedMessage {
    /// The conversation this message belongs to.
    pub id: ChatId,
    pub ts_ms: i64,
    pub sender: String,
    /// Friendly sender label when the backend resolved one.
    pub sender_display: Option<String>,
    pub body: Option<String>,
    pub attachments: Vec<NormalizedAttachment>,
    pub backend_extras: BackendExtras,
}

/// The label shown for an optional display name with a fallback.
pub open spec fn label_or(name: Option<String>, fallback: String) -> Seq<char> {
    match name {
        Some(n) => n@,
        None => fallback@,
    }
}

impl NormalizedMessage {
    /// Best-effort display name for the message author: the resolved
    /// label when present, otherwise the raw `sender`.
    pub fn sender_label(&self) -> (s: &str)
        ensures
            s@ == label_or(self.sender_display, self.sender),
    {
        match &self.sender_display {
            Some(n) => n.as_str(),
            None => self.sender.as_str(),
        }
    }
}

#[derive(Debug, Clone, PartialEq, Eq)]
pub enum Event {
    MessageReceived(NormalizedMessage),
    Edited { id: ChatId, ts: i64, new_body: String },
    Deleted { id: ChatId, ts: i64 },
}

#[derive(Debug, Clone, PartialEq, Eq)]
pub struct ConversationSummary {
    pub id: ChatId,
    /// Raw fallback title (the backend's native id).
    pub title: String,
    /// Friendly name resolved from the backend's contact / chat metadata.
    pub display_name: Option<String>,
    pub last_message_ts: Option<i64>,
    /// Body of the most recent message, for the sidebar preview line.
    pub preview: Option<String>,
    pub unread: u32,
}

impl ConversationSummary {
    /// Best-effort label for the chat list: the resolved display name,
    /// otherwise the raw `title`.
    pub fn label(&self) -> (s: &str)
        ensures
            s@ == label_or(self.display_name, self.title),
    {
        match &self.display_name {
            Some(n) => n.as_str(),
            None => self.title.as_str(),
        }
    }
}

/// Position of the first registered backend of the given kind.
pub open spec fn first_backend(registered: Seq<Backend>, target: Backend) -> Option<int>
    decreases registered.len(),
{
    if registered.len() == 0 {
        None
    } else if registered[0] == target {
        Some(0)
    } else {
        match first_backend(registered.drop_first(), target) {
            Some(i) => Some(i + 1),
            None => None,
        }
    }
}

/// Which registered backend a send to a `target` chat goes to: the first
/// one of that kind; an error naming the kind when none is registered.
pub fn route_backend(registered: &[Backend], target: Backend) -> (r: Result<usize, Error>)
    ensures
        match first_backend(registered@, target) {
            Some(i) => r == Ok::<usize, Error>(i as usize),
            None => r matches Err(e) && e.msg() == "no backend registered for "@ + backend_tag(
                target,
            ),
        },
{
    let mut i: usize = 0;
    assert(registered@.subrange(0, registered@.len() as int) =~= registered@);
    while i < registered.len()
        invariant
            i <= registered@.len(),
            first_backend(registered@, target) == match first_backend(
                registered@.subrange(i as int, registered@.len() as int),
                target,
            ) {
                Some(k) => Some(k + i),
                None => None,
            },
        decreases registered@.len() - i,
    {
        let ghost rest = registered@.subrange(i as int, registered@.len() as int);
        if registered[i] == target {
            assert(rest[0] == registered@[i as int]);
            return Ok(i);
        }
        assert(rest.drop_first() =~= registered@.subrange(i + 1, registered@.len() as int));
        i = i + 1;
    }
    let mut m = chars_of("no backend registered for ");
    push_str(&mut m, target.as_tag());
    Err(Error::config(m.as_slice()))
}

} // verus!
