//! Signal-specific pure logic: mapping a signal-cli `MessageReceived`
//! payload into the protocol-neutral [`NormalizedMessage`], hex group
//! ids, attachment file names and the account resolver.
use vstd::prelude::*;
use crate::messenger::{
    Backend, BackendExtras, ChatId, ChatIdView, ConversationSummary, NormalizedAttachment, NormalizedMessage,
};
use crate::text::{split_seq, split_chars, string_of};

verus! {

/// Lower-case hex digit for a nibble.
pub open spec fn hex_char(n: u8) -> char {
    if n < 10 {
        ((48 + n) as u8) as char
    } else {
        ((87 + n) as u8) as char
    }
}

/// Two lower-case hex digits per byte, in order.
pub open spec fn hex_seq(b: Seq<u8>) -> Seq<char>
    decreases b.len(),
{
    if b.len() == 0 {
        Seq::<char>::empty()
    } else {
        hex_seq(b.drop_last()) + seq![hex_char(b.last() / 16), hex_char(b.last() % 16)]
    }
}

pub proof fn lemma_hex_len(b: Seq<u8>)
    ensures
        hex_seq(b).len() == 2 * b.len(),
    decreases b.len(),
{
    if b.len() > 0 {
        lemma_hex_len(b.drop_last());
    }
}

fn nibble_char(n: u8) -> (c: char)
    requires
        n < 16,
    ensures
        c == hex_char(n),
{
    if n < 10 {
        (48 + n) as char
    } else {
        (87 + n) as char
    }
}

/// Lower-case hex rendering of a byte string (two digits per byte).
pub fn hex_encode(bytes: &[u8]) -> (s: String)
    ensures
        s@ == hex_seq(bytes@),
{
    let mut v: Vec<char> = Vec::new();
    let mut i: usize = 0;
    while i < bytes.len()
        invariant
            i <= bytes.len(),
            v@ == hex_seq(bytes@.subrange(0, i as int)),
        decreases bytes.len() - i,
    {
        let b = bytes[i];
        proof {
            let pre = bytes@.subrange(0, i + 1);
            assert(pre.drop_last() =~= bytes@.subrange(0, i as int));
            assert(pre.last() == b);
        }
        v.push(nibble_char(b / 16));
        v.push(nibble_char(b % 16));
        proof {
            let pre = bytes@.subrange(0, i + 1);
            assert(v@ =~= hex_seq(pre.drop_last()) + seq![hex_char(b / 16), hex_char(b % 16)]);
        }
        i = i + 1;
    }
    proof {
        assert(bytes@.subrange(0, bytes@.len() as int) =~= bytes@);
    }
    string_of(v.as_slice())
}

/// A path segment that names nothing (`""` from repeated or trailing
/// slashes, or `"."`).
pub open spec fn is_filler(seg: Seq<char>) -> bool {
    seg.len() == 0 || seg == seq!['.']
}

/// The last segment that names something, if any.
pub open spec fn last_component(segs: Seq<Seq<char>>) -> Option<Seq<char>>
    decreases segs.len(),
{
    if segs.len() == 0 {
        None
    } else if is_filler(segs.last()) {
        last_component(segs.drop_last())
    } else {
        Some(segs.last())
    }
}

/// File name of a `/`-separated path: its last component, unless that
/// is `..` or there is none.
pub open spec fn path_file_name(p: Seq<char>) -> Option<Seq<char>> {
    match last_component(split_seq(p, '/')) {
        Some(c) => if c == seq!['.', '.'] {
            None
        } else {
            Some(c)
        },
        None => None,
    }
}

/// The final component of a `/`-separated path, `None` when the path has
/// no named component or ends in `..`.
pub fn path_file_name_of(path: &str) -> (r: Option<String>)
    ensures
        match path_file_name(path@) {
            Some(n) => r matches Some(s) && s@ == n,
            None => r is None,
        },
{
    let v = crate::text::chars_of(path);
    let parts = split_chars(v.as_slice(), '/');
    let ghost segs = split_seq(v@, '/');
    let mut j: usize = parts.len();
    assert(segs.subrange(0, j as int) =~= segs);
    while j > 0
        invariant
            j <= parts@.len(),
            parts@.len() == segs.len(),
            forall|i: int| 0 <= i < parts@.len() ==> #[trigger] parts@[i]@ == segs[i],
            last_component(segs) == last_component(segs.subrange(0, j as int)),
            segs == split_seq(path@, '/'),
        decreases j,
    {
        let seg = &parts[j - 1];
        let ghost sub = segs.subrange(0, j as int);
        assert(sub.last() == seg@);
        let dot = seg.len() == 1 && seg[0] == '.';
        if dot {
            assert(seg@ =~= seq!['.']);
        } else if seg.len() == 1 {
            assert(seg@ != seq!['.']) by {
                assert(seg@[0] != seq!['.'][0]);
            }
        }
        if seg.len() != 0 && !dot {
            let twodots = seg.len() == 2 && seg[0] == '.' && seg[1] == '.';
            if twodots {
                assert(seg@ =~= seq!['.', '.']);
                return None;
            }
            if seg.len() == 2 {
                assert(seg@ != seq!['.', '.']) by {
                    if seg@[0] != '.' {
                        assert(seg@[0] != seq!['.', '.'][0]);
                    } else {
                        assert(seg@[1] != seq!['.', '.'][1]);
                    }
                }
            }
            return Some(string_of(seg.as_slice()));
        }
        assert(sub.drop_last() =~= segs.subrange(0, j - 1));
        j = j - 1;
    }
    None
}

/// What a received attachment path normalizes to.
pub open spec fn attachment_from_path(a: NormalizedAttachment, path: Seq<char>) -> bool {
    &&& a.mime_type is None
    &&& a.size is None
    &&& (match path_file_name(path) {
        Some(n) => a.file_name matches Some(f) && f@ == n,
        None => a.file_name is None,
    })
    &&& a.local_path matches Some(l) && l@ == path
}

/// The conversation a received message belongs to: the hex group id for
/// group messages, the sender otherwise.
pub open spec fn received_native(sender: Seq<char>, group_id: Option<Vec<u8>>) -> Seq<char> {
    match group_id {
        Some(g) => hex_seq(g@),
        None => sender,
    }
}

/// Pure conversion from a signal-cli `MessageReceived` payload into the
/// protocol-neutral [`NormalizedMessage`].
pub fn normalize_message_received(
    ts: i64,
    sender: String,
    group_id: Option<Vec<u8>>,
    body: String,
    attachments: Vec<String>,
) -> (m: NormalizedMessage)
    ensures
        m.id@ == (ChatIdView { backend: Backend::Signal, native: received_native(sender@, group_id) }),
        m.ts_ms == ts,
        m.sender@ == sender@,
        m.sender_display is None,
        body@.len() == 0 ==> m.body is None,
        body@.len() != 0 ==> (m.body matches Some(b) && b@ == body@),
        m.attachments@.len() == attachments@.len(),
        forall|i: int|
            0 <= i < attachments@.len() ==> attachment_from_path(
                #[trigger] m.attachments@[i],
                attachments@[i]@,
            ),
        m.backend_extras == (BackendExtras::Signal { group_id }),
{
    let native = match &group_id {
        Some(gid) => hex_encode(gid.as_slice()),
        None => sender.clone(),
    };
    let mut atts: Vec<NormalizedAttachment> = Vec::new();
    let mut i: usize = 0;
    while i < attachments.len()
        invariant
            i <= attachments@.len(),
            atts@.len() == i,
            forall|k: int|
                0 <= k < i ==> attachment_from_path(#[trigger] atts@[k], attachments@[k]@),
        decreases attachments@.len() - i,
    {
        let path = &attachments[i];
        let a = NormalizedAttachment {
            mime_type: None,
            file_name: path_file_name_of(path.as_str()),
            local_path: Some(path.clone()),
            size: None,
        };
        atts.push(a);
        i = i + 1;
    }
    let body_opt = if body.as_str().is_empty() {
        None
    } else {
        Some(body)
    };
    NormalizedMessage {
        id: ChatId { backend: Backend::Signal, native },
        ts_ms: ts,
        sender,
        sender_display: None,
        body: body_opt,
        attachments: atts,
        backend_extras: BackendExtras::Signal { group_id },
    }
}

/// The account a Signal backend binds to: a non-empty configured value
/// verbatim, otherwise the first signed-in account, otherwise none.
pub open spec fn resolved_account(configured: Seq<char>, available: Seq<String>) -> Option<Seq<char>> {
    if configured.len() != 0 {
        Some(configured)
    } else if available.len() == 0 {
        None
    } else {
        Some(available[0]@)
    }
}

/// Resolve the account from `(configured, available)`:
/// a non-empty `configured` is used verbatim; otherwise the first of the
/// accounts signal-cli lists (the only one, in the common case); with
/// none listed there is no account.
pub fn resolve_account(configured: &str, available: &[String]) -> (r: Option<String>)
    ensures
        match resolved_account(configured@, available@) {
            Some(a) => r matches Some(s) && s@ == a,
            None => r is None,
        },
{
    if !configured.is_empty() {
        return Some(configured.to_owned());
    }
    if available.len() == 0 {
        None
    } else {
        Some(available[0].clone())
    }
}

/// The numbers signal-cli lists other than the account itself (chatting
/// with oneself is Note to Self, not a sidebar row), in order.
pub open spec fn peers_of(account: Seq<char>, numbers: Seq<String>) -> Seq<String>
    decreases numbers.len(),
{
    if numbers.len() == 0 {
        Seq::<String>::empty()
    } else if numbers.last()@ == account {
        peers_of(account, numbers.drop_last())
    } else {
        peers_of(account, numbers.drop_last()).push(numbers.last())
    }
}

pub fn peers(account: &str, numbers: &[String]) -> (r: Vec<String>)
    ensures
        r@.len() == peers_of(account@, numbers@).len(),
        forall|i: int| 0 <= i < r@.len() ==> #[trigger] r@[i]@ == peers_of(account@, numbers@)[i]@,
{
    let mut out: Vec<String> = Vec::new();
    let mut i: usize = 0;
    while i < numbers.len()
        invariant
            i <= numbers@.len(),
            out@.len() == peers_of(account@, numbers@.subrange(0, i as int)).len(),
            forall|k: int| 0 <= k < out@.len() ==> #[trigger] out@[k]@ == peers_of(account@, numbers@.subrange(0, i as int))[k]@,
        decreases numbers@.len() - i,
    {
        proof {
            assert(numbers@.subrange(0, i + 1).drop_last() =~= numbers@.subrange(0, i as int));
        }
        if !crate::text::str_eq(numbers[i].as_str(), account) {
            out.push(numbers[i].clone());
        }
        i = i + 1;
    }
    assert(numbers@.subrange(0, numbers@.len() as int) =~= numbers@);
    out
}

/// Sidebar row of a 1:1 contact: the number as id and title, with the
/// name signal-cli or the cache resolved.
pub fn contact_summary(number: &str, display_name: Option<String>) -> (s: ConversationSummary)
    ensures
        s.id@ == (ChatIdView { backend: Backend::Signal, native: number@ }),
        s.title@ == number@,
        s.display_name == display_name,
        s.last_message_ts is None,
        s.preview is None,
        s.unread == 0,
{
    ConversationSummary {
        id: ChatId::new(Backend::Signal, number),
        title: number.to_owned(),
        display_name,
        last_message_ts: None,
        preview: None,
        unread: 0,
    }
}

/// Sidebar row of a group: its id in lowercase hex as id and title, and
/// its name unless that is empty.
pub fn group_summary(group_id: &[u8], name: &str) -> (s: ConversationSummary)
    ensures
        s.id@ == (ChatIdView { backend: Backend::Signal, native: hex_seq(group_id@) }),
        s.title@ == hex_seq(group_id@),
        name@.len() == 0 ==> s.display_name is None,
        name@.len() != 0 ==> (s.display_name matches Some(n) && n@ == name@),
        s.last_message_ts is None,
        s.preview is None,
        s.unread == 0,
{
    let native = hex_encode(group_id);
    ConversationSummary {
        id: ChatId::new(Backend::Signal, native.as_str()),
        title: native,
        display_name: if name.is_empty() {
            None
        } else {
            Some(name.to_owned())
        },
        last_message_ts: None,
        preview: None,
        unread: 0,
    }
}

} // verus!
