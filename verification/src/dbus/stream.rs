//! Events derived from signal-cli's per-account D-Bus signals.
use vstd::prelude::*;

verus! {

/// A normalized event derived from a signal-cli D-Bus signal.
#[derive(Debug, Clone, PartialEq, Eq)]
pub enum Event {
    MessageReceived {
        ts: i64,
        sender: String,
        group_id: Option<Vec<u8>>,
        body: String,
        attachments: Vec<String>,
    },
}

/// signal-cli emits an empty group id to mean "1:1 message, not a
/// group"; that becomes `None`, any other id is kept as is.
pub fn normalize_group_id(id: Vec<u8>) -> (r: Option<Vec<u8>>)
    ensures
        id@.len() == 0 ==> r is None,
        id@.len() != 0 ==> r == Some(id),
{
    if id.len() == 0 {
        None
    } else {
        Some(id)
    }
}

} // verus!
