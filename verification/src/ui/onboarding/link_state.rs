//! Deciding, from two account-list snapshots, whether device linking has
//! finished, and what the linker window shows for each step of the flow.
use vstd::prelude::*;
use crate::dbus::client::utf8_len;
use crate::error::Error;
use crate::text::{chars_of, push_str, string_of};
use crate::ui::onboarding::qr::{build_qr, qr_encoding, qr_failure_text, QrMatrix};
use crate::ui::onboarding::{byte_scan, head_cut, shorten_uri, tail_cut};

verus! {

/// Result of comparing two account-list snapshots.
#[derive(Debug, Clone, PartialEq, Eq)]
pub enum LinkOutcome {
    /// No new account has appeared yet: keep polling.
    Pending,
    /// A previously unknown account is now present.
    Linked(String),
}

/// Whether `a` is one of the accounts in `before`.
pub open spec fn known(before: Seq<String>, a: Seq<char>) -> bool {
    exists|j: int| 0 <= j < before.len() && before[j]@ == a
}

/// Index of the first account of `now` missing from `before`.
pub open spec fn first_new(before: Seq<String>, now: Seq<String>) -> Option<int>
    decreases now.len(),
{
    if now.len() == 0 {
        None
    } else if !known(before, now[0]@) {
        Some(0)
    } else {
        match first_new(before, now.drop_first()) {
            Some(i) => Some(i + 1),
            None => None,
        }
    }
}

fn is_known(before: &[String], a: &String) -> (b: bool)
    ensures
        b == known(before@, a@),
{
    let mut j: usize = 0;
    while j < before.len()
        invariant
            j <= before@.len(),
            forall|k: int| 0 <= k < j ==> before@[k]@ != a@,
        decreases before@.len() - j,
    {
        if before[j].eq(a) {
            return true;
        }
        j = j + 1;
    }
    false
}

/// Compare the accounts listed before linking with the ones listed now:
/// the first account of `now` that was not there before means the link
/// finished (accounts that disappeared are ignored).
pub fn detect_new_account(before: &[String], now: &[String]) -> (r: LinkOutcome)
    ensures
        match first_new(before@, now@) {
            Some(i) => r matches LinkOutcome::Linked(a) && a@ == now@[i]@,
            None => r is Pending,
        },
{
    let mut i: usize = 0;
    assert(now@.subrange(0, now@.len() as int) =~= now@);
    while i < now.len()
        invariant
            i <= now@.len(),
            first_new(before@, now@) == match first_new(
                before@,
                now@.subrange(i as int, now@.len() as int),
            ) {
                Some(k) => Some(k + i),
                None => None,
            },
        decreases now@.len() - i,
    {
        let ghost rest = now@.subrange(i as int, now@.len() as int);
        if !is_known(before, &now[i]) {
            assert(rest[0] == now@[i as int]);
            return LinkOutcome::Linked(now[i].clone());
        }
        assert(rest.drop_first() =~= now@.subrange(i + 1, now@.len() as int));
        i = i + 1;
    }
    LinkOutcome::Pending
}

/// What the link worker reports to the linker window.
#[derive(Debug, Clone, PartialEq, Eq)]
pub enum LinkEvent {
    /// signal-cli handed out the device-link URI.
    Uri(String),
    /// A new account appeared: linking finished.
    Linked(String),
    /// signal-cli already had an account (the least one is reported).
    AlreadyLinked(String),
    /// No account appeared before the deadline.
    TimedOut,
    Error(String),
}

/// Change to the QR canvas.
#[derive(Debug, Clone)]
pub enum QrUpdate {
    Keep,
    Clear,
    Show(QrMatrix),
}

/// Change to the copy-URI button.
#[derive(Debug, Clone, PartialEq, Eq)]
pub enum CopyButton {
    Keep,
    Hide,
    /// Show it, copying this URI.
    Show(String),
}

/// What the linker window does for one event. `status` is the new text
/// of the status line; `Err` carries a QR encoding failure, shown as
/// `Couldn't render QR: <error>`.
#[derive(Debug)]
pub struct LinkStep {
    pub qr: QrUpdate,
    /// New text under the QR code (`None`: unchanged).
    pub hint: Option<String>,
    /// New tooltip of that text (`None`: unchanged).
    pub tooltip: Option<String>,
    pub status: Result<String, Error>,
    pub copy: CopyButton,
    pub stop_spinner: bool,
    /// Re-enable the device-name entry and the generate button.
    pub unlock: bool,
    /// Close the window shortly.
    pub close_soon: bool,
    /// The flow is over: stop listening for events.
    pub finished: bool,
}

/// The URI hint can be cut where it is to be shortened (short URIs
/// always can; long ones need char boundaries after 40 bytes and before
/// the last 12).
pub open spec fn cuttable(s: Seq<char>) -> bool {
    utf8_len(s) <= 64 || ((exists|i: int| head_cut(s, i)) && (exists|j: int| tail_cut(s, j)))
}

pub fn uri_cuttable(uri: &str) -> (b: bool)
    ensures
        b == cuttable(uri@),
{
    let v = chars_of(uri);
    let (total, _, _) = byte_scan(v.as_slice(), 40, 0);
    if total <= 64 {
        return true;
    }
    let (_, ia, ib) = byte_scan(v.as_slice(), 40, total - 12);
    match (ia, ib) {
        (Some(i), Some(j)) => {
            assert(head_cut(uri@, i as int));
            assert(tail_cut(uri@, j as int));
            true
        },
        _ => false,
    }
}

fn concat(a: &str, b: &str, c: &str) -> (s: String)
    ensures
        s@ == a@ + b@ + c@,
{
    let mut v = chars_of(a);
    push_str(&mut v, b);
    push_str(&mut v, c);
    string_of(v.as_slice())
}

/// What the linker window does once the QR encoding of a link URI is
/// known: on success show the code, the shortened URI (the full one as
/// tooltip) and the copy button, and wait for the phone; on failure
/// clear the code, report the error and let the user try again. The URI
/// is only cut when the code could be drawn.
pub fn uri_step(uri: &str, qr: Result<QrMatrix, Error>) -> (st: LinkStep)
    requires
        qr is Ok ==> cuttable(uri@),
    ensures
        match qr {
            Ok(m) => {
                &&& st.qr matches QrUpdate::Show(q) && q.width == m.width && q.bits@ == m.bits@
                &&& st.hint matches Some(h) && (utf8_len(uri@) <= 64 ==> h@ == uri@) && (utf8_len(uri@)
                    > 64 ==> forall|i: int, j: int| head_cut(uri@, i) && tail_cut(uri@, j) ==> h@
                    == uri@.subrange(0, i) + seq!['…'] + uri@.subrange(j, uri@.len() as int))
                &&& st.tooltip matches Some(t) && t@ == uri@
                &&& st.status matches Ok(msg) && msg@ == "Waiting for your phone to confirm…"@
                &&& st.copy matches CopyButton::Show(c) && c@ == uri@
                &&& !st.stop_spinner && !st.unlock && !st.close_soon && !st.finished
            },
            Err(e) => {
                &&& st.qr is Clear && st.hint is None && st.tooltip is None
                &&& st.status matches Err(e2) && e2 == e
                &&& st.copy is Keep && st.stop_spinner && st.unlock && !st.close_soon && !st.finished
            },
        },
{
    match qr {
        Ok(m) => LinkStep {
            qr: QrUpdate::Show(m),
            hint: Some(shorten_uri(uri)),
            tooltip: Some(uri.to_owned()),
            status: Ok("Waiting for your phone to confirm…".to_owned()),
            copy: CopyButton::Show(uri.to_owned()),
            stop_spinner: false,
            unlock: false,
            close_soon: false,
            finished: false,
        },
        Err(e) => LinkStep {
            qr: QrUpdate::Clear,
            hint: None,
            tooltip: None,
            status: Err(e),
            copy: CopyButton::Keep,
            stop_spinner: true,
            unlock: true,
            close_soon: false,
            finished: false,
        },
    }
}

/// The link URI encodes as a QR code but cannot be shortened for the
/// hint (a long URI with a char across byte 40 or before its last 12
/// bytes): the one event the window cannot show.
pub open spec fn unshowable(ev: LinkEvent) -> bool {
    ev matches LinkEvent::Uri(u) && qr_encoding(vstd::utf8::encode_utf8(u@)) is Ok && !cuttable(u@)
}

/// Decide what the linker window does for an event of the link flow; a
/// URI is encoded as a QR code first. `None` exactly for an event that
/// cannot be shown ([`unshowable`]).
pub fn link_step(ev: &LinkEvent) -> (r: Option<LinkStep>)
    ensures
        r is None <==> unshowable(*ev),
        r matches Some(st) ==> match ev {
            LinkEvent::Uri(u) => match qr_encoding(vstd::utf8::encode_utf8(u@)) {
                Ok((w, bits)) => {
                    &&& st.qr matches QrUpdate::Show(q) && q.width == w && q.bits@ == bits
                    &&& st.hint matches Some(h) && (utf8_len(u@) <= 64 ==> h@ == u@) && (utf8_len(u@)
                        > 64 ==> forall|i: int, j: int| head_cut(u@, i) && tail_cut(u@, j) ==> h@
                        == u@.subrange(0, i) + seq!['…'] + u@.subrange(j, u@.len() as int))
                    &&& st.tooltip matches Some(t) && t@ == u@
                    &&& st.status matches Ok(m) && m@ == "Waiting for your phone to confirm…"@
                    &&& st.copy matches CopyButton::Show(c) && c@ == u@
                    &&& !st.stop_spinner && !st.unlock && !st.finished
                },
                Err(f) => {
                    &&& st.qr is Clear && st.hint is None && st.tooltip is None
                    &&& st.status matches Err(e) && e.msg() == "qr encode: "@ + qr_failure_text(f)
                    &&& st.copy is Keep && st.stop_spinner && st.unlock && !st.finished
                },
            },
            LinkEvent::Linked(a) => {
                &&& st.qr is Keep && st.hint is None && st.tooltip is None && st.copy is Keep
                &&& st.status matches Ok(m) && m@ == "Linked! Welcome, "@ + a@ + "."@
                &&& st.stop_spinner && !st.unlock && st.finished
            },
            LinkEvent::AlreadyLinked(a) => {
                &&& st.qr is Clear
                &&& st.hint matches Some(h) && h@.len() == 0
                &&& st.tooltip is None && st.copy is Hide
                &&& st.status matches Ok(m) && m@ == "Already linked as "@ + a@
                    + ". You're all set — close this window to use Kryptos."@
                &&& st.stop_spinner && st.unlock && st.finished
            },
            LinkEvent::TimedOut => {
                &&& st.qr is Keep && st.hint is None && st.tooltip is None && st.copy is Keep
                &&& st.status matches Ok(m) && m@
                    == "Timed out waiting for your phone. Try generating a new code."@
                &&& st.stop_spinner && st.unlock && st.finished
            },
            LinkEvent::Error(e) => {
                &&& st.qr is Keep && st.hint is None && st.tooltip is None && st.copy is Keep
                &&& st.status matches Ok(m) && m@ == "Couldn't link: "@ + e@
                &&& st.stop_spinner && st.unlock && st.finished
            },
        },
        r matches Some(st) ==> (ev is Linked <==> st.close_soon),
{
    let quiet = LinkStep {
        qr: QrUpdate::Keep,
        hint: None,
        tooltip: None,
        status: Ok(String::new()),
        copy: CopyButton::Keep,
        stop_spinner: true,
        unlock: true,
        close_soon: false,
        finished: true,
    };
    match ev {
        LinkEvent::Uri(u) => {
            let qr = build_qr(u.as_str());
            if qr.is_ok() && !uri_cuttable(u.as_str()) {
                return None;
            }
            Some(uri_step(u.as_str(), qr))
        },
        LinkEvent::Linked(a) => Some(
            LinkStep {
                status: Ok(concat("Linked! Welcome, ", a.as_str(), ".")),
                unlock: false,
                close_soon: true,
                ..quiet
            },
        ),
        LinkEvent::AlreadyLinked(a) => Some(
            LinkStep {
                qr: QrUpdate::Clear,
                hint: Some(String::new()),
                copy: CopyButton::Hide,
                status: Ok(
                    concat(
                        "Already linked as ",
                        a.as_str(),
                        ". You're all set — close this window to use Kryptos.",
                    ),
                ),
                ..quiet
            },
        ),
        LinkEvent::TimedOut => Some(
            LinkStep {
                status: Ok("Timed out waiting for your phone. Try generating a new code.".to_owned()),
                ..quiet
            },
        ),
        LinkEvent::Error(e) => {
            let mut v = chars_of("Couldn't link: ");
            push_str(&mut v, e.as_str());
            Some(LinkStep { status: Ok(string_of(v.as_slice())), ..quiet })
        },
    }
}

} // verus!
