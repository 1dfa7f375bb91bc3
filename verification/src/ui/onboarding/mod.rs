//! Pure steps of the first-run onboarding flow: backend status from
//! probe results, the device name offered for linking, and the QR
//! matrix of the link URI.
pub mod link_state;
pub mod qr;
pub mod telegram_login;

use vstd::prelude::*;
use crate::text::{chars_of, lemma_str_lt_total, lemma_str_lt_trans, push_str, str_lt, string_of, trim};
use crate::dbus::client::{utf8_len, utf8_width};

verus! {

/// Probe result for one messenger backend.
#[derive(Debug, Clone, PartialEq, Eq)]
pub enum BackendStatus {
    /// Reachable, with an account.
    Linked { account: String },
    /// Reachable but no account / credentials set but no session yet.
    NotLinked,
    /// Not configured at all.
    NotConfigured,
    /// The probe could not reach the backend.
    Unknown(String),
}

/// Display label of a backend tag.
pub open spec fn backend_label_of(tag: Seq<char>) -> Seq<char> {
    if tag == "signal"@ {
        "Signal"@
    } else if tag == "telegram"@ {
        "Telegram"@
    } else {
        "this backend"@
    }
}

pub fn backend_label(tag: &str) -> (s: &'static str)
    ensures
        s@ == backend_label_of(tag@),
{
    if crate::text::str_eq(tag, "signal") {
        "Signal"
    } else if crate::text::str_eq(tag, "telegram") {
        "Telegram"
    } else {
        "this backend"
    }
}

/// Subtitle of a backend's row in the backends panel.
pub open spec fn status_subtitle_of(tag: Seq<char>, s: BackendStatus) -> Seq<char> {
    match s {
        BackendStatus::Linked { account } => "Connected as "@ + account@,
        BackendStatus::Unknown(reason) => "Status unknown — "@ + reason@,
        _ => if tag == "signal"@ {
            "Not linked yet — pair Kryptos with your phone."@
        } else if tag == "telegram"@ && s is NotConfigured {
            "Not set up yet — needs api_id / api_hash from my.telegram.org."@
        } else if tag == "telegram"@ {
            "Credentials stored, but the session needs a sign-in."@
        } else {
            "Not configured yet."@
        },
    }
}

pub fn status_subtitle(tag: &str, s: &BackendStatus) -> (r: String)
    ensures
        r@ == status_subtitle_of(tag@, *s),
{
    match s {
        BackendStatus::Linked { account } => {
            let mut v = chars_of("Connected as ");
            push_str(&mut v, account.as_str());
            string_of(v.as_slice())
        },
        BackendStatus::Unknown(reason) => {
            let mut v = chars_of("Status unknown — ");
            push_str(&mut v, reason.as_str());
            string_of(v.as_slice())
        },
        _ => {
            if crate::text::str_eq(tag, "signal") {
                "Not linked yet — pair Kryptos with your phone.".to_owned()
            } else if crate::text::str_eq(tag, "telegram") {
                match s {
                    BackendStatus::NotConfigured => "Not set up yet — needs api_id / api_hash from my.telegram.org.".to_owned(),
                    _ => "Credentials stored, but the session needs a sign-in.".to_owned(),
                }
            } else {
                "Not configured yet.".to_owned()
            }
        },
    }
}

fn chars_lt(a: &[char], b: &[char]) -> (r: bool)
    ensures
        r == str_lt(a@, b@),
{
    let mut i: usize = 0;
    assert(a@.subrange(0, a@.len() as int) =~= a@);
    assert(b@.subrange(0, b@.len() as int) =~= b@);
    while i < a.len() && i < b.len()
        invariant
            i <= a@.len(),
            i <= b@.len(),
            forall|k: int| 0 <= k < i ==> a@[k] == b@[k],
            str_lt(a@, b@) == str_lt(a@.subrange(i as int, a@.len() as int), b@.subrange(
                i as int,
                b@.len() as int,
            )),
        decreases a@.len() - i,
    {
        let ghost sa = a@.subrange(i as int, a@.len() as int);
        let ghost sb = b@.subrange(i as int, b@.len() as int);
        if a[i] != b[i] {
            assert(sa[0] == a@[i as int] && sb[0] == b@[i as int]);
            return a[i] < b[i];
        }
        assert(sa.drop_first() =~= a@.subrange(i + 1, a@.len() as int));
        assert(sb.drop_first() =~= b@.subrange(i + 1, b@.len() as int));
        i = i + 1;
    }
    i == a.len() && i < b.len()
}

/// The least of the listed accounts (what sorting and taking the first
/// gives), if any.
pub fn first_sorted(list: &[String]) -> (r: Option<String>)
    ensures
        list@.len() == 0 ==> r is None,
        list@.len() > 0 ==> (r matches Some(m) && (exists|i: int| 0 <= i < list@.len() && list@[i]@ == m@)
            && forall|i: int| 0 <= i < list@.len() ==> !str_lt(#[trigger] list@[i]@, m@)),
{
    if list.len() == 0 {
        return None;
    }
    let mut best: usize = 0;
    let mut i: usize = 1;
    proof {
        lemma_str_lt_total(list@[0]@, list@[0]@);
    }
    while i < list.len()
        invariant
            list@.len() > 0,
            best < list@.len(),
            1 <= i <= list@.len(),
            forall|k: int| 0 <= k < i ==> !str_lt(#[trigger] list@[k]@, list@[best as int]@),
        decreases list@.len() - i,
    {
        let bv = chars_of(list[best].as_str());
        let cv = chars_of(list[i].as_str());
        if chars_lt(cv.as_slice(), bv.as_slice()) {
            proof {
                let nb = list@[i as int]@;
                let ob = list@[best as int]@;
                assert forall|k: int| 0 <= k < i + 1 implies !str_lt(#[trigger] list@[k]@, nb) by {
                    if k < i {
                        lemma_str_lt_total(list@[k]@, ob);
                        if str_lt(list@[k]@, nb) {
                            lemma_str_lt_trans(list@[k]@, nb, ob);
                        }
                    } else {
                        lemma_str_lt_total(nb, nb);
                    }
                }
            }
            best = i;
        }
        i = i + 1;
    }
    Some(list[best].clone())
}

/// Status of Signal from the accounts signal-cli lists: the least one
/// when there is any.
pub fn signal_status(accounts: &[String]) -> (s: BackendStatus)
    ensures
        accounts@.len() == 0 ==> s is NotLinked,
        accounts@.len() > 0 ==> (s matches BackendStatus::Linked { account } && (exists|i: int|
            0 <= i < accounts@.len() && accounts@[i]@ == account@) && forall|i: int|
            0 <= i < accounts@.len() ==> !str_lt(#[trigger] accounts@[i]@, account@)),
{
    match first_sorted(accounts) {
        Some(a) => BackendStatus::Linked { account: a },
        None => BackendStatus::NotLinked,
    }
}

/// Status of Telegram from its configured credentials and whether a
/// session file exists.
pub fn telegram_status(api_id: i32, api_hash: &str, session_exists: bool) -> (s: BackendStatus)
    ensures
        (api_id == 0 || api_hash@.len() == 0) ==> s is NotConfigured,
        !(api_id == 0 || api_hash@.len() == 0) && !session_exists ==> s is NotLinked,
        !(api_id == 0 || api_hash@.len() == 0) && session_exists ==> (s matches BackendStatus::Linked {
            account,
        } && account@ == "your account"@),
{
    if api_id == 0 || api_hash.is_empty() {
        return BackendStatus::NotConfigured;
    }
    if !session_exists {
        return BackendStatus::NotLinked;
    }
    BackendStatus::Linked { account: "your account".to_owned() }
}

/// Chars kept in a device name taken from the host name.
pub open spec fn host_char(c: char) -> bool {
    ('a' <= c && c <= 'z') || ('A' <= c && c <= 'Z') || ('0' <= c && c <= '9') || c == '-' || c
        == '_'
}

/// The kept chars of `s`, in order.
pub open spec fn host_chars(s: Seq<char>) -> Seq<char>
    decreases s.len(),
{
    if s.len() == 0 {
        Seq::<char>::empty()
    } else if host_char(s.last()) {
        host_chars(s.drop_last()).push(s.last())
    } else {
        host_chars(s.drop_last())
    }
}

/// The first `n` elements (all of them when there are fewer).
pub open spec fn take_at_most(s: Seq<char>, n: nat) -> Seq<char> {
    if s.len() <= n {
        s
    } else {
        s.subrange(0, n as int)
    }
}

/// Host name cleaned for a device name: ASCII letters, digits, `-` and
/// `_` only, at most 32 of them (signal-cli caps names at 50 chars).
pub fn sanitize_hostname(raw: &str) -> (s: String)
    ensures
        s@ == take_at_most(host_chars(raw@), 32),
{
    let v = chars_of(raw);
    let mut out: Vec<char> = Vec::new();
    let mut i: usize = 0;
    while i < v.len()
        invariant
            i <= v@.len(),
            out@ == host_chars(v@.subrange(0, i as int)),
        decreases v@.len() - i,
    {
        proof {
            assert(v@.subrange(0, i + 1).drop_last() =~= v@.subrange(0, i as int));
        }
        let c = v[i];
        if ('a' <= c && c <= 'z') || ('A' <= c && c <= 'Z') || ('0' <= c && c <= '9') || c == '-'
            || c == '_' {
            out.push(c);
        }
        i = i + 1;
    }
    assert(v@.subrange(0, v@.len() as int) =~= v@);
    if out.len() <= 32 {
        string_of(out.as_slice())
    } else {
        let head = crate::text::slice_chars(out.as_slice(), 0, 32);
        string_of(head.as_slice())
    }
}

/// A host name read from the environment or `/etc/hostname`: none when
/// blank, otherwise cleaned.
pub fn hostname_from(raw: &str) -> (r: Option<String>)
    ensures
        trim(raw@).len() == 0 ==> r is None,
        trim(raw@).len() != 0 ==> (r matches Some(h) && h@ == take_at_most(host_chars(raw@), 32)),
{
    let v = chars_of(raw);
    let t = crate::text::trim_chars(v.as_slice());
    if t.len() == 0 {
        None
    } else {
        Some(sanitize_hostname(raw))
    }
}

/// Device name offered for linking: `kryptos-` and the host name, or
/// `kryptos-linux` without one.
pub fn default_device_name(host: Option<&str>) -> (s: String)
    ensures
        s@ == "kryptos-"@ + match host {
            Some(h) => h@,
            None => "linux"@,
        },
{
    let mut v = chars_of("kryptos-");
    match host {
        Some(h) => push_str(&mut v, h),
        None => push_str(&mut v, "linux"),
    }
    string_of(v.as_slice())
}

/// `i` is a char index of `s` at which its UTF-8 encoding has exactly `n`
/// bytes behind it (a char boundary at byte `n`).
pub open spec fn byte_boundary(s: Seq<char>, i: int, n: int) -> bool {
    0 <= i <= s.len() && utf8_len(s.subrange(0, i)) == n
}

proof fn lemma_prefix_step(s: Seq<char>, k: int)
    requires
        0 <= k < s.len(),
    ensures
        utf8_len(s.subrange(0, k + 1)) == utf8_len(s.subrange(0, k)) + utf8_width(s[k]),
{
    assert(s.subrange(0, k + 1).drop_last() =~= s.subrange(0, k));
}

/// Longer prefixes have longer encodings, so a byte offset falls on at
/// most one char boundary.
proof fn lemma_prefix_strict(s: Seq<char>, i: int, j: int)
    requires
        0 <= i < j <= s.len(),
    ensures
        utf8_len(s.subrange(0, i)) < utf8_len(s.subrange(0, j)),
    decreases j - i,
{
    lemma_prefix_step(s, j - 1);
    if i < j - 1 {
        lemma_prefix_strict(s, i, j - 1);
    }
}

proof fn lemma_boundary_unique(s: Seq<char>, i: int, j: int, n: int)
    requires
        byte_boundary(s, i, n),
        byte_boundary(s, j, n),
    ensures
        i == j,
{
    if i < j {
        lemma_prefix_strict(s, i, j);
    } else if j < i {
        lemma_prefix_strict(s, j, i);
    }
}

/// Bytes in the UTF-8 encoding of the buffer, and the char indices (if
/// any) at which `a` and `b` bytes precede.
pub(crate) fn byte_scan(v: &[char], a: u128, b: u128) -> (r: (u128, Option<usize>, Option<usize>))
    ensures
        r.0 == utf8_len(v@),
        r.1 matches Some(i) ==> byte_boundary(v@, i as int, a as int),
        r.1 is None ==> forall|i: int| !byte_boundary(v@, i, a as int),
        r.2 matches Some(j) ==> byte_boundary(v@, j as int, b as int),
        r.2 is None ==> forall|j: int| !byte_boundary(v@, j, b as int),
{
    let mut acc: u128 = 0;
    let mut ia: Option<usize> = None;
    let mut ib: Option<usize> = None;
    let mut k: usize = 0;
    while k < v.len()
        invariant
            k <= v@.len(),
            acc == utf8_len(v@.subrange(0, k as int)),
            acc <= 4 * k,
            ia matches Some(i) ==> i < k && byte_boundary(v@, i as int, a as int),
            ia is None ==> forall|i: int| 0 <= i < k ==> !byte_boundary(v@, i, a as int),
            ib matches Some(j) ==> j < k && byte_boundary(v@, j as int, b as int),
            ib is None ==> forall|j: int| 0 <= j < k ==> !byte_boundary(v@, j, b as int),
        decreases v@.len() - k,
    {
        if ia.is_none() && acc == a {
            ia = Some(k);
        }
        if ib.is_none() && acc == b {
            ib = Some(k);
        }
        proof {
            lemma_prefix_step(v@, k as int);
        }
        let c = v[k];
        let u = c as u32;
        let w: u128 = if u < 0x80 {
            1
        } else if u < 0x800 {
            2
        } else if u < 0x10000 {
            3
        } else {
            4
        };
        acc = acc + w;
        k = k + 1;
    }
    assert(v@.subrange(0, v@.len() as int) =~= v@);
    if ia.is_none() && acc == a {
        ia = Some(k);
    }
    if ib.is_none() && acc == b {
        ib = Some(k);
    }
    (acc, ia, ib)
}

/// The char index after the first 40 bytes of `s`.
pub open spec fn head_cut(s: Seq<char>, i: int) -> bool {
    byte_boundary(s, i, 40)
}

/// The char index before the last 12 bytes of `s`.
pub open spec fn tail_cut(s: Seq<char>, j: int) -> bool {
    byte_boundary(s, j, utf8_len(s) - 12)
}

/// The link URI as shown under the QR code: whole when its encoding is at
/// most 64 bytes, otherwise its first 40 bytes, `…` and its last 12 bytes.
/// (Byte offsets that split a char are left out: the cut is made there.)
pub fn shorten_uri(uri: &str) -> (r: String)
    requires
        utf8_len(uri@) > 64 ==> exists|i: int| head_cut(uri@, i),
        utf8_len(uri@) > 64 ==> exists|j: int| tail_cut(uri@, j),
    ensures
        utf8_len(uri@) <= 64 ==> r@ == uri@,
        utf8_len(uri@) > 64 ==> forall|i: int, j: int|
            head_cut(uri@, i) && tail_cut(uri@, j) ==> r@ == uri@.subrange(0, i) + seq!['…']
                + uri@.subrange(j, uri@.len() as int),
{
    let v = chars_of(uri);
    let (total, _, _) = byte_scan(v.as_slice(), 40, 0);
    if total <= 64 {
        return string_of(v.as_slice());
    }
    let (_, ia, ib) = byte_scan(v.as_slice(), 40, total - 12);
    let (i, j) = match (ia, ib) {
        (Some(i), Some(j)) => (i, j),
        _ => {
            proof {
                let wi = choose|i: int| head_cut(uri@, i);
                let wj = choose|j: int| tail_cut(uri@, j);
                assert(byte_boundary(v@, wi, 40));
                assert(byte_boundary(v@, wj, total - 12));
            }
            return string_of(v.as_slice());
        },
    };
    let mut out = crate::text::slice_chars(v.as_slice(), 0, i);
    out.push('…');
    let tail = crate::text::slice_chars(v.as_slice(), j, v.len());
    crate::text::push_all(&mut out, tail.as_slice());
    proof {
        assert forall|i2: int, j2: int|
            head_cut(uri@, i2) && tail_cut(uri@, j2) implies out@
                == uri@.subrange(0, i2) + seq!['…'] + uri@.subrange(j2, uri@.len() as int) by {
            lemma_boundary_unique(uri@, i2, i as int, 40);
            lemma_boundary_unique(uri@, j2, j as int, utf8_len(uri@) - 12);
        }
    }
    string_of(out.as_slice())
}

} // verus!
