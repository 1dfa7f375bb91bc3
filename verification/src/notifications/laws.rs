//! Properties of unread badges and notification gating that span
//! several operations.
use vstd::prelude::*;
use crate::assoc::get_or;
use crate::config::schema::Notifications as NotificationConfig;
use super::badges::{lemma_map_sum_remove, map_sum, sat_inc};
use super::{may_notify, truncated};

verus! {

/// Clearing a conversation zeroes its counter and leaves every other
/// conversation's counter as it was.
pub proof fn law_clear_only_target(m: Map<Seq<char>, u32>, conv: Seq<char>, other: Seq<char>)
    ensures
        get_or(m.remove(conv), conv, 0u32) == 0,
        other != conv ==> get_or(m.remove(conv), other, 0u32) == get_or(m, other, 0u32),
{
}

/// Incrementing adds one to the counter, saturating at `u32::MAX`, and
/// touches no other conversation.
pub proof fn law_increment_saturates(m: Map<Seq<char>, u32>, conv: Seq<char>, other: Seq<char>)
    ensures
        get_or(m.insert(conv, sat_inc(get_or(m, conv, 0u32))), conv, 0u32) == if get_or(
            m,
            conv,
            0u32,
        ) == u32::MAX {
            u32::MAX as int
        } else {
            get_or(m, conv, 0u32) + 1
        },
        other != conv ==> get_or(m.insert(conv, sat_inc(get_or(m, conv, 0u32))), other, 0u32)
            == get_or(m, other, 0u32),
{
}

/// Below saturation, an increment grows the sum of all counters by one.
pub proof fn law_increment_grows_sum(m: Map<Seq<char>, u32>, conv: Seq<char>)
    requires
        m.dom().finite(),
        get_or(m, conv, 0u32) < u32::MAX,
    ensures
        map_sum(m.insert(conv, sat_inc(get_or(m, conv, 0u32)))) == map_sum(m) + 1,
{
    let n = m.insert(conv, sat_inc(get_or(m, conv, 0u32)));
    lemma_map_sum_remove(n, conv);
    if m.dom().contains(conv) {
        lemma_map_sum_remove(m, conv);
        assert(n.remove(conv) =~= m.remove(conv));
    } else {
        assert(n.remove(conv) =~= m);
    }
}

/// Clearing a conversation takes exactly its counter off the sum.
pub proof fn law_clear_shrinks_sum(m: Map<Seq<char>, u32>, conv: Seq<char>)
    requires
        m.dom().finite(),
    ensures
        map_sum(m.remove(conv)) + get_or(m, conv, 0u32) == map_sum(m),
{
    if m.dom().contains(conv) {
        lemma_map_sum_remove(m, conv);
    } else {
        assert(m.remove(conv) =~= m);
    }
}

/// With notifications and per-chat DND on, silencing a conversation
/// until `until` blocks it exactly before `until` (the end is
/// exclusive).
pub proof fn law_dnd_until_is_exclusive(
    cfg: NotificationConfig,
    dnd: Map<Seq<char>, i64>,
    conv: Seq<char>,
    until: i64,
    now: i64,
)
    requires
        cfg.enabled,
        cfg.dnd_per_chat,
    ensures
        may_notify(cfg, dnd.insert(conv, until), conv, now) == (now >= until),
{
}

/// Silencing one conversation never affects another.
pub proof fn law_dnd_is_per_conversation(
    cfg: NotificationConfig,
    dnd: Map<Seq<char>, i64>,
    conv: Seq<char>,
    other: Seq<char>,
    until: i64,
    now: i64,
)
    requires
        conv != other,
    ensures
        may_notify(cfg, dnd.insert(conv, until), other, now) == may_notify(cfg, dnd, other, now),
        may_notify(cfg, dnd.remove(conv), other, now) == may_notify(cfg, dnd, other, now),
{
}

/// Lifting a conversation's DND leaves only the global switch deciding.
pub proof fn law_clear_dnd_restores(cfg: NotificationConfig, dnd: Map<Seq<char>, i64>, conv: Seq<char>, now: i64)
    ensures
        may_notify(cfg, dnd.remove(conv), conv, now) == cfg.enabled,
{
}

/// Without notifications enabled nothing is ever posted, whatever the
/// DND state.
pub proof fn law_disabled_never_notifies(cfg: NotificationConfig, dnd: Map<Seq<char>, i64>, conv: Seq<char>, now: i64)
    requires
        !cfg.enabled,
    ensures
        !may_notify(cfg, dnd, conv, now),
{
}

/// A preview is at most `max` chars plus the ellipsis, starts with the
/// original text, and is the original whenever that fits.
pub proof fn law_preview_bounds(s: Seq<char>, max: nat)
    ensures
        truncated(s, max).len() <= max + 1,
        s.len() <= max ==> truncated(s, max) == s,
        truncated(s, max).subrange(0, if s.len() <= max { s.len() as int } else { max as int })
            == s.subrange(0, if s.len() <= max { s.len() as int } else { max as int }),
{
    if s.len() > max {
        let t = truncated(s, max);
        assert(t.len() == max + 1);
        assert(t.subrange(0, max as int) =~= s.subrange(0, max as int));
    } else {
        assert(s.subrange(0, s.len() as int) =~= s);
    }
}

} // verus!
