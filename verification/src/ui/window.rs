//! Sidebar navigation arithmetic and message authorship.
use vstd::prelude::*;
use crate::text::str_eq;

verus! {

/// Row to select after moving `delta` rows from the selected one (the
/// first row when none is selected), clamped to the list; `None` for an
/// empty list.
pub open spec fn sidebar_target_of(current: Option<i32>, count: i32, delta: i32) -> Option<i32> {
    if count <= 0 {
        None
    } else {
        let cur: int = match current {
            Some(c) => c as int,
            None => 0,
        };
        let next = cur + delta;
        Some(
            if next < 0 {
                0
            } else if next >= count {
                (count - 1) as i32
            } else {
                next as i32
            },
        )
    }
}

pub fn sidebar_target(current: Option<i32>, count: i32, delta: i32) -> (r: Option<i32>)
    requires
        i32::MIN <= (match current {
            Some(c) => c as int,
            None => 0,
        }) + delta <= i32::MAX,
    ensures
        r == sidebar_target_of(current, count, delta),
{
    if count <= 0 {
        return None;
    }
    let cur = match current {
        Some(c) => c,
        None => 0,
    };
    let mut next = cur + delta;
    if next < 0 {
        next = 0;
    }
    if next >= count {
        next = count - 1;
    }
    Some(next)
}

/// A message is drawn as one's own when its sender is the account of its
/// backend, or the `me` placeholder used while that account is unknown.
pub fn is_mine(sender: &str, own: Option<&str>) -> (b: bool)
    ensures
        b == (sender@ == "me"@ || (own matches Some(o) && o@ == sender@)),
{
    if str_eq(sender, "me") {
        return true;
    }
    match own {
        Some(o) => str_eq(o, sender),
        None => false,
    }
}

} // verus!
