//! Monitor resolution and the global-to-window-local coordinate transform.
//!
//! Monitors are given by their logical bounds (physical bounds divided by
//! the scale factor, a conversion the platform layer performs). The element
//! keeps its global rectangle for the capture path while `(x, y)` become
//! local to the overlay window for the rendering path.

use vstd::prelude::*;
use crate::geometry::{coord_in_range, Rect};
use crate::query::UIElementInfo;

verus! {

/// Selects the first monitor whose logical bounds contain the point, under
/// the same half-open rule as element containment. Returns its index, or
/// none when no monitor contains the point (the transform is then left
/// unapplied by the caller).
pub fn find_monitor_for_element(monitors: &Vec<Rect>, gx: i64, gy: i64) -> (r: Option<usize>)
    requires
        forall|i: int| 0 <= i < monitors@.len() ==> (#[trigger] monitors@[i]).wf(),
        coord_in_range(gx as int),
        coord_in_range(gy as int),
    ensures
        match r {
            Option::Some(i) => i < monitors@.len() && monitors@[i as int].spec_contains(
                gx as int,
                gy as int,
            ) && (forall|j: int|
                0 <= j < i ==> !(#[trigger] monitors@[j]).spec_contains(gx as int, gy as int)),
            Option::None => forall|j: int|
                0 <= j < monitors@.len() ==> !(#[trigger] monitors@[j]).spec_contains(
                    gx as int,
                    gy as int,
                ),
        },
{
    let mut i: usize = 0;
    while i < monitors.len()
        invariant
            i <= monitors@.len(),
            forall|k: int| 0 <= k < monitors@.len() ==> (#[trigger] monitors@[k]).wf(),
            coord_in_range(gx as int),
            coord_in_range(gy as int),
            forall|j: int| 0 <= j < i ==> !(#[trigger] monitors@[j]).spec_contains(
                gx as int,
                gy as int,
            ),
        decreases monitors@.len() - i,
    {
        if monitors[i].contains_point(gx, gy) {
            return Option::Some(i);
        }
        i = i + 1;
    }
    Option::None
}

/// Whether the overlay must be moved: it must whenever no monitor is being
/// tracked yet, or the tracked monitor position differs from the target.
pub fn needs_reposition(current: Option<(i64, i64)>, target_x: i64, target_y: i64) -> (r: bool)
    ensures
        r == match current {
            Option::None => true,
            Option::Some(p) => !(p.0 == target_x && p.1 == target_y),
        },
{
    match current {
        Option::None => true,
        Option::Some((cx, cy)) => cx != target_x || cy != target_y,
    }
}

/// A window-local coordinate: the global coordinate less the window's
/// logical position.
pub open spec fn spec_local_coord(global: int, window: int) -> int {
    global - window
}

/// Recomputes `(x, y)` as coordinates local to a window at the given logical
/// position. The global rectangle and everything else stay untouched.
pub fn to_window_local(info: &mut UIElementInfo, win_x: i64, win_y: i64)
    requires
        old(info).wf(),
        coord_in_range(win_x as int),
        coord_in_range(win_y as int),
    ensures
        final(info).x == spec_local_coord(old(info).global_x as int, win_x as int),
        final(info).y == spec_local_coord(old(info).global_y as int, win_y as int),
        final(info).width == old(info).width,
        final(info).height == old(info).height,
        final(info).global_x == old(info).global_x,
        final(info).global_y == old(info).global_y,
        final(info).window_id == old(info).window_id,
        final(info).role == old(info).role,
        final(info).wf(),
{
    info.x = info.global_x - win_x;
    info.y = info.global_y - win_y;
}

/// Coordinate transform round trip: re-adding the window's logical position
/// to a local coordinate reproduces the global coordinate exactly.
pub proof fn lemma_local_global_round_trip(global: int, local: int, window: int)
    requires
        local == spec_local_coord(global, window),
    ensures
        local + window == global,
{
}

} // verus!
