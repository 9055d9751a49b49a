//! Pointer positions and the movement metric.

use vstd::prelude::*;

verus! {

/// A pointer position in screen coordinates: the payload of every published
/// event.
#[derive(Clone, Copy, Debug, PartialEq, Eq, Structural)]
pub struct MousePos {
    pub x: i32,
    pub y: i32,
}

/// Absolute difference of two mathematical integers.
pub open spec fn abs_diff(a: int, b: int) -> int {
    if a >= b {
        a - b
    } else {
        b - a
    }
}

/// L1 (Manhattan) distance between two positions: the movement metric.
pub open spec fn l1_dist(a: MousePos, b: MousePos) -> int {
    abs_diff(a.x as int, b.x as int) + abs_diff(a.y as int, b.y as int)
}

/// Whether `cur` counts as enough movement to qualify for publishing:
/// always true while nothing has been published this session, otherwise
/// true iff the L1 distance from the last published position reaches
/// `min_move`.
pub open spec fn spec_moved_enough(last_sent: Option<MousePos>, cur: MousePos, min_move: i32) -> bool {
    match last_sent {
        Some(p) => l1_dist(p, cur) >= min_move,
        None => true,
    }
}

/// Decide whether `cur` has moved at least `min_move` away (in L1 distance)
/// from the last published position, if any.
pub fn moved_enough(last_sent: Option<MousePos>, cur: MousePos, min_move: i32) -> (r: bool)
    ensures
        r == spec_moved_enough(last_sent, cur, min_move),
{
    match last_sent {
        Some(p) => {
            let dx: i64 = (cur.x as i64) - (p.x as i64);
            let dy: i64 = (cur.y as i64) - (p.y as i64);
            let adx: i64 = if dx >= 0 { dx } else { -dx };
            let ady: i64 = if dy >= 0 { dy } else { -dy };
            adx + ady >= (min_move as i64)
        },
        None => true,
    }
}

} // verus!
