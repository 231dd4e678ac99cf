//! Reduction of raw per-frame device events to an input intent.
//!
//! The surrounding platform drains its event queues once per frame and
//! hands the raw lists here; nothing is carried over to the next frame.

use vstd::prelude::*;

verus! {

/// Largest magnitude a single pointer or scroll delta may take
/// (fixed-point: a million pixels or lines).
pub const EVENT_DELTA_LIMIT: i64 = 1_000_000;

/// Largest number of device events accepted in one frame.
pub const EVENT_COUNT_LIMIT: usize = 1000;

/// One pointer-motion event: a device delta in fixed-point pixels.
#[derive(Clone, Copy, Debug, PartialEq, Eq, Structural)]
pub struct MotionDelta {
    pub dx: i64,
    pub dy: i64,
}

/// What one frame of raw input amounts to: summed pointer motion, summed
/// scroll, and the two discrete key edges. Built fresh each frame and
/// discarded after consumption.
#[derive(Clone, Copy, Debug, PartialEq, Eq, Structural)]
pub struct InputIntent {
    pub motion_x: i64,
    pub motion_y: i64,
    pub scroll: i64,
    pub reset: bool,
    pub toggle_pointer: bool,
}

/// Sum of the horizontal deltas of a motion sequence.
pub open spec fn sum_dx_spec(s: Seq<MotionDelta>) -> int
    decreases s.len(),
{
    if s.len() == 0 {
        0
    } else {
        sum_dx_spec(s.drop_last()) + s.last().dx
    }
}

/// Sum of the vertical deltas of a motion sequence.
pub open spec fn sum_dy_spec(s: Seq<MotionDelta>) -> int
    decreases s.len(),
{
    if s.len() == 0 {
        0
    } else {
        sum_dy_spec(s.drop_last()) + s.last().dy
    }
}

/// Sum of a scroll sequence.
pub open spec fn sum_scroll_spec(s: Seq<i64>) -> int
    decreases s.len(),
{
    if s.len() == 0 {
        0
    } else {
        sum_scroll_spec(s.drop_last()) + s.last()
    }
}

/// Every event of the frame within the per-event magnitude limit.
pub open spec fn motions_bounded(s: Seq<MotionDelta>) -> bool {
    forall|i: int|
        0 <= i < s.len() ==> -EVENT_DELTA_LIMIT <= #[trigger] s[i].dx <= EVENT_DELTA_LIMIT
            && -EVENT_DELTA_LIMIT <= s[i].dy <= EVENT_DELTA_LIMIT
}

/// Every scroll delta of the frame within the per-event magnitude limit.
pub open spec fn scrolls_bounded(s: Seq<i64>) -> bool {
    forall|i: int| 0 <= i < s.len() ==> -EVENT_DELTA_LIMIT <= #[trigger] s[i] <= EVENT_DELTA_LIMIT
}

/// Reduce the frame's raw events to an intent: pointer deltas and scroll
/// deltas are summed, the discrete key edges are passed through.
pub fn gather_intent(
    motions: &Vec<MotionDelta>,
    scrolls: &Vec<i64>,
    reset_pressed: bool,
    toggle_pressed: bool,
) -> (intent: InputIntent)
    requires
        motions@.len() <= EVENT_COUNT_LIMIT,
        scrolls@.len() <= EVENT_COUNT_LIMIT,
        motions_bounded(motions@),
        scrolls_bounded(scrolls@),
    ensures
        intent.motion_x == sum_dx_spec(motions@),
        intent.motion_y == sum_dy_spec(motions@),
        intent.scroll == sum_scroll_spec(scrolls@),
        intent.reset == reset_pressed,
        intent.toggle_pointer == toggle_pressed,
{
    let mut motion_x: i64 = 0;
    let mut motion_y: i64 = 0;
    let mut i: usize = 0;
    while i < motions.len()
        invariant
            i <= motions@.len() <= EVENT_COUNT_LIMIT,
            motions_bounded(motions@),
            motion_x == sum_dx_spec(motions@.take(i as int)),
            motion_y == sum_dy_spec(motions@.take(i as int)),
            -(i * 1_000_000) <= motion_x <= i * 1_000_000,
            -(i * 1_000_000) <= motion_y <= i * 1_000_000,
        decreases motions@.len() - i,
    {
        let m = motions[i];
        proof {
            assert(motions@.take(i + 1).drop_last() =~= motions@.take(i as int));
            assert(motions@.take(i + 1).last() == motions@[i as int]);
        }
        motion_x = motion_x + m.dx;
        motion_y = motion_y + m.dy;
        i = i + 1;
    }
    proof {
        assert(motions@.take(motions@.len() as int) =~= motions@);
    }
    let mut scroll: i64 = 0;
    let mut j: usize = 0;
    while j < scrolls.len()
        invariant
            j <= scrolls@.len() <= EVENT_COUNT_LIMIT,
            scrolls_bounded(scrolls@),
            scroll == sum_scroll_spec(scrolls@.take(j as int)),
            -(j * 1_000_000) <= scroll <= j * 1_000_000,
        decreases scrolls@.len() - j,
    {
        let s = scrolls[j];
        proof {
            assert(scrolls@.take(j + 1).drop_last() =~= scrolls@.take(j as int));
            assert(scrolls@.take(j + 1).last() == scrolls@[j as int]);
        }
        scroll = scroll + s;
        j = j + 1;
    }
    proof {
        assert(scrolls@.take(scrolls@.len() as int) =~= scrolls@);
    }
    InputIntent {
        motion_x,
        motion_y,
        scroll,
        reset: reset_pressed,
        toggle_pointer: toggle_pressed,
    }
}

} // verus!
