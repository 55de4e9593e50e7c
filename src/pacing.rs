//! Pacing of synthesized audio toward the device.
//!
//! Frame `i` of an utterance is due `FRAME_MS * (i - HEAD_START_FRAMES)` after the
//! first frame was queued; the first frames leave at once, so the device holds a small
//! buffer against jitter.
use vstd::prelude::*;

verus! {

/// Duration of one frame.
pub const FRAME_MS: u64 = 60;

/// Frames sent ahead of real time.
pub const HEAD_START_FRAMES: u64 = 2;

/// Extra wait after the last frame so the device can finish playing.
pub const PLAYOUT_TAIL_MS: u64 = 500;

/// When frame `i` is due, for an utterance whose first frame was queued at `start`.
pub open spec fn frame_due(start: int, i: int) -> int {
    if i <= HEAD_START_FRAMES {
        start
    } else {
        start + FRAME_MS * (i - HEAD_START_FRAMES)
    }
}

/// `x` held to the clock's range.
pub open spec fn clamp(x: int) -> int {
    if x > u64::MAX as int {
        u64::MAX as int
    } else {
        x
    }
}

/// Playing time of `n` frames, held to the clock's range.
fn frames_ms(n: u64) -> (r: u64)
    ensures
        r == clamp(FRAME_MS * n),
{
    if n > u64::MAX / FRAME_MS {
        u64::MAX
    } else {
        FRAME_MS * n
    }
}

/// How long to wait at `now` before queuing frame `index`: until it is due, or not at all.
pub fn frame_wait(start: u64, now: u64, index: u64) -> (r: u64)
    ensures
        r == (if clamp(frame_due(start as int, index as int)) > now as int {
            clamp(frame_due(start as int, index as int)) - now as int
        } else {
            0
        }),
        frame_due(start as int, index as int) <= u64::MAX as int ==> now as int + r as int >= frame_due(start as int, index as int),
{
    let due: u64 = if index <= HEAD_START_FRAMES {
        start
    } else {
        start.saturating_add(frames_ms(index - HEAD_START_FRAMES))
    };
    if due > now {
        due - now
    } else {
        0
    }
}

/// How long to wait at `now` after the last of `frames` frames: until their playing
/// time from `start` has passed, then the play-out tail.
pub fn final_wait(start: u64, now: u64, frames: u64) -> (r: u64)
    ensures
        r == clamp(
            (if clamp(start as int + FRAME_MS * frames) > now as int {
                clamp(start as int + FRAME_MS * frames) - now as int
            } else {
                0
            }) + PLAYOUT_TAIL_MS,
        ),
{
    let end: u64 = start.saturating_add(frames_ms(frames));
    let rest: u64 = if end > now {
        end - now
    } else {
        0
    };
    rest.saturating_add(PLAYOUT_TAIL_MS)
}

} // verus!
