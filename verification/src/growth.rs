//! The companion shape's animation: a scalar size that shrinks toward a
//! floor every frame and receives a large one-frame growth pulse whenever a
//! word is completed.

use vstd::prelude::*;

verus! {

/// Minimum size the shape shrinks to and holds at, in thousandths of a
/// display unit (10 units).
pub const FLOOR_SIZE: u64 = 10_000;

/// Shrink rate in display units per second. Since sizes are in thousandths
/// and deltas in milliseconds, the size lost in a frame is exactly
/// `SHRINK_RATE * dt_ms` thousandths.
pub const SHRINK_RATE: u64 = 10;

/// Growth rate in display units per second, two orders of magnitude faster
/// than the shrink rate so each completed word gives a visible pulse.
pub const GROWTH_RATE: u64 = 1600;

/// Tracks the size of the growable shape, in thousandths of a display unit.
/// The vertical offset of the shape is derived as half the size.
pub struct GrowthAnimator {
    pub size: u64,
}

/// The size after one shrink step at `size`, with frame delta `dt_ms`
/// milliseconds: if the size is strictly above the floor it loses
/// `SHRINK_RATE * dt_ms`, gated so it never undershoots the floor;
/// at or below the floor it is left alone.
pub open spec fn shrunk(size: int, dt_ms: int) -> int {
    if size > FLOOR_SIZE {
        if size - SHRINK_RATE * dt_ms >= FLOOR_SIZE {
            size - SHRINK_RATE * dt_ms
        } else {
            FLOOR_SIZE as int
        }
    } else {
        size
    }
}

/// The size after one growth pulse at `size` with frame delta `dt_ms`
/// milliseconds: it gains `GROWTH_RATE * dt_ms`, saturating at the largest
/// representable size.
pub open spec fn grown(size: int, dt_ms: int) -> int {
    if size + GROWTH_RATE * dt_ms <= u64::MAX {
        size + GROWTH_RATE * dt_ms
    } else {
        u64::MAX as int
    }
}

impl GrowthAnimator {
    /// The size never sits below the floor.
    pub open spec fn wf(self) -> bool {
        self.size >= FLOOR_SIZE
    }

    pub fn new(size: u64) -> (a: GrowthAnimator)
        requires
            size >= FLOOR_SIZE,
        ensures
            a.size == size,
            a.wf(),
    {
        GrowthAnimator { size }
    }

    /// The vertical position delta paired with the size.
    pub fn offset(&self) -> (r: u64)
        ensures
            r == self.size / 2,
    {
        self.size / 2
    }

    /// The decay step, run once every frame: relax the size toward the
    /// floor at `SHRINK_RATE`, never undershooting it.
    pub fn shrink_step(&mut self, dt_ms: u32)
        requires
            old(self).wf(),
        ensures
            final(self).size == shrunk(old(self).size as int, dt_ms as int),
            final(self).wf(),
    {
        if self.size > FLOOR_SIZE {
            let d: u64 = SHRINK_RATE * (dt_ms as u64);
            if self.size - FLOOR_SIZE >= d {
                self.size = self.size - d;
            } else {
                self.size = FLOOR_SIZE;
            }
        }
    }

    /// The growth pulse, run only in the frame in which the current word
    /// was completed: gain `GROWTH_RATE` scaled by that frame's delta.
    /// There is no ceiling below the representable maximum.
    pub fn growth_step(&mut self, dt_ms: u32)
        requires
            old(self).wf(),
        ensures
            final(self).size == grown(old(self).size as int, dt_ms as int),
            final(self).wf(),
    {
        let d: u64 = GROWTH_RATE * (dt_ms as u64);
        if self.size <= u64::MAX - d {
            self.size = self.size + d;
        } else {
            self.size = u64::MAX;
        }
    }
}

/// The size after a whole sequence of shrink steps, one per frame delta.
pub open spec fn shrunk_all(size: int, dts: Seq<u32>) -> int
    decreases dts.len(),
{
    if dts.len() == 0 {
        size
    } else {
        shrunk_all(shrunk(size, dts[0] as int), dts.drop_first())
    }
}

/// Shrinking alone never takes the size below the floor, for any sequence
/// of frame deltas.
pub proof fn lemma_shrink_never_below_floor(size: int, dts: Seq<u32>)
    requires
        size >= FLOOR_SIZE,
    ensures
        shrunk_all(size, dts) >= FLOOR_SIZE,
    decreases dts.len(),
{
    if dts.len() > 0 {
        lemma_shrink_never_below_floor(shrunk(size, dts[0] as int), dts.drop_first());
    }
}

/// Growth pulses are additive within a frame: when the shrink step applies
/// in full (the size stays above the floor) and the pulse does not
/// saturate, the net change of running both in one frame is exactly
/// `GROWTH_RATE * dt_ms - SHRINK_RATE * dt_ms`.
pub proof fn lemma_pulse_additive_in_frame(size: int, dt_ms: int)
    requires
        0 <= dt_ms,
        size > FLOOR_SIZE,
        size - SHRINK_RATE * dt_ms >= FLOOR_SIZE,
        size - SHRINK_RATE * dt_ms + GROWTH_RATE * dt_ms <= u64::MAX,
    ensures
        grown(shrunk(size, dt_ms), dt_ms) == size - SHRINK_RATE * dt_ms + GROWTH_RATE * dt_ms,
{
}

} // verus!
