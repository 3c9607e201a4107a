//! Frame-rate tracking.
//!
//! The tracker counts frames and, once more than a second has passed
//! since its last reset and more than two frames have been counted,
//! turns the count into a reading and starts over. Requiring more than
//! two frames avoids noisy single-sample estimates; resetting the clock
//! keeps readings at most one per second. Time enters as a monotonic
//! millisecond value supplied by the caller, and readings are kept in
//! milli-frames-per-second, so a reading of 2500 means 2.5 frames per
//! second.

use vstd::prelude::*;

verus! {

/// The frame-rate tracker: frames counted since the last reset, the
/// time of that reset, and the latest reading, absent until the first
/// measurement window completes.
#[derive(Clone, Copy, Debug)]
pub struct Fps {
    pub frame_count: u64,
    pub last_millis: u64,
    pub reading: Option<u128>,
}

/// The reading that `frames` frames over `elapsed_ms` milliseconds
/// yield, in milli-frames-per-second.
pub open spec fn fps_milli_of(frames: int, elapsed_ms: int) -> int {
    frames * 1000000 / elapsed_ms
}

/// What one tick at time `now` does to the tracker: count the frame,
/// and close the measurement window when more than a second has passed
/// and more than two frames are in it.
pub open spec fn spec_tick(s: Fps, now: int) -> Fps {
    let fc = s.frame_count + 1;
    let elapsed = now - s.last_millis;
    if elapsed > 1000 && fc > 2 {
        Fps {
            frame_count: 0,
            last_millis: now as u64,
            reading: Some(fps_milli_of(fc, elapsed) as u128),
        }
    } else {
        Fps { frame_count: fc as u64, last_millis: s.last_millis, reading: s.reading }
    }
}

impl Fps {
    /// A fresh tracker whose window opens at the given time.
    pub fn new(now_millis: u64) -> (s: Fps)
        ensures
            s == (Fps { frame_count: 0, last_millis: now_millis, reading: None::<u128> }),
    {
        Fps { frame_count: 0, last_millis: now_millis, reading: None }
    }

    /// Count one frame at the given monotonic time, closing the
    /// measurement window if it is due.
    pub fn tick(&mut self, now_millis: u64)
        requires
            old(self).frame_count < u64::MAX,
            old(self).last_millis <= now_millis,
        ensures
            *final(self) == spec_tick(*old(self), now_millis as int),
    {
        self.frame_count = self.frame_count + 1;
        let elapsed: u64 = now_millis - self.last_millis;
        if elapsed > 1000 && self.frame_count > 2 {
            let val: u128 = (self.frame_count as u128) * 1000000 / (elapsed as u128);
            self.reading = Some(val);
            self.frame_count = 0;
            self.last_millis = now_millis;
        }
    }

    /// The latest reading in milli-frames-per-second, or `None` while no
    /// measurement window has completed yet.
    pub fn current_reading(&self) -> (r: Option<u128>)
        ensures
            r == self.reading,
    {
        self.reading
    }
}

} // verus!
