//! Counting presented frames, for the frames-per-second readout. Time is
//! given in nanoseconds on a monotonic clock that the caller reads.
use vstd::prelude::*;

verus! {

/// Nanoseconds in a second: a report is due once this much time has passed.
pub const FPS_REPORT_INTERVAL_NS: u64 = 1_000_000_000;

/// Counts frames since the last report.
pub struct FpsCounter {
    time: u64,
    frames: u32,
}

impl FpsCounter {
    /// When the current counting period started.
    pub closed spec fn spec_time(&self) -> u64 {
        self.time
    }

    /// Frames counted in the current period.
    pub closed spec fn spec_frames(&self) -> u32 {
        self.frames
    }

    /// Starts counting at time `now`.
    pub fn start(now: u64) -> (c: FpsCounter)
        ensures
            c.spec_time() == now,
            c.spec_frames() == 0,
    {
        FpsCounter { time: now, frames: 0 }
    }

    /// When the current counting period started.
    pub fn time(&self) -> (t: u64)
        ensures
            t == self.spec_time(),
    {
        self.time
    }

    /// Frames counted in the current period.
    pub fn frames(&self) -> (n: u32)
        ensures
            n == self.spec_frames(),
    {
        self.frames
    }

    /// Counts a frame presented at time `now`. Once a second or more has
    /// passed since the period started, returns the frames counted in it
    /// and its length in nanoseconds (the rate to show is their quotient),
    /// and starts a new period.
    pub fn count_frame(&mut self, now: u64) -> (report: Option<(u32, u64)>)
        requires
            old(self).spec_frames() < u32::MAX,
            old(self).spec_time() <= now,
        ensures
            now - old(self).spec_time() >= FPS_REPORT_INTERVAL_NS ==> {
                &&& report == Some((
                    (old(self).spec_frames() + 1) as u32,
                    (now - old(self).spec_time()) as u64,
                ))
                &&& final(self).spec_time() == now
                &&& final(self).spec_frames() == 0
            },
            now - old(self).spec_time() < FPS_REPORT_INTERVAL_NS ==> {
                &&& report is None
                &&& final(self).spec_time() == old(self).spec_time()
                &&& final(self).spec_frames() == old(self).spec_frames() + 1
            },
    {
        self.frames = self.frames + 1;
        let duration = now - self.time;
        if duration >= FPS_REPORT_INTERVAL_NS {
            self.time = now;
            let frames = self.frames;
            self.frames = 0;
            Some((frames, duration))
        } else {
            None
        }
    }
}

} // verus!
