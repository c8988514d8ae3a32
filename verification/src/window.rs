//! The state of the window test: a frame timer and a frame counter that
//! reports every `REPORT_INTERVAL` frames.

use vstd::prelude::*;
use crate::frame_timer::{FrameTimer, MAX_DURATION_NANOS, tick_step};
use crate::report::{is_report_frame, report_due};

verus! {

/// The state of the window test.
pub struct WindowTest {
    frame_timer: FrameTimer,
    frame_count: u64,
}

impl WindowTest {
    /// The number of frames updated so far.
    pub closed spec fn frames(&self) -> nat {
        self.frame_count as nat
    }

    /// The test's frame timer.
    pub closed spec fn timer(&self) -> FrameTimer {
        self.frame_timer
    }

    /// A test that has updated no frames, with a fresh timer.
    pub fn new() -> (t: Self)
        ensures
            t.frames() == 0,
            t.timer().frames() == 0,
            t.timer().total_nanos() == 0,
    {
        WindowTest { frame_timer: FrameTimer::new(), frame_count: 0 }
    }

    /// Ticks the timer and counts one more frame; the result tells whether
    /// this frame's statistics are to be reported.
    pub fn update(&mut self) -> (report: bool)
        requires
            old(self).frames() < u64::MAX,
        ensures
            final(self).frames() == old(self).frames() + 1,
            report == is_report_frame(final(self).frames()),
            old(self).timer().frames() < u64::MAX ==> final(self).timer().frames() == old(
                self,
            ).timer().frames() + 1,
            old(self).timer().frames() == old(self).frames() ==> final(self).timer().frames()
                == final(self).frames(),
            exists|elapsed: nat|
                elapsed <= MAX_DURATION_NANOS && #[trigger] tick_step(
                    old(self).timer().frames(),
                    old(self).timer().total_nanos(),
                    elapsed,
                    final(self).timer().frames(),
                    final(self).timer().total_nanos(),
                ),
    {
        let elapsed = self.frame_timer.tick();
        self.frame_count = self.frame_count + 1;
        assert(tick_step(
            old(self).timer().frames(),
            old(self).timer().total_nanos(),
            elapsed@,
            self.timer().frames(),
            self.timer().total_nanos(),
        ));
        report_due(self.frame_count)
    }

    /// The test's frame timer.
    pub fn frame_timer(&self) -> (t: &FrameTimer)
        ensures
            *t == self.timer(),
    {
        &self.frame_timer
    }

    /// The number of frames updated so far.
    pub fn frame_count(&self) -> (n: u64)
        ensures
            n == self.frames(),
    {
        self.frame_count
    }
}

} // verus!
