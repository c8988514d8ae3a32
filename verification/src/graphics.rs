//! The state of the graphics test: a frame counter that reports every
//! `REPORT_INTERVAL` frames.

use vstd::prelude::*;
use crate::report::{is_report_frame, report_due};

verus! {

/// The state of the graphics test.
pub struct GraphicsTest {
    frame_count: u64,
}

impl GraphicsTest {
    /// The number of frames updated so far.
    pub closed spec fn frames(&self) -> nat {
        self.frame_count as nat
    }

    /// A test that has updated no frames.
    pub fn new() -> (t: Self)
        ensures
            t.frames() == 0,
    {
        GraphicsTest { frame_count: 0 }
    }

    /// Counts one more frame; the result tells whether this frame's number
    /// is to be reported.
    pub fn update(&mut self) -> (report: bool)
        requires
            old(self).frames() < u64::MAX,
        ensures
            final(self).frames() == old(self).frames() + 1,
            report == is_report_frame(final(self).frames()),
    {
        self.frame_count = self.frame_count + 1;
        report_due(self.frame_count)
    }

    /// The number of frames updated so far.
    pub fn frame_count(&self) -> (n: u64)
        ensures
            n == self.frames(),
    {
        self.frame_count
    }
}

} // verus!
