//! How often the test programs report progress.

use vstd::prelude::*;

verus! {

/// The test programs report once every this many frames (about once a
/// second at 60 frames per second).
pub const REPORT_INTERVAL: u64 = 60;

/// Whether frame number `frame` (counting from one) is reported.
pub open spec fn is_report_frame(frame: nat) -> bool {
    frame % (REPORT_INTERVAL as nat) == 0
}

/// Whether frame number `frame` is reported.
pub fn report_due(frame: u64) -> (due: bool)
    ensures
        due == is_report_frame(frame as nat),
{
    frame % REPORT_INTERVAL == 0
}

/// Law: reports come exactly `REPORT_INTERVAL` frames apart: a reported
/// frame is followed by the next report `REPORT_INTERVAL` frames later, and
/// by none in between.
pub proof fn lemma_reports_are_interval_apart(frame: nat, later: nat)
    requires
        is_report_frame(frame),
        0 < later,
    ensures
        later < REPORT_INTERVAL ==> !is_report_frame(frame + later),
        later == REPORT_INTERVAL ==> is_report_frame(frame + later),
{
    vstd::arithmetic::div_mod::lemma_fundamental_div_mod(frame as int, 60);
    vstd::arithmetic::div_mod::lemma_fundamental_div_mod((frame + later) as int, 60);
    let q = frame / 60;
    assert(frame == 60 * q);
    if later < 60 {
        vstd::arithmetic::div_mod::lemma_mod_multiples_vanish(q as int, later as int, 60);
        vstd::arithmetic::div_mod::lemma_small_mod(later, 60);
    } else if later == 60 {
        vstd::arithmetic::div_mod::lemma_mod_multiples_vanish((q + 1) as int, 0, 60);
        assert(frame + later == 60 * (q + 1) + 0);
    }
}

} // verus!
