//! Frame timing: a nanosecond-exact duration type and a timer that counts
//! frames and accumulates the time between them.

use vstd::prelude::*;

verus! {

/// The largest number of nanoseconds a duration can hold: `u64::MAX`
/// whole seconds plus 999 999 999 nanoseconds.
pub const MAX_DURATION_NANOS: u128 = 18_446_744_073_709_551_615_999_999_999;

/// Nanoseconds per second.
pub const NANOS_PER_SEC: u128 = 1_000_000_000;

/// A span of time, held as a whole number of nanoseconds.
///
/// Its range is that of `std::time::Duration`: at most `u64::MAX` seconds
/// and 999 999 999 nanoseconds.
#[derive(Clone, Copy)]
pub struct FrameDuration {
    nanos: u128,
}

impl View for FrameDuration {
    type V = nat;

    /// The duration in nanoseconds.
    closed spec fn view(&self) -> nat {
        self.nanos as nat
    }
}

impl FrameDuration {
    #[verifier::type_invariant]
    spec fn in_range(self) -> bool {
        self.nanos <= MAX_DURATION_NANOS
    }

    /// The zero-length duration.
    pub fn zero() -> (d: Self)
        ensures
            d@ == 0,
    {
        FrameDuration { nanos: 0 }
    }

    /// A duration of `secs` seconds and `nanos` nanoseconds; nanoseconds of
    /// a billion or more carry over into the seconds.
    pub fn new(secs: u64, nanos: u32) -> (d: Self)
        requires
            secs * NANOS_PER_SEC + nanos <= MAX_DURATION_NANOS,
        ensures
            d@ == secs * NANOS_PER_SEC + nanos,
    {
        assert(secs * NANOS_PER_SEC <= u64::MAX * NANOS_PER_SEC) by (nonlinear_arith)
            requires secs <= u64::MAX;
        FrameDuration { nanos: secs as u128 * NANOS_PER_SEC + nanos as u128 }
    }

    /// The whole duration in nanoseconds.
    pub fn as_nanos(&self) -> (n: u128)
        ensures
            n == self@,
            n <= MAX_DURATION_NANOS,
    {
        proof { use_type_invariant(self); }
        self.nanos
    }

    /// The number of whole seconds.
    pub fn as_secs(&self) -> (s: u64)
        ensures
            s == self@ / NANOS_PER_SEC as nat,
    {
        proof { use_type_invariant(self); }
        assert(self.nanos / NANOS_PER_SEC <= u64::MAX) by (nonlinear_arith)
            requires self.nanos <= MAX_DURATION_NANOS;
        (self.nanos / NANOS_PER_SEC) as u64
    }

    /// The nanoseconds past the last whole second.
    pub fn subsec_nanos(&self) -> (n: u32)
        ensures
            n == self@ % NANOS_PER_SEC as nat,
            n < NANOS_PER_SEC,
    {
        (self.nanos % NANOS_PER_SEC) as u32
    }
}

/// Law: a duration is given back exactly by its whole seconds and the
/// nanoseconds past them, so converting to seconds and nanoseconds (as
/// `std::time::Duration` holds them) and back loses nothing.
pub proof fn lemma_secs_and_subsec_nanos_round_trip(nanos: nat)
    ensures
        (nanos / (NANOS_PER_SEC as nat)) * NANOS_PER_SEC + nanos % (NANOS_PER_SEC as nat) == nanos,
        nanos % (NANOS_PER_SEC as nat) < NANOS_PER_SEC,
{
    vstd::arithmetic::div_mod::lemma_fundamental_div_mod(nanos as int, NANOS_PER_SEC as int);
}

#[verifier::external_type_specification]
#[verifier::external_body]
pub struct ExInstant(std::time::Instant);

/// Calls `std::time::Instant::now`. What it returns depends on the clock,
/// so nothing is promised of it.
#[verifier::external_body]
fn instant_now() -> (i: std::time::Instant) {
    std::time::Instant::now()
}

/// Calls `std::time::Instant::elapsed`. The time that has passed depends on
/// the clock, so nothing is promised of it.
#[verifier::external_body]
fn instant_elapsed(since: &std::time::Instant) -> (d: std::time::Duration) {
    since.elapsed()
}

/// Calls `std::time::Duration::as_nanos`: the total number of nanoseconds
/// in `d`. `Duration::MAX` is `u64::MAX` seconds and 999 999 999
/// nanoseconds, so the count is at most `MAX_DURATION_NANOS`; the
/// `Duration` itself is opaque here, so nothing more is said of the count.
#[verifier::external_body]
fn duration_as_nanos(d: &std::time::Duration) -> (n: u128)
    ensures
        n <= MAX_DURATION_NANOS,
{
    d.as_nanos()
}

/// The time passed since `since`, as a `FrameDuration`: the clock time
/// measured from `since`.
fn elapsed_since(since: &std::time::Instant) -> (d: FrameDuration) {
    let elapsed = instant_elapsed(since);
    FrameDuration { nanos: duration_as_nanos(&elapsed) }
}

/// Counts frames and accumulates the time spent between them.
///
/// Clock times are held as nanoseconds since the instant the timer was
/// made; the mark is the clock time that the next frame is measured from.
pub struct FrameTimer {
    frame_count: u64,
    total_duration: FrameDuration,
    start: std::time::Instant,
    last_frame_mark: FrameDuration,
}

/// Law: the times that a run of ticks returns add up to the clock time
/// between the mark before the first tick and the mark after the last:
/// each tick measures from where the previous one stopped, so no stretch of
/// time is counted twice or left out.
pub proof fn lemma_tick_times_cover_the_clock(marks: Seq<nat>, elapsed: Seq<nat>)
    requires
        marks.len() == elapsed.len() + 1,
        forall|i: int| 0 <= i < elapsed.len() ==> #[trigger] marks[i + 1] == marks[i] + elapsed[i],
    ensures
        marks.last() == marks[0] + sum_nanos(elapsed),
    decreases elapsed.len(),
{
    if elapsed.len() > 0 {
        let n = elapsed.len() as int;
        lemma_tick_times_cover_the_clock(marks.drop_last(), elapsed.drop_last());
        assert(marks[n] == marks[n - 1] + elapsed[n - 1]);
        assert(marks.drop_last().last() == marks[n - 1]);
    }
}

/// The state change of recording one frame that lasted `elapsed`
/// nanoseconds: one more frame, and `elapsed` more in the total.
pub open spec fn records_frame(
    frames_before: nat,
    total_before: nat,
    elapsed: nat,
    frames_after: nat,
    total_after: nat,
) -> bool {
    &&& frames_after == frames_before + 1
    &&& total_after == total_before + elapsed
}

/// Whether one more frame of `elapsed` nanoseconds can be recorded on top
/// of `frames` frames totalling `total` nanoseconds without leaving the
/// range of the counters.
pub open spec fn can_record(frames: nat, total: nat, elapsed: nat) -> bool {
    &&& frames < u64::MAX
    &&& total + elapsed <= MAX_DURATION_NANOS
}

/// The total after adding `elapsed` nanoseconds to `total`, held at
/// `MAX_DURATION_NANOS` where the sum would pass it.
pub open spec fn saturating_total(total: nat, elapsed: nat) -> nat {
    if total + elapsed <= MAX_DURATION_NANOS {
        total + elapsed
    } else {
        MAX_DURATION_NANOS as nat
    }
}

/// The state change of a tick that measured `elapsed` nanoseconds: while
/// the frame count is below `u64::MAX`, one more frame, and `elapsed` more
/// in the total, which is held at `MAX_DURATION_NANOS`; at `u64::MAX`
/// frames nothing changes.
pub open spec fn tick_step(
    frames_before: nat,
    total_before: nat,
    elapsed: nat,
    frames_after: nat,
    total_after: nat,
) -> bool {
    if frames_before < u64::MAX {
        &&& frames_after == frames_before + 1
        &&& total_after == saturating_total(total_before, elapsed)
    } else {
        frames_after == frames_before && total_after == total_before
    }
}

/// The sum of a run of frame lengths.
pub open spec fn sum_nanos(elapsed: Seq<nat>) -> nat
    decreases elapsed.len(),
{
    if elapsed.len() == 0 {
        0
    } else {
        sum_nanos(elapsed.drop_last()) + elapsed.last()
    }
}

/// Law: over any run of recorded frames, the frame count grows by the
/// number of frames and the total by the sum of their lengths.
pub proof fn lemma_frames_accumulate(frames: Seq<nat>, totals: Seq<nat>, elapsed: Seq<nat>)
    requires
        frames.len() == elapsed.len() + 1,
        totals.len() == elapsed.len() + 1,
        forall|i: int|
            0 <= i < elapsed.len() ==> #[trigger] records_frame(
                frames[i],
                totals[i],
                elapsed[i],
                frames[i + 1],
                totals[i + 1],
            ),
    ensures
        frames.last() == frames[0] + elapsed.len(),
        totals.last() == totals[0] + sum_nanos(elapsed),
    decreases elapsed.len(),
{
    if elapsed.len() > 0 {
        let n = elapsed.len() as int;
        lemma_frames_accumulate(frames.drop_last(), totals.drop_last(), elapsed.drop_last());
        assert(records_frame(frames[n - 1], totals[n - 1], elapsed[n - 1], frames[n], totals[n]));
    }
}

/// Law: over any run of ticks that keeps the frame count within `u64`,
/// the count grows by one per tick, and the total by the sum of the measured
/// times, held at `MAX_DURATION_NANOS`.
pub proof fn lemma_ticks_accumulate(frames: Seq<nat>, totals: Seq<nat>, elapsed: Seq<nat>)
    requires
        frames.len() == elapsed.len() + 1,
        totals.len() == elapsed.len() + 1,
        frames[0] + elapsed.len() <= u64::MAX,
        totals[0] <= MAX_DURATION_NANOS,
        forall|i: int|
            0 <= i < elapsed.len() ==> #[trigger] tick_step(
                frames[i],
                totals[i],
                elapsed[i],
                frames[i + 1],
                totals[i + 1],
            ),
    ensures
        frames.last() == frames[0] + elapsed.len(),
        totals.last() == saturating_total(totals[0], sum_nanos(elapsed)),
    decreases elapsed.len(),
{
    if elapsed.len() > 0 {
        let n = elapsed.len() as int;
        lemma_ticks_accumulate(frames.drop_last(), totals.drop_last(), elapsed.drop_last());
        assert(tick_step(frames[n - 1], totals[n - 1], elapsed[n - 1], frames[n], totals[n]));
        assert(frames.drop_last().last() == frames[n - 1]);
        assert(totals.drop_last().last() == totals[n - 1]);
    }
}

/// The average frame time in nanoseconds: zero before the first frame,
/// else the total divided by the frame count, rounded down.
pub open spec fn average_nanos(frames: nat, total: nat) -> nat {
    if frames == 0 {
        0
    } else {
        total / frames
    }
}

/// Law: for any positive frame count, the average frame time times the
/// count never exceeds the total and falls short of it by less than the
/// count.
pub proof fn lemma_average_brackets_total(frames: nat, total: nat)
    requires
        0 < frames,
    ensures
        average_nanos(frames, total) * frames <= total,
        total < (average_nanos(frames, total) + 1) * frames,
{
    let avg = total / frames;
    vstd::arithmetic::div_mod::lemma_fundamental_div_mod(total as int, frames as int);
    assert(avg * frames <= total && total < (avg + 1) * frames) by (nonlinear_arith)
        requires
            total == frames * avg + total % frames,
            0 <= total % frames < frames,
    ;
}

impl FrameTimer {
    /// The number of frames recorded.
    pub closed spec fn frames(&self) -> nat {
        self.frame_count as nat
    }

    /// The total time of all recorded frames, in nanoseconds.
    pub closed spec fn total_nanos(&self) -> nat {
        self.total_duration@
    }

    /// The clock time, in nanoseconds since the timer was made, that the
    /// next tick measures from.
    pub closed spec fn mark(&self) -> nat {
        self.last_frame_mark@
    }

    /// A timer with no frames recorded; the time of the next frame is
    /// measured from now.
    pub fn new() -> (t: Self)
        ensures
            t.frames() == 0,
            t.total_nanos() == 0,
            t.mark() == 0,
    {
        FrameTimer {
            frame_count: 0,
            total_duration: FrameDuration::zero(),
            start: instant_now(),
            last_frame_mark: FrameDuration::zero(),
        }
    }

    /// Records one frame that lasted `elapsed`.
    pub fn record_frame(&mut self, elapsed: FrameDuration)
        requires
            can_record(old(self).frames(), old(self).total_nanos(), elapsed@),
        ensures
            records_frame(
                old(self).frames(),
                old(self).total_nanos(),
                elapsed@,
                final(self).frames(),
                final(self).total_nanos(),
            ),
    {
        self.frame_count = self.frame_count + 1;
        self.total_duration = FrameDuration { nanos: self.total_duration.nanos + elapsed.nanos };
    }

    /// Records a frame and returns the time elapsed since the previous call
    /// (or since the timer was made). The next frame is measured from now:
    /// the new mark is the old mark moved on by the returned time.
    ///
    /// The total is held at `MAX_DURATION_NANOS` where it would pass it; at
    /// `u64::MAX` frames the counters stay as they are.
    pub fn tick(&mut self) -> (elapsed: FrameDuration)
        ensures
            elapsed@ <= MAX_DURATION_NANOS,
            final(self).mark() == old(self).mark() + elapsed@,
            tick_step(
                old(self).frames(),
                old(self).total_nanos(),
                elapsed@,
                final(self).frames(),
                final(self).total_nanos(),
            ),
    {
        let now = elapsed_since(&self.start);
        proof {
            use_type_invariant(&now);
            use_type_invariant(&self.last_frame_mark);
            use_type_invariant(&self.total_duration);
        }
        let mark = self.last_frame_mark.nanos;
        let elapsed = if now.nanos >= mark {
            FrameDuration { nanos: now.nanos - mark }
        } else {
            FrameDuration::zero()
        };
        if self.frame_count < u64::MAX {
            let total = self.total_duration.nanos;
            let new_total = if elapsed.nanos <= MAX_DURATION_NANOS - total {
                total + elapsed.nanos
            } else {
                MAX_DURATION_NANOS
            };
            self.frame_count = self.frame_count + 1;
            self.total_duration = FrameDuration { nanos: new_total };
        }
        self.last_frame_mark = FrameDuration { nanos: mark + elapsed.nanos };
        elapsed
    }

    /// The average frame time: zero before the first frame, else the total
    /// divided by the frame count, rounded down to whole nanoseconds.
    pub fn average_frame_time(&self) -> (avg: FrameDuration)
        ensures
            avg@ == average_nanos(self.frames(), self.total_nanos()),
    {
        proof { use_type_invariant(&self.total_duration); }
        if self.frame_count == 0 {
            FrameDuration::zero()
        } else {
            let total = self.total_duration.nanos;
            let count = self.frame_count as u128;
            assert(total / count <= total) by (nonlinear_arith)
                requires count > 0;
            FrameDuration { nanos: total / count }
        }
    }

    /// The number of frames recorded.
    pub fn frame_count(&self) -> (n: u64)
        ensures
            n == self.frames(),
    {
        self.frame_count
    }
}

impl Default for FrameTimer {
    fn default() -> (t: Self)
        ensures
            t.frames() == 0,
            t.total_nanos() == 0,
    {
        Self::new()
    }
}

} // verus!
