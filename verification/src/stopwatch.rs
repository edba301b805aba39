use vstd::prelude::*;

use crate::time::{capped_sum, Span};
use std::time::Instant;

verus! {

/// A moment of the machine's monotonic clock, opaque to the proofs.
#[verifier::external_type_specification]
#[verifier::external_body]
pub struct ExInstant(std::time::Instant);

/// Calls `Instant::now`. What it returns depends on when it is called, so
/// nothing is stated of it.
#[verifier::external_body]
fn clock_now() -> Instant {
    Instant::now()
}

/// Calls `Instant::elapsed` on `start` and hands the `Duration` back as a `Span`
/// (`as_secs` and `subsec_nanos`). How long it is depends on when it is called,
/// so only what holds of every `Duration` is stated: its sub-second part is
/// below one second, as the documentation of `subsec_nanos` says.
#[verifier::external_body]
fn clock_since(start: &Instant) -> (d: Span)
    ensures
        d.wf(),
{
    let elapsed = start.elapsed();
    Span { secs: elapsed.as_secs(), nanos: elapsed.subsec_nanos() }
}

/// What the proofs see of a stopwatch: whether a segment is being timed, the
/// time summed up from the segments that were closed, in nanoseconds, and
/// whether it was started since it was made or reset.
pub struct ClockModel {
    pub running: bool,
    pub total: nat,
    pub started: bool,
}

/// A stopwatch that has never been started (or was reset).
pub open spec fn model_fresh() -> ClockModel {
    ClockModel { running: false, total: 0, started: false }
}

/// Started: it times a segment, or is running already.
pub open spec fn model_start(m: ClockModel) -> ClockModel {
    ClockModel { running: true, total: m.total, started: true }
}

/// Paused after the open segment ran for `ran_for`: that segment is added to the total.
pub open spec fn model_pause(m: ClockModel, ran_for: nat) -> ClockModel {
    if m.running {
        ClockModel { running: false, total: capped_sum(m.total, ran_for), started: m.started }
    } else {
        m
    }
}

/// Has been started at some point, paused or not, or holds time.
pub open spec fn model_has_started(m: ClockModel) -> bool {
    m.started || m.total > 0
}

/// A running stopwatch was started.
pub open spec fn model_wf(m: ClockModel) -> bool {
    m.running ==> m.started
}

/// Resumed: a new segment opens, only on a stopwatch that was started and is paused.
pub open spec fn model_resume(m: ClockModel) -> ClockModel {
    if model_has_started(m) && !m.running {
        ClockModel { running: true, total: m.total, started: true }
    } else {
        m
    }
}

/// The reading when the open segment (if any) has run for `ran_for`.
pub open spec fn model_reading(m: ClockModel, ran_for: nat) -> nat {
    if m.running {
        capped_sum(m.total, ran_for)
    } else {
        m.total
    }
}

/// The total set to `t`; a running stopwatch opens a new segment from now.
pub open spec fn model_set_time(m: ClockModel, t: nat) -> ClockModel {
    ClockModel { running: m.running, total: t, started: m.started }
}

/// Times the segments between starts (or resumes) and pauses, and sums them up.
pub struct Stopwatch {
    start_time: Option<Instant>,
    elapsed_time: Span,
    started: bool,
}

impl Stopwatch {
    /// The model of this stopwatch.
    pub closed spec fn model(&self) -> ClockModel {
        ClockModel {
            running: self.start_time is Some,
            total: self.elapsed_time.total(),
            started: self.started,
        }
    }

    /// The summed-up time of the closed segments is a well-formed span, and a
    /// running stopwatch was started.
    pub open spec fn wf(&self) -> bool {
        self.span_wf() && model_wf(self.model())
    }

    /// The summed-up time of the closed segments is a well-formed span.
    pub closed spec fn span_wf(&self) -> bool {
        self.elapsed_time.wf()
    }

    /// A stopwatch that has not been started and reads zero.
    pub fn new() -> (sw: Self)
        ensures
            sw.wf(),
            sw.model() == model_fresh(),
    {
        Self { start_time: None, elapsed_time: Span::zero(), started: false }
    }

    /// Starts (or resumes) timing; a running stopwatch is left as it is.
    pub fn start(&mut self)
        requires
            old(self).wf(),
        ensures
            final(self).wf(),
            final(self).model() == model_start(old(self).model()),
            old(self).model().running ==> *final(self) == *old(self),
    {
        if self.start_time.is_none() {
            self.start_time = Some(clock_now());
            self.started = true;
        }
    }

    /// Pauses, adding the segment that was being timed to the total; where the
    /// total would pass the largest span it stays at the largest span.
    /// A paused stopwatch is left as it is.
    pub fn pause(&mut self)
        requires
            old(self).wf(),
        ensures
            final(self).wf(),
            !final(self).model().running,
            final(self).model().total >= old(self).model().total,
            exists|ran_for: nat| final(self).model() == model_pause(old(self).model(), ran_for),
            !old(self).model().running ==> *final(self) == *old(self),
    {
        let ghost before = self.model();
        if let Some(start) = self.start_time.take() {
            let ran_for = clock_since(&start);
            self.close_segment(ran_for);
            assert(self.model() == model_pause(before, ran_for.total()));
        } else {
            assert(self.model() == model_pause(before, 0));
        }
    }

    /// Adds a segment that ran for `ran_for` to the total and leaves the stopwatch
    /// paused; a timed segment means the stopwatch was started.
    pub fn close_segment(&mut self, ran_for: Span)
        requires
            old(self).wf(),
            ran_for.wf(),
        ensures
            final(self).wf(),
            final(self).model() == model_pause(
                ClockModel { running: true, total: old(self).model().total, started: true },
                ran_for.total(),
            ),
    {
        self.start_time = None;
        self.started = true;
        self.elapsed_time = self.elapsed_time.saturating_add(&ran_for);
    }

    /// Resumes timing, only where the stopwatch was started before and is paused now.
    pub fn resume(&mut self)
        requires
            old(self).wf(),
        ensures
            final(self).wf(),
            final(self).model() == model_resume(old(self).model()),
            !(model_has_started(old(self).model()) && !old(self).model().running) ==> *final(self)
                == *old(self),
    {
        if self.has_started() && self.start_time.is_none() {
            self.start_time = Some(clock_now());
            self.started = true;
        }
    }

    /// Whether a segment is being timed (started and not paused).
    pub fn is_running(&self) -> (b: bool)
        ensures
            b == self.model().running,
    {
        self.start_time.is_some()
    }

    /// Whether the stopwatch was started since it was made or reset (paused or
    /// not), or holds time.
    pub fn has_started(&self) -> (b: bool)
        requires
            self.wf(),
        ensures
            b == model_has_started(self.model()),
    {
        self.started || !self.elapsed_time.is_zero()
    }

    /// The time measured so far, the open segment included.
    pub fn elapsed(&self) -> (d: Span)
        requires
            self.wf(),
        ensures
            d.wf(),
            !self.model().running ==> d.total() == self.model().total,
            d.total() >= self.model().total,
            exists|ran_for: nat| d.total() == model_reading(self.model(), ran_for),
    {
        match &self.start_time {
            Some(start) => {
                let ran_for = clock_since(start);
                let d = self.elapsed_with(ran_for);
                assert(d.total() == model_reading(self.model(), ran_for.total()));
                d
            },
            None => {
                assert(self.elapsed_time.total() == model_reading(self.model(), 0));
                self.elapsed_time
            },
        }
    }

    /// The reading when the open segment (if any) has run for `ran_for`.
    pub fn elapsed_with(&self, ran_for: Span) -> (d: Span)
        requires
            self.wf(),
            ran_for.wf(),
        ensures
            d.wf(),
            d.total() == model_reading(self.model(), ran_for.total()),
    {
        if self.start_time.is_some() {
            self.elapsed_time.saturating_add(&ran_for)
        } else {
            self.elapsed_time
        }
    }

    /// Back to a stopwatch that was never started.
    pub fn reset(&mut self)
        ensures
            final(self).wf(),
            final(self).model() == model_fresh(),
    {
        self.start_time = None;
        self.elapsed_time = Span::zero();
        self.started = false;
    }

    /// Sets the total to `new_time`; a running stopwatch keeps running from now on.
    pub fn set_time(&mut self, new_time: Span)
        requires
            old(self).wf(),
            new_time.wf(),
        ensures
            final(self).wf(),
            final(self).model() == model_set_time(old(self).model(), new_time.total()),
    {
        if self.start_time.is_some() {
            self.elapsed_time = new_time;
            self.start_time = Some(clock_now());
        } else {
            self.elapsed_time = new_time;
        }
    }
}

/// A paused stopwatch reads the same whenever it is read.
pub proof fn law_paused_reading_is_stable(m: ClockModel, a: nat, b: nat)
    requires
        !m.running,
    ensures
        model_reading(m, a) == model_reading(m, b),
        model_reading(m, a) == m.total,
{
}

/// Pausing freezes the reading at what it was when the pause came.
pub proof fn law_pause_freezes_reading(m: ClockModel, ran_for: nat, later: nat)
    ensures
        model_reading(model_pause(m, ran_for), later) == model_reading(m, ran_for),
{
}

/// What `set_time` writes, a paused stopwatch reads back; a running one reads
/// it plus the time since.
pub proof fn law_set_time_reads_back(m: ClockModel, t: nat, ran_for: nat)
    requires
        t <= crate::time::max_total(),
    ensures
        !m.running ==> model_reading(model_set_time(m, t), ran_for) == t,
        m.running ==> model_reading(model_set_time(m, t), ran_for) == capped_sum(t, ran_for),
{
}

/// Starting twice is starting once; pausing twice is pausing once.
pub proof fn law_start_and_pause_idempotent(m: ClockModel, a: nat, b: nat)
    ensures
        model_start(model_start(m)) == model_start(m),
        model_pause(model_pause(m, a), b) == model_pause(m, a),
{
}

/// Resume does not start a stopwatch that was never started, and leaves a running one alone.
pub proof fn law_resume_only_after_start(m: ClockModel)
    ensures
        !model_has_started(m) ==> model_resume(m) == m,
        m.running ==> model_resume(m) == m,
        model_has_started(m) ==> model_resume(m).running,
{
}

/// The reading never goes down: pausing, and time passing, only add to it.
pub proof fn law_reading_never_decreases(m: ClockModel, ran_for: nat, more: nat)
    requires
        m.total <= crate::time::max_total(),
    ensures
        model_pause(m, ran_for).total >= m.total,
        model_reading(m, ran_for) >= m.total,
        model_reading(m, ran_for + more) >= model_reading(m, ran_for),
{
}

/// A stopwatch that was started counts as started from then on, paused or
/// not, whatever its total is set to, until it is reset; a running one always
/// counts as started.
pub proof fn law_started_stays_started(m: ClockModel, ran_for: nat, t: nat)
    requires
        model_wf(m),
    ensures
        model_has_started(model_start(m)),
        model_has_started(model_set_time(model_pause(model_start(m), ran_for), t)),
        m.started ==> model_has_started(model_pause(m, ran_for)),
        m.started ==> model_has_started(model_set_time(m, t)),
        m.started ==> model_has_started(model_resume(m)),
        m.running ==> model_has_started(m),
        model_wf(model_start(m)),
        model_wf(model_pause(m, ran_for)),
        model_wf(model_resume(m)),
        model_wf(model_set_time(m, t)),
{
}

/// The sum of segment lengths.
pub open spec fn sum_of(ds: Seq<nat>) -> nat
    decreases ds.len(),
{
    if ds.len() == 0 {
        0
    } else {
        sum_of(ds.drop_last()) + ds.last()
    }
}

/// The model after a start and a pause for each segment of `ds`, in order.
pub open spec fn run_segments(m: ClockModel, ds: Seq<nat>) -> ClockModel
    decreases ds.len(),
{
    if ds.len() == 0 {
        m
    } else {
        model_pause(model_start(run_segments(m, ds.drop_last())), ds.last())
    }
}

/// Timing segments one after another, starting from a paused stopwatch that
/// holds `m.total`, sums them up: no time is lost or counted twice across a
/// pause and a start, as long as the total stays within the largest span.
pub proof fn law_segments_add_up(m: ClockModel, ds: Seq<nat>)
    requires
        !m.running,
        m.total + sum_of(ds) <= crate::time::max_total(),
    ensures
        run_segments(m, ds).total == m.total + sum_of(ds),
        !run_segments(m, ds).running,
    decreases ds.len(),
{
    if ds.len() > 0 {
        law_segments_add_up(m, ds.drop_last());
    }
}

/// A reset stopwatch is a fresh one, which has not started.
pub proof fn law_reset_is_fresh()
    ensures
        !model_has_started(model_fresh()),
        model_reading(model_fresh(), 0) == 0,
{
}

} // verus!
