//! Frame pacing and workload diagnostics. The clock is a state machine over
//! measured timestamps: each poll either asks the driver to sleep for the
//! rest of the frame budget or completes the step and yields the elapsed
//! time, which is never below the configured frame duration.
use vstd::prelude::*;
use crate::units::Milliseconds;

verus! {

/// Width, in milliseconds, of the periodic workload-report window.
pub const WORKLOAD_REPORT_WINDOW_MS: u32 = 3000;

/// Report cursor that pushes the next report effectively to infinity,
/// disabling workload diagnostics.
pub const WORKLOAD_DISABLED_TICKS: u32 = u32::MAX - 100_000;

/// The mathematical state of the frame clock.
#[verifier::ext_equal]
pub struct ClockModel {
    /// Timestamp of the last completed step, in ms since the clock start.
    pub last: u32,
    /// Fixed frame duration in ms, immutable after construction.
    pub dur: u32,
    /// Whether a step is underway (its workload sample already recorded).
    pub mid: bool,
    /// Sum of the recorded workload samples, stopped at u64::MAX.
    pub sum: u64,
    /// Largest recorded workload sample.
    pub max: u32,
    /// Number of recorded workload samples, stopped at u64::MAX.
    pub frames: u64,
    /// Timestamp of the last workload report.
    pub last_print: u32,
    /// The workload samples recorded since the last report, each the raw
    /// elapsed time of one step in ms.
    pub samples: Seq<u32>,
}

/// An integer stopped at the largest u64.
pub open spec fn cap_u64(n: int) -> u64 {
    if n <= u64::MAX {
        n as u64
    } else {
        u64::MAX
    }
}

/// The sum of a sample sequence.
pub open spec fn sum_ms(s: Seq<u32>) -> int
    decreases s.len(),
{
    if s.len() == 0 {
        0
    } else {
        sum_ms(s.drop_last()) + s.last()
    }
}

/// The largest element of a sample sequence, 0 when empty.
pub open spec fn max_ms(s: Seq<u32>) -> u32
    decreases s.len(),
{
    if s.len() == 0 {
        0u32
    } else if s.last() >= max_ms(s.drop_last()) {
        s.last()
    } else {
        max_ms(s.drop_last())
    }
}

/// The workload accumulators are exactly the sum, maximum and count of the
/// recorded samples (sum and count stopped at the u64 range).
pub open spec fn clock_wf(c: ClockModel) -> bool {
    &&& c.sum == cap_u64(sum_ms(c.samples))
    &&& c.max == max_ms(c.samples)
    &&& c.frames == cap_u64(c.samples.len() as int)
}

/// The frame duration for a target frame rate: 1000 / fps, rounded to whole
/// milliseconds.
pub open spec fn frame_duration_ms(fps: u32) -> u32
    recommends
        1 <= fps,
{
    ((2000 + fps) / ((2 * fps) as int)) as u32
}

/// Elapsed ms between the last completed step and a measurement; a clock
/// that ran backwards reads as no time passed.
pub open spec fn step_dt(c: ClockModel, t: u32) -> u32 {
    if t >= c.last {
        (t - c.last) as u32
    } else {
        0u32
    }
}

/// Whether this poll records a workload sample (only the first measurement
/// of a step does).
pub open spec fn records_sample(c: ClockModel) -> bool {
    !c.mid
}

/// Whether this poll emits a workload report.
pub open spec fn report_due(c: ClockModel, t: u32) -> bool {
    records_sample(c) && t > c.last_print + WORKLOAD_REPORT_WINDOW_MS
}

/// The clock state after recording this poll's workload sample, if any.
pub open spec fn sampled_model(c: ClockModel, t: u32) -> ClockModel {
    if records_sample(c) {
        ClockModel {
            sum: cap_u64(sum_ms(c.samples) + step_dt(c, t)),
            max: if step_dt(c, t) >= c.max {
                step_dt(c, t)
            } else {
                c.max
            },
            frames: cap_u64(c.samples.len() + 1int),
            samples: c.samples.push(step_dt(c, t)),
            ..c
        }
    } else {
        c
    }
}

/// The clock state after one poll at time `t`.
pub open spec fn step_model(c: ClockModel, t: u32) -> ClockModel {
    let c1 = sampled_model(c, t);
    let c2 = if report_due(c, t) {
        ClockModel {
            sum: 0,
            max: 0,
            frames: 0,
            samples: Seq::<u32>::empty(),
            last_print: t,
            ..c1
        }
    } else {
        c1
    };
    if step_dt(c, t) < c.dur {
        ClockModel { mid: true, ..c2 }
    } else {
        ClockModel { mid: false, last: t, ..c2 }
    }
}

/// What a poll at time `t` asks of the driver.
pub open spec fn step_action(c: ClockModel, t: u32) -> StepAction {
    if step_dt(c, t) < c.dur {
        StepAction::Sleep((c.dur - step_dt(c, t)) as u32)
    } else {
        StepAction::Tick(step_dt(c, t))
    }
}

/// The report a poll at time `t` emits, if one is due.
pub open spec fn step_report(c: ClockModel, t: u32) -> Option<WorkloadReport> {
    if report_due(c, t) {
        let c1 = sampled_model(c, t);
        Some(WorkloadReport { work_sum_ms: c1.sum, work_max_ms: c1.max, frames: c1.frames })
    } else {
        None
    }
}

/// Law: a completed pacing step never yields an elapsed time below the
/// configured frame duration, and no step ever changes the frame duration.
pub proof fn lemma_pace_floor(c: ClockModel, t: u32)
    ensures
        step_action(c, t) matches StepAction::Tick(e) ==> e >= c.dur,
        step_model(c, t).dur == c.dur,
{
}

/// Law: while the accumulators are within the u64 range they hold exactly
/// the sum and count of the recorded samples, so the workload average over
/// `N` recorded steps is `sum(dt_i) / (N * frame_duration)` exactly.
pub proof fn lemma_workload_average(c: ClockModel)
    requires
        clock_wf(c),
        sum_ms(c.samples) <= u64::MAX,
        c.samples.len() <= u64::MAX,
    ensures
        c.sum == sum_ms(c.samples),
        c.frames == c.samples.len(),
        c.max == max_ms(c.samples),
{
    lemma_sum_nonneg(c.samples);
}

proof fn lemma_sum_nonneg(s: Seq<u32>)
    ensures
        sum_ms(s) >= 0,
    decreases s.len(),
{
    if s.len() > 0 {
        lemma_sum_nonneg(s.drop_last());
    }
}

proof fn lemma_sum_push(s: Seq<u32>, x: u32)
    ensures
        sum_ms(s.push(x)) == sum_ms(s) + x,
        max_ms(s.push(x)) == if x >= max_ms(s) {
            x
        } else {
            max_ms(s)
        },
        sum_ms(s) >= 0,
{
    assert(s.push(x).drop_last() =~= s);
    lemma_sum_nonneg(s);
}

/// What one poll of the pacing clock asks of the driver.
#[derive(Clone, Copy, Debug, PartialEq, Eq, Structural)]
pub enum StepAction {
    /// The frame budget is not spent: sleep this many ms and poll again.
    Sleep(u32),
    /// The step is complete; this much time elapsed, in ms.
    Tick(u32),
}

/// Periodic workload diagnostics: purely informational, never affecting
/// pacing. The average utilization of the frame budget over the window is
/// `work_sum_ms / (frames * frame_duration)`, the peak `work_max_ms /
/// frame_duration`.
#[derive(Clone, Copy, Debug, PartialEq, Eq, Structural)]
pub struct WorkloadReport {
    pub work_sum_ms: u64,
    pub work_max_ms: u32,
    pub frames: u64,
}

/// The outcome of one poll.
#[derive(Clone, Copy, Debug, PartialEq, Eq, Structural)]
pub struct StepPoll {
    pub action: StepAction,
    pub report: Option<WorkloadReport>,
}

/// Wall-clock frame pacing and workload diagnostics.
pub struct AppClock {
    last_ticks: u32,
    frame_dur_millis: u32,
    mid_step: bool,
    work_load_sum_ms: u64,
    work_load_max_ms: u32,
    work_load_frames: u64,
    last_print_workload_ticks: u32,
    samples: Ghost<Seq<u32>>,
}

impl View for AppClock {
    type V = ClockModel;

    closed spec fn view(&self) -> ClockModel {
        ClockModel {
            last: self.last_ticks,
            dur: self.frame_dur_millis,
            mid: self.mid_step,
            sum: self.work_load_sum_ms,
            max: self.work_load_max_ms,
            frames: self.work_load_frames,
            last_print: self.last_print_workload_ticks,
            samples: self.samples@,
        }
    }
}

impl AppClock {
    /// A clock started at `start` for the given target frame rate; the frame
    /// duration is fixed here once and never changes. Workload reports can
    /// be disabled outright.
    pub fn new(start: Milliseconds, target_fps: u32, print_workload_info: bool) -> (r: AppClock)
        requires
            1 <= target_fps,
            2 * target_fps <= u32::MAX,
        ensures
            clock_wf(r@),
            r@ == (ClockModel {
                last: start@,
                dur: frame_duration_ms(target_fps),
                mid: false,
                sum: 0,
                max: 0,
                frames: 0,
                last_print: if print_workload_info {
                    1u32
                } else {
                    WORKLOAD_DISABLED_TICKS
                },
                samples: Seq::<u32>::empty(),
            }),
    {
        let frame_dur_millis = (2000 + target_fps) / (2 * target_fps);
        AppClock {
            last_ticks: start.value(),
            frame_dur_millis,
            mid_step: false,
            work_load_sum_ms: 0,
            work_load_max_ms: 0,
            work_load_frames: 0,
            last_print_workload_ticks: if print_workload_info {
                1
            } else {
                WORKLOAD_DISABLED_TICKS
            },
            samples: Ghost(Seq::empty()),
        }
    }

    /// The configured frame duration in ms.
    pub fn frame_duration(&self) -> (r: u32)
        ensures
            r == self@.dur,
    {
        self.frame_dur_millis
    }

    /// One poll of the pacing step at measured time `now`. The first poll of
    /// a step records a workload sample and may emit a report; while the
    /// frame budget is not spent the driver is asked to sleep; once it is,
    /// the step completes with the measured elapsed time.
    pub fn step(&mut self, now: Milliseconds) -> (r: StepPoll)
        requires
            clock_wf(old(self)@),
        ensures
            clock_wf(final(self)@),
            final(self)@ == step_model(old(self)@, now@),
            r.action == step_action(old(self)@, now@),
            r.report == step_report(old(self)@, now@),
            r.action matches StepAction::Tick(e) ==> e >= old(self)@.dur,
    {
        let t = now.value();
        let dt: u32 = if t >= self.last_ticks {
            t - self.last_ticks
        } else {
            0
        };
        let mut report: Option<WorkloadReport> = None;
        if !self.mid_step {
            proof {
                lemma_sum_push(self.samples@, dt);
            }
            self.work_load_sum_ms = if (dt as u64) <= u64::MAX - self.work_load_sum_ms {
                self.work_load_sum_ms + (dt as u64)
            } else {
                u64::MAX
            };
            if dt >= self.work_load_max_ms {
                self.work_load_max_ms = dt;
            }
            self.work_load_frames = if self.work_load_frames < u64::MAX {
                self.work_load_frames + 1
            } else {
                u64::MAX
            };
            self.samples = Ghost(self.samples@.push(dt));
            if (t as u64) > (self.last_print_workload_ticks as u64) + (
            WORKLOAD_REPORT_WINDOW_MS as u64) {
                report = Some(
                    WorkloadReport {
                        work_sum_ms: self.work_load_sum_ms,
                        work_max_ms: self.work_load_max_ms,
                        frames: self.work_load_frames,
                    },
                );
                self.work_load_sum_ms = 0;
                self.work_load_max_ms = 0;
                self.work_load_frames = 0;
                self.samples = Ghost(Seq::empty());
                self.last_print_workload_ticks = t;
            }
        }
        let action = if dt < self.frame_dur_millis {
            self.mid_step = true;
            StepAction::Sleep(self.frame_dur_millis - dt)
        } else {
            self.mid_step = false;
            self.last_ticks = t;
            StepAction::Tick(dt)
        };
        proof {
            lemma_sum_nonneg(old(self)@.samples);
            assert(self@ =~= step_model(old(self)@, now@));
        }
        StepPoll { action, report }
    }
}

} // verus!
