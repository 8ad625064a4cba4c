use nuuro::app_clock::{AppClock, StepAction};
use nuuro::units::Milliseconds;

fn ms(v: u32) -> Milliseconds {
    Milliseconds::new(v)
}

#[test]
fn frame_duration_is_rounded_to_whole_milliseconds() {
    assert_eq!(AppClock::new(ms(0), 60, false).frame_duration(), 17);
    assert_eq!(AppClock::new(ms(0), 30, false).frame_duration(), 33);
    assert_eq!(AppClock::new(ms(0), 15, false).frame_duration(), 67);
    assert_eq!(AppClock::new(ms(0), 1000, false).frame_duration(), 1);
    assert_eq!(AppClock::new(ms(0), 1, false).frame_duration(), 1000);
}

#[test]
fn pacing_sleeps_until_the_budget_is_spent() {
    let mut clock = AppClock::new(ms(0), 60, false);
    assert_eq!(clock.step(ms(5)).action, StepAction::Sleep(12));
    assert_eq!(clock.step(ms(10)).action, StepAction::Sleep(7));
    assert_eq!(clock.step(ms(17)).action, StepAction::Tick(17));
    assert_eq!(clock.step(ms(20)).action, StepAction::Sleep(14));
    assert_eq!(clock.step(ms(40)).action, StepAction::Tick(23));
}

#[test]
fn elapsed_is_never_below_the_frame_duration() {
    let mut clock = AppClock::new(ms(0), 60, false);
    let mut t: u32 = 0;
    for _ in 0..200 {
        // polls come in fast, 3 ms apart
        t += 3;
        if let StepAction::Tick(elapsed) = clock.step(ms(t)).action {
            assert!(elapsed >= 17);
        }
    }
}

#[test]
fn backwards_clock_reads_as_no_elapsed_time() {
    let mut clock = AppClock::new(ms(100), 60, false);
    assert_eq!(clock.step(ms(40)).action, StepAction::Sleep(17));
}

#[test]
fn workload_report_sums_raw_step_times() {
    let mut clock = AppClock::new(ms(0), 60, true);
    let first = clock.step(ms(17));
    assert_eq!(first.action, StepAction::Tick(17));
    assert!(first.report.is_none());
    assert!(clock.step(ms(34)).report.is_none());
    let poll = clock.step(ms(3100));
    assert_eq!(poll.action, StepAction::Tick(3066));
    let report = poll.report.expect("a report is due after the window passed");
    // the average utilization is sum / (frames * frame_duration), exactly
    assert_eq!(report.work_sum_ms, 17 + 17 + 3066);
    assert_eq!(report.frames, 3);
    assert_eq!(report.work_max_ms, 3066);
    let average = report.work_sum_ms as f64 / (report.frames as f64 * 17.0);
    assert!((average - 3100.0 / 51.0).abs() < 1e-9);
}

#[test]
fn workload_accumulators_reset_after_a_report() {
    let mut clock = AppClock::new(ms(0), 60, true);
    assert!(clock.step(ms(3100)).report.is_some());
    // within the next window nothing is due
    assert!(clock.step(ms(3120)).report.is_none());
    // a full window later the fresh accumulators hold only the new samples
    let poll = clock.step(ms(6200));
    let report = poll.report.expect("a report is due again");
    assert_eq!(report.frames, 2);
    assert_eq!(report.work_sum_ms, 20 + 3080);
}

#[test]
fn workload_reports_can_be_disabled() {
    let mut clock = AppClock::new(ms(0), 60, false);
    let mut t: u32 = 0;
    for _ in 0..100 {
        t += 50_000;
        assert!(clock.step(ms(t)).report.is_none());
    }
}

#[test]
fn only_the_first_poll_of_a_step_records_a_sample() {
    let mut clock = AppClock::new(ms(0), 60, true);
    // three polls of one slow-starting step, then completion past the window
    assert!(clock.step(ms(1)).report.is_none());
    assert!(clock.step(ms(5)).report.is_none());
    assert_eq!(clock.step(ms(17)).action, StepAction::Tick(17));
    let report = clock.step(ms(3200)).report.expect("report due");
    // two samples: the first poll of each step (dt 1 and dt 3183)
    assert_eq!(report.frames, 2);
    assert_eq!(report.work_sum_ms, 1 + 3183);
}

#[test]
fn milliseconds_duration_round_trip() {
    let value = Milliseconds::new(1500);
    let duration = value.to_duration();
    assert_eq!(duration, std::time::Duration::from_millis(1500));
    assert_eq!(Milliseconds::from_duration(duration).value(), 1500);
    assert_eq!(
        Milliseconds::from_duration(std::time::Duration::from_micros(2500)).value(),
        2
    );
}
