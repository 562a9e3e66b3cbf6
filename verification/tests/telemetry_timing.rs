use render_lifecycle::lifecycle::FrameOutcome;
use render_lifecycle::lifecycle::GpuAcquisition;
use render_lifecycle::lifecycle::LifecycleController;
use render_lifecycle::telemetry::Report;
use render_lifecycle::telemetry::Telemetry;

fn activated_at(start_ms: u64) -> LifecycleController {
    let mut c = LifecycleController::new(start_ms);
    c.on_activated(GpuAcquisition::Ready { width: 800, height: 600, formats: vec![0] })
        .unwrap();
    c
}

fn report_of(out: FrameOutcome) -> Option<Report> {
    match out {
        FrameOutcome::Presented { report } => report,
        _ => panic!("frame was not presented"),
    }
}

#[test]
fn no_report_just_before_the_interval() {
    let mut c = activated_at(0);
    let out = c.on_redraw_requested(true, 9_999);
    assert_eq!(report_of(out), None);
}

#[test]
fn first_report_exactly_at_the_interval() {
    let mut c = activated_at(0);
    let out = c.on_redraw_requested(true, 10_000);
    assert_eq!(
        report_of(out),
        Some(Report { elapsed_seconds: 10, frame_count: 1 })
    );
}

#[test]
fn at_most_one_report_per_interval() {
    let mut c = activated_at(0);
    assert!(report_of(c.on_redraw_requested(true, 10_000)).is_some());
    assert_eq!(report_of(c.on_redraw_requested(true, 10_001)), None);
    assert_eq!(report_of(c.on_redraw_requested(true, 19_999)), None);
    let second = report_of(c.on_redraw_requested(true, 20_000));
    assert_eq!(
        second,
        Some(Report { elapsed_seconds: 20, frame_count: 4 })
    );
}

#[test]
fn the_interval_measures_from_the_start_time() {
    let mut c = activated_at(5_000);
    assert_eq!(report_of(c.on_redraw_requested(true, 14_999)), None);
    assert_eq!(
        report_of(c.on_redraw_requested(true, 15_000)),
        Some(Report { elapsed_seconds: 10, frame_count: 2 })
    );
}

#[test]
fn a_skipped_frame_emits_no_report() {
    let mut c = activated_at(0);
    let out = c.on_redraw_requested(false, 50_000);
    assert_eq!(out, FrameOutcome::Skipped);
    let out = c.on_redraw_requested(true, 50_001);
    assert_eq!(
        report_of(out),
        Some(Report { elapsed_seconds: 50, frame_count: 1 })
    );
}

#[test]
fn telemetry_counts_frames_one_by_one() {
    let mut t = Telemetry::new(100);
    assert_eq!(t.frame_count(), 0);
    t.record_frame();
    t.record_frame();
    t.record_frame();
    assert_eq!(t.frame_count(), 3);
}

#[test]
fn telemetry_reports_whole_elapsed_seconds() {
    let mut t = Telemetry::new(1_000);
    t.record_frame();
    assert_eq!(t.maybe_report(12_345), Some(Report { elapsed_seconds: 11, frame_count: 1 }));
    assert_eq!(t.maybe_report(22_344), None);
    assert_eq!(t.maybe_report(22_345), Some(Report { elapsed_seconds: 21, frame_count: 1 }));
}
