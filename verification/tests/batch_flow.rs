//! Tests of the progress-reporting protocol and the batch orchestrator:
//! counter accounting, deletion decisions, printed lines, and the guarantee
//! that a stopped ticker records nothing.

use mov2mp4::batch::BatchRun;
use mov2mp4::encoder::ConversionOutcome;
use mov2mp4::progress::Reporter;

fn success() -> ConversionOutcome {
    ConversionOutcome::Success
}

fn failure(diagnostic: &str) -> ConversionOutcome {
    ConversionOutcome::Failure(diagnostic.to_string())
}

#[test]
fn summary_counters_partition_the_total() {
    let mut run = BatchRun::new(3, false);
    run.begin_job("a.mov");
    run.settle_job(&success(), "a.mov");
    run.begin_job("b.mov");
    run.settle_job(&failure("bad codec"), "b.mov");
    run.begin_job("c.mov");
    run.settle_job(&success(), "c.mov");
    let s = run.summary();
    assert_eq!(s.total, 3);
    assert_eq!(s.succeeded, 2);
    assert_eq!(s.failed, 1);
    assert_eq!(s.succeeded + s.failed, s.total);
}

#[test]
fn deletion_decided_only_on_success_with_policy_enabled() {
    let mut run = BatchRun::new(2, true);
    run.begin_job("a.mov");
    assert!(run.settle_job(&success(), "a.mov"));
    run.begin_job("b.mov");
    assert!(!run.settle_job(&failure("bad codec"), "b.mov"));
}

#[test]
fn deletion_never_decided_with_policy_disabled() {
    let mut run = BatchRun::new(2, false);
    run.begin_job("a.mov");
    assert!(!run.settle_job(&success(), "a.mov"));
    run.begin_job("b.mov");
    assert!(!run.settle_job(&failure("oops"), "b.mov"));
}

#[test]
fn zero_jobs_complete_with_empty_summary_and_no_side_effects() {
    let run = BatchRun::new(0, true);
    let s = run.summary();
    assert_eq!(s.total, 0);
    assert_eq!(s.succeeded, 0);
    assert_eq!(s.failed, 0);
    assert!(run.reporter.lines.is_empty());
    assert!(run.reporter.ticks.is_empty());
}

#[test]
fn outcome_lines_report_each_job() {
    let mut run = BatchRun::new(2, false);
    run.begin_job("good.mov");
    run.settle_job(&success(), "good.mov");
    run.begin_job("bad.mov");
    run.settle_job(&failure("bad codec"), "bad.mov");
    assert_eq!(run.reporter.lines.len(), 2);
    assert_eq!(run.reporter.lines[0], "\u{2713} Successfully converted: good.mov");
    assert_eq!(run.reporter.lines[1], "\u{2717} Failed to convert bad.mov: bad codec");
}

#[test]
fn begin_job_sets_the_converting_message() {
    let mut run = BatchRun::new(1, false);
    run.begin_job("clip.mov");
    assert_eq!(run.reporter.message, "Converting: clip.mov");
    assert!(run.reporter.ticking);
}

#[test]
fn ticks_record_the_current_message_while_ticking() {
    let mut r = Reporter::begin(2);
    r.set_message("Converting: a.mov");
    r.start_ticking();
    r.tick();
    r.tick();
    assert_eq!(r.ticks, vec!["Converting: a.mov".to_string(); 2]);
}

#[test]
fn stopped_ticker_records_nothing() {
    let mut r = Reporter::begin(2);
    r.set_message("Converting: a.mov");
    r.start_ticking();
    r.tick();
    r.stop_ticking();
    r.tick();
    r.tick();
    assert_eq!(r.ticks.len(), 1);
    r.set_message("Converting: b.mov");
    r.tick();
    assert_eq!(r.ticks.len(), 1);
    r.start_ticking();
    r.tick();
    assert_eq!(r.ticks, vec!["Converting: a.mov".to_string(), "Converting: b.mov".to_string()]);
}

#[test]
fn no_tick_carries_a_stale_message_across_jobs() {
    let mut run = BatchRun::new(2, false);
    run.begin_job("first.mov");
    run.reporter.tick();
    run.settle_job(&success(), "first.mov");
    // Between settlement and the next job's message, tick attempts fire into
    // a stopped ticker and must record nothing.
    run.reporter.tick();
    run.reporter.tick();
    assert_eq!(run.reporter.ticks, vec!["Converting: first.mov".to_string()]);
    run.begin_job("second.mov");
    run.reporter.tick();
    assert_eq!(
        run.reporter.ticks,
        vec!["Converting: first.mov".to_string(), "Converting: second.mov".to_string()]
    );
}

#[test]
fn advance_tracks_settled_jobs() {
    let mut run = BatchRun::new(2, false);
    assert_eq!(run.reporter.position, 0);
    run.begin_job("a.mov");
    run.settle_job(&success(), "a.mov");
    assert_eq!(run.reporter.position, 1);
    run.begin_job("b.mov");
    run.settle_job(&failure("x"), "b.mov");
    assert_eq!(run.reporter.position, 2);
}

#[test]
fn finish_sets_the_closing_message() {
    let mut run = BatchRun::new(1, false);
    run.begin_job("a.mov");
    run.settle_job(&success(), "a.mov");
    run.finish("Conversion complete");
    assert_eq!(run.reporter.message, "Conversion complete");
    assert!(run.reporter.finished);
}

#[test]
fn reporter_println_collects_lines_in_order() {
    let mut r = Reporter::begin(1);
    r.println("one");
    r.println("two");
    assert_eq!(r.lines, vec!["one".to_string(), "two".to_string()]);
}
