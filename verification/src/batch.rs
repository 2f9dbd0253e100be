//! The batch orchestrator: one state machine driven once per job.
//!
//! Each job goes `begin_job` (message set, ticking started) → blocking
//! encode outside the library → `settle_job` (ticking stopped, one counter
//! bumped, outcome line printed, position advanced, deletion decided). The
//! caller performs the encode and the decided deletion; the decisions and
//! the accounting are made here.

use vstd::prelude::*;
use vstd::string::StringExecFns;

use crate::encoder::ConversionOutcome;
use crate::progress::{Reporter, ReporterView};

verus! {

/// The counts reported when a run ends.
#[derive(Clone, Copy, PartialEq, Eq, Structural)]
pub struct BatchSummary {
    pub total: usize,
    pub succeeded: usize,
    pub failed: usize,
}

/// The orchestrator's state: the deletion policy, the two counters, and the
/// progress reporter.
pub struct BatchRun {
    pub delete_sources: bool,
    pub succeeded: usize,
    pub failed: usize,
    pub reporter: Reporter,
}

/// The mathematical value of a `BatchRun`.
pub struct BatchRunView {
    pub delete_sources: bool,
    pub succeeded: int,
    pub failed: int,
    pub reporter: ReporterView,
}

impl View for BatchRun {
    type V = BatchRunView;

    open spec fn view(&self) -> BatchRunView {
        BatchRunView {
            delete_sources: self.delete_sources,
            succeeded: self.succeeded as int,
            failed: self.failed as int,
            reporter: self.reporter@,
        }
    }
}

/// The message shown while a job converts.
pub open spec fn converting_message(display: Seq<char>) -> Seq<char> {
    "Converting: "@ + display
}

/// The line printed when a job succeeds.
pub open spec fn success_line(display: Seq<char>) -> Seq<char> {
    "✓ Successfully converted: "@ + display
}

/// The line printed when a job fails, carrying the encoder's diagnostic.
pub open spec fn failure_line(display: Seq<char>, diagnostic: Seq<char>) -> Seq<char> {
    "✗ Failed to convert "@ + display + ": "@ + diagnostic
}

/// Whether a settled job's source file is to be deleted: only a success,
/// and only under an enabled deletion policy.
pub open spec fn delete_decision(delete_sources: bool, success: bool) -> bool {
    success && delete_sources
}

/// What beginning a job does: the display message is set, then ticking
/// starts; counters and position are untouched.
pub open spec fn begin_spec(st: BatchRunView, display: Seq<char>) -> BatchRunView {
    BatchRunView {
        reporter: ReporterView {
            message: converting_message(display),
            ticking: true,
            ..st.reporter
        },
        ..st
    }
}

/// What settling a job does: ticking stops, exactly one counter grows by
/// one, the outcome line is printed, and the position advances by one.
pub open spec fn settle_spec(
    st: BatchRunView,
    success: bool,
    diagnostic: Seq<char>,
    display: Seq<char>,
) -> BatchRunView {
    let line = if success {
        success_line(display)
    } else {
        failure_line(display, diagnostic)
    };
    BatchRunView {
        succeeded: if success {
            st.succeeded + 1
        } else {
            st.succeeded
        },
        failed: if success {
            st.failed
        } else {
            st.failed + 1
        },
        reporter: ReporterView {
            ticking: false,
            position: st.reporter.position + 1,
            lines: st.reporter.lines.push(line),
            ..st.reporter
        },
        ..st
    }
}

/// One job's settled result, as the accounting sees it.
pub struct JobResultView {
    pub success: bool,
    pub diagnostic: Seq<char>,
    pub display: Seq<char>,
}

/// The state after settling a whole list of job results, in order.
pub open spec fn settle_all(st: BatchRunView, results: Seq<JobResultView>) -> BatchRunView
    decreases results.len(),
{
    if results.len() == 0 {
        st
    } else {
        let prev = settle_all(st, results.drop_last());
        let r = results.last();
        settle_spec(prev, r.success, r.diagnostic, r.display)
    }
}

/// Law: every settlement grows exactly one of the two counters by one, so
/// across any run the counters partition the settled jobs: after settling
/// all results from a fresh state, succeeded + failed equals the number of
/// jobs settled — no job is skipped or counted twice.
pub proof fn lemma_batch_accounting(st: BatchRunView, results: Seq<JobResultView>)
    ensures
        settle_all(st, results).succeeded + settle_all(st, results).failed == st.succeeded
            + st.failed + results.len(),
        settle_all(st, results).reporter.position == st.reporter.position + results.len(),
    decreases results.len(),
{
    if results.len() > 0 {
        lemma_batch_accounting(st, results.drop_last());
    }
}

/// Law: a failed job never has its source deleted, whatever the deletion
/// policy; a successful job has it deleted exactly when the policy is
/// enabled.
pub proof fn lemma_deletion_follows_policy(delete_sources: bool, success: bool)
    ensures
        !success ==> !delete_decision(delete_sources, success),
        success ==> delete_decision(delete_sources, success) == delete_sources,
{
}

/// Law: settling never leaves the ticker running, so between one job's
/// settlement and the next job's message no tick attempt records anything —
/// a tick never observes a stale message.
pub proof fn lemma_no_stale_ticks_between_jobs(
    st: BatchRunView,
    success: bool,
    diagnostic: Seq<char>,
    display: Seq<char>,
    n: nat,
)
    ensures
        crate::progress::ticks_after(settle_spec(st, success, diagnostic, display).reporter, n)
            == settle_spec(st, success, diagnostic, display).reporter,
{
    crate::progress::lemma_stopped_ticker_is_silent(
        settle_spec(st, success, diagnostic, display).reporter,
        n,
    );
}

impl BatchRun {
    /// Well-formedness: the counters partition the settled jobs, and no more
    /// jobs have settled than there are.
    pub open spec fn wf(&self) -> bool {
        &&& self@.succeeded + self@.failed == self@.reporter.position
        &&& self@.reporter.position <= self@.reporter.total
    }

    /// Starts a run of `total` jobs under the given deletion policy, with
    /// both counters at zero and the reporter fresh.
    pub fn new(total: usize, delete_sources: bool) -> (r: BatchRun)
        ensures
            r.wf(),
            r@.delete_sources == delete_sources,
            r@.succeeded == 0,
            r@.failed == 0,
            r@.reporter.position == 0,
            r@.reporter.total == total as int,
            !r@.reporter.ticking,
            r@.reporter.ticks == Seq::<Seq<char>>::empty(),
            r@.reporter.lines == Seq::<Seq<char>>::empty(),
    {
        BatchRun { delete_sources, succeeded: 0, failed: 0, reporter: Reporter::begin(total) }
    }

    /// Begins the next job: sets the display message, then starts ticking.
    pub fn begin_job(&mut self, display_name: &str)
        requires
            old(self).wf(),
            !old(self)@.reporter.ticking,
            old(self)@.reporter.position < old(self)@.reporter.total,
        ensures
            final(self)@ == begin_spec(old(self)@, display_name@),
            final(self).wf(),
    {
        let message = String::from_str("Converting: ").concat(display_name);
        self.reporter.set_message(message.as_str());
        self.reporter.start_ticking();
    }

    /// Settles the current job: stops ticking first, then counts the
    /// outcome, prints its line, advances the position, and returns whether
    /// the source file is to be deleted.
    pub fn settle_job(&mut self, outcome: &ConversionOutcome, display_name: &str) -> (delete: bool)
        requires
            old(self).wf(),
            old(self)@.reporter.position < old(self)@.reporter.total,
        ensures
            final(self)@ == settle_spec(
                old(self)@,
                outcome.is_success(),
                outcome.diagnostic(),
                display_name@,
            ),
            delete == delete_decision(old(self)@.delete_sources, outcome.is_success()),
            final(self).wf(),
    {
        self.reporter.stop_ticking();
        let success = outcome.succeeded();
        let line: String = match outcome {
            ConversionOutcome::Success => String::from_str("✓ Successfully converted: ").concat(
                display_name,
            ),
            ConversionOutcome::Failure(diagnostic) => String::from_str(
                "✗ Failed to convert ",
            ).concat(display_name).concat(": ").concat(diagnostic.as_str()),
        };
        self.reporter.println(line.as_str());
        if success {
            self.succeeded += 1;
        } else {
            self.failed += 1;
        }
        self.reporter.advance();
        success && self.delete_sources
    }

    /// Ends the run's reporting with a closing message.
    pub fn finish(&mut self, text: &str)
        requires
            !old(self)@.reporter.ticking,
        ensures
            final(self)@ == (BatchRunView {
                reporter: ReporterView {
                    message: text@,
                    finished: true,
                    ..old(self)@.reporter
                },
                ..old(self)@
            }),
            final(self).wf() == old(self).wf(),
    {
        self.reporter.finish(text);
    }

    /// The final summary: once every job has settled, the counters partition
    /// the total — succeeded + failed == total.
    pub fn summary(&self) -> (s: BatchSummary)
        requires
            self.wf(),
            self@.reporter.position == self@.reporter.total,
        ensures
            s.total as int == self@.reporter.total,
            s.succeeded as int == self@.succeeded,
            s.failed as int == self@.failed,
            s.succeeded + s.failed == s.total,
    {
        BatchSummary {
            total: self.reporter.total,
            succeeded: self.succeeded,
            failed: self.failed,
        }
    }
}

} // verus!
