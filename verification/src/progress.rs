//! The progress reporter's semantic state and its ticking protocol.
//!
//! The reporter owns a position, a total, and a status message. A background
//! ticker animates the display while an encode blocks; here a tick is an
//! observation that records the message current at tick time. A tick has an
//! effect only while ticking is on: once ticking is stopped, however many
//! tick attempts still fire, nothing is recorded, so no observation ever
//! carries a stale message. The terminal rendering that consumes these
//! events lives outside the library.

use vstd::prelude::*;
use vstd::string::StringExecFns;

verus! {

/// The visual progress state and its event logs: the messages observed at
/// tick time, and the lines printed around the bar.
pub struct Reporter {
    pub position: usize,
    pub total: usize,
    pub message: String,
    pub ticking: bool,
    pub finished: bool,
    pub ticks: Vec<String>,
    pub lines: Vec<String>,
}

/// The mathematical value of a `Reporter`.
pub struct ReporterView {
    pub position: int,
    pub total: int,
    pub message: Seq<char>,
    pub ticking: bool,
    pub finished: bool,
    pub ticks: Seq<Seq<char>>,
    pub lines: Seq<Seq<char>>,
}

impl View for Reporter {
    type V = ReporterView;

    open spec fn view(&self) -> ReporterView {
        ReporterView {
            position: self.position as int,
            total: self.total as int,
            message: self.message@,
            ticking: self.ticking,
            finished: self.finished,
            ticks: self.ticks@.map_values(|s: String| s@),
            lines: self.lines@.map_values(|s: String| s@),
        }
    }
}

/// What one tick attempt does: while ticking is on it records the current
/// message; once ticking is off it changes nothing.
pub open spec fn tick_spec(r: ReporterView) -> ReporterView {
    if r.ticking {
        ReporterView { ticks: r.ticks.push(r.message), ..r }
    } else {
        r
    }
}

/// The state after `n` tick attempts.
pub open spec fn ticks_after(r: ReporterView, n: nat) -> ReporterView
    decreases n,
{
    if n == 0 {
        r
    } else {
        tick_spec(ticks_after(r, (n - 1) as nat))
    }
}

/// Law: once ticking is stopped, any number of further tick attempts leaves
/// the reporter unchanged — in particular, none records the old message.
pub proof fn lemma_stopped_ticker_is_silent(r: ReporterView, n: nat)
    requires
        !r.ticking,
    ensures
        ticks_after(r, n) == r,
    decreases n,
{
    if n > 0 {
        lemma_stopped_ticker_is_silent(r, (n - 1) as nat);
    }
}

/// Law: every tick observes the message current at tick time: whatever the
/// state, a tick extends the observation log with the current message or
/// leaves the log as it is; it never records anything else.
pub proof fn lemma_tick_observes_current_message(r: ReporterView)
    ensures
        tick_spec(r).ticks == r.ticks || tick_spec(r).ticks == r.ticks.push(r.message),
        tick_spec(r).message == r.message,
        tick_spec(r).position == r.position,
{
}

impl Reporter {
    /// Well-formedness: the position never exceeds the total.
    pub open spec fn wf(&self) -> bool {
        self@.position <= self@.total
    }

    /// Begins reporting a batch of `total` jobs, at position zero, with no
    /// message, not ticking, and empty logs.
    pub fn begin(total: usize) -> (r: Reporter)
        ensures
            r.wf(),
            r@.position == 0,
            r@.total == total as int,
            r@.message == Seq::<char>::empty(),
            !r@.ticking,
            !r@.finished,
            r@.ticks == Seq::<Seq<char>>::empty(),
            r@.lines == Seq::<Seq<char>>::empty(),
    {
        let r = Reporter {
            position: 0,
            total,
            message: String::new(),
            ticking: false,
            finished: false,
            ticks: Vec::new(),
            lines: Vec::new(),
        };
        assert(r@.ticks =~= Seq::<Seq<char>>::empty());
        assert(r@.lines =~= Seq::<Seq<char>>::empty());
        r
    }

    /// Sets the status message; nothing else changes.
    pub fn set_message(&mut self, text: &str)
        ensures
            final(self)@ == (ReporterView { message: text@, ..old(self)@ }),
            final(self).wf() == old(self).wf(),
    {
        self.message = String::from_str(text);
    }

    /// Starts the ticking activity.
    pub fn start_ticking(&mut self)
        requires
            !old(self)@.ticking,
        ensures
            final(self)@ == (ReporterView { ticking: true, ..old(self)@ }),
            final(self).wf() == old(self).wf(),
    {
        self.ticking = true;
    }

    /// Stops the ticking activity: after this returns, tick attempts record
    /// nothing (see `lemma_stopped_ticker_is_silent`).
    pub fn stop_ticking(&mut self)
        ensures
            final(self)@ == (ReporterView { ticking: false, ..old(self)@ }),
            final(self).wf() == old(self).wf(),
    {
        self.ticking = false;
    }

    /// One tick attempt, as `tick_spec` describes: a visual refresh that
    /// records the current message while ticking is on, and does nothing
    /// once ticking is off.
    pub fn tick(&mut self)
        ensures
            final(self)@ == tick_spec(old(self)@),
            final(self).wf() == old(self).wf(),
    {
        if self.ticking {
            let observed = self.message.clone();
            self.ticks.push(observed);
            assert(self@.ticks =~= old(self)@.ticks.push(old(self)@.message));
        }
    }

    /// Advances the position by exactly one; it never exceeds the total.
    pub fn advance(&mut self)
        requires
            old(self)@.position < old(self)@.total,
        ensures
            final(self)@ == (ReporterView { position: old(self)@.position + 1, ..old(self)@ }),
            final(self).wf(),
    {
        self.position += 1;
    }

    /// Prints a line around the bar: the line is appended to the printed
    /// lines, and nothing else changes.
    pub fn println(&mut self, text: &str)
        ensures
            final(self)@ == (ReporterView { lines: old(self)@.lines.push(text@), ..old(self)@ }),
            final(self).wf() == old(self).wf(),
    {
        self.lines.push(String::from_str(text));
        assert(self@.lines =~= old(self)@.lines.push(text@));
    }

    /// Ends reporting with a closing message.
    pub fn finish(&mut self, text: &str)
        requires
            !old(self)@.ticking,
        ensures
            final(self)@ == (ReporterView {
                message: text@,
                finished: true,
                ..old(self)@
            }),
            final(self).wf() == old(self).wf(),
    {
        self.message = String::from_str(text);
        self.finished = true;
    }
}

} // verus!
