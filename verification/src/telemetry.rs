use vstd::prelude::*;

verus! {

/// Milliseconds that must elapse between two throughput reports.
pub const REPORT_INTERVAL_MS: u64 = 10_000;

/// One emitted throughput line: whole seconds elapsed since the run started,
/// and the cumulative number of presented frames.
#[derive(Clone, Copy, Debug, PartialEq, Eq, Structural)]
pub struct Report {
    pub elapsed_seconds: u64,
    pub frame_count: u64,
}

/// Mathematical state of the telemetry reporter. All times are read from the
/// host's monotonic clock, in milliseconds.
pub ghost struct TelemetryModel {
    pub start_ms: u64,
    pub frame_count: u64,
    pub last_report_ms: u64,
}

impl TelemetryModel {
    /// The run never reports before it starts: the last-report mark begins at
    /// the start time and only ever moves forward to a later clock reading.
    pub open spec fn wf(self) -> bool {
        self.start_ms <= self.last_report_ms
    }

    /// A report is owed at clock reading `now_ms` exactly when a full
    /// interval has passed since the last one (or since the start, before
    /// the first report).
    pub open spec fn report_due(self, now_ms: u64) -> bool {
        now_ms - self.last_report_ms >= REPORT_INTERVAL_MS
    }

    /// Whole seconds elapsed since the run started.
    pub open spec fn elapsed_seconds(self, now_ms: u64) -> int
        recommends
            self.start_ms <= now_ms,
    {
        (now_ms - self.start_ms) / 1000
    }

    /// The report emitted at clock reading `now_ms`.
    pub open spec fn report_at(self, now_ms: u64) -> Report
        recommends
            self.start_ms <= now_ms,
    {
        Report { elapsed_seconds: self.elapsed_seconds(now_ms) as u64, frame_count: self.frame_count }
    }

    /// State after one telemetry check at clock reading `now_ms`: the
    /// last-report mark moves to `now_ms` exactly when a report was owed.
    pub open spec fn tick_transition(self, now_ms: u64) -> TelemetryModel {
        if self.report_due(now_ms) {
            TelemetryModel { last_report_ms: now_ms, ..self }
        } else {
            self
        }
    }
}

/// Law: two consecutive reports are at least a full interval apart. If a
/// report is owed at `now1`, then after it is emitted a further report is
/// owed at `now2` only when `now2` lies a full interval past `now1`.
pub proof fn lemma_reports_one_interval_apart(t: TelemetryModel, now1: u64, now2: u64)
    requires
        t.report_due(now1),
        t.tick_transition(now1).report_due(now2),
    ensures
        now2 >= now1 + REPORT_INTERVAL_MS,
{
}

/// Law: no report is ever owed before a full interval has passed since the
/// run started, as long as none has been emitted yet.
pub proof fn lemma_no_early_first_report(t: TelemetryModel, now_ms: u64)
    requires
        t.last_report_ms == t.start_ms,
        t.report_due(now_ms),
    ensures
        now_ms >= t.start_ms + REPORT_INTERVAL_MS,
{
}

/// Frame-count and report-timing state of the run. The host reads its
/// monotonic clock and passes readings in as plain milliseconds.
pub struct Telemetry {
    start_ms: u64,
    frame_count: u64,
    last_report_ms: u64,
}

impl View for Telemetry {
    type V = TelemetryModel;

    closed spec fn view(&self) -> TelemetryModel {
        TelemetryModel {
            start_ms: self.start_ms,
            frame_count: self.frame_count,
            last_report_ms: self.last_report_ms,
        }
    }
}

impl Telemetry {
    /// Fresh state at clock reading `now_ms`: no frames yet, and the report
    /// timer measures from now.
    pub fn new(now_ms: u64) -> (t: Self)
        ensures
            t@ == (TelemetryModel { start_ms: now_ms, frame_count: 0, last_report_ms: now_ms }),
            t@.wf(),
    {
        Telemetry { start_ms: now_ms, frame_count: 0, last_report_ms: now_ms }
    }

    /// Cumulative number of successfully presented frames.
    pub fn frame_count(&self) -> (n: u64)
        ensures
            n == self@.frame_count,
    {
        self.frame_count
    }

    /// Count one successfully presented frame. Nothing else changes.
    pub fn record_frame(&mut self)
        requires
            old(self)@.frame_count < u64::MAX,
        ensures
            final(self)@ == (TelemetryModel {
                frame_count: (old(self)@.frame_count + 1) as u64,
                ..old(self)@
            }),
    {
        self.frame_count = self.frame_count + 1;
    }

    /// Check the report timer at clock reading `now_ms`. Emits the report
    /// and resets the timer exactly when a full interval has passed since
    /// the last report; otherwise nothing changes and nothing is emitted.
    pub fn maybe_report(&mut self, now_ms: u64) -> (r: Option<Report>)
        requires
            old(self)@.wf(),
        ensures
            final(self)@ == old(self)@.tick_transition(now_ms),
            final(self)@.wf(),
            r is Some <==> old(self)@.report_due(now_ms),
            old(self)@.report_due(now_ms) ==> r == Some(old(self)@.report_at(now_ms)),
    {
        if now_ms >= self.last_report_ms && now_ms - self.last_report_ms >= REPORT_INTERVAL_MS {
            let elapsed_seconds: u64 = (now_ms - self.start_ms) / 1000;
            self.last_report_ms = now_ms;
            Some(Report { elapsed_seconds, frame_count: self.frame_count })
        } else {
            None
        }
    }
}

} // verus!
