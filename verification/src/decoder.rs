//! The debounced edge-timing state machine: raw level transitions in,
//! clean duration measurements, classifications and deduplicated status
//! reports out.

use vstd::prelude::*;
use crate::classify::{
    get_status_from_beep_durations, spec_classify, BEEP_BOUNCE_MAX_DURATION_MS,
    INTER_BEEP_BOUNCE_MAX_DURATION_MS, MAX_ENTRIES, TIMEOUT_DURATION_MS, ZERO_DURATION_MS,
};
use crate::status::Status;

verus! {

/// The electrical level of the alarm line after a transition. The line is
/// active-low: `Low` means the alarm is sounding (a beep is in progress),
/// `High` means silence. An edge to `Low` therefore starts a beep and ends a
/// gap; an edge to `High` ends a beep and starts a gap.
#[derive(Clone, Copy, Debug, PartialEq, Eq, Structural)]
pub enum Level {
    High,
    Low,
}

/// The mathematical model of a [`Decoder`]: the two bounded measurement
/// histories (most recent last), the two pending phase markers, and the last
/// status handed to the sink.
#[verifier::ext_equal]
pub ghost struct DecoderModel {
    /// Committed beep durations in milliseconds, oldest first.
    pub beeps: Seq<u64>,
    /// Committed gap durations in milliseconds, oldest first.
    pub gaps: Seq<u64>,
    /// Timestamp at which the current beep began, when one is in progress.
    pub beep_start: Option<u64>,
    /// Timestamp at which the last beep ended, while the gap after it is
    /// still open.
    pub gap_end: Option<u64>,
    /// The status most recently emitted to the sink.
    pub last_reported: Option<Status>,
}

impl DecoderModel {
    /// Well-formedness: both histories are within capacity, at most one
    /// phase marker is pending, and once any measurement has been committed
    /// at least one marker is pending (only the freshly created decoder has
    /// neither).
    pub open spec fn wf(self) -> bool {
        &&& self.beeps.len() <= MAX_ENTRIES
        &&& self.gaps.len() <= MAX_ENTRIES
        &&& match (self.beep_start, self.gap_end) {
            (Some(_), Some(_)) => false,
            (None, None) => self.beeps.len() == 0 && self.gaps.len() == 0,
            _ => true,
        }
    }

    /// Whether a timestamp is admissible as "now": the clock is monotonic,
    /// so no pending marker may lie in the future.
    pub open spec fn time_ok(self, now_ms: u64) -> bool {
        &&& match self.beep_start {
            Some(t) => t <= now_ms,
            None => true,
        }
        &&& match self.gap_end {
            Some(t) => t <= now_ms,
            None => true,
        }
    }
}

/// A duration history after committing one measurement: the new entry goes
/// to the back, and the oldest entry is evicted when the capacity of
/// `MAX_ENTRIES` would be exceeded.
pub open spec fn spec_push_bounded(history: Seq<u64>, duration: u64) -> Seq<u64> {
    let grown = history.push(duration);
    if grown.len() > MAX_ENTRIES {
        grown.remove(0)
    } else {
        grown
    }
}

/// A duration history with its most recent entry retracted (unchanged when
/// empty). Used by the bounce-merge rule to drop a trailing entry that was
/// bracketed by bounce.
pub open spec fn spec_drop_last(history: Seq<u64>) -> Seq<u64> {
    if history.len() > 0 {
        history.drop_last()
    } else {
        history
    }
}

/// The report gate: `(new last reported, emission)`. A status equal to the
/// last reported one is swallowed; a different one is emitted and becomes
/// the last reported.
pub open spec fn spec_report(last: Option<Status>, new_status: Status) -> (Option<Status>, Option<
    Status,
>) {
    if last == Some(new_status) {
        (last, None)
    } else {
        (Some(new_status), Some(new_status))
    }
}

/// The decoder after a falling edge (line goes `Low`: a beep begins) at
/// `now_ms`. A pending beep start is kept (a re-trigger is ignored),
/// otherwise the beep start is set to now. A pending gap end, if any, is
/// resolved: a gap longer than the bounce limit is committed to the gap
/// history; a shorter one is bounce, and the most recent beep entry is
/// retracted along with it. Falling edges never emit a report.
pub open spec fn spec_falling_edge(m: DecoderModel, now_ms: u64) -> DecoderModel {
    let started = if m.beep_start is Some {
        m.beep_start
    } else {
        Some(now_ms)
    };
    match m.gap_end {
        None => DecoderModel { beep_start: started, gap_end: None, ..m },
        Some(gap_end) => {
            let gap = (now_ms - gap_end) as u64;
            if gap > INTER_BEEP_BOUNCE_MAX_DURATION_MS {
                DecoderModel {
                    gaps: spec_push_bounded(m.gaps, gap),
                    beep_start: started,
                    gap_end: None,
                    ..m
                }
            } else {
                DecoderModel {
                    beeps: spec_drop_last(m.beeps),
                    beep_start: started,
                    gap_end: None,
                    ..m
                }
            }
        },
    }
}

/// The decoder after a rising edge (line goes `High`: the beep ends) at
/// `now_ms`, with the report it emits. A pending gap end is kept (a
/// re-trigger is ignored), otherwise the gap end is set to now. A pending
/// beep start, if any, is resolved: a beep longer than the bounce limit is
/// committed to the beep history and, when a gap measurement is available,
/// the latest (beep, gap) pair is classified and passed through the report
/// gate; a shorter beep is bounce, and the most recent gap entry is
/// retracted along with it.
pub open spec fn spec_rising_edge(m: DecoderModel, now_ms: u64) -> (DecoderModel, Option<Status>) {
    let ended = if m.gap_end is Some {
        m.gap_end
    } else {
        Some(now_ms)
    };
    match m.beep_start {
        None => (DecoderModel { beep_start: None, gap_end: ended, ..m }, None),
        Some(beep_start) => {
            let beep = (now_ms - beep_start) as u64;
            if beep > BEEP_BOUNCE_MAX_DURATION_MS {
                if m.gaps.len() > 0 {
                    let decoded = spec_classify(beep as int, m.gaps.last() as int);
                    let gated = spec_report(m.last_reported, decoded);
                    (
                        DecoderModel {
                            beeps: spec_push_bounded(m.beeps, beep),
                            beep_start: None,
                            gap_end: ended,
                            last_reported: gated.0,
                            ..m
                        },
                        gated.1,
                    )
                } else {
                    (
                        DecoderModel {
                            beeps: spec_push_bounded(m.beeps, beep),
                            beep_start: None,
                            gap_end: ended,
                            ..m
                        },
                        None,
                    )
                }
            } else {
                (
                    DecoderModel {
                        gaps: spec_drop_last(m.gaps),
                        beep_start: None,
                        gap_end: ended,
                        ..m
                    },
                    None,
                )
            }
        },
    }
}

/// The decoder after one edge event, with the report it emits.
pub open spec fn spec_handle_edge(m: DecoderModel, level: Level, now_ms: u64) -> (
    DecoderModel,
    Option<Status>,
) {
    match level {
        Level::Low => (spec_falling_edge(m, now_ms), None),
        Level::High => spec_rising_edge(m, now_ms),
    }
}

/// The decoder after a timeout (no edge for `TIMEOUT_DURATION_MS`), with the
/// report it emits. While both histories hold a measurement, a stalled phase
/// is inferred from the pending marker — stuck in a beep classifies as
/// `(TIMEOUT_DURATION_MS, 0)`, stuck in a gap as `(0, TIMEOUT_DURATION_MS)`,
/// and the impossible both-or-neither case as `Unknown` — and the result is
/// passed through the report gate. With either history empty nothing
/// happens.
pub open spec fn spec_timeout_step(m: DecoderModel) -> (DecoderModel, Option<Status>) {
    if m.beeps.len() > 0 && m.gaps.len() > 0 {
        let decoded = match (m.beep_start, m.gap_end) {
            (Some(_), None) => spec_classify(TIMEOUT_DURATION_MS as int, ZERO_DURATION_MS as int),
            (None, Some(_)) => spec_classify(ZERO_DURATION_MS as int, TIMEOUT_DURATION_MS as int),
            _ => Status::Unknown,
        };
        let gated = spec_report(m.last_reported, decoded);
        (DecoderModel { last_reported: gated.0, ..m }, gated.1)
    } else {
        (m, None)
    }
}

/// Number of emissions the report gate lets through over `n` consecutive
/// reports of the same status, starting from `last` as the last reported
/// status.
pub open spec fn spec_report_count(last: Option<Status>, new_status: Status, n: nat) -> nat
    decreases n,
{
    if n == 0 {
        0
    } else {
        let gated = spec_report(last, new_status);
        (match gated.1 {
            Some(_) => 1nat,
            None => 0nat,
        }) + spec_report_count(gated.0, new_status, (n - 1) as nat)
    }
}

/// Report dedup: over any positive number of consecutive reports of one and
/// the same status, the sink sees exactly one emission — none at all when
/// that status was already the last reported one.
pub proof fn lemma_report_dedup(last: Option<Status>, new_status: Status, n: nat)
    requires
        n >= 1,
    ensures
        spec_report_count(last, new_status, n) == if last == Some(new_status) {
            0nat
        } else {
            1nat
        },
    decreases n,
{
    reveal_with_fuel(spec_report_count, 2);
    if n > 1 {
        lemma_report_dedup(Some(new_status), new_status, (n - 1) as nat);
    }
}

/// History bound: a well-formed decoder stays well-formed across every edge
/// and every timeout, so both histories never exceed `MAX_ENTRIES` entries
/// after any sequence of events; committing to a full history evicts the
/// oldest entry.
pub proof fn lemma_history_bound(m: DecoderModel, level: Level, now_ms: u64)
    requires
        m.wf(),
        m.time_ok(now_ms),
    ensures
        spec_handle_edge(m, level, now_ms).0.wf(),
        spec_handle_edge(m, level, now_ms).0.beeps.len() <= MAX_ENTRIES,
        spec_handle_edge(m, level, now_ms).0.gaps.len() <= MAX_ENTRIES,
        spec_timeout_step(m).0.wf(),
{
}

/// At a timeout with both histories non-empty, a well-formed decoder has
/// exactly one pending phase marker, so the timeout handler's fallback
/// `Unknown` branch — reserved for the logically impossible both-or-neither
/// case — is never taken on states this library produces.
pub proof fn lemma_timeout_marker_exclusive(m: DecoderModel)
    requires
        m.wf(),
        m.beeps.len() > 0,
        m.gaps.len() > 0,
    ensures
        (m.beep_start is Some && m.gap_end is None) || (m.beep_start is None
            && m.gap_end is Some),
        spec_timeout_step(m).0.last_reported == Some(
            if m.beep_start is Some {
                spec_classify(TIMEOUT_DURATION_MS as int, ZERO_DURATION_MS as int)
            } else {
                spec_classify(ZERO_DURATION_MS as int, TIMEOUT_DURATION_MS as int)
            },
        ),
{
}

/// Debounce idempotence: starting from a quiescent well-formed decoder, a
/// beep no longer than the bounce limit (`t0` to `t1`), immediately — within
/// the inter-beep bounce limit — followed by a longer beep (`t2` to `t3`),
/// leaves a single committed entry for the long beep. The bounce beep is
/// never recorded, the spurious gap around it is discarded, and the
/// unreliable trailing entries it bracketed are retracted.
pub proof fn lemma_debounce_merge(m: DecoderModel, t0: u64, t1: u64, t2: u64, t3: u64)
    requires
        m.wf(),
        m.beep_start is None,
        m.gap_end is None,
        t0 <= t1 && t1 - t0 <= BEEP_BOUNCE_MAX_DURATION_MS,
        t1 <= t2 && t2 - t1 <= INTER_BEEP_BOUNCE_MAX_DURATION_MS,
        t2 <= t3 && t3 - t2 > BEEP_BOUNCE_MAX_DURATION_MS,
    ensures
        ({
            let after_glitch = spec_rising_edge(spec_falling_edge(m, t0), t1).0;
            let settled = spec_rising_edge(spec_falling_edge(after_glitch, t2), t3).0;
            &&& spec_rising_edge(spec_falling_edge(m, t0), t1).1 is None
            &&& settled.beeps =~= spec_push_bounded(spec_drop_last(m.beeps), (t3 - t2) as u64)
            &&& settled.gaps =~= spec_drop_last(m.gaps)
            &&& settled.beeps.len() <= m.beeps.len() + 1
            &&& (m.beeps.len() == 0 ==> settled.beeps =~= seq![(t3 - t2) as u64])
        }),
{
    let m1 = spec_falling_edge(m, t0);
    let m2 = spec_rising_edge(m1, t1).0;
    let m3 = spec_falling_edge(m2, t2);
    let m4 = spec_rising_edge(m3, t3).0;
    assert(m1.beep_start == Some(t0) && m1.gap_end is None);
    assert(m2.beep_start is None && m2.gap_end == Some(t1));
    assert(m2.beeps == m.beeps && m2.gaps =~= spec_drop_last(m.gaps));
    assert(m3.beep_start == Some(t2) && m3.gap_end is None);
    assert(m3.beeps =~= spec_drop_last(m.beeps) && m3.gaps == m2.gaps);
    assert(m4.beeps =~= spec_push_bounded(spec_drop_last(m.beeps), (t3 - t2) as u64));
}

/// The beep-pattern decoder: consumes timestamped level transitions (and
/// timeouts) on the alarm line and produces deduplicated status reports.
/// All of its state is private; it is created empty by [`Decoder::new`] and
/// mutated only by the edge and timeout handlers, which keep it well-formed.
pub struct Decoder {
    beep_durations: Vec<u64>,
    gap_durations: Vec<u64>,
    current_beep_start: Option<u64>,
    pending_gap_end: Option<u64>,
    last_reported_status: Option<Status>,
}

impl View for Decoder {
    type V = DecoderModel;

    closed spec fn view(&self) -> DecoderModel {
        DecoderModel {
            beeps: self.beep_durations@,
            gaps: self.gap_durations@,
            beep_start: self.current_beep_start,
            gap_end: self.pending_gap_end,
            last_reported: self.last_reported_status,
        }
    }
}

impl Decoder {
    /// Creates a decoder with empty histories, no pending phase markers and
    /// no last reported status.
    pub fn new() -> (d: Decoder)
        ensures
            d@.beeps == Seq::<u64>::empty(),
            d@.gaps == Seq::<u64>::empty(),
            d@.beep_start is None,
            d@.gap_end is None,
            d@.last_reported is None,
            d@.wf(),
    {
        Decoder {
            beep_durations: Vec::new(),
            gap_durations: Vec::new(),
            current_beep_start: None,
            pending_gap_end: None,
            last_reported_status: None,
        }
    }

    /// Consumes one debounced edge event at monotonic timestamp `now_ms` and
    /// returns the status to report to the sink, when the event led to a
    /// classification that differs from the last reported status.
    pub fn handle_edge(&mut self, level: Level, now_ms: u64) -> (emitted: Option<Status>)
        requires
            old(self)@.wf(),
            old(self)@.time_ok(now_ms),
        ensures
            final(self)@ == spec_handle_edge(old(self)@, level, now_ms).0,
            emitted == spec_handle_edge(old(self)@, level, now_ms).1,
            final(self)@.wf(),
    {
        match level {
            Level::Low => {
                self.handle_falling_edge(now_ms);
                None
            },
            Level::High => self.handle_rising_edge(now_ms),
        }
    }

    /// A falling edge: the alarm line went `Low`, a beep begins and any open
    /// gap ends.
    fn handle_falling_edge(&mut self, now_ms: u64)
        requires
            old(self)@.wf(),
            old(self)@.time_ok(now_ms),
        ensures
            final(self)@ == spec_falling_edge(old(self)@, now_ms),
            final(self)@.wf(),
    {
        if self.current_beep_start.is_none() {
            self.current_beep_start = Some(now_ms);
        }
        match self.pending_gap_end {
            Some(gap_end) => {
                let gap = now_ms - gap_end;
                if gap > INTER_BEEP_BOUNCE_MAX_DURATION_MS {
                    self.gap_durations.push(gap);
                    if self.gap_durations.len() > MAX_ENTRIES {
                        self.gap_durations.remove(0);
                    }
                } else {
                    if self.beep_durations.len() > 0 {
                        let _ = self.beep_durations.pop();
                    }
                }
                self.pending_gap_end = None;
            },
            None => {},
        }
        proof {
            assert(self@ =~= spec_falling_edge(old(self)@, now_ms));
        }
    }

    /// A rising edge: the alarm line went `High`, the beep ends and a gap
    /// begins. Committing a beep triggers a classification when a gap
    /// measurement is available.
    fn handle_rising_edge(&mut self, now_ms: u64) -> (emitted: Option<Status>)
        requires
            old(self)@.wf(),
            old(self)@.time_ok(now_ms),
        ensures
            final(self)@ == spec_rising_edge(old(self)@, now_ms).0,
            emitted == spec_rising_edge(old(self)@, now_ms).1,
            final(self)@.wf(),
    {
        let mut emitted: Option<Status> = None;
        match self.current_beep_start {
            Some(beep_start) => {
                let beep = now_ms - beep_start;
                if beep > BEEP_BOUNCE_MAX_DURATION_MS {
                    self.beep_durations.push(beep);
                    if self.beep_durations.len() > MAX_ENTRIES {
                        self.beep_durations.remove(0);
                    }
                    if self.gap_durations.len() > 0 {
                        let last_gap = self.gap_durations[self.gap_durations.len() - 1];
                        let decoded = get_status_from_beep_durations(beep, last_gap);
                        emitted = self.update_and_report_status(decoded);
                    }
                } else {
                    if self.gap_durations.len() > 0 {
                        let _ = self.gap_durations.pop();
                    }
                }
                self.current_beep_start = None;
            },
            None => {},
        }
        if self.pending_gap_end.is_none() {
            self.pending_gap_end = Some(now_ms);
        }
        proof {
            assert(self@ =~= spec_rising_edge(old(self)@, now_ms).0);
        }
        emitted
    }

    /// Consumes a timeout — no edge was observed for `TIMEOUT_DURATION_MS` —
    /// and returns the status to report to the sink, when a stalled phase
    /// was inferred and its classification differs from the last reported
    /// status.
    pub fn handle_timeout(&mut self) -> (emitted: Option<Status>)
        requires
            old(self)@.wf(),
        ensures
            final(self)@ == spec_timeout_step(old(self)@).0,
            emitted == spec_timeout_step(old(self)@).1,
            final(self)@.wf(),
    {
        if self.beep_durations.len() > 0 && self.gap_durations.len() > 0 {
            let decoded = if self.current_beep_start.is_some() && self.pending_gap_end.is_none() {
                get_status_from_beep_durations(TIMEOUT_DURATION_MS, ZERO_DURATION_MS)
            } else if self.current_beep_start.is_none() && self.pending_gap_end.is_some() {
                get_status_from_beep_durations(ZERO_DURATION_MS, TIMEOUT_DURATION_MS)
            } else {
                Status::Unknown
            };
            let emitted = self.update_and_report_status(decoded);
            proof {
                assert(self@ =~= spec_timeout_step(old(self)@).0);
            }
            emitted
        } else {
            proof {
                assert(self@ =~= spec_timeout_step(old(self)@).0);
            }
            None
        }
    }

    /// Passes a freshly decoded status through the report gate: it is
    /// returned for emission only when it differs from the last reported
    /// status, and then becomes the last reported status. Histories and
    /// pending markers are untouched.
    pub fn update_and_report_status(&mut self, new_status: Status) -> (emitted: Option<Status>)
        ensures
            final(self)@.last_reported == spec_report(old(self)@.last_reported, new_status).0,
            emitted == spec_report(old(self)@.last_reported, new_status).1,
            final(self)@.beeps == old(self)@.beeps,
            final(self)@.gaps == old(self)@.gaps,
            final(self)@.beep_start == old(self)@.beep_start,
            final(self)@.gap_end == old(self)@.gap_end,
    {
        let already_reported = match self.last_reported_status {
            Some(last) => last == new_status,
            None => false,
        };
        if already_reported {
            None
        } else {
            self.last_reported_status = Some(new_status);
            Some(new_status)
        }
    }

    /// Returns the number of beep durations currently in the history.
    pub fn beep_history_len(&self) -> (n: usize)
        ensures
            n == self@.beeps.len(),
    {
        self.beep_durations.len()
    }

    /// Returns the number of gap durations currently in the history.
    pub fn gap_history_len(&self) -> (n: usize)
        ensures
            n == self@.gaps.len(),
    {
        self.gap_durations.len()
    }

    /// Returns the most recent committed beep duration, when there is one.
    pub fn last_beep_duration(&self) -> (r: Option<u64>)
        ensures
            r == (if self@.beeps.len() > 0 {
                Some(self@.beeps.last())
            } else {
                None::<u64>
            }),
    {
        if self.beep_durations.len() > 0 {
            Some(self.beep_durations[self.beep_durations.len() - 1])
        } else {
            None
        }
    }

    /// Returns the most recent committed gap duration, when there is one.
    pub fn last_gap_duration(&self) -> (r: Option<u64>)
        ensures
            r == (if self@.gaps.len() > 0 {
                Some(self@.gaps.last())
            } else {
                None::<u64>
            }),
    {
        if self.gap_durations.len() > 0 {
            Some(self.gap_durations[self.gap_durations.len() - 1])
        } else {
            None
        }
    }

    /// Returns the status most recently emitted to the sink, when any.
    pub fn last_reported(&self) -> (r: Option<Status>)
        ensures
            r == self@.last_reported,
    {
        self.last_reported_status
    }

    /// Returns whether the decoder is well-formed. It always is when it came
    /// from [`Decoder::new`] and was mutated only by this library, so an
    /// unverified caller may use this to check the handlers' precondition.
    pub fn is_well_formed(&self) -> (r: bool)
        ensures
            r == self@.wf(),
    {
        let markers_ok = match (self.current_beep_start, self.pending_gap_end) {
            (Some(_), Some(_)) => false,
            (None, None) => self.beep_durations.len() == 0 && self.gap_durations.len() == 0,
            _ => true,
        };
        self.beep_durations.len() <= MAX_ENTRIES && self.gap_durations.len() <= MAX_ENTRIES
            && markers_ok
    }

    /// Returns whether `now_ms` is admissible as the timestamp of the next
    /// edge: no pending marker lies in its future. Any timestamp from a
    /// monotonic clock is, since the markers hold earlier timestamps from
    /// the same clock.
    pub fn accepts_time(&self, now_ms: u64) -> (r: bool)
        ensures
            r == self@.time_ok(now_ms),
    {
        let beep_ok = match self.current_beep_start {
            Some(t) => t <= now_ms,
            None => true,
        };
        let gap_ok = match self.pending_gap_end {
            Some(t) => t <= now_ms,
            None => true,
        };
        beep_ok && gap_ok
    }
}

} // verus!
