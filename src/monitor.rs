use vstd::prelude::*;

use crate::gate::{AlertGate, COOLDOWN_MS};
use crate::sample::{count_lost, lemma_count_lost_bound, Outcome, Sample};
use crate::window::{retained, SampleWindow};

verus! {

/// Latencies above this many milliseconds are reported.
pub const HIGH_LATENCY_MS: u32 = 100;

/// Loss percentages above this value are reported.
pub const LOSS_THRESHOLD_PCT: u32 = 10;

/// The loss rate is only judged once the window holds this many samples.
pub const MIN_SAMPLES_FOR_LOSS: usize = 10;

/// Figures for a packet-loss notification.
#[derive(Clone, Copy, Debug, PartialEq, Eq, Structural)]
pub struct LossReport {
    pub percentage: u32,
    pub lost: usize,
    pub total: usize,
}

/// The notifications one probe cycle calls for.
#[derive(Clone, Copy, Debug, PartialEq, Eq, Structural)]
pub struct Alerts {
    /// `Some(ms)`: notify a high latency of `ms` milliseconds.
    pub high_latency: Option<u32>,
    /// Notify that the probe failed.
    pub ping_error: bool,
    /// `Some(report)`: notify the loss rate over the window.
    pub packet_loss: Option<LossReport>,
}

/// `floor(lost * 100 / total)` of a window's contents.
pub open spec fn loss_pct(s: Seq<Sample>) -> int {
    (count_lost(s) * 100) as int / (s.len() as int)
}

/// The loss-rate condition: enough samples, and strictly more than the threshold lost.
pub open spec fn loss_condition(s: Seq<Sample>) -> bool {
    s.len() >= MIN_SAMPLES_FOR_LOSS && loss_pct(s) > LOSS_THRESHOLD_PCT
}

/// The latency condition on one outcome.
pub open spec fn latency_condition(o: Outcome) -> bool {
    o matches Outcome::Latency(ms) && ms > HIGH_LATENCY_MS
}

/// The figures reported for a window's contents.
pub open spec fn loss_report_of(s: Seq<Sample>) -> LossReport {
    LossReport {
        percentage: loss_pct(s) as u32,
        lost: count_lost(s) as usize,
        total: s.len() as usize,
    }
}

/// The window and the three independent gates (latency, error, loss) of one
/// monitored destination.
pub struct Monitor {
    window: SampleWindow,
    latency_gate: AlertGate,
    error_gate: AlertGate,
    loss_gate: AlertGate,
}

impl Monitor {
    pub closed spec fn window_spec(&self) -> SampleWindow {
        self.window
    }

    pub closed spec fn latency_gate_spec(&self) -> AlertGate {
        self.latency_gate
    }

    pub closed spec fn error_gate_spec(&self) -> AlertGate {
        self.error_gate
    }

    pub closed spec fn loss_gate_spec(&self) -> AlertGate {
        self.loss_gate
    }

    pub open spec fn wf(&self) -> bool {
        self.window_spec().wf()
    }

    /// Whether a cycle at `now` can be taken: time does not run backwards, and the
    /// counters and instants involved fit their machine types.
    pub open spec fn can_step_at(&self, now: int) -> bool {
        let s = self.window_spec()@;
        &&& s.len() < usize::MAX
        &&& s.len() > 0 ==> s.last().timestamp <= now
        &&& now + COOLDOWN_MS <= u64::MAX
    }

    /// A monitor started at `start`: empty window, every gate eligible from `start`.
    pub fn new(start: u64) -> (m: Self)
        ensures
            m.wf(),
            m.window_spec()@ == Seq::<Sample>::empty(),
            m.latency_gate_spec()@ == start,
            m.error_gate_spec()@ == start,
            m.loss_gate_spec()@ == start,
    {
        Monitor {
            window: SampleWindow::new(),
            latency_gate: AlertGate::new(start),
            error_gate: AlertGate::new(start),
            loss_gate: AlertGate::new(start),
        }
    }

    /// The window of recent samples.
    pub fn window(&self) -> (r: &SampleWindow)
        ensures
            *r == self.window_spec(),
    {
        &self.window
    }

    /// The latency condition's gate.
    pub fn latency_gate(&self) -> (r: &AlertGate)
        ensures
            *r == self.latency_gate_spec(),
    {
        &self.latency_gate
    }

    /// The error condition's gate.
    pub fn error_gate(&self) -> (r: &AlertGate)
        ensures
            *r == self.error_gate_spec(),
    {
        &self.error_gate
    }

    /// The loss-rate condition's gate.
    pub fn loss_gate(&self) -> (r: &AlertGate)
        ensures
            *r == self.loss_gate_spec(),
    {
        &self.loss_gate
    }

    /// Tells whether `step(now, _)` may be called.
    pub fn can_step(&self, now: u64) -> (r: bool)
        requires
            self.wf(),
        ensures
            r == self.can_step_at(now as int),
    {
        let n = self.window.size();
        if n == usize::MAX {
            return false;
        }
        if n > 0 {
            let last = self.window.get(n - 1);
            if last.timestamp > now {
                return false;
            }
        }
        now <= u64::MAX - COOLDOWN_MS
    }

    /// One probe cycle: records the outcome of the probe that completed at `now`,
    /// then decides which notifications are due and starts their cooldowns.
    pub fn step(&mut self, now: u64, outcome: Outcome) -> (r: Alerts)
        requires
            old(self).wf(),
            old(self).can_step_at(now as int),
        ensures
            final(self).wf(),
            final(self).window_spec()@ == retained(
                old(self).window_spec()@.push(Sample { timestamp: now, outcome }),
                now as int,
            ),
            0 < final(self).window_spec()@.len() <= old(self).window_spec()@.len() + 1,
            final(self).window_spec()@.last() == (Sample { timestamp: now, outcome }),
            r.high_latency == (if latency_condition(outcome)
                && old(self).latency_gate_spec().eligible_at(now as int) {
                Some(outcome->Latency_0)
            } else {
                None
            }),
            r.ping_error == (outcome is Lost && old(self).error_gate_spec().eligible_at(
                now as int,
            )),
            r.packet_loss == (if loss_condition(final(self).window_spec()@)
                && old(self).loss_gate_spec().eligible_at(now as int) {
                Some(loss_report_of(final(self).window_spec()@))
            } else {
                None
            }),
            final(self).latency_gate_spec()@ == (if r.high_latency is Some {
                (now + COOLDOWN_MS) as u64
            } else {
                old(self).latency_gate_spec()@
            }),
            final(self).error_gate_spec()@ == (if r.ping_error {
                (now + COOLDOWN_MS) as u64
            } else {
                old(self).error_gate_spec()@
            }),
            final(self).loss_gate_spec()@ == (if r.packet_loss is Some {
                (now + COOLDOWN_MS) as u64
            } else {
                old(self).loss_gate_spec()@
            }),
            !(r.high_latency is Some && r.ping_error),
    {
        self.window.insert(Sample { timestamp: now, outcome });

        let mut high_latency: Option<u32> = None;
        let mut ping_error = false;
        match outcome {
            Outcome::Latency(ms) => {
                if ms > HIGH_LATENCY_MS && self.latency_gate.is_eligible(now) {
                    self.latency_gate.fire(now);
                    high_latency = Some(ms);
                }
            },
            Outcome::Lost => {
                if self.error_gate.is_eligible(now) {
                    self.error_gate.fire(now);
                    ping_error = true;
                }
            },
        }

        let mut packet_loss: Option<LossReport> = None;
        let total = self.window.size();
        if total >= MIN_SAMPLES_FOR_LOSS {
            let percentage = self.window.loss_percentage();
            if percentage > LOSS_THRESHOLD_PCT && self.loss_gate.is_eligible(now) {
                self.loss_gate.fire(now);
                let lost = self.window.loss_count();
                proof {
                    lemma_count_lost_bound(self.window@);
                }
                packet_loss = Some(LossReport { percentage, lost, total });
            }
        }
        Alerts { high_latency, ping_error, packet_loss }
    }
}

} // verus!
